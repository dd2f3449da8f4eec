//! The editor and the value list of the settings, and what the settings show once
//! their requests have been carried out.

use vstd::prelude::*;
use vstd::string::*;

use crate::app::{in_mode, says, App, GitHubState, GitHubStatus, Nav, SettingsPicker, Toast};
use crate::board_state::{previous_place, step_up};
use crate::drafts::LaunchForm;
use crate::effects::{notice_is, AppError, Effect};
use crate::input_settings::{workflow_at, WorkflowEntry};
use crate::keys::{KeyCode, KeyModifiers};
use crate::settings::{
    accepted_setting, only_setting_changed, setting, settings_edit_target_label, settings_error,
    SettingsEditTarget,
};
use crate::text::{
    contains_text, decimal, format_number, format_signed, is_blank, lemma_found_beside, same,
    signed_decimal, trim, trimmed, views,
};
use crate::text_input::{after_edit, at_end};
use crate::views::{InputMode, ToastStyle};

verus! {

// ---------------------------------------------------------------------------
// The editor
// ---------------------------------------------------------------------------

/// A setting of the GitHub App.
pub open spec fn is_github_target(t: SettingsEditTarget) -> bool {
    t == SettingsEditTarget::ClientId || t == SettingsEditTarget::AppSlug || t
        == SettingsEditTarget::InstallUrl || t == SettingsEditTarget::RelayUrl || t
        == SettingsEditTarget::InstallationId
}

/// The editor is left.
pub open spec fn editor_closed(a: App) -> App {
    App { settings_edit: None, nav: Nav { input_mode: InputMode::Normal, ..a.nav }, ..a }
}

/// The selected workflow is given the name in the editor.
pub open spec fn renames(
    pre: App,
    workflows: Seq<WorkflowEntry>,
    post: App,
    e: Effect,
) -> bool {
    if is_blank(pre.input.text@) {
        e == Effect::Nothing && says(
            pre,
            post,
            "Workflow name cannot be empty"@,
            ToastStyle::Error,
        )
    } else {
        post == editor_closed(pre) && match workflow_at(
            workflows,
            pre.nav.settings_workflow_index,
        ) {
            Some(w) => if w.name@ == trimmed(pre.input.text@) {
                e == Effect::Nothing
            } else {
                e matches Effect::RenameWorkflow { from, to } && from == w.name && to@ == trimmed(
                    pre.input.text@,
                )
            },
            None => e == Effect::Nothing,
        }
    }
}

/// The text in the editor becomes the value of a setting, or is refused.
pub open spec fn stores(
    pre: App,
    target: SettingsEditTarget,
    post: App,
    r: Result<Effect, AppError>,
) -> bool {
    match settings_error(target, pre.input.text@) {
        Some(error) => r == Err::<Effect, AppError>(AppError::Setting(error)) && post == pre,
        None => {
            let saved = "Saved "@ + settings_edit_target_label(target, pre.agent.name@);
            &&& only_setting_changed(pre.config, post.config, target)
            &&& setting(post.config, target) == accepted_setting(target, pre.input.text@)
            &&& post == editor_closed(App { config: post.config, ..pre })
            &&& if is_github_target(target) {
                r matches Ok(Effect::SaveGitHubSettings { load_board, notice }) && !load_board
                    && notice_is(notice, saved, ToastStyle::Success)
            } else {
                r matches Ok(Effect::SaveSettingsAndStatus(t)) && notice_is(
                    t,
                    saved,
                    ToastStyle::Success,
                )
            }
        },
    }
}

/// A key of the editor.
pub open spec fn editor_step(
    pre: App,
    workflows: Seq<WorkflowEntry>,
    code: KeyCode,
    m: KeyModifiers,
    post: App,
    r: Result<Effect, AppError>,
) -> bool {
    match code {
        KeyCode::Esc => r == Ok::<Effect, AppError>(Effect::Nothing) && post == editor_closed(pre),
        KeyCode::Enter => match pre.settings_edit {
            None => r == Ok::<Effect, AppError>(Effect::Nothing) && post == in_mode(
                pre,
                InputMode::Normal,
            ),
            Some(target) => if target == SettingsEditTarget::WorkflowName {
                r matches Ok(e) && renames(pre, workflows, post, e)
            } else {
                stores(pre, target, post, r)
            },
        },
        _ => r == Ok::<Effect, AppError>(Effect::Nothing) && post.input@ == after_edit(
            pre.input@,
            code,
            m,
        ) && post == (App { input: post.input, ..pre }),
    }
}

impl App {
    fn rename_workflow(&mut self, workflows: &Vec<WorkflowEntry>) -> (e: Effect)
        ensures
            renames(*old(self), workflows@, *final(self), e),
    {
        let name = trim(self.input.text.as_str());
        if name.as_str().is_empty() {
            self.show_toast("Workflow name cannot be empty".to_owned(), ToastStyle::Error);
            return Effect::Nothing;
        }
        self.settings_edit = None;
        self.nav.input_mode = InputMode::Normal;
        let i: usize = self.nav.settings_workflow_index;
        if i < workflows.len() && !same(workflows[i].name.as_str(), name.as_str()) {
            Effect::RenameWorkflow { from: workflows[i].name.clone(), to: name }
        } else {
            Effect::Nothing
        }
    }

    fn store_setting(&mut self, target: SettingsEditTarget) -> (r: Result<Effect, AppError>)
        ensures
            stores(*old(self), target, *final(self), r),
    {
        match target.apply(&mut self.config, self.input.text.as_str()) {
            Ok(_) => {},
            Err(error) => {
                return Err(AppError::Setting(error));
            },
        }
        let label = target.label(self.agent.name.as_str());
        let notice = Toast {
            message: "Saved ".to_owned().concat(label.as_str()),
            style: ToastStyle::Success,
        };
        self.settings_edit = None;
        self.nav.input_mode = InputMode::Normal;
        match target {
            SettingsEditTarget::ClientId
            | SettingsEditTarget::AppSlug
            | SettingsEditTarget::InstallUrl
            | SettingsEditTarget::RelayUrl
            | SettingsEditTarget::InstallationId => Ok(
                Effect::SaveGitHubSettings { load_board: false, notice },
            ),
            _ => Ok(Effect::SaveSettingsAndStatus(notice)),
        }
    }

    /// Handle a key of the editor.
    pub fn handle_settings_edit_key(
        &mut self,
        workflows: &Vec<WorkflowEntry>,
        code: KeyCode,
        modifiers: KeyModifiers,
    ) -> (r: Result<Effect, AppError>)
        ensures
            editor_step(*old(self), workflows@, code, modifiers, *final(self), r),
            old(self).wf() ==> final(self).wf(),
    {
        match code {
            KeyCode::Esc => {
                self.settings_edit = None;
                self.enter_mode(InputMode::Normal);
                Ok(Effect::Nothing)
            },
            KeyCode::Enter => match self.settings_edit {
                None => {
                    self.enter_mode(InputMode::Normal);
                    Ok(Effect::Nothing)
                },
                Some(target) => {
                    if target == SettingsEditTarget::WorkflowName {
                        Ok(self.rename_workflow(workflows))
                    } else {
                        self.store_setting(target)
                    }
                },
            },
            _ => {
                self.input.apply_text_edit(code, modifiers);
                Ok(Effect::Nothing)
            },
        }
    }
}

// ---------------------------------------------------------------------------
// The value list
// ---------------------------------------------------------------------------

/// The list is left.
pub open spec fn picker_closed(pre: App, post: App) -> bool {
    post.settings_picker.options@.len() == 0 && post == (App {
        settings_picker: SettingsPicker {
            options: post.settings_picker.options,
            target: None,
            ..pre.settings_picker
        },
        nav: Nav { input_mode: InputMode::Normal, ..pre.nav },
        ..pre
    })
}

/// The value that is selected in the list, for the setting that it belongs to.
pub open spec fn picked(p: SettingsPicker) -> Option<(SettingsEditTarget, Seq<char>)> {
    match p.target {
        Some(target) => if p.index < p.options@.len() {
            Some((target, p.options@[p.index as int]@))
        } else {
            None
        },
        None => None,
    }
}

/// A key of the list of a setting's values.
pub open spec fn picker_step(pre: App, code: KeyCode, post: App, r: Result<Effect, AppError>) -> bool {
    let p = pre.settings_picker;
    match code {
        KeyCode::Esc | KeyCode::Char('q') => r == Ok::<Effect, AppError>(Effect::Nothing)
            && picker_closed(pre, post),
        KeyCode::Char('j') | KeyCode::Down => r == Ok::<Effect, AppError>(Effect::Nothing) && post
            == (App {
            settings_picker: SettingsPicker {
                index: if p.index + 1 < p.options@.len() {
                    (p.index + 1) as usize
                } else {
                    p.index
                },
                ..p
            },
            ..pre
        }),
        KeyCode::Char('k') | KeyCode::Up => r == Ok::<Effect, AppError>(Effect::Nothing) && post
            == (App { settings_picker: SettingsPicker { index: previous_place(p.index), ..p }, ..pre }),
        KeyCode::Enter => value_taken(pre, post, r),
        _ => r == Ok::<Effect, AppError>(Effect::Nothing) && post == pre,
    }
}

/// The value that is selected in the list becomes the setting.
pub open spec fn value_taken(pre: App, post: App, r: Result<Effect, AppError>) -> bool {
    match picked(pre.settings_picker) {
        None => r == Ok::<Effect, AppError>(Effect::Nothing) && post == in_mode(
            pre,
            InputMode::Normal,
        ),
        Some((target, value)) => match settings_error(target, value) {
            Some(error) => r == Err::<Effect, AppError>(AppError::Setting(error)) && post == pre,
            None => {
                &&& r matches Ok(Effect::SaveSettings(t)) && notice_is(
                    t,
                    "Saved "@ + settings_edit_target_label(target, pre.agent.name@),
                    ToastStyle::Success,
                )
                &&& only_setting_changed(pre.config, post.config, target)
                &&& setting(post.config, target) == accepted_setting(target, value)
                &&& picker_closed(App { config: post.config, ..pre }, post)
            },
        },
    }
}

impl App {
    fn close_settings_picker(&mut self)
        ensures
            picker_closed(*old(self), *final(self)),
    {
        self.settings_picker.target = None;
        self.settings_picker.options = Vec::new();
        self.nav.input_mode = InputMode::Normal;
    }

    fn go_to_value(&mut self, i: usize)
        ensures
            *final(self) == (App {
                settings_picker: SettingsPicker { index: i, ..old(self).settings_picker },
                ..*old(self)
            }),
    {
        self.settings_picker.index = i;
    }

    fn take_value(&mut self) -> (r: Result<Effect, AppError>)
        ensures
            value_taken(*old(self), *final(self), r),
    {
        let target = match self.settings_picker.target {
            Some(target) => target,
            None => {
                self.enter_mode(InputMode::Normal);
                return Ok(Effect::Nothing);
            },
        };
        if self.settings_picker.index >= self.settings_picker.options.len() {
            self.enter_mode(InputMode::Normal);
            return Ok(Effect::Nothing);
        }
        let value = self.settings_picker.options[self.settings_picker.index].clone();
        match target.apply(&mut self.config, value.as_str()) {
            Ok(_) => {},
            Err(error) => {
                return Err(AppError::Setting(error));
            },
        }
        let label = target.label(self.agent.name.as_str());
        self.close_settings_picker();
        Ok(
            Effect::SaveSettings(
                Toast {
                    message: "Saved ".to_owned().concat(label.as_str()),
                    style: ToastStyle::Success,
                },
            ),
        )
    }

    /// Handle a key of the list of a setting's values.
    pub fn handle_settings_picker_key(&mut self, code: KeyCode) -> (r: Result<Effect, AppError>)
        ensures
            picker_step(*old(self), code, *final(self), r),
    {
        match code {
            KeyCode::Esc | KeyCode::Char('q') => {
                self.close_settings_picker();
                Ok(Effect::Nothing)
            },
            KeyCode::Char('j') | KeyCode::Down => {
                let n: usize = self.settings_picker.options.len();
                let i: usize = self.settings_picker.index;
                if i < n && i + 1 < n {
                    self.go_to_value(i + 1);
                }
                Ok(Effect::Nothing)
            },
            KeyCode::Char('k') | KeyCode::Up => {
                self.go_to_value(step_up(self.settings_picker.index));
                Ok(Effect::Nothing)
            },
            KeyCode::Enter => self.take_value(),
            _ => Ok(Effect::Nothing),
        }
    }
}

// ---------------------------------------------------------------------------
// What follows
// ---------------------------------------------------------------------------

pub open spec fn with_status(a: App, status: GitHubStatus) -> App {
    App { github: GitHubState { status: status, ..a.github }, ..a }
}

/// The status of the login was read on request.
pub open spec fn status_refreshed(pre: App, status: GitHubStatus, post: App, e: Effect) -> bool {
    let mid = with_status(pre, status);
    if status.authenticated {
        e == Effect::FetchInstallations && says(
            mid,
            post,
            "Refreshing GitHub installations..."@,
            ToastStyle::Info,
        )
    } else if status.gh_authenticated {
        e == Effect::Nothing && says(
            mid,
            post,
            "Refreshed GitHub CLI status"@,
            ToastStyle::Success,
        )
    } else {
        e == Effect::Nothing && says(mid, post, "Connect GitHub first"@, ToastStyle::Info)
    }
}

/// How much a synchronisation has brought.
#[derive(Clone, Copy, Debug, PartialEq, Eq, Structural)]
pub struct SyncSummary {
    pub issues: u64,
    pub prs: u64,
    pub projects: u64,
    pub project_items: u64,
}

pub open spec fn sync_message(s: SyncSummary) -> Seq<char> {
    "Synced "@ + decimal(s.issues as nat) + " issues, "@ + decimal(s.prs as nat) + " PRs, "@
        + decimal(s.projects as nat) + " projects, "@ + decimal(s.project_items as nat)
        + " project items"@
}

/// The workflows to choose from: none, or one of those that there are.
pub open spec fn workflow_choices(names: Seq<Seq<char>>) -> Seq<Seq<char>> {
    seq![Seq::<char>::empty()] + names
}

/// The workflows were loaded anew.
pub open spec fn workflows_loaded(pre: App, names: Seq<Seq<char>>, post: App) -> bool {
    views(post.launch.workflow_names@) == workflow_choices(names) && post == (App {
        launch: LaunchForm { workflow_names: post.launch.workflow_names, ..pre.launch },
        ..pre
    })
}

/// The selection where it is, or at the last entry where it is behind it.
pub open spec fn kept_place(i: usize, n: usize) -> usize {
    if i >= n && n > 0 {
        (n - 1) as usize
    } else {
        i
    }
}

/// What came of the request to delete a workflow.
pub enum Deletion {
    Deleted,
    Missing,
    Failed(String),
}

pub open spec fn workflow_deletion(
    pre: App,
    name: Seq<char>,
    outcome: Deletion,
    names: Seq<Seq<char>>,
    count: usize,
    post: App,
) -> bool {
    match outcome {
        Deletion::Deleted => exists|mid: App|
            #[trigger] workflows_loaded(pre, names, mid) && says(
                App {
                    nav: Nav {
                        settings_workflow_index: kept_place(
                            pre.nav.settings_workflow_index,
                            count,
                        ),
                        ..mid.nav
                    },
                    ..mid
                },
                post,
                "Deleted workflow: "@ + name,
                ToastStyle::Success,
            ),
        Deletion::Missing => says(pre, post, "Workflow file not found"@, ToastStyle::Info),
        Deletion::Failed(error) => says(
            pre,
            post,
            "Failed to delete: "@ + error@,
            ToastStyle::Error,
        ),
    }
}

/// What came of the request to align the permissions.
pub enum PermissionOutcome {
    Applied(u64),
    ApplyFailed(String),
    LoadFailed(String),
}

pub open spec fn permissions_said(pre: App, outcome: PermissionOutcome, post: App) -> bool {
    match outcome {
        PermissionOutcome::Applied(n) => if n == 0 {
            says(pre, post, "Permissions already aligned"@, ToastStyle::Info)
        } else {
            says(
                App { config_warning: None, ..pre },
                post,
                "Applied "@ + decimal(n as nat) + " permission(s) to ~/."@ + pre.agent.id@
                    + "/settings.json"@,
                ToastStyle::Success,
            )
        },
        PermissionOutcome::ApplyFailed(e) => says(
            pre,
            post,
            "Failed to apply: "@ + e@,
            ToastStyle::Error,
        ),
        PermissionOutcome::LoadFailed(e) => says(
            pre,
            post,
            "Failed to load settings: "@ + e@,
            ToastStyle::Error,
        ),
    }
}

impl App {
    pub fn set_github_status(&mut self, status: GitHubStatus)
        ensures
            *final(self) == with_status(*old(self), status),
            old(self).wf() ==> final(self).wf(),
    {
        self.github.status = status;
    }

    /// The status of the login was read on request.
    pub fn github_status_refreshed(&mut self, status: GitHubStatus) -> (e: Effect)
        ensures
            status_refreshed(*old(self), status, *final(self), e),
            old(self).wf() ==> final(self).wf(),
    {
        self.github.status = status;
        if self.github.status.authenticated {
            self.show_toast("Refreshing GitHub installations...".to_owned(), ToastStyle::Info);
            Effect::FetchInstallations
        } else if self.github.status.gh_authenticated {
            self.show_toast("Refreshed GitHub CLI status".to_owned(), ToastStyle::Success);
            Effect::Nothing
        } else {
            self.show_toast("Connect GitHub first".to_owned(), ToastStyle::Info);
            Effect::Nothing
        }
    }

    /// The login was ended.
    pub fn github_disconnected(&mut self, status: GitHubStatus)
        ensures
            says(
                with_status(*old(self), status),
                *final(self),
                "GitHub session cleared"@,
                ToastStyle::Success,
            ),
            old(self).wf() ==> final(self).wf(),
    {
        self.github.status = status;
        self.show_toast("GitHub session cleared".to_owned(), ToastStyle::Success);
    }

    /// The page to install the GitHub App was opened, or there is none.
    pub fn install_page_opened(&mut self, opened: bool)
        ensures
            opened ==> says(
                *old(self),
                *final(self),
                "Opened GitHub App install page"@,
                ToastStyle::Success,
            ),
            !opened ==> says(
                *old(self),
                *final(self),
                "No bundled GitHub App install page is available in this build"@,
                ToastStyle::Info,
            ),
            old(self).wf() ==> final(self).wf(),
    {
        if opened {
            self.show_toast("Opened GitHub App install page".to_owned(), ToastStyle::Success);
        } else {
            self.show_toast(
                "No bundled GitHub App install page is available in this build".to_owned(),
                ToastStyle::Info,
            );
        }
    }

    /// The project was synchronised.
    pub fn project_synced(&mut self, s: SyncSummary)
        ensures
            says(*old(self), *final(self), sync_message(s), ToastStyle::Success),
            old(self).wf() ==> final(self).wf(),
    {
        let mut m = "Synced ".to_owned();
        m.append(format_number(s.issues).as_str());
        m.append(" issues, ");
        m.append(format_number(s.prs).as_str());
        m.append(" PRs, ");
        m.append(format_number(s.projects).as_str());
        m.append(" projects, ");
        m.append(format_number(s.project_items).as_str());
        m.append(" project items");
        self.show_toast(m, ToastStyle::Success);
    }

    /// Offer the workflows that there are, and none.
    pub fn refresh_available_workflow_names(&mut self, names: Vec<String>)
        ensures
            workflows_loaded(*old(self), views(names@), *final(self)),
            old(self).wf() ==> final(self).wf(),
    {
        let mut names = names;
        let ghost given = views(names@);
        let mut list: Vec<String> = vec![String::new()];
        let ghost head = list@;
        let ghost tail = names@;
        list.append(&mut names);
        proof {
            assert(list@ == head + tail);
            assert(views(list@) =~= seq![Seq::<char>::empty()] + given);
        }
        self.launch.workflow_names = list;
    }

    /// A workflow was created, or could not be.
    pub fn workflow_created(&mut self, name: &str, names: Vec<String>, error: &Option<String>)
        ensures
            match *error {
                None => exists|mid: App|
                    #[trigger] workflows_loaded(*old(self), views(names@), mid) && says(
                        mid,
                        *final(self),
                        "Created workflow: "@ + name@,
                        ToastStyle::Success,
                    ),
                Some(e) => says(
                    *old(self),
                    *final(self),
                    "Failed to create workflow: "@ + e@,
                    ToastStyle::Error,
                ),
            },
            old(self).wf() ==> final(self).wf(),
    {
        match error {
            None => {
                self.refresh_available_workflow_names(names);
                let ghost mid = *self;
                self.show_toast(
                    "Created workflow: ".to_owned().concat(name),
                    ToastStyle::Success,
                );
                proof {
                    assert(workflows_loaded(*old(self), views(names@), mid));
                }
            },
            Some(e) => {
                self.show_toast(
                    "Failed to create workflow: ".to_owned().concat(e.as_str()),
                    ToastStyle::Error,
                );
            },
        }
    }

    /// A workflow was deleted, or could not be; `count` is how many are left.
    pub fn workflow_deleted(
        &mut self,
        name: &str,
        outcome: &Deletion,
        names: Vec<String>,
        count: usize,
    )
        ensures
            workflow_deletion(*old(self), name@, *outcome, views(names@), count, *final(self)),
            old(self).wf() ==> final(self).wf(),
    {
        match outcome {
            Deletion::Deleted => {
                self.refresh_available_workflow_names(names);
                let ghost mid = *self;
                if self.nav.settings_workflow_index >= count && count > 0 {
                    self.nav.settings_workflow_index = count - 1;
                }
                self.show_toast(
                    "Deleted workflow: ".to_owned().concat(name),
                    ToastStyle::Success,
                );
                proof {
                    assert(workflows_loaded(*old(self), views(names@), mid));
                }
            },
            Deletion::Missing => {
                self.show_toast("Workflow file not found".to_owned(), ToastStyle::Info);
            },
            Deletion::Failed(error) => {
                self.show_toast(
                    "Failed to delete: ".to_owned().concat(error.as_str()),
                    ToastStyle::Error,
                );
            },
        }
    }

    /// A workflow was renamed.
    pub fn workflow_renamed(&mut self, from: &str, to: &str, names: Vec<String>)
        ensures
            exists|mid: App|
                #[trigger] workflows_loaded(*old(self), views(names@), mid) && says(
                    mid,
                    *final(self),
                    "Renamed: "@ + from@ + " → "@ + to@,
                    ToastStyle::Success,
                ),
            old(self).wf() ==> final(self).wf(),
    {
        self.refresh_available_workflow_names(names);
        let ghost mid = *self;
        let mut message = "Renamed: ".to_owned();
        message.append(from);
        message.append(" → ");
        message.append(to);
        self.show_toast(message, ToastStyle::Success);
        proof {
            assert(workflows_loaded(*old(self), views(names@), mid));
        }
    }

    /// The permissions were aligned, or could not be.
    pub fn permissions_applied(&mut self, outcome: &PermissionOutcome)
        ensures
            permissions_said(*old(self), *outcome, *final(self)),
            old(self).wf() ==> final(self).wf(),
    {
        match outcome {
            PermissionOutcome::Applied(n) => {
                if *n == 0 {
                    self.show_toast("Permissions already aligned".to_owned(), ToastStyle::Info);
                } else {
                    self.config_warning = None;
                    let mut m = "Applied ".to_owned();
                    m.append(format_number(*n).as_str());
                    m.append(" permission(s) to ~/.");
                    m.append(self.agent.id.as_str());
                    m.append("/settings.json");
                    self.show_toast(m, ToastStyle::Success);
                }
            },
            PermissionOutcome::ApplyFailed(e) => {
                self.show_toast(
                    "Failed to apply: ".to_owned().concat(e.as_str()),
                    ToastStyle::Error,
                );
            },
            PermissionOutcome::LoadFailed(e) => {
                self.show_toast(
                    "Failed to load settings: ".to_owned().concat(e.as_str()),
                    ToastStyle::Error,
                );
            },
        }
    }

    /// Handle a key of the permissions page. Aligning the permissions closes it.
    pub fn handle_configure_key(&mut self, code: KeyCode) -> (e: Effect)
        ensures
            match code {
                KeyCode::Esc | KeyCode::Char('q') => e == Effect::Nothing && *final(self)
                    == in_mode(*old(self), InputMode::Normal),
                KeyCode::Char('a') => e == Effect::ApplyPermissions && *final(self) == in_mode(
                    *old(self),
                    InputMode::Normal,
                ),
                _ => e == Effect::Nothing && *final(self) == *old(self),
            },
            old(self).wf() ==> final(self).wf(),
    {
        match code {
            KeyCode::Esc | KeyCode::Char('q') => {
                self.nav.input_mode = InputMode::Normal;
                Effect::Nothing
            },
            KeyCode::Char('a') => {
                self.nav.input_mode = InputMode::Normal;
                Effect::ApplyPermissions
            },
            _ => Effect::Nothing,
        }
    }
}

// ---------------------------------------------------------------------------
// New workflows
// ---------------------------------------------------------------------------

/// A workflow of one stage.
pub struct WorkflowTemplate {
    pub name: String,
    pub description: String,
    pub stage: String,
    pub prompt: String,
    pub provider: String,
    pub profile: String,
}

/// The workflow that is created on request, named after the moment.
pub fn new_workflow(timestamp: i64, agent_id: &str) -> (r: WorkflowTemplate)
    ensures
        r.name@ == "custom_"@ + signed_decimal(timestamp as int),
        r.description@ == "New custom workflow"@,
        r.stage@ == "plan"@,
        r.prompt@ == "/plan"@,
        r.provider@ == agent_id@,
        r.profile@ == "default"@,
{
    WorkflowTemplate {
        name: "custom_".to_owned().concat(format_signed(timestamp).as_str()),
        description: "New custom workflow".to_owned(),
        stage: "plan".to_owned(),
        prompt: "/plan".to_owned(),
        provider: agent_id.to_owned(),
        profile: "default".to_owned(),
    }
}

/// What is stored through the editor is what the editor opens with the next time: it
/// shows the stored text without the space around it.
pub proof fn law_editor_shows_what_was_stored(
    pre: App,
    target: SettingsEditTarget,
    mid: App,
    r: Result<Effect, AppError>,
    post: App,
)
    requires
        stores(pre, target, mid, r),
        r is Ok,
        target != SettingsEditTarget::ReviewLoopInterval,
        target != SettingsEditTarget::WorkflowName,
        crate::input_settings::editing(mid, target, post),
    ensures
        at_end(post.input, trimmed(pre.input.text@)),
{
    crate::settings::law_setting_reads_back(pre.config, mid.config, target, pre.input.text@);
}

/// A stored setting is the trimmed text that was typed, the editor is closed, and the store
/// is asked to keep it; a refused one keeps the editor open and the settings as they were.
pub proof fn law_typed_settings_are_stored(
    pre: App,
    target: SettingsEditTarget,
    post: App,
    r: Result<Effect, AppError>,
)
    requires
        stores(pre, target, post, r),
    ensures
        target == SettingsEditTarget::ClaudeModel && !is_blank(pre.input.text@)
            ==> post.config.claude.model@ == trimmed(pre.input.text@) && post.config.claude.effort
            == pre.config.claude.effort && r is Ok,
        target == SettingsEditTarget::ClaudeModel && is_blank(pre.input.text@) ==> r
            == Err::<Effect, AppError>(
            AppError::Setting(crate::settings::SettingsError::EmptyClaudeModel),
        ) && post == pre,
        target == SettingsEditTarget::KeymapLeader && !is_blank(pre.input.text@)
            ==> post.config.ui.keymap.leader@ == trimmed(pre.input.text@)
            && post.config.ui.keymap.preset == pre.config.ui.keymap.preset,
        target == SettingsEditTarget::RelayUrl && !is_blank(pre.input.text@) ==> (
        post.config.github_app.relay_url matches Some(u) && u@ == trimmed(pre.input.text@))
            && (r matches Ok(Effect::SaveGitHubSettings { .. })),
        target == SettingsEditTarget::RelayUrl && is_blank(pre.input.text@)
            ==> post.config.github_app.relay_url is None,
        target == SettingsEditTarget::RuntimeSandboxPath && !is_blank(pre.input.text@) ==> (
        post.config.runtime.sandbox_path matches Some(u) && u@ == trimmed(pre.input.text@))
            && post.config.runtime.default_profile == pre.config.runtime.default_profile,
        r is Ok ==> post.nav.input_mode == InputMode::Normal && post.settings_edit is None,
        r is Err ==> post == pre,
{
}

/// The settings of the GitHub App are those of its identifier, its name, its addresses and
/// its installation.
pub proof fn law_settings_of_the_app(t: SettingsEditTarget)
    ensures
        is_github_target(SettingsEditTarget::ClientId),
        is_github_target(SettingsEditTarget::AppSlug),
        is_github_target(SettingsEditTarget::InstallUrl),
        is_github_target(SettingsEditTarget::RelayUrl),
        is_github_target(SettingsEditTarget::InstallationId),
        !is_github_target(SettingsEditTarget::ClaudeModel),
        !is_github_target(SettingsEditTarget::KeymapLeader),
        !is_github_target(SettingsEditTarget::ReviewLoopInterval),
        !is_github_target(SettingsEditTarget::WorkflowName),
        !is_github_target(SettingsEditTarget::RuntimeSandboxPath),
{
}

/// A workflow is renamed to what was typed, without the space around it, where that is
/// another name; a blank name is refused.
pub proof fn law_workflows_are_renamed(
    pre: App,
    workflows: Seq<WorkflowEntry>,
    post: App,
    e: Effect,
)
    requires
        renames(pre, workflows, post, e),
        pre.nav.settings_workflow_index < workflows.len(),
    ensures
        ({
            let w = workflows[pre.nav.settings_workflow_index as int];
            &&& is_blank(pre.input.text@) ==> e == Effect::Nothing && post.nav == pre.nav && (
            post.toast matches Some(t) && t.style == ToastStyle::Error)
            &&& !is_blank(pre.input.text@) && trimmed(pre.input.text@) != w.name@ ==> (
            e matches Effect::RenameWorkflow { from, to } && from == w.name && to@ == trimmed(
                pre.input.text@,
            ))
            &&& !is_blank(pre.input.text@) && trimmed(pre.input.text@) == w.name@ ==> e
                == Effect::Nothing
            &&& !is_blank(pre.input.text@) ==> post.nav.input_mode == InputMode::Normal
        }),
{
}

/// A value of the list is moved to by one, taken by enter, and left by escape.
pub proof fn law_listed_values_are_taken(
    pre: App,
    code: KeyCode,
    post: App,
    r: Result<Effect, AppError>,
)
    requires
        picker_step(pre, code, post, r),
        pre.settings_picker.index < pre.settings_picker.options@.len(),
    ensures
        (code == KeyCode::Down || code == KeyCode::Char('j')) && pre.settings_picker.index + 1
            < pre.settings_picker.options@.len() ==> post.settings_picker.index
            == pre.settings_picker.index + 1,
        (code == KeyCode::Up || code == KeyCode::Char('k')) && pre.settings_picker.index > 0
            ==> post.settings_picker.index + 1 == pre.settings_picker.index,
        code == KeyCode::Enter && pre.settings_picker.target == Some(
            SettingsEditTarget::ClaudeEffort,
        ) && !is_blank(pre.settings_picker.options@[pre.settings_picker.index as int]@)
            ==> post.config.claude.effort@ == trimmed(
            pre.settings_picker.options@[pre.settings_picker.index as int]@,
        ) && r is Ok && post.nav.input_mode == InputMode::Normal,
        code == KeyCode::Esc || code == KeyCode::Char('q') ==> post.config == pre.config
            && post.nav.input_mode == InputMode::Normal && post.settings_picker.target is None,
{
    assert(pre.settings_picker.options.len() == pre.settings_picker.options@.len());
}

/// A refreshed status asks for the installations where the App is logged in, and says what
/// to do where nothing is.
pub proof fn law_a_fresh_status_goes_on(pre: App, status: GitHubStatus, post: App, e: Effect)
    requires
        status_refreshed(pre, status, post, e),
    ensures
        status.authenticated ==> e == Effect::FetchInstallations,
        !status.authenticated ==> e == Effect::Nothing,
        !status.authenticated && status.gh_authenticated ==> (post.toast matches Some(t) && t.style
            == ToastStyle::Success),
        !status.authenticated && !status.gh_authenticated ==> (post.toast matches Some(t)
            && t.style == ToastStyle::Info),
        post.github.status == status,
{
}

/// The workflows that a launch offers begin with none, and go on with all the names.
pub proof fn law_launches_offer_every_workflow(names: Seq<Seq<char>>, k: int)
    ensures
        workflow_choices(names)[0].len() == 0,
        0 <= k < names.len() ==> workflow_choices(names)[k + 1] == names[k],
        workflow_choices(names).len() == names.len() + 1,
{
}

/// What was synced is told by the numbers of issues, pull requests, projects and items.
pub proof fn law_synced_data_is_counted(s: SyncSummary)
    ensures
        contains_text(sync_message(s), decimal(s.issues as nat)),
        contains_text(sync_message(s), decimal(s.prs as nat)),
        contains_text(sync_message(s), decimal(s.projects as nat)),
        contains_text(sync_message(s), decimal(s.project_items as nat)),
{
    let a = "Synced "@ + decimal(s.issues as nat);
    lemma_found_beside("Synced "@, decimal(s.issues as nat));
    let b = a + " issues, "@;
    lemma_found_beside(a, " issues, "@);
    let c = b + decimal(s.prs as nat);
    lemma_found_beside(b, decimal(s.prs as nat));
    let d = c + " PRs, "@;
    lemma_found_beside(c, " PRs, "@);
    let e = d + decimal(s.projects as nat);
    lemma_found_beside(d, decimal(s.projects as nat));
    let f = e + " projects, "@;
    lemma_found_beside(e, " projects, "@);
    let g = f + decimal(s.project_items as nat);
    lemma_found_beside(f, decimal(s.project_items as nat));
    lemma_found_beside(g, " project items"@);
}

/// What became of a deleted workflow is told, and its list keeps its mark inside.
pub proof fn law_deleted_workflows_are_told(
    pre: App,
    name: Seq<char>,
    outcome: Deletion,
    names: Seq<Seq<char>>,
    count: usize,
    post: App,
)
    requires
        workflow_deletion(pre, name, outcome, names, count, post),
    ensures
        outcome is Deleted ==> (post.toast matches Some(t) && t.style == ToastStyle::Success
            && t.message@ == "Deleted workflow: "@ + name) && views(post.launch.workflow_names@)
            == seq![Seq::<char>::empty()] + names,
        outcome is Deleted && pre.nav.settings_workflow_index < count
            ==> post.nav.settings_workflow_index == pre.nav.settings_workflow_index,
        outcome is Deleted && 0 < count <= pre.nav.settings_workflow_index
            ==> post.nav.settings_workflow_index == count - 1,
        outcome is Missing ==> post.nav == pre.nav && (post.toast matches Some(t) && t.style
            == ToastStyle::Info),
        outcome matches Deletion::Failed(error) ==> (post.toast matches Some(t) && t.style
            == ToastStyle::Error && t.message@ == "Failed to delete: "@ + error@),
{
}

/// What was applied of the permissions is counted, and a warning on them is gone; a failure
/// is told.
pub proof fn law_applied_permissions_are_counted(pre: App, outcome: PermissionOutcome, post: App)
    requires
        permissions_said(pre, outcome, post),
    ensures
        outcome matches PermissionOutcome::Applied(n) ==> (n > 0 ==> post.config_warning is None && (
        post.toast matches Some(t) && t.style == ToastStyle::Success && contains_text(
            t.message@,
            decimal(n as nat),
        ))),
        outcome matches PermissionOutcome::Applied(n) ==> (n == 0 ==> post.config_warning
            == pre.config_warning && (post.toast matches Some(t) && t.style == ToastStyle::Info)),
        outcome matches PermissionOutcome::ApplyFailed(x) ==> (post.toast matches Some(t) && t.style
            == ToastStyle::Error && contains_text(t.message@, x@)),
        outcome matches PermissionOutcome::LoadFailed(x) ==> (post.toast matches Some(t) && t.style
            == ToastStyle::Error && contains_text(t.message@, x@)),
{
    match outcome {
        PermissionOutcome::Applied(n) => {
            let d = decimal(n as nat);
            lemma_found_beside("Applied "@, d);
            lemma_found_beside("Applied "@ + d, " permission(s) to ~/."@);
            lemma_found_beside("Applied "@ + d + " permission(s) to ~/."@, pre.agent.id@);
            lemma_found_beside(
                "Applied "@ + d + " permission(s) to ~/."@ + pre.agent.id@,
                "/settings.json"@,
            );
        },
        PermissionOutcome::ApplyFailed(x) => {
            lemma_found_beside("Failed to apply: "@, x@);
        },
        PermissionOutcome::LoadFailed(x) => {
            lemma_found_beside("Failed to load settings: "@, x@);
        },
    }
}

} // verus!
