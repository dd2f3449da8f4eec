//! The settings view: its shortcuts, its editor, and its lists.

use vstd::prelude::*;
use vstd::string::*;

use crate::app::{in_mode, project_of, says, App, GitHubState, Nav, SettingsPicker, Toast};
use crate::board_state::{previous_place, step_down, step_up};
use crate::effects::{notice_is, Effect};
use crate::keys::KeyCode;
use crate::settings::{setting, Config, NotificationRules, NotificationsConfig, SettingsEditTarget};
use crate::store::GitHubInstallation;
use crate::text::{eq_ignore_case, parse_i64, parsed_i64, same_ignoring_case, views};
use crate::text_input::{at_end, TextInput};
use crate::views::{
    Focus, InputMode, SettingsSection, ToastStyle, WorkbenchView,
};

verus! {

/// A workflow of the settings view.
pub struct WorkflowEntry {
    pub name: String,
    pub builtin: bool,
}

/// A setting is being edited: its value stands in the text field.
pub open spec fn editing(pre: App, target: SettingsEditTarget, post: App) -> bool {
    &&& at_end(
        post.input,
        match setting(pre.config, target) {
            Some(v) => v,
            None => Seq::empty(),
        },
    )
    &&& post == (App {
        settings_edit: Some(target),
        input: post.input,
        nav: Nav { input_mode: InputMode::SettingsEdit, ..pre.nav },
        ..pre
    })
}

/// The first place of a value in a list, whatever its case; the first of all where it
/// is missing.
pub open spec fn option_place(options: Seq<Seq<char>>, value: Seq<char>) -> int {
    first_place(options, value, 0)
}

pub open spec fn first_place(options: Seq<Seq<char>>, value: Seq<char>, from: int) -> int
    decreases options.len() - from,
{
    if from >= options.len() || from < 0 {
        0
    } else if same_ignoring_case(options[from], value) {
        from
    } else {
        first_place(options, value, from + 1)
    }
}

/// The list of a setting's values is open at its present value.
pub open spec fn picking(
    pre: App,
    target: SettingsEditTarget,
    options: Seq<Seq<char>>,
    post: App,
) -> bool {
    &&& views(post.settings_picker.options@) == options
    &&& post.settings_picker.index == option_place(
        options,
        match setting(pre.config, target) {
            Some(v) => v,
            None => Seq::empty(),
        },
    )
    &&& post.settings_picker.target == Some(target)
    &&& post == (App {
        settings_picker: post.settings_picker,
        nav: Nav { input_mode: InputMode::SettingsPicker, ..pre.nav },
        ..pre
    })
}

pub open spec fn model_options(agent_id: Seq<char>) -> Seq<Seq<char>> {
    seq![
        agent_id + "-opus-4-6"@,
        agent_id + "-sonnet-4-6"@,
        agent_id + "-haiku-4-5-20251001"@,
    ]
}

pub open spec fn effort_options() -> Seq<Seq<char>> {
    seq!["min"@, "low"@, "medium"@, "high"@, "max"@]
}

/// A setting was changed and is saved.
pub open spec fn saves(pre: App, config: Config, label: Seq<char>, post: App, r: Option<Effect>) -> bool {
    &&& r matches Some(Effect::SaveSettings(t)) && notice_is(
        t,
        "Saved "@ + label,
        ToastStyle::Success,
    )
    &&& post == (App { config: config, ..pre })
}

pub open spec fn unhandled(pre: App, post: App, r: Option<Effect>) -> bool {
    r is None && post == pre
}

pub open spec fn edits(pre: App, target: SettingsEditTarget, post: App, r: Option<Effect>) -> bool {
    r == Some(Effect::Nothing) && editing(pre, target, post)
}

// ---------------------------------------------------------------------------
// Sections
// ---------------------------------------------------------------------------

pub open spec fn providers_step(pre: App, code: KeyCode, post: App, r: Option<Effect>) -> bool {
    match code {
        KeyCode::Char('m') => r == Some(Effect::Nothing) && picking(
            pre,
            SettingsEditTarget::ClaudeModel,
            model_options(pre.agent.id@),
            post,
        ),
        KeyCode::Char('e') => r == Some(Effect::Nothing) && picking(
            pre,
            SettingsEditTarget::ClaudeEffort,
            effort_options(),
            post,
        ),
        KeyCode::Char('r') => saves(
            pre,
            Config { remote_enabled: !pre.config.remote_enabled, ..pre.config },
            pre.agent.name@ + " remote mode"@,
            post,
            r,
        ),
        KeyCode::Char('u') => saves(
            pre,
            Config { auto_update: !pre.config.auto_update, ..pre.config },
            "Auto-update"@,
            post,
            r,
        ),
        _ => unhandled(pre, post, r),
    }
}

/// The switch that a key turns over, with its label.
pub open spec fn notification_switch(n: NotificationsConfig, code: KeyCode) -> Option<
    (NotificationsConfig, Seq<char>),
> {
    let rules = n.rules;
    match code {
        KeyCode::Char('e') => Some(
            (NotificationsConfig { enabled: !n.enabled, ..n }, "Voice notifications"@),
        ),
        KeyCode::Char('s') => Some(
            (NotificationsConfig { system: !n.system, ..n }, "System banner notifications"@),
        ),
        KeyCode::Char('a') => Some(
            (
                NotificationsConfig {
                    rules: NotificationRules { ask_user: !rules.ask_user, ..rules },
                    ..n
                },
                "Ask-user notifications"@,
            ),
        ),
        KeyCode::Char('p') => Some(
            (
                NotificationsConfig {
                    rules: NotificationRules {
                        approval_required: !rules.approval_required,
                        ..rules
                    },
                    ..n
                },
                "Approval notifications"@,
            ),
        ),
        KeyCode::Char('r') => Some(
            (
                NotificationsConfig {
                    rules: NotificationRules { run_complete: !rules.run_complete, ..rules },
                    ..n
                },
                "Run complete notifications"@,
            ),
        ),
        KeyCode::Char('v') => Some(
            (
                NotificationsConfig {
                    rules: NotificationRules { review_requested: !rules.review_requested, ..rules },
                    ..n
                },
                "Review-requested notifications"@,
            ),
        ),
        KeyCode::Char('f') => Some(
            (
                NotificationsConfig {
                    rules: NotificationRules { ci_failed: !rules.ci_failed, ..rules },
                    ..n
                },
                "CI-failed notifications"@,
            ),
        ),
        _ => None,
    }
}

pub open spec fn notifications_step(pre: App, code: KeyCode, post: App, r: Option<Effect>) -> bool {
    match notification_switch(pre.config.notifications, code) {
        Some((n, label)) => saves(pre, Config { notifications: n, ..pre.config }, label, post, r),
        None => match code {
            KeyCode::Char('c') => edits(pre, SettingsEditTarget::NotificationCommand, post, r),
            KeyCode::Char('t') => edits(pre, SettingsEditTarget::NotificationTemplate, post, r),
            _ => unhandled(pre, post, r),
        },
    }
}

/// The selected workflow.
pub open spec fn workflow_at(workflows: Seq<WorkflowEntry>, i: usize) -> Option<WorkflowEntry> {
    crate::app::at(workflows, i as int)
}

pub open spec fn workflows_step(
    pre: App,
    workflows: Seq<WorkflowEntry>,
    code: KeyCode,
    post: App,
    r: Option<Effect>,
) -> bool {
    let i = pre.nav.settings_workflow_index;
    match code {
        KeyCode::Char('J') => r == Some(Effect::Nothing) && post == (App {
            nav: Nav {
                settings_workflow_index: crate::moves::down(i, workflows.len()),
                ..pre.nav
            },
            ..pre
        }),
        KeyCode::Char('K') => r == Some(Effect::Nothing) && post == (App {
            nav: Nav { settings_workflow_index: previous_place(i), ..pre.nav },
            ..pre
        }),
        KeyCode::Char('n') => r == Some(Effect::CreateWorkflow) && post == pre,
        KeyCode::Char('d') => match workflow_at(workflows, i) {
            None => r == Some(Effect::Nothing) && post == pre,
            Some(w) => if w.builtin {
                r == Some(Effect::Nothing) && says(
                    pre,
                    post,
                    "Cannot delete built-in workflows"@,
                    ToastStyle::Info,
                )
            } else {
                r == Some(Effect::DeleteWorkflow { name: w.name }) && post == pre
            },
        },
        KeyCode::Char('e') => r == Some(Effect::Nothing) && match workflow_at(workflows, i) {
            None => post == pre,
            Some(w) => if w.builtin {
                says(pre, post, "Cannot edit built-in workflows"@, ToastStyle::Info)
            } else {
                at_end(post.input, w.name@) && post == (App {
                    input: post.input,
                    settings_edit: Some(SettingsEditTarget::WorkflowName),
                    nav: Nav { input_mode: InputMode::SettingsEdit, ..pre.nav },
                    ..pre
                })
            },
        },
        _ => unhandled(pre, post, r),
    }
}

/// A login can be started: with a GitHub App, or with the command-line tool.
pub open spec fn can_connect(a: App) -> bool {
    a.github.status.app_auth_available || a.github.gh_installed
}

pub open spec fn connect_message(a: App, refresh: bool) -> Seq<char> {
    if a.github.status.app_auth_available {
        "Starting GitHub App device flow..."@
    } else if refresh && a.github.status.gh_authenticated && !a.github.status.gh_has_project_scope {
        "Refreshing GitHub CLI permissions for Projects v2..."@
    } else {
        "Starting GitHub CLI browser login..."@
    }
}

/// A login is started. `refresh` tells that it may widen an existing one.
pub open spec fn connects(pre: App, refresh: bool, post: App, e: Effect) -> bool {
    if can_connect(pre) {
        e == Effect::ConnectGitHub && says(
            pre,
            post,
            connect_message(pre, refresh),
            ToastStyle::Info,
        )
    } else {
        e == Effect::Nothing && says(
            pre,
            post,
            "Install GitHub CLI or configure a custom GitHub App"@,
            ToastStyle::Error,
        )
    }
}

/// What a login has left is forgotten.
pub open spec fn login_forgotten(pre: App, post: App) -> bool {
    post.github.installations@.len() == 0 && post == (App {
        github: GitHubState {
            auth_prompt: None,
            auth_error: None,
            installations: post.github.installations,
            ..pre.github
        },
        nav: Nav { installation_index: 0, ..pre.nav },
        ..pre
    })
}

pub open spec fn disconnects(pre: App, post: App, e: Effect) -> bool {
    if pre.github.status.authenticated {
        e == (Effect::DisconnectGitHub { app_session: true }) && login_forgotten(pre, post)
    } else if pre.github.status.gh_authenticated {
        e == (Effect::DisconnectGitHub { app_session: false }) && login_forgotten(pre, post)
    } else {
        e == Effect::Nothing && exists|mid: App|
            #[trigger] login_forgotten(pre, mid) && says(
                mid,
                post,
                "GitHub is already disconnected"@,
                ToastStyle::Info,
            )
    }
}

pub open spec fn github_step(pre: App, code: KeyCode, post: App, r: Option<Effect>) -> bool {
    match code {
        KeyCode::Char('a') => r matches Some(e) && connects(pre, true, post, e),
        KeyCode::Char('f') => r == Some(Effect::ReadGitHubStatus) && post == pre,
        KeyCode::Char('x') => r matches Some(e) && disconnects(pre, post, e),
        KeyCode::Char('o') => r == Some(Effect::OpenInstallPage) && post == pre,
        KeyCode::Char('y') => post == pre && r == Some(
            if project_of(pre) is Some {
                Effect::SyncProject
            } else {
                Effect::Nothing
            },
        ),
        KeyCode::Char('g') | KeyCode::Char('p') => r == Some(Effect::PickProjectBoard) && post
            == pre,
        KeyCode::Char('.') => r == Some(Effect::Nothing) && post == (App {
            nav: Nav { show_advanced: !pre.nav.show_advanced, ..pre.nav },
            ..pre
        }),
        _ => match app_setting(code) {
            Some(target) if pre.nav.show_advanced => edits(pre, target, post, r),
            _ => unhandled(pre, post, r),
        },
    }
}

/// The settings of a GitHub App of one's own: they are edited only while the advanced
/// settings are shown.
pub open spec fn app_setting(code: KeyCode) -> Option<SettingsEditTarget> {
    match code {
        KeyCode::Char('c') => Some(SettingsEditTarget::ClientId),
        KeyCode::Char('s') => Some(SettingsEditTarget::AppSlug),
        KeyCode::Char('u') => Some(SettingsEditTarget::InstallUrl),
        KeyCode::Char('r') => Some(SettingsEditTarget::RelayUrl),
        KeyCode::Char('i') => Some(SettingsEditTarget::InstallationId),
        _ => None,
    }
}

pub open spec fn general_step(pre: App, code: KeyCode, post: App, r: Option<Effect>) -> bool {
    match code {
        KeyCode::Char('a') => saves(
            pre,
            Config { sync_auto_push: !pre.config.sync_auto_push, ..pre.config },
            "Sync auto-push"@,
            post,
            r,
        ),
        KeyCode::Char('r') => saves(
            pre,
            Config { rtk_enabled: !pre.config.rtk_enabled, ..pre.config },
            "RTK integration"@,
            post,
            r,
        ),
        _ => unhandled(pre, post, r),
    }
}

/// The sections whose keys only open the editor.
pub open spec fn edit_key(section: SettingsSection, code: KeyCode) -> Option<SettingsEditTarget> {
    match section {
        SettingsSection::Layout => match code {
            KeyCode::Char('p') => Some(SettingsEditTarget::KeymapPreset),
            KeyCode::Char('l') => Some(SettingsEditTarget::KeymapLeader),
            _ => None,
        },
        SettingsSection::ReviewLoop => match code {
            KeyCode::Char('i') => Some(SettingsEditTarget::ReviewLoopInterval),
            KeyCode::Char('p') => Some(SettingsEditTarget::ReviewLoopPrompt),
            _ => None,
        },
        SettingsSection::Sandbox => match code {
            KeyCode::Char('p') => Some(SettingsEditTarget::RuntimeDefaultProfile),
            KeyCode::Char('s') => Some(SettingsEditTarget::RuntimeSandboxPath),
            KeyCode::Char('a') => Some(SettingsEditTarget::RuntimeAttachmentsDir),
            _ => None,
        },
        _ => None,
    }
}

/// The list of installations is open at the default one.
pub open spec fn opened_installations(pre: App, post: App, e: Effect) -> bool {
    if pre.github.installations@.len() == 0 {
        e == Effect::FetchInstallations && says(
            pre,
            post,
            "Loading GitHub installations..."@,
            ToastStyle::Info,
        )
    } else {
        e == Effect::Nothing && post == (App {
            nav: Nav {
                installation_index: match default_installation(pre) {
                    Some(i) => i as usize,
                    None => pre.nav.installation_index,
                },
                input_mode: InputMode::GitHubInstallationPicker,
                ..pre.nav
            },
            ..pre
        })
    }
}

/// The place of the installation with an id.
pub open spec fn installation_place(list: Seq<GitHubInstallation>, id: i64, from: int) -> Option<int>
    decreases list.len() - from,
{
    if from < 0 || from >= list.len() {
        None
    } else if list[from].id == id {
        Some(from)
    } else {
        installation_place(list, id, from + 1)
    }
}

/// The place of the installation that the configuration names.
pub open spec fn default_installation(a: App) -> Option<int> {
    match a.config.github_app.default_installation_id {
        Some(text) => match parsed_i64(text@) {
            Some(id) => installation_place(a.github.installations@, id, 0),
            None => None,
        },
        None => None,
    }
}

/// What Enter does in a section.
pub open spec fn activated(pre: App, section: SettingsSection, post: App, e: Effect) -> bool {
    match section {
        SettingsSection::AiProviders => e == Effect::Nothing && picking(
            pre,
            SettingsEditTarget::ClaudeModel,
            model_options(pre.agent.id@),
            post,
        ),
        SettingsSection::Permissions => e == Effect::LoadConfigStatus && post == in_mode(
            pre,
            InputMode::ConfigureWizard,
        ),
        SettingsSection::GitHub => if pre.github.status.authenticated {
            opened_installations(pre, post, e)
        } else {
            connects(pre, false, post, e)
        },
        SettingsSection::Layout => e == Effect::Nothing && editing(
            pre,
            SettingsEditTarget::KeymapPreset,
            post,
        ),
        SettingsSection::Notifications => notifications_step(
            pre,
            KeyCode::Char('e'),
            post,
            Some(e),
        ),
        SettingsSection::ReviewLoop => e == Effect::Nothing && editing(
            pre,
            SettingsEditTarget::ReviewLoopInterval,
            post,
        ),
        SettingsSection::Workflows => e == Effect::Nothing && says(
            pre,
            post,
            "Use n to create, d to delete workflows"@,
            ToastStyle::Info,
        ),
        SettingsSection::Sandbox => e == Effect::Nothing && editing(
            pre,
            SettingsEditTarget::RuntimeDefaultProfile,
            post,
        ),
        SettingsSection::General => general_step(pre, KeyCode::Char('a'), post, Some(e)),
    }
}

/// The section that is shown.
pub open spec fn section_of(a: App) -> SettingsSection {
    match crate::app::at(SettingsSection::all(), a.nav.settings_section_index as int) {
        Some(s) => s,
        None => SettingsSection::AiProviders,
    }
}

/// A key of the settings view. The result tells whether the key means something in
/// the section that is shown.
pub open spec fn settings_step(
    pre: App,
    workflows: Seq<WorkflowEntry>,
    code: KeyCode,
    post: App,
    r: Option<Effect>,
) -> bool {
    if pre.nav.workbench_view != WorkbenchView::Settings || pre.nav.focus != Focus::Tasks {
        unhandled(pre, post, r)
    } else if code == KeyCode::Enter {
        r matches Some(e) && activated(pre, section_of(pre), post, e)
    } else {
        match section_of(pre) {
            SettingsSection::AiProviders => providers_step(pre, code, post, r),
            SettingsSection::Notifications => notifications_step(pre, code, post, r),
            SettingsSection::Workflows => workflows_step(pre, workflows, code, post, r),
            SettingsSection::GitHub => github_step(pre, code, post, r),
            SettingsSection::General => general_step(pre, code, post, r),
            section => match edit_key(section, code) {
                Some(target) => edits(pre, target, post, r),
                None => unhandled(pre, post, r),
            },
        }
    }
}

fn save_notice(label: &str) -> (e: Effect)
    ensures
        e matches Effect::SaveSettings(t) && notice_is(t, "Saved "@ + label@, ToastStyle::Success),
{
    Effect::SaveSettings(
        Toast { message: "Saved ".to_owned().concat(label), style: ToastStyle::Success },
    )
}

impl App {
    /// Open the editor for a setting.
    pub fn start_settings_edit(&mut self, target: SettingsEditTarget)
        ensures
            editing(*old(self), target, *final(self)),
            old(self).wf() ==> final(self).wf(),
    {
        self.settings_edit = Some(target);
        self.input = TextInput::holding(target.current_value(&self.config));
        self.nav.input_mode = InputMode::SettingsEdit;
    }

    /// Open the list of a setting's values.
    pub fn open_settings_picker(&mut self, target: SettingsEditTarget, options: Vec<String>)
        ensures
            picking(*old(self), target, views(options@), *final(self)),
            old(self).wf() ==> final(self).wf(),
    {
        let current = target.current_value(&self.config);
        let index: usize = find_option(&options, current.as_str());
        self.settings_picker = SettingsPicker { options, index, target: Some(target) };
        self.nav.input_mode = InputMode::SettingsPicker;
    }

    fn pick_model(&mut self)
        ensures
            picking(
                *old(self),
                SettingsEditTarget::ClaudeModel,
                model_options(old(self).agent.id@),
                *final(self),
            ),
    {
        let id = self.agent.id.clone();
        let options = vec![
            id.clone().concat("-opus-4-6"),
            id.clone().concat("-sonnet-4-6"),
            id.concat("-haiku-4-5-20251001"),
        ];
        assert(views(options@) =~= model_options(self.agent.id@));
        self.open_settings_picker(SettingsEditTarget::ClaudeModel, options);
    }

    fn providers_key(&mut self, code: KeyCode) -> (r: Option<Effect>)
        ensures
            providers_step(*old(self), code, *final(self), r),
    {
        match code {
            KeyCode::Char('m') => {
                self.pick_model();
                Some(Effect::Nothing)
            },
            KeyCode::Char('e') => {
                let options = vec![
                    "min".to_owned(),
                    "low".to_owned(),
                    "medium".to_owned(),
                    "high".to_owned(),
                    "max".to_owned(),
                ];
                assert(views(options@) =~= effort_options());
                self.open_settings_picker(SettingsEditTarget::ClaudeEffort, options);
                Some(Effect::Nothing)
            },
            KeyCode::Char('r') => {
                self.config.remote_enabled = !self.config.remote_enabled;
                let label = self.agent.name.clone().concat(" remote mode");
                Some(save_notice(label.as_str()))
            },
            KeyCode::Char('u') => {
                self.config.auto_update = !self.config.auto_update;
                Some(save_notice("Auto-update"))
            },
            _ => None,
        }
    }

    fn notifications_key(&mut self, code: KeyCode) -> (r: Option<Effect>)
        ensures
            notifications_step(*old(self), code, *final(self), r),
    {
        if let Some(label) = switch_notification(&mut self.config.notifications, code) {
            return Some(save_notice(label));
        }
        match code {
            KeyCode::Char('c') => {
                self.start_settings_edit(SettingsEditTarget::NotificationCommand);
                Some(Effect::Nothing)
            },
            KeyCode::Char('t') => {
                self.start_settings_edit(SettingsEditTarget::NotificationTemplate);
                Some(Effect::Nothing)
            },
            _ => None,
        }
    }

    fn workflows_key(&mut self, workflows: &Vec<WorkflowEntry>, code: KeyCode) -> (r: Option<Effect>)
        ensures
            workflows_step(*old(self), workflows@, code, *final(self), r),
    {
        let i: usize = self.nav.settings_workflow_index;
        match code {
            KeyCode::Char('J') => {
                if workflows.len() > 0 {
                    self.nav.settings_workflow_index = step_down(i, workflows.len());
                }
                Some(Effect::Nothing)
            },
            KeyCode::Char('K') => {
                self.nav.settings_workflow_index = step_up(i);
                Some(Effect::Nothing)
            },
            KeyCode::Char('n') => Some(Effect::CreateWorkflow),
            KeyCode::Char('d') => {
                if i >= workflows.len() {
                    return Some(Effect::Nothing);
                }
                if workflows[i].builtin {
                    self.show_toast(
                        "Cannot delete built-in workflows".to_owned(),
                        ToastStyle::Info,
                    );
                    return Some(Effect::Nothing);
                }
                Some(Effect::DeleteWorkflow { name: workflows[i].name.clone() })
            },
            KeyCode::Char('e') => {
                if i >= workflows.len() {
                    return Some(Effect::Nothing);
                }
                if workflows[i].builtin {
                    self.show_toast("Cannot edit built-in workflows".to_owned(), ToastStyle::Info);
                } else {
                    self.input = TextInput::holding(workflows[i].name.clone());
                    self.nav.input_mode = InputMode::SettingsEdit;
                    self.settings_edit = Some(SettingsEditTarget::WorkflowName);
                }
                Some(Effect::Nothing)
            },
            _ => None,
        }
    }

    fn connect_github(&mut self, refresh: bool) -> (e: Effect)
        ensures
            connects(*old(self), refresh, *final(self), e),
    {
        if self.github.status.app_auth_available || self.github.gh_installed {
            let message = if self.github.status.app_auth_available {
                "Starting GitHub App device flow..."
            } else if refresh && self.github.status.gh_authenticated
                && !self.github.status.gh_has_project_scope {
                "Refreshing GitHub CLI permissions for Projects v2..."
            } else {
                "Starting GitHub CLI browser login..."
            };
            self.show_toast(message.to_owned(), ToastStyle::Info);
            Effect::ConnectGitHub
        } else {
            self.show_toast(
                "Install GitHub CLI or configure a custom GitHub App".to_owned(),
                ToastStyle::Error,
            );
            Effect::Nothing
        }
    }

    fn forget_login(&mut self)
        ensures
            login_forgotten(*old(self), *final(self)),
    {
        self.github.auth_prompt = None;
        self.github.auth_error = None;
        self.github.installations = Vec::new();
        self.nav.installation_index = 0;
    }

    fn disconnect_github(&mut self) -> (e: Effect)
        ensures
            disconnects(*old(self), *final(self), e),
    {
        self.forget_login();
        let ghost mid = *self;
        proof {
            assert(login_forgotten(*old(self), mid));
        }
        if self.github.status.authenticated {
            Effect::DisconnectGitHub { app_session: true }
        } else if self.github.status.gh_authenticated {
            Effect::DisconnectGitHub { app_session: false }
        } else {
            self.show_toast("GitHub is already disconnected".to_owned(), ToastStyle::Info);
            Effect::Nothing
        }
    }

    fn github_key(&mut self, code: KeyCode) -> (r: Option<Effect>)
        ensures
            github_step(*old(self), code, *final(self), r),
    {
        let target = match code {
            KeyCode::Char('a') => {
                return Some(self.connect_github(true));
            },
            KeyCode::Char('x') => {
                return Some(self.disconnect_github());
            },
            KeyCode::Char('f') => {
                return Some(Effect::ReadGitHubStatus);
            },
            KeyCode::Char('o') => {
                return Some(Effect::OpenInstallPage);
            },
            KeyCode::Char('y') => {
                return Some(
                    if self.selected_project().is_some() {
                        Effect::SyncProject
                    } else {
                        Effect::Nothing
                    },
                );
            },
            KeyCode::Char('g') | KeyCode::Char('p') => {
                return Some(Effect::PickProjectBoard);
            },
            KeyCode::Char('.') => {
                self.nav.show_advanced = !self.nav.show_advanced;
                return Some(Effect::Nothing);
            },
            KeyCode::Char('c') => SettingsEditTarget::ClientId,
            KeyCode::Char('s') => SettingsEditTarget::AppSlug,
            KeyCode::Char('u') => SettingsEditTarget::InstallUrl,
            KeyCode::Char('r') => SettingsEditTarget::RelayUrl,
            KeyCode::Char('i') => SettingsEditTarget::InstallationId,
            _ => {
                return None;
            },
        };
        if !self.nav.show_advanced {
            return None;
        }
        self.start_settings_edit(target);
        Some(Effect::Nothing)
    }

    fn general_key(&mut self, code: KeyCode) -> (r: Option<Effect>)
        ensures
            general_step(*old(self), code, *final(self), r),
    {
        match code {
            KeyCode::Char('a') => {
                self.config.sync_auto_push = !self.config.sync_auto_push;
                Some(save_notice("Sync auto-push"))
            },
            KeyCode::Char('r') => {
                self.config.rtk_enabled = !self.config.rtk_enabled;
                Some(save_notice("RTK integration"))
            },
            _ => None,
        }
    }

    fn default_installation_index(&self) -> (r: Option<usize>)
        ensures
            default_installation(*self) == match r {
                Some(i) => Some(i as int),
                None => None,
            },
    {
        match &self.config.github_app.default_installation_id {
            Some(text) => match parse_i64(text.as_str()) {
                Some(id) => find_installation(&self.github.installations, id),
                None => None,
            },
            None => None,
        }
    }

    /// Open the list of installations, or fetch it.
    pub fn open_github_installation_picker(&mut self) -> (e: Effect)
        ensures
            opened_installations(*old(self), *final(self), e),
            old(self).wf() ==> final(self).wf(),
    {
        if self.github.installations.len() == 0 {
            self.show_toast("Loading GitHub installations...".to_owned(), ToastStyle::Info);
            return Effect::FetchInstallations;
        }
        let index: usize = match self.default_installation_index() {
            Some(i) => i,
            None => self.nav.installation_index,
        };
        self.nav.installation_index = index;
        self.nav.input_mode = InputMode::GitHubInstallationPicker;
        Effect::Nothing
    }

    /// Do what Enter does in a section.
    pub fn activate_settings_section(&mut self, section: SettingsSection) -> (e: Effect)
        ensures
            activated(*old(self), section, *final(self), e),
            old(self).wf() ==> final(self).wf(),
    {
        match section {
            SettingsSection::AiProviders => {
                self.pick_model();
                Effect::Nothing
            },
            SettingsSection::Permissions => {
                self.enter_mode(InputMode::ConfigureWizard);
                Effect::LoadConfigStatus
            },
            SettingsSection::GitHub => {
                if self.github.status.authenticated {
                    self.open_github_installation_picker()
                } else {
                    self.connect_github(false)
                }
            },
            SettingsSection::Layout => {
                self.start_settings_edit(SettingsEditTarget::KeymapPreset);
                Effect::Nothing
            },
            SettingsSection::Notifications => {
                self.config.notifications.enabled = !self.config.notifications.enabled;
                save_notice("Voice notifications")
            },
            SettingsSection::ReviewLoop => {
                self.start_settings_edit(SettingsEditTarget::ReviewLoopInterval);
                Effect::Nothing
            },
            SettingsSection::Workflows => {
                self.show_toast(
                    "Use n to create, d to delete workflows".to_owned(),
                    ToastStyle::Info,
                );
                Effect::Nothing
            },
            SettingsSection::Sandbox => {
                self.start_settings_edit(SettingsEditTarget::RuntimeDefaultProfile);
                Effect::Nothing
            },
            SettingsSection::General => {
                self.config.sync_auto_push = !self.config.sync_auto_push;
                save_notice("Sync auto-push")
            },
        }
    }

    /// Handle a key of the settings view; `workflows` are those that the view lists.
    pub fn handle_settings_shortcuts(
        &mut self,
        workflows: &Vec<WorkflowEntry>,
        code: KeyCode,
    ) -> (r: Option<Effect>)
        ensures
            settings_step(*old(self), workflows@, code, *final(self), r),
            old(self).wf() ==> final(self).wf(),
    {
        if self.nav.workbench_view != WorkbenchView::Settings || self.nav.focus != Focus::Tasks {
            return None;
        }
        let section = match SettingsSection::at(self.nav.settings_section_index) {
            Some(section) => section,
            None => SettingsSection::AiProviders,
        };
        if code == KeyCode::Enter {
            return Some(self.activate_settings_section(section));
        }
        match section {
            SettingsSection::AiProviders => self.providers_key(code),
            SettingsSection::Notifications => self.notifications_key(code),
            SettingsSection::Workflows => self.workflows_key(workflows, code),
            SettingsSection::GitHub => self.github_key(code),
            SettingsSection::General => self.general_key(code),
            _ => {
                match edit_target(section, code) {
                    Some(target) => {
                        self.start_settings_edit(target);
                        Some(Effect::Nothing)
                    },
                    None => None,
                }
            },
        }
    }
}

fn switch_notification(n: &mut NotificationsConfig, code: KeyCode) -> (r: Option<&'static str>)
    ensures
        r is None ==> notification_switch(*old(n), code) is None && *final(n) == *old(n),
        r matches Some(label) ==> (notification_switch(*old(n), code) matches Some((after, text))
            && *final(n) == after && label@ == text),
{
    let label = match code {
        KeyCode::Char('e') => {
            n.enabled = !n.enabled;
            "Voice notifications"
        },
        KeyCode::Char('s') => {
            n.system = !n.system;
            "System banner notifications"
        },
        KeyCode::Char('a') => {
            n.rules.ask_user = !n.rules.ask_user;
            "Ask-user notifications"
        },
        KeyCode::Char('p') => {
            n.rules.approval_required = !n.rules.approval_required;
            "Approval notifications"
        },
        KeyCode::Char('r') => {
            n.rules.run_complete = !n.rules.run_complete;
            "Run complete notifications"
        },
        KeyCode::Char('v') => {
            n.rules.review_requested = !n.rules.review_requested;
            "Review-requested notifications"
        },
        KeyCode::Char('f') => {
            n.rules.ci_failed = !n.rules.ci_failed;
            "CI-failed notifications"
        },
        _ => {
            return None;
        },
    };
    Some(label)
}

fn edit_target(section: SettingsSection, code: KeyCode) -> (r: Option<SettingsEditTarget>)
    ensures
        r == edit_key(section, code),
{
    match section {
        SettingsSection::Layout => match code {
            KeyCode::Char('p') => Some(SettingsEditTarget::KeymapPreset),
            KeyCode::Char('l') => Some(SettingsEditTarget::KeymapLeader),
            _ => None,
        },
        SettingsSection::ReviewLoop => match code {
            KeyCode::Char('i') => Some(SettingsEditTarget::ReviewLoopInterval),
            KeyCode::Char('p') => Some(SettingsEditTarget::ReviewLoopPrompt),
            _ => None,
        },
        SettingsSection::Sandbox => match code {
            KeyCode::Char('p') => Some(SettingsEditTarget::RuntimeDefaultProfile),
            KeyCode::Char('s') => Some(SettingsEditTarget::RuntimeSandboxPath),
            KeyCode::Char('a') => Some(SettingsEditTarget::RuntimeAttachmentsDir),
            _ => None,
        },
        _ => None,
    }
}

fn find_option(options: &Vec<String>, value: &str) -> (r: usize)
    ensures
        r == option_place(views(options@), value@),
{
    let mut i: usize = 0;
    let ghost list = views(options@);
    while i < options.len()
        invariant
            i <= options@.len(),
            list == views(options@),
            first_place(list, value@, 0) == first_place(list, value@, i as int),
        decreases options@.len() - i,
    {
        if eq_ignore_case(options[i].as_str(), value) {
            return i;
        }
        i += 1;
    }
    0
}

fn find_installation(list: &Vec<GitHubInstallation>, id: i64) -> (r: Option<usize>)
    ensures
        installation_place(list@, id, 0) == match r {
            Some(i) => Some(i as int),
            None => None,
        },
{
    let mut i: usize = 0;
    while i < list.len()
        invariant
            i <= list@.len(),
            installation_place(list@, id, 0) == installation_place(list@, id, i as int),
        decreases list@.len() - i,
    {
        if list[i].id == id {
            return Some(i);
        }
        i += 1;
    }
    None
}

/// The options are marked at the one that is set, in any case, else at the first.
pub proof fn law_the_set_option_is_marked(options: Seq<Seq<char>>, value: Seq<char>, k: int)
    requires
        0 <= k <= options.len(),
        forall|j: int| 0 <= j < k ==> !same_ignoring_case(#[trigger] options[j], value),
    ensures
        k < options.len() && same_ignoring_case(options[k], value) ==> option_place(options, value)
            == k,
        k == options.len() ==> option_place(options, value) == 0,
{
    lemma_option_found(options, value, 0, k);
}

proof fn lemma_option_found(options: Seq<Seq<char>>, value: Seq<char>, from: int, k: int)
    requires
        0 <= from <= k <= options.len(),
        forall|j: int| from <= j < k ==> !same_ignoring_case(#[trigger] options[j], value),
    ensures
        k < options.len() && same_ignoring_case(options[k], value) ==> first_place(
            options,
            value,
            from,
        ) == k,
        k == options.len() ==> first_place(options, value, from) == 0,
    decreases k - from,
{
    if from < k {
        assert(!same_ignoring_case(options[from], value));
        lemma_option_found(options, value, from + 1, k);
    }
}

/// The keys of the providers' section: `m` and `e` offer the models and the efforts, `r` and
/// `u` turn the remote mode and the updates.
pub proof fn law_provider_settings(pre: App, code: KeyCode, post: App, r: Option<Effect>)
    requires
        providers_step(pre, code, post, r),
    ensures
        code == KeyCode::Char('m') ==> post.nav.input_mode == InputMode::SettingsPicker
            && post.settings_picker.target == Some(SettingsEditTarget::ClaudeModel)
            && post.settings_picker.options@.len() == 3,
        code == KeyCode::Char('e') ==> post.nav.input_mode == InputMode::SettingsPicker
            && post.settings_picker.target == Some(SettingsEditTarget::ClaudeEffort) && views(
            post.settings_picker.options@,
        ) == seq!["min"@, "low"@, "medium"@, "high"@, "max"@],
        code == KeyCode::Char('r') ==> post.config.remote_enabled == !pre.config.remote_enabled
            && post.config.auto_update == pre.config.auto_update && r is Some,
        code == KeyCode::Char('u') ==> post.config.auto_update == !pre.config.auto_update
            && post.config.remote_enabled == pre.config.remote_enabled && r is Some,
        code == KeyCode::Esc ==> r is None && post == pre,
{
    if code == KeyCode::Char('m') {
        assert(views(post.settings_picker.options@).len() == post.settings_picker.options@.len());
    }
}

/// The keys of the notifications' section turn one switch each.
pub proof fn law_notification_settings(pre: App, code: KeyCode, post: App, r: Option<Effect>)
    requires
        notifications_step(pre, code, post, r),
    ensures
        ({
            let a = pre.config.notifications;
            let b = post.config.notifications;
            &&& code == KeyCode::Char('e') ==> b == (NotificationsConfig {
                enabled: !a.enabled,
                ..a
            })
            &&& code == KeyCode::Char('s') ==> b == (NotificationsConfig { system: !a.system, ..a })
            &&& code == KeyCode::Char('a') ==> b.rules.ask_user == !a.rules.ask_user
                && b.rules.run_complete == a.rules.run_complete
            &&& code == KeyCode::Char('p') ==> b.rules.approval_required
                == !a.rules.approval_required && b.rules.ask_user == a.rules.ask_user
            &&& code == KeyCode::Char('r') ==> b.rules.run_complete == !a.rules.run_complete
                && b.rules.ci_failed == a.rules.ci_failed
            &&& code == KeyCode::Char('v') ==> b.rules.review_requested == !a.rules.review_requested
                && b.rules.run_complete == a.rules.run_complete
            &&& code == KeyCode::Char('f') ==> b.rules.ci_failed == !a.rules.ci_failed
                && b.rules.review_requested == a.rules.review_requested
            &&& code == KeyCode::Char('c') ==> post.settings_edit == Some(
                SettingsEditTarget::NotificationCommand,
            ) && post.input.text@ == a.command@ && b == a
            &&& code == KeyCode::Char('t') ==> post.settings_edit == Some(
                SettingsEditTarget::NotificationTemplate,
            ) && post.input.text@ == a.template@ && b == a
        }),
{
}

/// A workflow that is built in is neither deleted nor renamed; any other is, by its name.
pub proof fn law_own_workflows_are_changed(
    pre: App,
    workflows: Seq<WorkflowEntry>,
    code: KeyCode,
    post: App,
    r: Option<Effect>,
)
    requires
        workflows_step(pre, workflows, code, post, r),
        pre.nav.settings_workflow_index < workflows.len(),
    ensures
        ({
            let w = workflows[pre.nav.settings_workflow_index as int];
            &&& code == KeyCode::Char('d') && w.builtin ==> r == Some(Effect::Nothing)
            &&& code == KeyCode::Char('d') && !w.builtin ==> r == Some(
                Effect::DeleteWorkflow { name: w.name },
            )
            &&& code == KeyCode::Char('e') && !w.builtin ==> post.input.text@ == w.name@
                && post.settings_edit == Some(SettingsEditTarget::WorkflowName)
                && post.nav.input_mode == InputMode::SettingsEdit
            &&& code == KeyCode::Char('e') && w.builtin ==> post.settings_edit
                == pre.settings_edit && post.nav == pre.nav
            &&& code == KeyCode::Char('n') ==> r == Some(Effect::CreateWorkflow)
            &&& code == KeyCode::Char('K') && pre.nav.settings_workflow_index > 0
                ==> post.nav.settings_workflow_index + 1 == pre.nav.settings_workflow_index
        }),
{
}

/// The keys of GitHub's section: `a` connects, `x` disconnects, `f` reads the status, `o`
/// opens the page of the App, `g` chooses a board, and the full stop shows what is advanced,
/// whose keys work only then.
pub proof fn law_github_settings(pre: App, code: KeyCode, post: App, r: Option<Effect>)
    requires
        github_step(pre, code, post, r),
    ensures
        code == KeyCode::Char('a') && (pre.github.status.app_auth_available
            || pre.github.gh_installed) ==> r == Some(Effect::ConnectGitHub),
        code == KeyCode::Char('a') && !pre.github.status.app_auth_available
            && !pre.github.gh_installed ==> r == Some(Effect::Nothing) && (
        post.toast matches Some(t) && t.style == ToastStyle::Error),
        code == KeyCode::Char('f') ==> r == Some(Effect::ReadGitHubStatus),
        code == KeyCode::Char('x') && pre.github.status.authenticated ==> r == Some(
            Effect::DisconnectGitHub { app_session: true },
        ),
        code == KeyCode::Char('x') && !pre.github.status.authenticated
            && pre.github.status.gh_authenticated ==> r == Some(
            Effect::DisconnectGitHub { app_session: false },
        ),
        code == KeyCode::Char('x') && !pre.github.status.authenticated
            && !pre.github.status.gh_authenticated ==> r == Some(Effect::Nothing),
        code == KeyCode::Char('o') ==> r == Some(Effect::OpenInstallPage),
        code == KeyCode::Char('y') && pre.nav.project_index < pre.projects@.len() ==> r == Some(
            Effect::SyncProject,
        ),
        code == KeyCode::Char('g') || code == KeyCode::Char('p') ==> r == Some(
            Effect::PickProjectBoard,
        ),
        code == KeyCode::Char('.') ==> post.nav.show_advanced == !pre.nav.show_advanced,
        code == KeyCode::Char('c') && pre.nav.show_advanced ==> post.settings_edit == Some(
            SettingsEditTarget::ClientId,
        ),
        code == KeyCode::Char('s') && pre.nav.show_advanced ==> post.settings_edit == Some(
            SettingsEditTarget::AppSlug,
        ),
        code == KeyCode::Char('u') && pre.nav.show_advanced ==> post.settings_edit == Some(
            SettingsEditTarget::InstallUrl,
        ),
        code == KeyCode::Char('r') && pre.nav.show_advanced ==> post.settings_edit == Some(
            SettingsEditTarget::RelayUrl,
        ),
        code == KeyCode::Char('i') && pre.nav.show_advanced ==> post.settings_edit == Some(
            SettingsEditTarget::InstallationId,
        ),
        !pre.nav.show_advanced && (code == KeyCode::Char('c') || code == KeyCode::Char('s') || code
            == KeyCode::Char('u') || code == KeyCode::Char('r') || code == KeyCode::Char('i'))
            ==> r is None && post == pre,
{
}

/// The keys of the other sections, each in its own.
pub proof fn law_section_keys(code: KeyCode)
    ensures
        edit_key(SettingsSection::Layout, KeyCode::Char('p')) == Some(
            SettingsEditTarget::KeymapPreset,
        ),
        edit_key(SettingsSection::Layout, KeyCode::Char('l')) == Some(
            SettingsEditTarget::KeymapLeader,
        ),
        edit_key(SettingsSection::ReviewLoop, KeyCode::Char('i')) == Some(
            SettingsEditTarget::ReviewLoopInterval,
        ),
        edit_key(SettingsSection::ReviewLoop, KeyCode::Char('p')) == Some(
            SettingsEditTarget::ReviewLoopPrompt,
        ),
        edit_key(SettingsSection::Sandbox, KeyCode::Char('p')) == Some(
            SettingsEditTarget::RuntimeDefaultProfile,
        ),
        edit_key(SettingsSection::Sandbox, KeyCode::Char('s')) == Some(
            SettingsEditTarget::RuntimeSandboxPath,
        ),
        edit_key(SettingsSection::Sandbox, KeyCode::Char('a')) == Some(
            SettingsEditTarget::RuntimeAttachmentsDir,
        ),
        edit_key(SettingsSection::Permissions, code) is None,
        edit_key(SettingsSection::Layout, KeyCode::Enter) is None,
{
}

/// The general switches are turned one by one.
pub proof fn law_general_settings(pre: App, code: KeyCode, post: App, r: Option<Effect>)
    requires
        general_step(pre, code, post, r),
    ensures
        code == KeyCode::Char('a') ==> post.config.sync_auto_push == !pre.config.sync_auto_push
            && post.config.rtk_enabled == pre.config.rtk_enabled && r is Some,
        code == KeyCode::Char('r') ==> post.config.rtk_enabled == !pre.config.rtk_enabled
            && post.config.sync_auto_push == pre.config.sync_auto_push && r is Some,
        code != KeyCode::Char('a') && code != KeyCode::Char('r') ==> r is None && post == pre,
{
}

/// The installations are loaded where none is known, and otherwise offered from the one that
/// the settings name by its number.
pub proof fn law_installations_open_on_the_default(pre: App, post: App, e: Effect, id: i64, k: int)
    requires
        opened_installations(pre, post, e),
    ensures
        pre.github.installations@.len() == 0 ==> e == Effect::FetchInstallations,
        pre.github.installations@.len() > 0 ==> e == Effect::Nothing && post.nav.input_mode
            == InputMode::GitHubInstallationPicker,
        pre.config.github_app.default_installation_id matches Some(t) ==> (parsed_i64(t@) == Some(
            id,
        ) && 0 <= k < pre.github.installations@.len() && pre.github.installations@[k].id == id && (
        forall|j: int| 0 <= j < k ==> (#[trigger] pre.github.installations@[j]).id != id)
            ==> post.nav.installation_index == k),
{
    assert(pre.github.installations.len() == pre.github.installations@.len());
    if 0 <= k < pre.github.installations@.len() && pre.github.installations@[k].id == id && (
    forall|j: int| 0 <= j < k ==> (#[trigger] pre.github.installations@[j]).id != id) {
        lemma_installation_found(pre.github.installations@, id, 0, k);
    }
}

proof fn lemma_installation_found(list: Seq<GitHubInstallation>, id: i64, from: int, k: int)
    requires
        0 <= from <= k < list.len(),
        list[k].id == id,
        forall|j: int| from <= j < k ==> (#[trigger] list[j]).id != id,
    ensures
        installation_place(list, id, from) == Some(k),
    decreases k - from,
{
    if from < k {
        assert(list[from].id != id);
        lemma_installation_found(list, id, from + 1, k);
    }
}

/// The sections are told by their places, and enter does what each is for.
pub proof fn law_sections_by_place(a: App)
    ensures
        a.nav.settings_section_index == 0 ==> section_of(a) == SettingsSection::AiProviders,
        a.nav.settings_section_index == 1 ==> section_of(a) == SettingsSection::Permissions,
        a.nav.settings_section_index == 2 ==> section_of(a) == SettingsSection::GitHub,
        a.nav.settings_section_index == 3 ==> section_of(a) == SettingsSection::Layout,
        a.nav.settings_section_index == 4 ==> section_of(a) == SettingsSection::Notifications,
        a.nav.settings_section_index == 5 ==> section_of(a) == SettingsSection::ReviewLoop,
        a.nav.settings_section_index == 6 ==> section_of(a) == SettingsSection::Workflows,
        a.nav.settings_section_index == 7 ==> section_of(a) == SettingsSection::Sandbox,
        a.nav.settings_section_index == 8 ==> section_of(a) == SettingsSection::General,
{
}

/// Outside the list of settings its keys mean nothing here.
pub proof fn law_settings_keys_need_the_list(
    pre: App,
    workflows: Seq<WorkflowEntry>,
    code: KeyCode,
    post: App,
    r: Option<Effect>,
)
    requires
        settings_step(pre, workflows, code, post, r),
    ensures
        pre.nav.workbench_view != WorkbenchView::Settings || pre.nav.focus != Focus::Tasks ==> r
            is None && post == pre,
        pre.nav.workbench_view == WorkbenchView::Settings && pre.nav.focus == Focus::Tasks && code
            == KeyCode::Enter ==> r is Some,
        pre.nav.workbench_view == WorkbenchView::Settings && pre.nav.focus == Focus::Tasks && code
            == KeyCode::Enter && pre.nav.settings_section_index == 1 ==> r == Some(
            Effect::LoadConfigStatus,
        ),
        pre.nav.workbench_view == WorkbenchView::Settings && pre.nav.focus == Focus::Tasks && code
            == KeyCode::Enter && pre.nav.settings_section_index == 5 ==> post.settings_edit == Some(
            SettingsEditTarget::ReviewLoopInterval,
        ),
        pre.nav.workbench_view == WorkbenchView::Settings && pre.nav.focus == Focus::Tasks && code
            == KeyCode::Enter && pre.nav.settings_section_index == 4
            ==> post.config.notifications.enabled == !pre.config.notifications.enabled,
{
}

} // verus!
