//! The keys, pasted texts and resizes that the workbench takes, by what is open.

use vstd::prelude::*;
use vstd::string::*;

use crate::actions::{action_step, Context};
use crate::app::{github_login, in_mode, App, Nav, Tab};
use crate::board_state::{refiltered, Board};
use crate::effects::{AppError, Effect};
use crate::input_board::{board_step, unconfirmed};
use crate::input_drawers::{
    board_drawer_step, comment_step, details_at, field_picker_step, issue_form_step,
    my_task_drawer_step, review_drawer_step, search_step, sprints_step,
};
use crate::input_pickers::{
    boards_step, installations_step, opened_projects, opened_providers, projects_step,
    providers_picker_step, syncs,
};
use crate::input_settings::settings_step;
use crate::input_skills::{panel_step, skill_add_step, skill_search_step};
use crate::input_tasks::{
    confirm_step, edit_task_step, filter_step, new_project_step, new_task_step, palette_step,
    paths_asked, subtasks_step,
};
use crate::keys::{KeyCode, KeyModifiers};
use crate::launching::{launch_step, opened_ad_hoc_launch, started_selected_compose};
use crate::messages::{compose_key_step, text_inserted};
use crate::moves::{is_prefix, leader_step, prefix_step, without_leader};
use crate::palette::{lists_matches, Palette};
use crate::panes::{compute_pane_sizes_for_resize, pane_places, sizes_of, terminal_area};
use crate::settings::text_option;
use crate::settings_editor::{editor_step, picker_step};
use crate::skills::Skills;
use crate::tasks::lists_visible_tasks;
use crate::text_input::inserted;
use crate::views::{Focus, InputMode, WorkbenchView};

verus! {

// ---------------------------------------------------------------------------
// Keys of the workbench
// ---------------------------------------------------------------------------

/// The list of a view has the focus.
pub open spec fn in_list(a: App, view: WorkbenchView) -> bool {
    a.nav.workbench_view == view && a.nav.focus == Focus::Tasks
}

/// The other queue of pull requests is shown, from its start.
pub open spec fn queue_turned(a: App) -> App {
    App {
        nav: Nav {
            review_queue_tab: a.nav.review_queue_tab.other(),
            review_index: 0,
            inspector_scroll: 0,
            ..a.nav
        },
        ..a
    }
}

/// A letter starts a message to the selected thread.
pub open spec fn letter_typed(
    pre: App,
    c: Context,
    code: KeyCode,
    m: KeyModifiers,
    post: App,
    e: Effect,
) -> bool {
    exists|mid: App| #[trigger]
        started_selected_compose(pre, mid) && compose_key_step(
            mid,
            c.stored_thread,
            code,
            m,
            post,
            e,
        )
}

/// A key that no shortcut took: what the keymap binds it to, else a letter.
pub open spec fn bound_step(
    pre: App,
    c: Context,
    code: KeyCode,
    m: KeyModifiers,
    post: App,
    e: Effect,
) -> bool {
    match c.bound {
        Some(action) => action_step(pre, c, action, post, e),
        None => if m.is_empty() && in_list(pre, WorkbenchView::Threads) && code is Char {
            letter_typed(pre, c, code, m, post, e)
        } else {
            e == Effect::Nothing && post == pre
        },
    }
}

/// A key after the shortcuts of the lists: one of the settings, one that follows the
/// leader key, else what it is bound to.
pub open spec fn shortcut_step(
    pre: App,
    c: Context,
    code: KeyCode,
    m: KeyModifiers,
    post: App,
    e: Effect,
) -> bool {
    if !m.is_empty() {
        bound_step(pre, c, code, m, post, e)
    } else {
        ||| settings_step(pre, c.workflows@, code, post, Some(e))
        ||| exists|mid: App| #[trigger]
            settings_step(pre, c.workflows@, code, mid, None) && if is_prefix(
                mid,
                code,
                c.inspector,
            ) {
                prefix_step(mid, code, c.inspector, post, Some(e))
            } else {
                bound_step(mid, c, code, m, post, e)
            }
    }
}

/// A key while no form is open. The one that follows the leader key means the same in
/// every view.
pub open spec fn normal_step(
    pre: App,
    c: Context,
    code: KeyCode,
    m: KeyModifiers,
    post: App,
    e: Effect,
) -> bool {
    let plain = m.is_empty();
    if plain && pre.nav.leader_pending {
        prefix_step(pre, code, c.inspector, post, Some(e))
    } else if code == KeyCode::Char('N') && pre.nav.focus == Focus::Tasks {
        e == Effect::Nothing && opened_ad_hoc_launch(pre, post)
    } else if code == KeyCode::Char('R') && pre.nav.focus == Focus::Tasks {
        syncs(pre, post, e)
    } else if plain && code == KeyCode::Char('t') && in_list(pre, WorkbenchView::Reviews) {
        e == Effect::LoadReviewContext && post == queue_turned(pre)
    } else if plain && code == KeyCode::Char('i') && in_list(pre, WorkbenchView::Threads) {
        e == Effect::Nothing && started_selected_compose(pre, post)
    } else if plain && code == KeyCode::Char('m') && in_list(pre, WorkbenchView::Threads) {
        e == Effect::Nothing && opened_providers(pre, c.stored_thread, post)
    } else if plain && (code == KeyCode::Char('P') || code == KeyCode::Char('p'))
        && pre.nav.workbench_view != WorkbenchView::Settings {
        e == Effect::Nothing && opened_projects(pre, post)
    } else {
        shortcut_step(pre, c, code, m, post, e)
    }
}

impl App {
    fn turn_queue(&mut self)
        requires
            old(self).wf(),
        ensures
            *final(self) == queue_turned(*old(self)),
            final(self).wf(),
    {
        self.nav.review_queue_tab = self.nav.review_queue_tab.other();
        self.nav.review_index = 0;
        self.nav.inspector_scroll = 0;
    }

    fn type_letter(&mut self, c: &Context, code: KeyCode, m: KeyModifiers) -> (e: Effect)
        requires
            old(self).wf(),
        ensures
            letter_typed(*old(self), *c, code, m, *final(self), e),
            final(self).wf(),
    {
        self.start_thread_compose();
        let ghost mid = *self;
        assert(started_selected_compose(*old(self), mid));
        self.handle_thread_compose_key(&c.stored_thread, code, m)
    }

    fn handle_bound_key(&mut self, c: &Context, code: KeyCode, m: KeyModifiers) -> (e: Effect)
        requires
            old(self).wf(),
        ensures
            bound_step(*old(self), *c, code, m, *final(self), e),
            final(self).wf(),
    {
        if let Some(action) = c.bound {
            return self.execute_action(c, action);
        }
        let letter = match code {
            KeyCode::Char(_) => true,
            _ => false,
        };
        if letter && m.is_empty() && self.nav.workbench_view == WorkbenchView::Threads
            && self.nav.focus == Focus::Tasks {
            return self.type_letter(c, code, m);
        }
        Effect::Nothing
    }

    fn handle_shortcut(&mut self, c: &Context, code: KeyCode, m: KeyModifiers) -> (e: Effect)
        requires
            old(self).wf(),
        ensures
            shortcut_step(*old(self), *c, code, m, *final(self), e),
            final(self).wf(),
    {
        if !m.is_empty() {
            return self.handle_bound_key(c, code, m);
        }
        if let Some(e) = self.handle_settings_shortcuts(&c.workflows, code) {
            return e;
        }
        let ghost mid = *self;
        assert(settings_step(*old(self), c.workflows@, code, mid, None));
        if let Some(e) = self.handle_workbench_prefix(code, c.inspector) {
            return e;
        }
        self.handle_bound_key(c, code, m)
    }

    /// Handle a key while no form is open.
    pub fn handle_normal_key(&mut self, c: &Context, code: KeyCode, m: KeyModifiers) -> (e: Effect)
        requires
            old(self).wf(),
        ensures
            normal_step(*old(self), *c, code, m, *final(self), e),
            final(self).wf(),
    {
        let plain = m.is_empty();
        if plain && self.nav.leader_pending {
            if let Some(e) = self.handle_workbench_prefix(code, c.inspector) {
                return e;
            }
        }
        let in_tasks = self.nav.focus == Focus::Tasks;
        if code == KeyCode::Char('N') && in_tasks {
            self.open_adhoc_launch_modal();
            return Effect::Nothing;
        }
        if code == KeyCode::Char('R') && in_tasks {
            return self.refresh_board_issues();
        }
        let reviews = self.nav.workbench_view == WorkbenchView::Reviews && in_tasks;
        let threads = self.nav.workbench_view == WorkbenchView::Threads && in_tasks;
        if plain && code == KeyCode::Char('t') && reviews {
            self.turn_queue();
            return Effect::LoadReviewContext;
        }
        if plain && code == KeyCode::Char('i') && threads {
            self.start_thread_compose();
            return Effect::Nothing;
        }
        if plain && code == KeyCode::Char('m') && threads {
            self.open_thread_provider_picker(&c.stored_thread);
            return Effect::Nothing;
        }
        if plain && (code == KeyCode::Char('P') || code == KeyCode::Char('p'))
            && self.nav.workbench_view != WorkbenchView::Settings {
            self.open_project_picker();
            return Effect::Nothing;
        }
        self.handle_shortcut(c, code, m)
    }
}

// ---------------------------------------------------------------------------
// Keys of the forms
// ---------------------------------------------------------------------------

/// A key of the list of keys.
pub open spec fn help_step(pre: App, code: KeyCode, post: App) -> bool {
    post == match code {
        KeyCode::Esc | KeyCode::Char('?') | KeyCode::Char('q') => in_mode(pre, InputMode::Normal),
        _ => pre,
    }
}

/// A key of the details of a task.
pub open spec fn details_step(pre: App, code: KeyCode, post: App) -> bool {
    let scroll = pre.nav.task_details_scroll;
    post == match code {
        KeyCode::Esc | KeyCode::Char('v') | KeyCode::Char('q') => in_mode(pre, InputMode::Normal),
        KeyCode::Char('j') | KeyCode::Down => details_at(
            pre,
            if scroll < u16::MAX {
                (scroll + 1) as u16
            } else {
                scroll
            },
        ),
        KeyCode::Char('k') | KeyCode::Up => details_at(
            pre,
            if scroll > 0 {
                (scroll - 1) as u16
            } else {
                scroll
            },
        ),
        _ => pre,
    }
}

/// A key of the question whether the agent gets the permissions that it needs.
pub open spec fn configure_step(pre: App, code: KeyCode, post: App, e: Effect) -> bool {
    match code {
        KeyCode::Esc | KeyCode::Char('q') => e == Effect::Nothing && post == in_mode(
            pre,
            InputMode::Normal,
        ),
        KeyCode::Char('a') => e == Effect::ApplyPermissions && post == in_mode(
            pre,
            InputMode::Normal,
        ),
        _ => e == Effect::Nothing && post == pre,
    }
}

/// A key of a form that can be filled in wrongly.
pub open spec fn checked_step(
    pre: App,
    c: Context,
    code: KeyCode,
    m: KeyModifiers,
    post: App,
    r: Result<Effect, AppError>,
) -> bool {
    match pre.nav.input_mode {
        InputMode::LaunchThread => launch_step(pre, code, m, post, r),
        InputMode::SettingsEdit => editor_step(pre, c.workflows@, code, m, post, r),
        _ => picker_step(pre, code, post, r),
    }
}

/// A key of a list or a form of the workbench.
pub open spec fn workbench_form_step(
    pre: App,
    c: Context,
    code: KeyCode,
    m: KeyModifiers,
    post: App,
    e: Effect,
) -> bool {
    match pre.nav.input_mode {
        InputMode::ThreadCompose => compose_key_step(pre, c.stored_thread, code, m, post, e),
        InputMode::ThreadProviderPicker => providers_picker_step(
            pre,
            c.stored_thread,
            code,
            post,
            e,
        ),
        InputMode::GitHubInstallationPicker => installations_step(pre, code, post, e),
        InputMode::GitHubProjectPicker => boards_step(pre, code, m, post, e),
        InputMode::ProjectPicker => projects_step(pre, code, m, post, e),
        InputMode::NewTask => new_task_step(pre, code, m, post, e),
        InputMode::EditTask => edit_task_step(pre, code, m, post, e),
        InputMode::NewProject => new_project_step(pre, text_option(c.home), code, m, post, e),
        InputMode::ConfirmDelete => confirm_step(pre, code, post, e),
        InputMode::CommandPalette => palette_step(pre, code, m, post, e),
        InputMode::SkillPanel => panel_step(pre, code, post, e),
        InputMode::SkillSearch => skill_search_step(pre, code, m, post, e),
        InputMode::SkillAdd => skill_add_step(pre, code, m, post, e),
        InputMode::TaskFilter => filter_step(pre, code, m, post, e),
        InputMode::SubtaskPanel => subtasks_step(pre, code, m, post, e),
        InputMode::ConfigureWizard => configure_step(pre, code, post, e),
        InputMode::HelpOverlay => e == Effect::Nothing && help_step(pre, code, post),
        _ => e == Effect::Nothing && details_step(pre, code, post),
    }
}

/// A key of the board or of a drawer.
pub open spec fn board_form_step(
    pre: App,
    c: Context,
    code: KeyCode,
    m: KeyModifiers,
    post: App,
    e: Effect,
) -> bool {
    match pre.nav.input_mode {
        InputMode::BoardView => board_step(pre, c, code, m, post, e),
        InputMode::MilestoneFilter => e == Effect::Nothing && sprints_step(pre, code, post),
        InputMode::BoardFilter => e == Effect::Nothing && search_step(pre, code, m, post),
        InputMode::CommentCompose => comment_step(pre, code, m, post, e),
        InputMode::BoardIssueDrawer => board_drawer_step(pre, code, m, post, e),
        InputMode::MyTaskDrawer => my_task_drawer_step(pre, c.stored_session, code, m, post, e),
        InputMode::FieldPicker => field_picker_step(pre, code, post, e),
        InputMode::ReviewDrawer => review_drawer_step(pre, code, m, post, e),
        _ => issue_form_step(pre, code, m, post, e),
    }
}

pub open spec fn is_checked_form(mode: InputMode) -> bool {
    mode == InputMode::LaunchThread || mode == InputMode::SettingsEdit || mode
        == InputMode::SettingsPicker
}

pub open spec fn is_board_form(mode: InputMode) -> bool {
    match mode {
        InputMode::BoardView
        | InputMode::MilestoneFilter
        | InputMode::BoardFilter
        | InputMode::CommentCompose
        | InputMode::BoardIssueDrawer
        | InputMode::MyTaskDrawer
        | InputMode::FieldPicker
        | InputMode::CreateGitHubIssue
        | InputMode::EditGitHubIssue
        | InputMode::ReviewDrawer => true,
        _ => false,
    }
}

/// A key of the workbench goes to what is open.
pub open spec fn dashboard_step(
    pre: App,
    c: Context,
    code: KeyCode,
    m: KeyModifiers,
    post: App,
    r: Result<Effect, AppError>,
) -> bool {
    let mode = pre.nav.input_mode;
    if is_checked_form(mode) {
        checked_step(pre, c, code, m, post, r)
    } else {
        r matches Ok(e) && if mode == InputMode::Normal {
            normal_step(pre, c, code, m, post, e)
        } else if is_board_form(mode) {
            board_form_step(pre, c, code, m, post, e)
        } else {
            workbench_form_step(pre, c, code, m, post, e)
        }
    }
}

/// The lists of boards keep the app valid.
proof fn lemma_boards_keep_wf(pre: App, code: KeyCode, m: KeyModifiers, post: App, e: Effect)
    requires
        pre.wf(),
        boards_step(pre, code, m, post, e),
    ensures
        post.wf(),
{
}

/// The list of installations keeps the app valid.
proof fn lemma_installations_keep_wf(pre: App, code: KeyCode, post: App, e: Effect)
    requires
        pre.wf(),
        installations_step(pre, code, post, e),
    ensures
        post.wf(),
{
}

/// The list of a setting's values keeps the app valid.
proof fn lemma_values_keep_wf(pre: App, code: KeyCode, post: App, r: Result<Effect, AppError>)
    requires
        pre.wf(),
        picker_step(pre, code, post, r),
    ensures
        post.wf(),
{
}

impl App {
    fn handle_help_key(&mut self, code: KeyCode)
        requires
            old(self).wf(),
        ensures
            help_step(*old(self), code, *final(self)),
            final(self).wf(),
    {
        if code == KeyCode::Esc || code == KeyCode::Char('?') || code == KeyCode::Char('q') {
            self.nav.input_mode = InputMode::Normal;
        }
    }

    fn handle_details_key(&mut self, code: KeyCode)
        requires
            old(self).wf(),
        ensures
            details_step(*old(self), code, *final(self)),
            final(self).wf(),
    {
        match code {
            KeyCode::Esc | KeyCode::Char('v') | KeyCode::Char('q') => {
                self.nav.input_mode = InputMode::Normal;
            },
            KeyCode::Char('j') | KeyCode::Down => {
                self.nav.task_details_scroll = self.nav.task_details_scroll.saturating_add(1);
            },
            KeyCode::Char('k') | KeyCode::Up => {
                self.nav.task_details_scroll = self.nav.task_details_scroll.saturating_sub(1);
            },
            _ => {},
        }
    }

    fn handle_checked_form_key(&mut self, c: &Context, code: KeyCode, m: KeyModifiers) -> (r: Result<
        Effect,
        AppError,
    >)
        requires
            old(self).wf(),
        ensures
            checked_step(*old(self), *c, code, m, *final(self), r),
            final(self).wf(),
    {
        match self.nav.input_mode {
            InputMode::LaunchThread => self.handle_launch_thread_key(code, m),
            InputMode::SettingsEdit => self.handle_settings_edit_key(&c.workflows, code, m),
            _ => {
                let r = self.handle_settings_picker_key(code);
                proof {
                    lemma_values_keep_wf(*old(self), code, *self, r);
                }
                r
            },
        }
    }

    fn pick_board_key(&mut self, code: KeyCode, m: KeyModifiers) -> (e: Effect)
        requires
            old(self).wf(),
        ensures
            boards_step(*old(self), code, m, *final(self), e),
            final(self).wf(),
    {
        let e = self.handle_github_project_picker_key(code, m);
        proof {
            lemma_boards_keep_wf(*old(self), code, m, *self, e);
        }
        e
    }

    fn pick_installation_key(&mut self, code: KeyCode) -> (e: Effect)
        requires
            old(self).wf(),
        ensures
            installations_step(*old(self), code, *final(self), e),
            final(self).wf(),
    {
        let e = self.handle_github_installation_picker_key(code);
        proof {
            lemma_installations_keep_wf(*old(self), code, *self, e);
        }
        e
    }

    fn handle_workbench_form_key(&mut self, c: &Context, code: KeyCode, m: KeyModifiers) -> (e:
        Effect)
        requires
            old(self).wf(),
        ensures
            workbench_form_step(*old(self), *c, code, m, *final(self), e),
            final(self).wf(),
    {
        match self.nav.input_mode {
            InputMode::ThreadCompose => self.handle_thread_compose_key(&c.stored_thread, code, m),
            InputMode::ThreadProviderPicker => self.handle_thread_provider_picker_key(
                &c.stored_thread,
                code,
            ),
            InputMode::GitHubInstallationPicker => self.pick_installation_key(code),
            InputMode::GitHubProjectPicker => self.pick_board_key(code, m),
            InputMode::ProjectPicker => self.handle_project_picker_key(code, m),
            InputMode::NewTask => self.handle_input_key(code, m),
            InputMode::EditTask => self.handle_edit_task_key(code, m),
            InputMode::NewProject => self.handle_new_project_key(&c.home, code, m),
            InputMode::ConfirmDelete => self.handle_confirm_delete_key(code),
            InputMode::CommandPalette => self.handle_palette_key(code, m),
            InputMode::SkillPanel => self.handle_skill_panel_key(code),
            InputMode::SkillSearch => self.handle_skill_search_key(code, m),
            InputMode::SkillAdd => self.handle_skill_add_key(code, m),
            InputMode::TaskFilter => self.handle_task_filter_key(code, m),
            InputMode::SubtaskPanel => self.handle_subtask_panel_key(code, m),
            InputMode::ConfigureWizard => self.handle_configure_key(code),
            InputMode::HelpOverlay => {
                self.handle_help_key(code);
                Effect::Nothing
            },
            _ => {
                self.handle_details_key(code);
                Effect::Nothing
            },
        }
    }

    fn handle_board_form_key(&mut self, c: &Context, code: KeyCode, m: KeyModifiers) -> (e: Effect)
        requires
            old(self).wf(),
        ensures
            board_form_step(*old(self), *c, code, m, *final(self), e),
            final(self).wf(),
    {
        match self.nav.input_mode {
            InputMode::BoardView => self.handle_board_key(c, code, m),
            InputMode::MilestoneFilter => {
                self.handle_board_sprint_picker_key(code);
                Effect::Nothing
            },
            InputMode::BoardFilter => {
                self.handle_board_filter_key(code, m);
                Effect::Nothing
            },
            InputMode::CommentCompose => self.handle_comment_compose_key(code, m),
            InputMode::BoardIssueDrawer => self.handle_board_drawer_key(code, m),
            InputMode::MyTaskDrawer => self.handle_my_task_drawer_key(&c.stored_session, code, m),
            InputMode::FieldPicker => self.handle_field_picker_key(code),
            InputMode::ReviewDrawer => self.handle_review_drawer_key(code, m),
            _ => self.handle_github_issue_form_key(code, m),
        }
    }

    /// Handle a key of the workbench, by what is open.
    pub fn handle_dashboard_key(&mut self, c: &Context, code: KeyCode, m: KeyModifiers) -> (r: Result<
        Effect,
        AppError,
    >)
        requires
            old(self).wf(),
        ensures
            dashboard_step(*old(self), *c, code, m, *final(self), r),
            final(self).wf(),
    {
        match self.nav.input_mode {
            InputMode::LaunchThread | InputMode::SettingsEdit | InputMode::SettingsPicker => {
                self.handle_checked_form_key(c, code, m)
            },
            InputMode::Normal => Ok(self.handle_normal_key(c, code, m)),
            InputMode::BoardView
            | InputMode::MilestoneFilter
            | InputMode::BoardFilter
            | InputMode::CommentCompose
            | InputMode::BoardIssueDrawer
            | InputMode::MyTaskDrawer
            | InputMode::FieldPicker
            | InputMode::CreateGitHubIssue
            | InputMode::EditGitHubIssue
            | InputMode::ReviewDrawer => Ok(self.handle_board_form_key(c, code, m)),
            _ => Ok(self.handle_workbench_form_key(c, code, m)),
        }
    }
}

// ---------------------------------------------------------------------------
// Pasted texts
// ---------------------------------------------------------------------------

/// A text was inserted into the field of the form.
pub open spec fn pasted_into_input(pre: App, text: Seq<char>, post: App) -> bool {
    post.input@ == inserted(pre.input@, text) && post == (App { input: post.input, ..pre })
}

pub open spec fn pasted_into_palette(pre: App, text: Seq<char>, post: App) -> bool {
    &&& post.input@ == inserted(pre.input@, text)
    &&& lists_matches(post.palette.filtered@, pre.palette.items@, post.input.text@)
    &&& post == (App {
        input: post.input,
        palette: Palette { filtered: post.palette.filtered, index: 0, ..pre.palette },
        ..pre
    })
}

/// The query for skills was pasted into; what was found before is dropped.
pub open spec fn pasted_into_search(pre: App, text: Seq<char>, post: App) -> bool {
    &&& post.input@ == inserted(pre.input@, text)
    &&& post.skills.results@.len() == 0
    &&& post.skills.status@.len() == 0
    &&& post == (App {
        input: post.input,
        skills: Skills {
            results: post.skills.results,
            status: post.skills.status,
            ..pre.skills
        },
        ..pre
    })
}

pub open spec fn pasted_into_filter(pre: App, text: Seq<char>, post: App) -> bool {
    &&& post.task_filter@ == inserted(pre.task_filter@, text)
    &&& lists_visible_tasks(post.visible@, pre.tasks@, post.task_filter.text@)
    &&& post == (App {
        task_filter: post.task_filter,
        visible: post.visible,
        nav: Nav { task_index: 0, ..pre.nav },
        ..pre
    })
}

pub open spec fn pasted_into_board(pre: App, text: Seq<char>, post: App) -> bool {
    &&& post.board.filter@ == inserted(pre.board.filter@, text)
    &&& refiltered(
        Board { filter: post.board.filter, ..pre.board },
        post.board,
        github_login(pre),
    )
    &&& post == (App { board: post.board, ..pre })
}

pub open spec fn pasted_into_project(
    pre: App,
    home: Option<Seq<char>>,
    text: Seq<char>,
    post: App,
    e: Effect,
) -> bool {
    if pre.project_form.field == 1 {
        exists|mid: App| #[trigger]
            pasted_into_input(pre, text, mid) && paths_asked(mid, home, post, e)
    } else {
        e == Effect::Nothing && pasted_into_input(pre, text, post)
    }
}

/// A text that was pasted goes into the field that takes text, where there is one.
pub open spec fn paste_step(
    pre: App,
    home: Option<Seq<char>>,
    text: Seq<char>,
    post: App,
    e: Effect,
) -> bool {
    match pre.nav.input_mode {
        InputMode::NewTask | InputMode::EditTask => e == Effect::Nothing
            && if pre.task_form.field == 0 || pre.task_form.field == 2 || pre.task_form.field == 3 {
            pasted_into_input(pre, text, post)
        } else {
            post == pre
        },
        InputMode::NewProject => pasted_into_project(pre, home, text, post, e),
        InputMode::CommandPalette => e == Effect::Nothing && pasted_into_palette(pre, text, post),
        InputMode::SkillSearch => e == Effect::Nothing && pasted_into_search(pre, text, post),
        InputMode::SkillAdd
        | InputMode::SubtaskPanel
        | InputMode::SettingsEdit
        | InputMode::LaunchThread => e == Effect::Nothing && pasted_into_input(pre, text, post),
        InputMode::ThreadCompose => e == Effect::Nothing && text_inserted(pre, text, post),
        InputMode::TaskFilter => e == Effect::Nothing && pasted_into_filter(pre, text, post),
        InputMode::BoardFilter => e == Effect::Nothing && pasted_into_board(pre, text, post),
        _ => e == Effect::Nothing && post == pre,
    }
}

impl App {
    fn paste_into_input(&mut self, text: &str)
        requires
            old(self).wf(),
        ensures
            pasted_into_input(*old(self), text@, *final(self)),
            final(self).wf(),
    {
        self.input.insert_text(text);
    }

    fn paste_into_palette(&mut self, text: &str)
        requires
            old(self).wf(),
        ensures
            pasted_into_palette(*old(self), text@, *final(self)),
            final(self).wf(),
    {
        self.input.insert_text(text);
        self.palette.filter_palette(self.input.text.as_str());
        self.palette.index = 0;
    }

    fn paste_into_search(&mut self, text: &str)
        requires
            old(self).wf(),
        ensures
            pasted_into_search(*old(self), text@, *final(self)),
            final(self).wf(),
    {
        self.input.insert_text(text);
        self.skills.results = Vec::new();
        self.skills.status = String::new();
    }

    fn paste_into_filter(&mut self, text: &str)
        requires
            old(self).wf(),
        ensures
            pasted_into_filter(*old(self), text@, *final(self)),
            final(self).wf(),
    {
        self.task_filter.insert_text(text);
        self.recompute_visible_tasks();
        self.nav.task_index = 0;
    }

    fn paste_into_board(&mut self, text: &str)
        requires
            old(self).wf(),
        ensures
            pasted_into_board(*old(self), text@, *final(self)),
            final(self).wf(),
    {
        self.board.filter.insert_text(text);
        let login = self.current_github_login();
        self.board.apply_board_filter(&login);
    }

    fn paste_into_project(&mut self, home: &Option<String>, text: &str) -> (e: Effect)
        requires
            old(self).wf(),
        ensures
            pasted_into_project(*old(self), text_option(*home), text@, *final(self), e),
            final(self).wf(),
    {
        self.paste_into_input(text);
        let ghost mid = *self;
        assert(pasted_into_input(*old(self), text@, mid));
        if self.project_form.field == 1 {
            self.ask_paths(home)
        } else {
            Effect::Nothing
        }
    }

    /// Insert a text that was pasted into the field that takes text.
    pub fn handle_dashboard_paste(&mut self, home: &Option<String>, text: &str) -> (e: Effect)
        requires
            old(self).wf(),
        ensures
            paste_step(*old(self), text_option(*home), text@, *final(self), e),
            final(self).wf(),
    {
        match self.nav.input_mode {
            InputMode::NewTask | InputMode::EditTask => {
                let field: u8 = self.task_form.field;
                if field == 0 || field == 2 || field == 3 {
                    self.paste_into_input(text);
                }
                Effect::Nothing
            },
            InputMode::NewProject => self.paste_into_project(home, text),
            InputMode::CommandPalette => {
                self.paste_into_palette(text);
                Effect::Nothing
            },
            InputMode::SkillSearch => {
                self.paste_into_search(text);
                Effect::Nothing
            },
            InputMode::SkillAdd
            | InputMode::SubtaskPanel
            | InputMode::SettingsEdit
            | InputMode::LaunchThread => {
                self.paste_into_input(text);
                Effect::Nothing
            },
            InputMode::ThreadCompose => {
                self.insert_into_compose(text);
                Effect::Nothing
            },
            InputMode::TaskFilter => {
                self.paste_into_filter(text);
                Effect::Nothing
            },
            InputMode::BoardFilter => {
                self.paste_into_board(text);
                Effect::Nothing
            },
            _ => Effect::Nothing,
        }
    }
}

// ---------------------------------------------------------------------------
// Resizes
// ---------------------------------------------------------------------------

/// The sizes of the panes of a tab, each with its rows and columns.
pub struct TabSizes {
    pub tab: usize,
    pub panes: Vec<(u32, u16, u16)>,
}

/// The panes of a tab fill a terminal of a size.
pub open spec fn fills(tab: Tab, cols: u16, rows: u16, panes: Seq<(u32, u16, u16)>) -> bool {
    tab matches Tab::Session { panes: p, .. } && panes == sizes_of(
        pane_places(p.layout, terminal_area(cols, rows)),
    )
}

/// The places of the session tabs among the first `n` tabs.
pub open spec fn session_places(tabs: Seq<Tab>, n: nat) -> Seq<usize>
    decreases n,
{
    if n == 0 {
        Seq::empty()
    } else if tabs[n - 1] is Session {
        session_places(tabs, (n - 1) as nat).push((n - 1) as usize)
    } else {
        session_places(tabs, (n - 1) as nat)
    }
}

pub open spec fn tabs_of(sizes: Seq<TabSizes>) -> Seq<usize> {
    sizes.map_values(|s: TabSizes| s.tab)
}

impl App {
    /// The sizes that all panes take in a terminal of a size.
    pub fn handle_resize(&self, cols: u16, rows: u16) -> (r: Vec<TabSizes>)
        requires
            self.wf(),
        ensures
            tabs_of(r@) == session_places(self.tabs@, self.tabs@.len()),
            forall|i: int|
                0 <= i < r@.len() ==> (#[trigger] r@[i]).tab < self.tabs@.len() && fills(
                    self.tabs@[r@[i].tab as int],
                    cols,
                    rows,
                    r@[i].panes@,
                ),
    {
        let mut r: Vec<TabSizes> = Vec::new();
        let mut i: usize = 0;
        while i < self.tabs.len()
            invariant
                self.wf(),
                i <= self.tabs@.len(),
                tabs_of(r@) =~= session_places(self.tabs@, i as nat),
                forall|k: int|
                    0 <= k < r@.len() ==> (#[trigger] r@[k]).tab < self.tabs@.len() && fills(
                        self.tabs@[r@[k].tab as int],
                        cols,
                        rows,
                        r@[k].panes@,
                    ),
            decreases self.tabs@.len() - i,
        {
            assert(crate::app::tab_wf(self.tabs@[i as int]));
            match &self.tabs[i] {
                Tab::Session { panes, .. } => {
                    let sizes = compute_pane_sizes_for_resize(&panes.layout, cols, rows);
                    let ghost before = r@;
                    let entry = TabSizes { tab: i, panes: sizes };
                    r.push(entry);
                    assert(tabs_of(r@) =~= tabs_of(before).push(i));
                },
                Tab::Dashboard => {},
            }
            i += 1;
        }
        r
    }
}

// ---------------------------------------------------------------------------
// Laws
// ---------------------------------------------------------------------------

/// Only a form can be filled in wrongly: while none is open every key is taken.
pub proof fn law_only_forms_refuse(
    pre: App,
    c: Context,
    code: KeyCode,
    m: KeyModifiers,
    post: App,
    r: Result<Effect, AppError>,
)
    requires
        dashboard_step(pre, c, code, m, post, r),
        r is Err,
    ensures
        is_checked_form(pre.nav.input_mode),
{
}

/// What is pasted while no field takes text changes nothing.
pub proof fn law_paste_needs_a_field(
    pre: App,
    home: Option<Seq<char>>,
    text: Seq<char>,
    post: App,
    e: Effect,
)
    requires
        paste_step(pre, home, text, post, e),
        pre.nav.input_mode == InputMode::Normal || pre.nav.input_mode == InputMode::ConfirmDelete
            || pre.nav.input_mode == InputMode::SkillPanel || pre.nav.input_mode
            == InputMode::HelpOverlay,
    ensures
        post == pre,
        e == Effect::Nothing,
{
}

/// The key that follows the leader key means the same in every view and on the board, and
/// ends the wait for it.
pub proof fn law_leader_keys_mean_the_same_everywhere(
    pre: App,
    c: Context,
    code: KeyCode,
    post: App,
    e: Effect,
)
    requires
        pre.nav.leader_pending,
    ensures
        normal_step(pre, c, code, KeyModifiers::none(), post, e) ==> leader_step(
            without_leader(pre),
            code,
            post,
            e,
        ),
        board_step(pre, c, code, KeyModifiers::none(), post, e) ==> leader_step(
            without_leader(unconfirmed(pre, code)),
            code,
            post,
            e,
        ),
{
}

/// After the leader key, `p` leads to the providers in the settings and `t` to the tasks,
/// wherever the user is.
pub proof fn law_leader_leads_to_its_view(pre: App, c: Context, post: App, e: Effect)
    requires
        pre.nav.leader_pending,
    ensures
        normal_step(pre, c, KeyCode::Char('p'), KeyModifiers::none(), post, e)
            ==> post.nav.workbench_view == WorkbenchView::Settings
            && post.nav.settings_section_index == 0 && !post.nav.leader_pending,
        normal_step(pre, c, KeyCode::Char('t'), KeyModifiers::none(), post, e)
            ==> post.nav.workbench_view == WorkbenchView::MyTasks && !post.nav.leader_pending,
{
}

/// The keys of the dashboard that mean the same in every list: a large `N` opens a launch of
/// one's own, a large `R` reads GitHub anew; in the review queue `t` turns it, and in the
/// list of threads `i` writes a message.
pub proof fn law_list_keys(
    pre: App,
    c: Context,
    code: KeyCode,
    m: KeyModifiers,
    post: App,
    e: Effect,
)
    requires
        normal_step(pre, c, code, m, post, e),
        !pre.nav.leader_pending,
        pre.nav.focus == Focus::Tasks,
    ensures
        code == KeyCode::Char('N') ==> e == Effect::Nothing && (pre.nav.project_index
            < pre.projects@.len() ==> post.nav.input_mode == InputMode::LaunchThread && (
        post.launch.draft matches Some(d) && d.task_id is None && d.review_pr is None
            && d.board_issue is None)),
        code == KeyCode::Char('t') && m.is_empty() && pre.nav.workbench_view
            == WorkbenchView::Reviews ==> post.nav.review_queue_tab != pre.nav.review_queue_tab
            && post.nav.review_index == 0 && e == Effect::LoadReviewContext,
        code == KeyCode::Char('i') && m.is_empty() && pre.nav.workbench_view
            == WorkbenchView::Threads && pre.nav.thread_index < pre.threads@.len()
            ==> post.nav.input_mode == InputMode::ThreadCompose,
        (code == KeyCode::Char('p') || code == KeyCode::Char('P')) && m.is_empty()
            && pre.nav.workbench_view != WorkbenchView::Settings ==> e == Effect::Nothing,
{
    if pre.nav.workbench_view == WorkbenchView::Threads && pre.nav.thread_index
        < pre.threads@.len() {
        let t = pre.threads@[pre.nav.thread_index as int];
        let p = crate::app::thread_with_id(t.id@);
        assert(p(t));
        assert(crate::lists::any_where(pre.threads@, p));
    }
}

/// The help and the details are left with escape or `q`; the details move by one line.
pub proof fn law_overlays_are_left(pre: App, code: KeyCode, post: App)
    ensures
        help_step(pre, code, post) && (code == KeyCode::Esc || code == KeyCode::Char('q') || code
            == KeyCode::Char('?')) ==> post.nav.input_mode == InputMode::Normal,
        help_step(pre, code, post) && code == KeyCode::Char('j') ==> post == pre,
        details_step(pre, code, post) && (code == KeyCode::Esc || code == KeyCode::Char('q') || code
            == KeyCode::Char('v')) ==> post.nav.input_mode == InputMode::Normal,
        details_step(pre, code, post) && (code == KeyCode::Down || code == KeyCode::Char('j'))
            && pre.nav.task_details_scroll < u16::MAX ==> post.nav.task_details_scroll
            == pre.nav.task_details_scroll + 1,
        details_step(pre, code, post) && (code == KeyCode::Up || code == KeyCode::Char('k'))
            && pre.nav.task_details_scroll > 0 ==> post.nav.task_details_scroll + 1
            == pre.nav.task_details_scroll,
{
}

/// Permissions are applied on `a` and on no other key.
pub proof fn law_permissions_are_applied_on_request(pre: App, code: KeyCode, post: App, e: Effect)
    requires
        configure_step(pre, code, post, e),
    ensures
        code == KeyCode::Char('a') <==> e == Effect::ApplyPermissions,
        code == KeyCode::Char('a') || code == KeyCode::Esc || code == KeyCode::Char('q')
            ==> post.nav.input_mode == InputMode::Normal,
{
}

/// What is pasted goes to the field that is typed in: of a form for tasks only to a field
/// for text, and where nothing is typed nowhere.
pub proof fn law_pastes_go_to_the_field(
    pre: App,
    home: Option<Seq<char>>,
    text: Seq<char>,
    post: App,
    e: Effect,
)
    requires
        paste_step(pre, home, text, post, e),
    ensures
        (pre.nav.input_mode == InputMode::NewTask || pre.nav.input_mode == InputMode::EditTask) && (
        pre.task_form.field == 0 || pre.task_form.field == 2 || pre.task_form.field == 3)
            ==> post.input@.text() =~= pre.input@.before + text + pre.input@.after,
        (pre.nav.input_mode == InputMode::NewTask || pre.nav.input_mode == InputMode::EditTask) && (
        pre.task_form.field == 1 || pre.task_form.field == 4 || pre.task_form.field == 5
            || pre.task_form.field == 6) ==> post == pre,
        pre.nav.input_mode == InputMode::CommandPalette || pre.nav.input_mode
            == InputMode::SkillSearch || pre.nav.input_mode == InputMode::SkillAdd
            || pre.nav.input_mode == InputMode::SubtaskPanel || pre.nav.input_mode
            == InputMode::SettingsEdit || pre.nav.input_mode == InputMode::LaunchThread
            || pre.nav.input_mode == InputMode::ThreadCompose ==> post.input@.text()
            =~= pre.input@.before + text + pre.input@.after,
        pre.nav.input_mode == InputMode::TaskFilter ==> post.task_filter@.text()
            =~= pre.task_filter@.before + text + pre.task_filter@.after,
        pre.nav.input_mode == InputMode::BoardFilter ==> post.board.filter@.text()
            =~= pre.board.filter@.before + text + pre.board.filter@.after,
        pre.nav.input_mode == InputMode::Normal || pre.nav.input_mode == InputMode::HelpOverlay
            || pre.nav.input_mode == InputMode::ConfirmDelete ==> post == pre && e
            == Effect::Nothing,
{
}

proof fn lemma_session_places(tabs: Seq<Tab>, n: nat, k: int)
    requires
        n <= tabs.len() <= usize::MAX,
    ensures
        0 <= k < n && tabs[k] is Session ==> session_places(tabs, n).contains(k as usize),
        session_places(tabs, n).len() <= n,
    decreases n,
{
    if n > 0 {
        let m = (n - 1) as nat;
        lemma_session_places(tabs, m, k);
        let rest = session_places(tabs, m);
        let all = session_places(tabs, n);
        if 0 <= k < n && tabs[k] is Session {
            if k < m {
                let j = choose|j: int| 0 <= j < rest.len() && rest[j] == k as usize;
                assert(all[j] == k as usize);
            } else {
                assert(all[all.len() - 1] == k as usize);
            }
        }
    }
}

/// Every tab of a session is sized with the screen.
pub proof fn law_every_session_is_sized(tabs: Seq<Tab>, k: int)
    requires
        0 <= k < tabs.len() <= usize::MAX,
        tabs[k] is Session,
    ensures
        session_places(tabs, tabs.len()).contains(k as usize),
{
    lemma_session_places(tabs, tabs.len(), k);
}

/// Which form a key goes to: the launch form, the editor and the list of values answer with
/// a refusal where they refuse; the other modes each have their own.
pub proof fn law_keys_go_to_the_open_form(
    pre: App,
    c: Context,
    code: KeyCode,
    m: KeyModifiers,
    post: App,
    r: Result<Effect, AppError>,
)
    requires
        dashboard_step(pre, c, code, m, post, r),
    ensures
        pre.nav.input_mode == InputMode::LaunchThread ==> launch_step(pre, code, m, post, r),
        pre.nav.input_mode == InputMode::SettingsEdit ==> editor_step(
            pre,
            c.workflows@,
            code,
            m,
            post,
            r,
        ),
        pre.nav.input_mode == InputMode::SettingsPicker ==> picker_step(pre, code, post, r),
        pre.nav.input_mode == InputMode::Normal ==> (r matches Ok(e) && normal_step(
            pre,
            c,
            code,
            m,
            post,
            e,
        )),
        pre.nav.input_mode == InputMode::ThreadCompose ==> (r matches Ok(e) && compose_key_step(
            pre,
            c.stored_thread,
            code,
            m,
            post,
            e,
        )),
        pre.nav.input_mode == InputMode::NewTask ==> (r matches Ok(e) && new_task_step(
            pre,
            code,
            m,
            post,
            e,
        )),
        pre.nav.input_mode == InputMode::EditTask ==> (r matches Ok(e) && edit_task_step(
            pre,
            code,
            m,
            post,
            e,
        )),
        pre.nav.input_mode == InputMode::ConfirmDelete ==> (r matches Ok(e) && confirm_step(
            pre,
            code,
            post,
            e,
        )),
        pre.nav.input_mode == InputMode::CommandPalette ==> (r matches Ok(e) && palette_step(
            pre,
            code,
            m,
            post,
            e,
        )),
        pre.nav.input_mode == InputMode::TaskFilter ==> (r matches Ok(e) && filter_step(
            pre,
            code,
            m,
            post,
            e,
        )),
        pre.nav.input_mode == InputMode::BoardView ==> (r matches Ok(e) && board_step(
            pre,
            c,
            code,
            m,
            post,
            e,
        )),
        pre.nav.input_mode == InputMode::CommentCompose ==> (r matches Ok(e) && comment_step(
            pre,
            code,
            m,
            post,
            e,
        )),
        pre.nav.input_mode == InputMode::ReviewDrawer ==> (r matches Ok(e) && review_drawer_step(
            pre,
            code,
            m,
            post,
            e,
        )),
        pre.nav.input_mode == InputMode::CreateGitHubIssue || pre.nav.input_mode
            == InputMode::EditGitHubIssue ==> (r matches Ok(e) && issue_form_step(
            pre,
            code,
            m,
            post,
            e,
        )),
        pre.nav.input_mode == InputMode::HelpOverlay ==> (r matches Ok(e) && e == Effect::Nothing
            && help_step(pre, code, post)),
        pre.nav.input_mode == InputMode::TaskDetails ==> (r matches Ok(e) && e == Effect::Nothing
            && details_step(pre, code, post)),
{
}

/// A session's panes are sized to fill the screen.
pub proof fn law_panes_are_sized_to_fill(
    tab: Tab,
    cols: u16,
    rows: u16,
    panes: Seq<(u32, u16, u16)>,
    sizes: Seq<TabSizes>,
    i: int,
)
    ensures
        fills(tab, cols, rows, panes) ==> (tab matches Tab::Session { panes: p, .. } && panes
            == sizes_of(
            pane_places(
                p.layout,
                crate::panes::Rect {
                    x: 0,
                    y: 0,
                    width: cols,
                    height: if rows >= 2 {
                        (rows - 2) as u16
                    } else {
                        0
                    },
                },
            ),
        )),
        0 <= i < sizes.len() ==> tabs_of(sizes)[i] == sizes[i].tab,
{
}

} // verus!
