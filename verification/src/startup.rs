//! The workbench as it opens.

use vstd::prelude::*;
use vstd::string::*;

use crate::app::{
    App, Busy, Confirm, FieldPicker, GitHubState, GitHubStatus, MyTasks, Nav, Reviews,
    SettingsPicker, Tab,
};
use crate::board::clone_texts;
use crate::board_state::Board;
use crate::compose::Compose;
use crate::composer::Composer;
use crate::drafts::LaunchForm;
use crate::palette::{lists_matches, Palette, PaletteItem};
use crate::panes::Rect;
use crate::project_form::{is_blank_form, ProjectForm};
use crate::settings::Config;
use crate::skills::Skills;
use crate::store::{AgentNames, PushMode, TaskMode};
use crate::task_form::{is_reset, TaskForm};
use crate::tasks::ReviewWatch;
use crate::text::views;
use crate::text_input::{at_end, TextInput};
use crate::views::{
    BoardScope, DeleteTarget, Focus, InputMode, InspectorTab, ReviewDrawerTab, ReviewQueueTab,
    WorkbenchView,
};

verus! {

/// What the workbench opens with.
pub struct Startup {
    pub config: Config,
    pub config_warning: Option<String>,
    pub agent: AgentNames,
    pub palette: Vec<PaletteItem>,
    pub board_columns: Vec<String>,
    /// The command-line tool of GitHub is there.
    pub gh_installed: bool,
    pub sidebar_width: u16,
    pub inspector_width: u16,
}

/// Nothing is open; the first view has its first entry selected in the sidebar.
pub open spec fn first_nav(sidebar_width: u16, inspector_width: u16) -> Nav {
    Nav {
        should_quit: false,
        loading: true,
        workbench_view: WorkbenchView::MyTasks,
        inspector_tab: InspectorTab::Issue,
        focus: Focus::Projects,
        input_mode: InputMode::Normal,
        leader_pending: false,
        active_tab: 0,
        sidebar_cursor: 0,
        project_index: 0,
        task_index: 0,
        thread_index: 0,
        review_index: 0,
        review_queue_tab: ReviewQueueTab::Authored,
        settings_section_index: 0,
        settings_workflow_index: 0,
        installation_index: 0,
        project_picker_index: 0,
        provider_picker_index: 0,
        show_advanced: false,
        inspector_scroll: 0,
        inspector_expanded: false,
        sidebar_width: sidebar_width,
        inspector_width: inspector_width,
        drag_target: None,
        review_drawer_tab: ReviewDrawerTab::Description,
        review_drawer_scroll: 0,
        task_details_scroll: 0,
        subtask_index: 0,
        screen: Rect { x: 0, y: 0, width: 0, height: 0 },
    }
}

/// No records have been loaded.
pub open spec fn has_no_records(a: App) -> bool {
    &&& a.projects@.len() == 0
    &&& a.sessions@.len() == 0
    &&& a.tasks@.len() == 0
    &&& a.threads@.len() == 0
    &&& a.subtasks@.len() == 0
    &&& a.visible@.len() == 0
    &&& a.reviews.items@.len() == 0
    &&& a.reviews.authored@.len() == 0
    &&& a.reviews.requested@.len() == 0
    &&& a.my_tasks.items@.len() == 0
    &&& a.my_tasks.visible@.len() == 0
    &&& !a.my_tasks.any_mine
    &&& a.reviews.comments@.len() == 0
    &&& a.reviews.reviews@.len() == 0
    &&& a.reviews.review_comments@.len() == 0
    &&& a.watch.seen@.len() == 0
    &&& a.watch.notified@.len() == 0
    &&& a.watch.loop_spawned@.len() == 0
    &&& a.conversation is None
}

/// No board has been loaded: it has the columns of the configuration and no items, and
/// waits for its first load.
pub open spec fn is_unloaded(b: Board, columns: Vec<String>) -> bool {
    &&& b.projects@.len() == 0 && b.project_index == 0 && b.project_title is None
    &&& b.source@.len() == 0
    &&& views(b.columns@) == views(columns@)
    &&& b.config_columns == columns
    &&& b.all_issues@.len() == 0 && b.issues@.len() == 0
    &&& b.column_index == 0 && b.issue_index == 0
    &&& b.sprint_filter is None && b.sprints@.len() == 0 && b.sprint_index == 0
    &&& b.scope == BoardScope::AssignedToMe
    &&& !b.loading && b.error is None
    &&& b.scroll_offset == 0
    &&& !b.confirm_close
    &&& at_end(b.filter, seq![])
    &&& b.first_load
}

/// Nobody is logged in at GitHub.
pub open spec fn is_logged_out(status: GitHubStatus) -> bool {
    &&& status.user_login is None
    &&& status.gh_user_login is None
    &&& !status.authenticated
    &&& !status.gh_authenticated
    &&& !status.gh_has_project_scope
    &&& !status.app_auth_available
}

/// Nothing is known of GitHub but whether its command-line tool is there.
pub open spec fn is_unknown(g: GitHubState, gh_installed: bool) -> bool {
    &&& is_logged_out(g.status)
    &&& g.gh_installed == gh_installed
    &&& !g.has_repos
    &&& g.installations@.len() == 0
    &&& g.auth_prompt is None
    &&& g.auth_error is None
}

/// The composer of comments and issues holds nothing.
pub open spec fn is_empty_composer(c: Composer) -> bool {
    &&& c.comment@.len() == 0 && c.cursor == 0
    &&& c.target is None
    &&& c.return_mode == InputMode::Normal
    &&& c.title@.len() == 0 && c.body@.len() == 0
    &&& c.labels@.len() == 0 && c.assignees@.len() == 0
    &&& c.field == 0
    &&& c.editing_number is None
}

/// The composer of messages holds nothing, and nothing was sent.
pub open spec fn is_empty_compose(c: Compose) -> bool {
    &&& c.thread_id is None
    &&& at_end(c.draft, seq![])
    &&& c.suggestions@.len() == 0 && c.suggestion_index == 0
    &&& c.history@.len() == 0 && c.history_index is None
    &&& c.queued is None
    &&& c.quick_replies@.len() == 0
}

/// No list of values is open.
pub open spec fn has_empty_pickers(a: App) -> bool {
    &&& a.settings_edit is None
    &&& a.settings_picker.target is None && a.settings_picker.options@.len() == 0
        && a.settings_picker.index == 0
    &&& a.field_picker.options@.len() == 0 && a.field_picker.index == 0
    &&& a.field_picker.field_name is None && a.field_picker.field_id is None
    &&& a.field_picker.project_node_id is None && a.field_picker.item_node_id is None
    &&& a.confirm.target@.len() == 0 && a.confirm.entity_id@.len() == 0 && a.confirm.kind
        == DeleteTarget::Project
}

/// No skills are known; new ones are installed for all projects.
pub open spec fn has_no_skills(k: Skills) -> bool {
    &&& k.scope_global
    &&& k.installed@.len() == 0 && k.results@.len() == 0 && k.selected@.len() == 0
    &&& k.index == 0
    &&& k.detail@.len() == 0 && k.status@.len() == 0
}

/// No form holds anything.
pub open spec fn has_empty_forms(a: App) -> bool {
    &&& at_end(a.input, seq![])
    &&& at_end(a.task_filter, seq![])
    &&& is_reset(a.task_form, a.task_form) && a.task_form.editing_task_id is None
    &&& is_blank_form(a.project_form)
    &&& is_empty_composer(a.composer)
    &&& a.launch.draft is None && a.launch.field_index == 0 && a.launch.workflow_names@.len() == 0
    &&& is_empty_compose(a.compose)
    &&& has_empty_pickers(a)
}

/// Nothing goes on.
pub open spec fn is_idle(b: Busy) -> bool {
    !b.session_op && !b.github_auth && !b.github_installations && !b.github_sync
        && b.pending_titles@.len() == 0
}

/// The workbench before anything has been loaded.
pub open spec fn is_opened(a: App, s: Startup) -> bool {
    &&& a.nav == first_nav(s.sidebar_width, s.inspector_width)
    &&& a.toast is None
    &&& a.config == s.config
    &&& a.config_warning == s.config_warning
    &&& a.agent == s.agent
    &&& a.tabs@ == seq![Tab::Dashboard]
    &&& a.palette.items == s.palette
    &&& lists_matches(a.palette.filtered@, s.palette@, Seq::empty())
    &&& a.palette.index == 0
    &&& is_unloaded(a.board, s.board_columns)
    &&& has_no_skills(a.skills)
    &&& has_no_records(a)
    &&& is_unknown(a.github, s.gh_installed)
    &&& has_empty_forms(a)
    &&& is_idle(a.busy)
    &&& a.pending_relaunch is None
    &&& a.paused@.len() == 0 && a.pty_idle@.len() == 0 && a.injected@.len() == 0
}

fn opening_nav(sidebar_width: u16, inspector_width: u16) -> (r: Nav)
    ensures
        r == first_nav(sidebar_width, inspector_width),
{
    Nav {
        should_quit: false,
        loading: true,
        workbench_view: WorkbenchView::MyTasks,
        inspector_tab: InspectorTab::Issue,
        focus: Focus::Projects,
        input_mode: InputMode::Normal,
        leader_pending: false,
        active_tab: 0,
        sidebar_cursor: 0,
        project_index: 0,
        task_index: 0,
        thread_index: 0,
        review_index: 0,
        review_queue_tab: ReviewQueueTab::Authored,
        settings_section_index: 0,
        settings_workflow_index: 0,
        installation_index: 0,
        project_picker_index: 0,
        provider_picker_index: 0,
        show_advanced: false,
        inspector_scroll: 0,
        inspector_expanded: false,
        sidebar_width,
        inspector_width,
        drag_target: None,
        review_drawer_tab: ReviewDrawerTab::Description,
        review_drawer_scroll: 0,
        task_details_scroll: 0,
        subtask_index: 0,
        screen: Rect { x: 0, y: 0, width: 0, height: 0 },
    }
}

fn empty_board(columns: Vec<String>) -> (r: Board)
    ensures
        is_unloaded(r, columns),
{
    Board {
        projects: Vec::new(),
        project_index: 0,
        project_title: None,
        source: Vec::new(),
        columns: clone_texts(&columns),
        config_columns: columns,
        all_issues: Vec::new(),
        issues: Vec::new(),
        column_index: 0,
        issue_index: 0,
        sprint_filter: None,
        sprints: Vec::new(),
        sprint_index: 0,
        scope: BoardScope::AssignedToMe,
        loading: false,
        error: None,
        scroll_offset: 0,
        confirm_close: false,
        filter: TextInput::new(),
        first_load: true,
    }
}

fn empty_task_form() -> (r: TaskForm)
    ensures
        is_reset(r, r),
        r.editing_task_id is None,
        r.wf(),
{
    TaskForm {
        field: 0,
        description: String::new(),
        mode: TaskMode::Autonomous,
        base: String::new(),
        branch: String::new(),
        push_mode: PushMode::Pr,
        review_loop: false,
        subtasks: Vec::new(),
        subtask_index: 0,
        editing_subtask: None,
        editing_task_id: None,
    }
}

fn empty_project_form() -> (r: ProjectForm)
    ensures
        is_blank_form(r),
{
    ProjectForm {
        field: 0,
        name: String::new(),
        path: String::new(),
        git_linked: true,
        suggestions: Vec::new(),
        suggestion_index: 0,
        show_suggestions: false,
    }
}

fn empty_composer() -> (r: Composer)
    ensures
        is_empty_composer(r),
{
    Composer {
        comment: String::new(),
        cursor: 0,
        target: None,
        return_mode: InputMode::Normal,
        title: String::new(),
        body: String::new(),
        labels: String::new(),
        assignees: String::new(),
        field: 0,
        editing_number: None,
    }
}

fn empty_compose() -> (r: Compose)
    ensures
        r.wf(),
        is_empty_compose(r),
{
    Compose {
        thread_id: None,
        draft: TextInput::new(),
        suggestions: Vec::new(),
        suggestion_index: 0,
        history: Vec::new(),
        history_index: None,
        queued: None,
        quick_replies: Vec::new(),
    }
}

fn full_palette(items: Vec<PaletteItem>) -> (r: Palette)
    ensures
        r.items == items,
        lists_matches(r.filtered@, items@, Seq::empty()),
        r.index == 0,
{
    let mut palette = Palette { items, filtered: Vec::new(), index: 0 };
    let nothing = String::new();
    assert(nothing@ =~= Seq::<char>::empty());
    palette.filter_palette(nothing.as_str());
    palette
}

fn logged_out(gh_installed: bool) -> (r: GitHubState)
    ensures
        is_unknown(r, gh_installed),
{
    GitHubState {
        status: GitHubStatus {
            user_login: None,
            gh_user_login: None,
            authenticated: false,
            gh_authenticated: false,
            gh_has_project_scope: false,
            app_auth_available: false,
        },
        gh_installed,
        has_repos: false,
        installations: Vec::new(),
        auth_prompt: None,
        auth_error: None,
    }
}

impl App {
    /// Open the workbench; the records are loaded on its first tick.
    pub fn new(s: Startup) -> (r: App)
        ensures
            is_opened(r, s),
            r.wf(),
    {
        let mut tabs: Vec<Tab> = Vec::new();
        tabs.push(Tab::Dashboard);
        let r = App {
            nav: opening_nav(s.sidebar_width, s.inspector_width),
            toast: None,
            config: s.config,
            config_warning: s.config_warning,
            agent: s.agent,
            tabs,
            projects: Vec::new(),
            sessions: Vec::new(),
            tasks: Vec::new(),
            threads: Vec::new(),
            subtasks: Vec::new(),
            visible: Vec::new(),
            task_filter: TextInput::new(),
            watch: ReviewWatch {
                seen: Vec::new(),
                notified: Vec::new(),
                loop_spawned: Vec::new(),
            },
            github: logged_out(s.gh_installed),
            reviews: Reviews {
                items: Vec::new(),
                authored: Vec::new(),
                requested: Vec::new(),
                comments: Vec::new(),
                reviews: Vec::new(),
                review_comments: Vec::new(),
            },
            my_tasks: MyTasks { items: Vec::new(), visible: Vec::new(), any_mine: false },
            board: empty_board(s.board_columns),
            input: TextInput::new(),
            task_form: empty_task_form(),
            project_form: empty_project_form(),
            composer: empty_composer(),
            settings_edit: None,
            settings_picker: SettingsPicker { options: Vec::new(), index: 0, target: None },
            launch: LaunchForm { draft: None, field_index: 0, workflow_names: Vec::new() },
            compose: empty_compose(),
            palette: full_palette(s.palette),
            skills: Skills {
                installed: Vec::new(),
                results: Vec::new(),
                index: 0,
                scope_global: true,
                detail: String::new(),
                status: String::new(),
                selected: Vec::new(),
            },
            field_picker: FieldPicker {
                options: Vec::new(),
                index: 0,
                field_name: None,
                field_id: None,
                project_node_id: None,
                item_node_id: None,
            },
            confirm: Confirm {
                target: String::new(),
                entity_id: String::new(),
                kind: DeleteTarget::Project,
            },
            busy: Busy {
                session_op: false,
                github_auth: false,
                github_installations: false,
                github_sync: false,
                pending_titles: Vec::new(),
            },
            pending_relaunch: None,
            paused: Vec::new(),
            pty_idle: Vec::new(),
            injected: Vec::new(),
            conversation: None,
        };
        assert(r.tabs@ =~= seq![Tab::Dashboard]);
        r
    }
}

/// A program starts on the dashboard with the list of one's tasks and the sidebar in focus,
/// not yet loaded, with no work going on and no form open.
pub proof fn law_the_first_screen(a: App, s: Startup)
    requires
        is_opened(a, s),
    ensures
        a.nav.loading && !a.nav.should_quit,
        a.nav.workbench_view == WorkbenchView::MyTasks && a.nav.focus == Focus::Projects,
        a.nav.input_mode == InputMode::Normal && a.nav.active_tab == 0 && !a.nav.leader_pending,
        a.nav.sidebar_width == s.sidebar_width && a.nav.inspector_width == s.inspector_width,
        a.nav.review_queue_tab == ReviewQueueTab::Authored,
        a.tabs@.len() == 1 && a.tabs@[0] is Dashboard,
        a.toast is None,
        a.config == s.config && a.config_warning == s.config_warning && a.agent == s.agent,
        !a.busy.session_op && !a.busy.github_auth && !a.busy.github_installations
            && !a.busy.github_sync && a.busy.pending_titles@.len() == 0,
        a.launch.draft is None && a.settings_edit is None && a.pending_relaunch is None,
        a.input.text@.len() == 0 && a.task_filter.text@.len() == 0,
{
}

/// A program starts without records: no project, task, thread or session, and nothing known
/// of GitHub.
pub proof fn law_the_start_has_no_records(a: App, s: Startup)
    requires
        is_opened(a, s),
    ensures
        a.projects@.len() == 0 && a.tasks@.len() == 0 && a.threads@.len() == 0
            && a.sessions@.len() == 0 && a.subtasks@.len() == 0 && a.visible@.len() == 0,
        a.reviews.items@.len() == 0 && a.reviews.authored@.len() == 0
            && a.reviews.requested@.len() == 0 && a.my_tasks.items@.len() == 0
            && !a.my_tasks.any_mine,
        a.watch.seen@.len() == 0 && a.watch.notified@.len() == 0 && a.watch.loop_spawned@.len()
            == 0,
        a.github.status.user_login is None && a.github.status.gh_user_login is None
            && !a.github.status.authenticated && !a.github.status.gh_authenticated
            && !a.github.has_repos && a.github.gh_installed == s.gh_installed,
        a.paused@.len() == 0 && a.pty_idle@.len() == 0 && a.injected@.len() == 0,
        a.conversation is None,
        a.compose.queued is None && a.compose.history@.len() == 0 && a.compose.thread_id is None,
        a.skills.scope_global && a.skills.selected@.len() == 0,
{
}

/// The board starts unloaded, with the columns of the settings and one's own items.
pub proof fn law_the_start_of_the_board(a: App, s: Startup)
    requires
        is_opened(a, s),
    ensures
        a.board.first_load && !a.board.loading && a.board.error is None,
        a.board.scope == BoardScope::AssignedToMe,
        a.board.config_columns == s.board_columns,
        views(a.board.columns@) == views(s.board_columns@),
        a.board.source@.len() == 0 && a.board.sprint_filter is None && !a.board.confirm_close,
        a.board.filter.text@.len() == 0,
        a.palette.items == s.palette && a.palette.index == 0,
        a.task_form.description@.len() == 0 && a.task_form.editing_task_id is None,
        a.composer.title@.len() == 0 && a.composer.target is None && a.composer.editing_number
            is None,
        a.project_form.name@.len() == 0 && a.project_form.path@.len() == 0,
        a.settings_picker.options@.len() == 0 && a.field_picker.options@.len() == 0
            && a.confirm.entity_id@.len() == 0,
{
}

} // verus!
