//! What the keys of the keymap do in the workbench.

use vstd::prelude::*;
use vstd::string::*;

use crate::app::{
    at, in_mode, input_cleared, my_task_item, project_of, review_item, says, sidebar_item, task_of,
    thread_of, thread_on_task, uses_github, visible_task, with_focus, App, Confirm, Nav, Toast,
};
use crate::board_state::{shown_in, Board};
use crate::effects::{notice_is, Effect, LaunchSource};
use crate::launching::{
    at_thread, continued_thread, opened_ad_hoc_launch, opened_live_session, shows_conversation,
};
use crate::lists::first_where;
use crate::moves::{
    moved_down, moved_up, next_tab_of, on_tab, previous_tab_of, resized, switched_view,
    WorkbenchLayout,
};
use crate::palette::{lists_matches, Palette};
use crate::project_form::is_opened_form;
use crate::settings::clone_text;
use crate::store::{PushMode, Session, Task, TaskMode, TaskStatus, Thread};
use crate::task_form::{is_reset, TaskForm};
use crate::tasks::lists_visible_tasks;
use crate::text::byte_len;
use crate::text_input::{at_end, TextInput};
use crate::views::{
    Action, DeleteTarget, Focus, InputMode, ReviewDrawerTab, SettingsSection, SidebarItem,
    ToastStyle, WorkbenchView,
};

verus! {

/// What a key needs to know beyond the state of the workbench.
pub struct Context {
    /// What the keymap binds the key to.
    pub bound: Option<Action>,
    /// The view has an inspector.
    pub inspector: bool,
    pub layout: WorkbenchLayout,
    /// The user's home directory.
    pub home: Option<String>,
    /// The thread that the database has for the session that is shown.
    pub stored_thread: Option<Thread>,
    /// The session that the database has for the selected thread.
    pub stored_session: Option<String>,
    /// The workflows that the settings list.
    pub workflows: Vec<crate::input_settings::WorkflowEntry>,
}

// ---------------------------------------------------------------------------
// Single actions
// ---------------------------------------------------------------------------

/// The command palette is open and lists everything.
pub open spec fn palette_opened(pre: App, post: App) -> bool {
    &&& lists_matches(post.palette.filtered@, pre.palette.items@, Seq::empty())
    &&& post.input.text@.len() == 0
    &&& post == (App {
        nav: Nav { input_mode: InputMode::CommandPalette, ..pre.nav },
        input: TextInput { text: post.input.text, cursor: pre.input.cursor },
        palette: Palette { filtered: post.palette.filtered, index: 0, ..pre.palette },
        ..pre
    })
}

pub open spec fn at_column(a: App, c: int) -> App {
    App { board: Board { column_index: c as usize, issue_index: 0, ..a.board }, ..a }
}

pub open spec fn on_board(a: App) -> bool {
    a.nav.workbench_view == WorkbenchView::SprintBoard && a.nav.focus == Focus::Tasks
}

/// The focus goes to the left, on the board the column.
pub open spec fn focused_left(a: App) -> App {
    if on_board(a) && a.board.column_index > 0 {
        at_column(a, a.board.column_index - 1)
    } else if a.nav.focus == Focus::Inspector {
        with_focus(a, Focus::Tasks)
    } else {
        with_focus(a, Focus::Projects)
    }
}

/// The focus goes to the tasks, on the board the column to the right.
pub open spec fn focused_right(a: App) -> App {
    if on_board(a) && a.board.column_index + 1 < a.board.columns@.len() {
        at_column(a, a.board.column_index + 1)
    } else {
        with_focus(a, Focus::Tasks)
    }
}

/// The filter of the task list is open and empty.
pub open spec fn filter_opened(pre: App, post: App) -> bool {
    &&& post.task_filter.text@.len() == 0
    &&& post.task_filter.cursor == pre.task_filter.cursor
    &&& lists_visible_tasks(post.visible@, pre.tasks@, Seq::empty())
    &&& post == (App {
        nav: Nav { input_mode: InputMode::TaskFilter, focus: Focus::Tasks, ..pre.nav },
        task_filter: post.task_filter,
        visible: post.visible,
        ..pre
    })
}

/// The selected task changes places with its neighbour.
pub open spec fn swaps(a: App, other: int) -> Effect {
    match (visible_task(a, a.nav.task_index), at(a.visible@, other)) {
        (Some(current), Some(k)) => Effect::SwapTasks {
            first: current.id,
            second: a.tasks@[k as int].id,
            task_index: other as usize,
        },
        _ => Effect::Nothing,
    }
}

/// What Enter does in the sidebar.
pub open spec fn sidebar_selected(pre: App, post: App, e: Effect) -> bool {
    match sidebar_item(pre) {
        SidebarItem::Navigation(view) => switched_view(pre, view, post, e),
        SidebarItem::Repository(i) => if i < pre.projects@.len() {
            e == Effect::SelectProject && post == (App {
                nav: Nav { project_index: i, ..pre.nav },
                ..pre
            })
        } else {
            e == Effect::Nothing && post == pre
        },
    }
}

/// The drawer of the selected pull request is open.
pub open spec fn review_drawer_opened(a: App) -> App {
    App {
        nav: Nav {
            review_drawer_tab: ReviewDrawerTab::Description,
            review_drawer_scroll: 0,
            input_mode: InputMode::ReviewDrawer,
            ..a.nav
        },
        ..a
    }
}

/// The details of the selection are shown from their top.
pub open spec fn details_opened(a: App, mode: InputMode) -> App {
    App { nav: Nav { task_details_scroll: 0, input_mode: mode, ..a.nav }, ..a }
}

/// A thread is shown and a message tells so.
pub open spec fn thread_shown(
    pre: App,
    thread: Thread,
    stored: Option<String>,
    message: Seq<char>,
    post: App,
) -> bool {
    says(at_thread(pre, thread.id@, stored), post, message, ToastStyle::Info)
}

/// A task that waits to be started.
pub open spec fn is_startable(s: TaskStatus) -> bool {
    s == TaskStatus::Pending || s == TaskStatus::Draft
}

/// A task whose session can be torn down.
pub open spec fn is_running(s: TaskStatus) -> bool {
    s == TaskStatus::Working || s == TaskStatus::InReview || s == TaskStatus::CiFailed || s
        == TaskStatus::Error
}

pub open spec fn is_completable(s: TaskStatus) -> bool {
    s == TaskStatus::InReview || s == TaskStatus::Working || s == TaskStatus::Interrupted || s
        == TaskStatus::CiFailed
}

/// What Enter does in the task list.
pub open spec fn task_selected(
    pre: App,
    stored: Option<String>,
    post: App,
    e: Effect,
) -> bool {
    match pre.nav.workbench_view {
        WorkbenchView::Reviews => match thread_of(pre) {
            Some(thread) => e == Effect::Nothing && thread_shown(
                pre,
                thread,
                stored,
                "Focused review thread"@,
                post,
            ),
            None => if review_item(pre) is Some {
                e == Effect::LoadReviewContext && post == review_drawer_opened(pre)
            } else {
                e == Effect::Nothing && post == pre
            },
        },
        WorkbenchView::Threads => match thread_of(pre) {
            Some(thread) => continued_thread(pre, thread, stored, post, e),
            None => e == Effect::Nothing && opened_ad_hoc_launch(pre, post),
        },
        WorkbenchView::Settings => if at(
            SettingsSection::all(),
            pre.nav.settings_section_index as int,
        ) == Some(SettingsSection::Permissions) {
            e == Effect::LoadConfigStatus && post == in_mode(pre, InputMode::ConfigureWizard)
        } else {
            e == Effect::Nothing && post == pre
        },
        WorkbenchView::SprintBoard => e == Effect::Nothing && post == (if pre.board.issue_index
            < shown_in(pre.board, pre.board.column_index) {
            details_opened(pre, InputMode::TaskDetails)
        } else {
            pre
        }),
        _ => if pre.nav.workbench_view == WorkbenchView::MyTasks && uses_github(pre) {
            e == Effect::LoadMyTaskComments && post == details_opened(pre, InputMode::MyTaskDrawer)
        } else {
            match task_of(pre) {
                Some(task) => match task.session_id {
                    Some(id) => post == pre && e == (Effect::OpenTaskSession {
                        task_id: task.id,
                        session_id: id,
                    }),
                    None => match first_where(pre.threads@, thread_on_task(task.id@)) {
                        Some(thread) => e == Effect::Nothing && thread_shown(
                            pre,
                            thread,
                            stored,
                            "Focused task thread"@,
                            post,
                        ),
                        None => post == pre && e == (if is_startable(task.status) {
                            Effect::PrepareLaunch(LaunchSource::Task)
                        } else {
                            Effect::Nothing
                        }),
                    },
                },
                None => e == Effect::Nothing && post == pre,
            }
        },
    }
}

pub open spec fn selected(pre: App, stored: Option<String>, post: App, e: Effect) -> bool {
    match pre.nav.focus {
        Focus::Projects => sidebar_selected(pre, post, e),
        Focus::Tasks => task_selected(pre, stored, post, e),
        Focus::Inspector => e == Effect::Nothing && post == pre,
    }
}

/// Something is selected that has details.
pub open spec fn has_details(a: App) -> bool {
    match a.nav.workbench_view {
        WorkbenchView::SprintBoard => a.board.issue_index < shown_in(a.board, a.board.column_index),
        WorkbenchView::MyTasks => if uses_github(a) {
            my_task_item(a) is Some
        } else {
            task_of(a) is Some
        },
        WorkbenchView::Reviews => review_item(a) is Some,
        _ => task_of(a) is Some,
    }
}

/// The details of the selection are shown.
pub open spec fn viewed_details(pre: App, post: App, e: Effect) -> bool {
    if pre.nav.focus != Focus::Tasks || !has_details(pre) {
        e == Effect::Nothing && post == pre
    } else if pre.nav.workbench_view == WorkbenchView::Reviews {
        e == Effect::LoadReviewContext && post == review_drawer_opened(
            App { nav: Nav { task_details_scroll: 0, ..pre.nav }, ..pre },
        )
    } else if pre.nav.workbench_view == WorkbenchView::MyTasks && uses_github(pre) {
        e == Effect::LoadMyTaskComments && post == details_opened(pre, InputMode::MyTaskDrawer)
    } else {
        e == Effect::Nothing && post == details_opened(pre, InputMode::TaskDetails)
    }
}

/// The subtasks of the selected task are shown.
pub open spec fn opened_subtasks(pre: App, post: App, e: Effect) -> bool {
    match task_of(pre) {
        Some(task) => if pre.nav.focus == Focus::Tasks {
            e == (Effect::LoadSubtasks { task_id: task.id }) && input_cleared(
                App {
                    nav: Nav { subtask_index: 0, input_mode: InputMode::SubtaskPanel, ..pre.nav },
                    ..pre
                },
                post,
            )
        } else {
            e == Effect::Nothing && post == pre
        },
        None => e == Effect::Nothing && post == pre,
    }
}

/// The form for a new task is open.
pub open spec fn task_form_opened(pre: App, post: App) -> bool {
    &&& is_reset(pre.task_form, post.task_form)
    &&& post.task_form.wf()
    &&& post.input.text@.len() == 0
    &&& post.input.cursor == 0
    &&& post == (App {
        task_form: post.task_form,
        input: post.input,
        nav: Nav { input_mode: InputMode::NewTask, ..pre.nav },
        ..pre
    })
}

pub open spec fn new_task_opened(pre: App, post: App) -> bool {
    if pre.nav.workbench_view == WorkbenchView::Threads && pre.nav.focus == Focus::Tasks {
        opened_ad_hoc_launch(pre, post)
    } else if project_of(pre) is Some {
        task_form_opened(pre, post)
    } else {
        post == pre
    }
}

/// The form is open for an existing task.
pub open spec fn edit_form_opened(pre: App, task: Task, post: App) -> bool {
    &&& at_end(post.input, task.description@)
    &&& post.task_form.base@ == crate::settings::text_or_empty(task.base)
    &&& post.task_form.branch@ == crate::settings::text_or_empty(task.branch)
    &&& post == (App {
        task_form: TaskForm {
            editing_task_id: Some(task.id),
            description: task.description,
            mode: task.mode,
            base: post.task_form.base,
            branch: post.task_form.branch,
            push_mode: task.push_mode,
            review_loop: task.review_loop,
            field: 0,
            ..pre.task_form
        },
        input: post.input,
        nav: Nav { input_mode: InputMode::EditTask, ..pre.nav },
        ..pre
    })
}

pub open spec fn edit_opened(pre: App, post: App) -> bool {
    match task_of(pre) {
        Some(task) => if pre.nav.focus == Focus::Tasks && is_startable(task.status) {
            edit_form_opened(pre, task, post)
        } else {
            post == pre
        },
        None => post == pre,
    }
}

/// The selected task is done.
pub open spec fn completes(a: App, e: Effect) -> bool {
    match task_of(a) {
        Some(task) => if a.nav.focus == Focus::Tasks && is_completable(task.status) {
            e matches Effect::CompleteTask { task_id, session, notice } && task_id == task.id
                && session == task.session_id && notice_is(
                notice,
                "Task marked as done"@,
                ToastStyle::Success,
            )
        } else {
            e == Effect::Nothing
        },
        None => e == Effect::Nothing,
    }
}

/// The session of the selected task, where it can be torn down.
pub open spec fn running_session(a: App) -> Option<(Task, String)> {
    match task_of(a) {
        Some(task) => match task.session_id {
            Some(id) => if is_running(task.status) {
                Some((task, id))
            } else {
                None
            },
            None => None,
        },
        None => None,
    }
}

pub open spec fn releases(
    e: Effect,
    task: Task,
    session: String,
    project: Option<String>,
    message: Seq<char>,
) -> bool {
    e matches Effect::ReleaseTask { task_id, session_id, relaunch_in, notice } && task_id
        == task.id && session_id == session && relaunch_in == project && notice_is(
        notice,
        message,
        ToastStyle::Info,
    )
}

/// The session of the selected task is killed; without one the selection moves up.
pub open spec fn killed(pre: App, post: App, e: Effect) -> bool {
    if pre.nav.focus == Focus::Tasks && pre.busy.session_op {
        e == Effect::Nothing && says(
            pre,
            post,
            "Session operation in progress..."@,
            ToastStyle::Info,
        )
    } else if pre.nav.focus == Focus::Tasks && running_session(pre) is Some {
        let (task, session) = running_session(pre)->0;
        post == pre && releases(
            e,
            task,
            session,
            None,
            "Session killed — press Enter to resume"@,
        )
    } else {
        moved_up(pre, post, e)
    }
}

/// What the selection stands for is opened in the browser, a thread in its tab.
pub open spec fn opened_link(pre: App, stored: Option<String>, post: App, e: Effect) -> bool {
    if pre.nav.focus != Focus::Tasks {
        e == Effect::Nothing && post == pre
    } else if pre.nav.workbench_view == WorkbenchView::Threads && thread_of(pre) is Some {
        opened_live_session(pre, thread_of(pre)->0, stored, post, e)
    } else if pre.nav.workbench_view == WorkbenchView::MyTasks && uses_github(pre) && my_task_item(
        pre,
    ) is Some {
        e == Effect::OpenUrl(my_task_item(pre)->0.github_item.url) && says(
            pre,
            post,
            "Opening GitHub item in browser"@,
            ToastStyle::Success,
        )
    } else if pre.nav.workbench_view == WorkbenchView::Reviews && review_item(pre) is Some {
        e == Effect::OpenUrl(review_item(pre)->0.github_item.url) && says(
            pre,
            post,
            "Opening PR in browser"@,
            ToastStyle::Success,
        )
    } else {
        match task_of(pre) {
            Some(task) => match task.pr_url {
                Some(url) => e == Effect::OpenUrl(url) && says(
                    pre,
                    post,
                    "Opening PR in browser"@,
                    ToastStyle::Success,
                ),
                None => e == Effect::Nothing && post == pre,
            },
            None => e == Effect::Nothing && post == pre,
        }
    }
}

/// The selected task is launched, or what it was launched as is shown.
pub open spec fn task_launched(pre: App, stored: Option<String>, post: App, e: Effect) -> bool {
    if pre.busy.session_op {
        e == Effect::Nothing && says(
            pre,
            post,
            "Session operation in progress..."@,
            ToastStyle::Info,
        )
    } else {
        match task_of(pre) {
            None => e == Effect::Nothing && post == pre,
            Some(task) => if is_startable(task.status) {
                e == Effect::PrepareLaunch(LaunchSource::Task) && post == pre
            } else {
                match first_where(pre.threads@, thread_on_task(task.id@)) {
                    Some(thread) => e == Effect::Nothing && thread_shown(
                        pre,
                        thread,
                        stored,
                        "Focused existing thread"@,
                        post,
                    ),
                    None => match (project_of(pre), running_session(pre)) {
                        (Some(project), Some((t, session))) => releases(
                            e,
                            task,
                            session,
                            Some(project.id),
                            "Relaunching task in new session..."@,
                        ) && post == pre,
                        _ => e == Effect::Nothing && post == pre,
                    },
                }
            },
        }
    }
}

/// What the selection stands for is launched.
pub open spec fn launches(pre: App, stored: Option<String>, post: App, e: Effect) -> bool {
    if pre.nav.focus == Focus::Projects {
        e == Effect::Nothing && post == with_focus(pre, Focus::Tasks)
    } else {
        match pre.nav.workbench_view {
            WorkbenchView::SprintBoard => post == pre && e == (if pre.board.issue_index < shown_in(
                pre.board,
                pre.board.column_index,
            ) {
                Effect::FindBoardIssueThread {
                    github_item_id: pre.board.issues@[pre.board.column_index as int]@[
                        pre.board.issue_index as int].github_item_id,
                }
            } else {
                Effect::Nothing
            }),
            WorkbenchView::Reviews => match thread_of(pre) {
                Some(thread) => e == Effect::Nothing && thread_shown(
                    pre,
                    thread,
                    stored,
                    "Focused existing thread"@,
                    post,
                ),
                None => e == Effect::PrepareLaunch(LaunchSource::Review) && post == pre,
            },
            WorkbenchView::Threads => match thread_of(pre) {
                Some(thread) => continued_thread(pre, thread, stored, post, e),
                None => e == Effect::Nothing && opened_ad_hoc_launch(pre, post),
            },
            _ => if pre.nav.workbench_view == WorkbenchView::MyTasks && uses_github(pre) {
                e == Effect::PrepareLaunch(LaunchSource::MyTask) && post == pre
            } else {
                task_launched(pre, stored, post, e)
            },
        }
    }
}

/// The user is asked about a deletion.
pub open spec fn asks(a: App, target: String, id: String, kind: DeleteTarget) -> App {
    App {
        confirm: Confirm { target: target, entity_id: id, kind: kind },
        nav: Nav { input_mode: InputMode::ConfirmDelete, ..a.nav },
        ..a
    }
}

/// The user is asked about the deletion of the selection.
pub open spec fn delete_asked(a: App) -> App {
    match a.nav.focus {
        Focus::Projects => match sidebar_item(a) {
            SidebarItem::Repository(i) => match at(a.projects@, i as int) {
                Some(project) => asks(a, project.name, project.id, DeleteTarget::Project),
                None => a,
            },
            SidebarItem::Navigation(_) => a,
        },
        Focus::Tasks => match task_of(a) {
            Some(task) => asks(a, task.title, task.id, DeleteTarget::Task),
            None => a,
        },
        Focus::Inspector => a,
    }
}

/// The form for a new project is open.
pub open spec fn project_form_opened(pre: App, post: App) -> bool {
    &&& is_opened_form(post.project_form)
    &&& input_cleared(
        App {
            project_form: post.project_form,
            nav: Nav { input_mode: InputMode::NewProject, ..pre.nav },
            ..pre
        },
        post,
    )
}

pub open spec fn board_opened(pre: App, post: App, e: Effect) -> bool {
    match project_of(pre) {
        Some(project) => if project.is_git_linked {
            switched_view(pre, WorkbenchView::SprintBoard, post, e)
        } else {
            e == Effect::Nothing && says(
                pre,
                post,
                "Project not linked to git"@,
                ToastStyle::Info,
            )
        },
        None => e == Effect::Nothing && post == pre,
    }
}

/// An action that has no effect of its own.
pub open spec fn quietly(pre: App, action: Action, post: App) -> bool {
    match action {
        Action::Quit => post == (App { nav: Nav { should_quit: true, ..pre.nav }, ..pre }),
        Action::OpenCommandPalette => palette_opened(pre, post),
        Action::PrevTab => post == on_tab(pre, previous_tab_of(pre)),
        Action::NextTab => post == on_tab(pre, next_tab_of(pre)),
        Action::FocusProjects => post == focused_left(pre),
        Action::FocusTasks => post == focused_right(pre),
        Action::ShowHelp => post == in_mode(pre, InputMode::HelpOverlay),
        Action::FilterTasks => filter_opened(pre, post),
        Action::NewTask => new_task_opened(pre, post),
        Action::EditTask => edit_opened(pre, post),
        Action::DeleteItem => post == delete_asked(pre),
        Action::AddProject => project_form_opened(pre, post),
        _ => post == pre,
    }
}

/// What an action of the keymap does.
pub open spec fn action_step(pre: App, c: Context, action: Action, post: App, e: Effect) -> bool {
    match action {
        Action::ResizePaneNarrow => post == pre && e == resized(pre, c.layout, c.inspector, -2i16),
        Action::ResizePaneWide => post == pre && e == resized(pre, c.layout, c.inspector, 2i16),
        Action::MoveDown => moved_down(pre, post, e),
        Action::MoveUp => moved_up(pre, post, e),
        Action::ReorderTaskDown => post == pre && e == (if pre.nav.focus == Focus::Tasks {
            swaps(pre, pre.nav.task_index + 1)
        } else {
            Effect::Nothing
        }),
        Action::ReorderTaskUp => post == pre && e == (if pre.nav.focus == Focus::Tasks
            && pre.nav.task_index > 0 {
            swaps(pre, pre.nav.task_index - 1)
        } else {
            Effect::Nothing
        }),
        Action::Select => selected(pre, c.stored_session, post, e),
        Action::ViewTaskDetails => viewed_details(pre, post, e),
        Action::OpenSubtasks => opened_subtasks(pre, post, e),
        Action::MarkDone => post == pre && completes(pre, e),
        Action::KillSession => killed(pre, post, e),
        Action::OpenPR => opened_link(pre, c.stored_session, post, e),
        Action::LaunchTask => launches(pre, c.stored_session, post, e),
        Action::OpenSkills => e == Effect::OpenSkillPanel && post == pre,
        Action::Configure => e == Effect::LoadConfigStatus && post == in_mode(
            pre,
            InputMode::ConfigureWizard,
        ),
        Action::OpenBoard => board_opened(pre, post, e),
        _ => e == Effect::Nothing && quietly(pre, action, post),
    }
}

impl App {
    /// Open the command palette.
    pub fn open_palette(&mut self)
        ensures
            palette_opened(*old(self), *final(self)),
            old(self).wf() ==> final(self).wf(),
    {
        self.nav.input_mode = InputMode::CommandPalette;
        self.input.text = String::new();
        self.palette.index = 0;
        self.palette.filter_palette("");
        proof {
            reveal_strlit("");
            assert(""@ =~= Seq::<char>::empty());
        }
    }

    fn focus_left(&mut self)
        ensures
            *final(self) == focused_left(*old(self)),
    {
        if self.nav.workbench_view == WorkbenchView::SprintBoard && self.nav.focus == Focus::Tasks
            && self.board.column_index > 0 {
            self.board.column_index = self.board.column_index - 1;
            self.board.issue_index = 0;
        } else if self.nav.focus == Focus::Inspector {
            self.nav.focus = Focus::Tasks;
        } else {
            self.nav.focus = Focus::Projects;
        }
    }

    fn focus_right(&mut self)
        ensures
            *final(self) == focused_right(*old(self)),
    {
        let n: usize = self.board.columns.len();
        if self.nav.workbench_view == WorkbenchView::SprintBoard && self.nav.focus == Focus::Tasks
            && self.board.column_index < n && self.board.column_index + 1 < n {
            self.board.column_index = self.board.column_index + 1;
            self.board.issue_index = 0;
        } else {
            self.nav.focus = Focus::Tasks;
        }
    }

    fn open_filter(&mut self)
        ensures
            filter_opened(*old(self), *final(self)),
            old(self).wf() ==> final(self).wf(),
    {
        self.task_filter.text = String::new();
        assert(self.task_filter.text@ =~= Seq::<char>::empty());
        self.recompute_visible_tasks();
        self.nav.input_mode = InputMode::TaskFilter;
        self.nav.focus = Focus::Tasks;
    }

    fn swap_with(&self, other: usize) -> (e: Effect)
        requires
            self.wf(),
        ensures
            e == swaps(*self, other as int),
    {
        match (self.visible_task_at(self.nav.task_index), self.visible_task_at(other)) {
            (Some(current), Some(neighbour)) => Effect::SwapTasks {
                first: current.id.clone(),
                second: neighbour.id.clone(),
                task_index: other,
            },
            _ => Effect::Nothing,
        }
    }

    /// Do what Enter does in the sidebar.
    pub fn select_in_sidebar(&mut self) -> (e: Effect)
        requires
            old(self).wf(),
        ensures
            sidebar_selected(*old(self), *final(self), e),
            final(self).wf(),
    {
        match self.selected_sidebar_item() {
            SidebarItem::Navigation(view) => self.switch_workbench_view(view),
            SidebarItem::Repository(i) => {
                if i < self.projects.len() {
                    self.nav.project_index = i;
                    Effect::SelectProject
                } else {
                    Effect::Nothing
                }
            },
        }
    }

    /// The records of the project that was chosen in the sidebar have been loaded.
    pub fn project_selected(&mut self) -> (e: Effect)
        ensures
            ({
                let mid = App {
                    nav: Nav { task_index: 0, review_index: 0, thread_index: 0, ..old(self).nav },
                    ..*old(self)
                };
                if old(self).nav.workbench_view == WorkbenchView::SprintBoard {
                    e == Effect::LoadBoard && *final(self) == in_mode(mid, InputMode::BoardView)
                } else {
                    e == Effect::Nothing && *final(self) == mid
                }
            }),
            old(self).wf() ==> final(self).wf(),
    {
        self.nav.task_index = 0;
        self.nav.review_index = 0;
        self.nav.thread_index = 0;
        if self.nav.workbench_view == WorkbenchView::SprintBoard {
            self.nav.input_mode = InputMode::BoardView;
            Effect::LoadBoard
        } else {
            Effect::Nothing
        }
    }

    pub(crate) fn show_thread(&mut self, thread: &Thread, stored: &Option<String>, message: &str)
        ensures
            thread_shown(*old(self), *thread, *stored, message@, *final(self)),
            old(self).wf() ==> final(self).wf(),
    {
        self.focus_thread_workspace(thread.id.as_str(), stored);
        self.show_toast(message.to_owned(), ToastStyle::Info);
    }

    fn open_review_drawer(&mut self)
        ensures
            *final(self) == review_drawer_opened(*old(self)),
    {
        self.nav.review_drawer_tab = ReviewDrawerTab::Description;
        self.nav.review_drawer_scroll = 0;
        self.nav.input_mode = InputMode::ReviewDrawer;
    }

    fn open_details(&mut self, mode: InputMode)
        ensures
            *final(self) == details_opened(*old(self), mode),
    {
        self.nav.task_details_scroll = 0;
        self.nav.input_mode = mode;
    }

    pub(crate) fn chosen_thread(&self) -> (r: Option<Thread>)
        requires
            self.wf(),
        ensures
            r == thread_of(*self),
    {
        match self.selected_thread() {
            Some(thread) => Some(thread.clone()),
            None => None,
        }
    }

    fn chosen_task(&self) -> (r: Option<Task>)
        requires
            self.wf(),
        ensures
            r == task_of(*self),
    {
        match self.selected_task() {
            Some(task) => Some(task.clone()),
            None => None,
        }
    }

    fn task_thread(&self, task: &Task) -> (r: Option<Thread>)
        ensures
            r == first_where(self.threads@, thread_on_task(task.id@)),
    {
        match crate::app::find_thread_by_task(&self.threads, task.id.as_str()) {
            Some(thread) => Some(thread.clone()),
            None => None,
        }
    }

    fn select_task(&mut self, stored: &Option<String>) -> (e: Effect)
        requires
            old(self).wf(),
        ensures
            task_selected(*old(self), *stored, *final(self), e),
            final(self).wf(),
    {
        match self.nav.workbench_view {
            WorkbenchView::Reviews => {
                if let Some(thread) = self.chosen_thread() {
                    self.show_thread(&thread, stored, "Focused review thread");
                    return Effect::Nothing;
                }
                if self.selected_review_item().is_some() {
                    self.open_review_drawer();
                    return Effect::LoadReviewContext;
                }
                Effect::Nothing
            },
            WorkbenchView::Threads => {
                if let Some(thread) = self.chosen_thread() {
                    return self.continue_thread(thread, stored);
                }
                self.open_adhoc_launch_modal();
                Effect::Nothing
            },
            WorkbenchView::Settings => {
                if let Some(SettingsSection::Permissions) = SettingsSection::at(
                    self.nav.settings_section_index,
                ) {
                    self.nav.input_mode = InputMode::ConfigureWizard;
                    return Effect::LoadConfigStatus;
                }
                Effect::Nothing
            },
            WorkbenchView::SprintBoard => {
                if self.board.selected_board_issue().is_some() {
                    self.open_details(InputMode::TaskDetails);
                }
                Effect::Nothing
            },
            _ => self.select_listed(stored),
        }
    }

    fn select_listed(&mut self, stored: &Option<String>) -> (e: Effect)
        requires
            old(self).wf(),
            old(self).nav.workbench_view == WorkbenchView::MyTasks
                || old(self).nav.workbench_view == WorkbenchView::Agents,
        ensures
            task_selected(*old(self), *stored, *final(self), e),
            final(self).wf(),
    {
        if self.nav.workbench_view == WorkbenchView::MyTasks && self.uses_github_my_tasks() {
            self.open_details(InputMode::MyTaskDrawer);
            return Effect::LoadMyTaskComments;
        }
        let task = match self.chosen_task() {
            Some(task) => task,
            None => {
                return Effect::Nothing;
            },
        };
        if let Some(id) = clone_text(&task.session_id) {
            return Effect::OpenTaskSession { task_id: task.id, session_id: id };
        }
        if let Some(thread) = self.task_thread(&task) {
            self.show_thread(&thread, stored, "Focused task thread");
            return Effect::Nothing;
        }
        match task.status {
            TaskStatus::Pending | TaskStatus::Draft => Effect::PrepareLaunch(LaunchSource::Task),
            _ => Effect::Nothing,
        }
    }

    /// Do what Enter does.
    pub fn select(&mut self, stored: &Option<String>) -> (e: Effect)
        requires
            old(self).wf(),
        ensures
            selected(*old(self), *stored, *final(self), e),
            final(self).wf(),
    {
        match self.nav.focus {
            Focus::Projects => self.select_in_sidebar(),
            Focus::Tasks => self.select_task(stored),
            Focus::Inspector => Effect::Nothing,
        }
    }

    fn has_details(&self) -> (r: bool)
        requires
            self.wf(),
        ensures
            r == has_details(*self),
    {
        match self.nav.workbench_view {
            WorkbenchView::SprintBoard => self.board.selected_board_issue().is_some(),
            WorkbenchView::MyTasks => {
                if self.uses_github_my_tasks() {
                    self.selected_my_task_item().is_some()
                } else {
                    self.selected_task().is_some()
                }
            },
            WorkbenchView::Reviews => self.selected_review_item().is_some(),
            _ => self.selected_task().is_some(),
        }
    }

    fn view_details(&mut self) -> (e: Effect)
        requires
            old(self).wf(),
        ensures
            viewed_details(*old(self), *final(self), e),
            final(self).wf(),
    {
        if self.nav.focus != Focus::Tasks || !self.has_details() {
            return Effect::Nothing;
        }
        if self.nav.workbench_view == WorkbenchView::Reviews {
            self.nav.task_details_scroll = 0;
            self.open_review_drawer();
            Effect::LoadReviewContext
        } else if self.nav.workbench_view == WorkbenchView::MyTasks && self.uses_github_my_tasks() {
            self.open_details(InputMode::MyTaskDrawer);
            Effect::LoadMyTaskComments
        } else {
            self.open_details(InputMode::TaskDetails);
            Effect::Nothing
        }
    }

    fn open_subtasks(&mut self) -> (e: Effect)
        requires
            old(self).wf(),
        ensures
            opened_subtasks(*old(self), *final(self), e),
            final(self).wf(),
    {
        if self.nav.focus != Focus::Tasks {
            return Effect::Nothing;
        }
        let id = match self.selected_task() {
            Some(task) => task.id.clone(),
            None => {
                return Effect::Nothing;
            },
        };
        self.nav.subtask_index = 0;
        self.input.text = String::new();
        self.nav.input_mode = InputMode::SubtaskPanel;
        Effect::LoadSubtasks { task_id: id }
    }

    /// Open the form for a new task.
    pub fn open_task_form(&mut self)
        ensures
            task_form_opened(*old(self), *final(self)),
            old(self).wf() ==> final(self).wf(),
    {
        self.task_form.reset_task_form();
        self.input = TextInput { text: String::new(), cursor: 0 };
        self.nav.input_mode = InputMode::NewTask;
    }

    fn open_new_task(&mut self)
        ensures
            new_task_opened(*old(self), *final(self)),
            old(self).wf() ==> final(self).wf(),
    {
        if self.nav.workbench_view == WorkbenchView::Threads && self.nav.focus == Focus::Tasks {
            self.open_adhoc_launch_modal();
        } else if self.selected_project().is_some() {
            self.open_task_form();
        }
    }

    fn open_edit_form(&mut self)
        requires
            old(self).wf(),
        ensures
            edit_opened(*old(self), *final(self)),
            final(self).wf(),
    {
        if self.nav.focus != Focus::Tasks {
            return;
        }
        if let Some(task) = self.chosen_task() {
            match task.status {
                TaskStatus::Pending | TaskStatus::Draft => {
                    self.input = self.task_form.edit(&task);
                    self.nav.input_mode = InputMode::EditTask;
                },
                _ => {},
            }
        }
    }

    fn complete_task(&self) -> (e: Effect)
        requires
            self.wf(),
        ensures
            completes(*self, e),
    {
        if self.nav.focus != Focus::Tasks {
            return Effect::Nothing;
        }
        match self.selected_task() {
            Some(task) => match task.status {
                TaskStatus::InReview
                | TaskStatus::Working
                | TaskStatus::Interrupted
                | TaskStatus::CiFailed => Effect::CompleteTask {
                    task_id: task.id.clone(),
                    session: clone_text(&task.session_id),
                    notice: Toast {
                        message: "Task marked as done".to_owned(),
                        style: ToastStyle::Success,
                    },
                },
                _ => Effect::Nothing,
            },
            None => Effect::Nothing,
        }
    }

    fn find_running_session(&self) -> (r: Option<(Task, String)>)
        requires
            self.wf(),
        ensures
            r == running_session(*self),
    {
        let task = match self.chosen_task() {
            Some(task) => task,
            None => {
                return None;
            },
        };
        match clone_text(&task.session_id) {
            Some(id) => match task.status {
                TaskStatus::Working
                | TaskStatus::InReview
                | TaskStatus::CiFailed
                | TaskStatus::Error => Some((task, id)),
                _ => None,
            },
            None => None,
        }
    }

    fn kill_session(&mut self) -> (e: Effect)
        requires
            old(self).wf(),
        ensures
            killed(*old(self), *final(self), e),
            final(self).wf(),
    {
        if self.nav.focus == Focus::Tasks {
            if self.busy.session_op {
                self.show_toast("Session operation in progress...".to_owned(), ToastStyle::Info);
                return Effect::Nothing;
            }
            if let Some((task, session)) = self.find_running_session() {
                return release(
                    task.id,
                    session,
                    None,
                    "Session killed — press Enter to resume",
                );
            }
        }
        self.move_up()
    }

    fn open_link(&mut self, stored: &Option<String>) -> (e: Effect)
        requires
            old(self).wf(),
        ensures
            opened_link(*old(self), *stored, *final(self), e),
            final(self).wf(),
    {
        if self.nav.focus != Focus::Tasks {
            return Effect::Nothing;
        }
        if self.nav.workbench_view == WorkbenchView::Threads {
            if let Some(thread) = self.chosen_thread() {
                return self.open_thread_live_session(&thread, stored);
            }
        }
        if self.nav.workbench_view == WorkbenchView::MyTasks && self.uses_github_my_tasks() {
            if let Some(item) = self.selected_my_task_item() {
                let url = item.github_item.url.clone();
                self.show_toast("Opening GitHub item in browser".to_owned(), ToastStyle::Success);
                return Effect::OpenUrl(url);
            }
        }
        if self.nav.workbench_view == WorkbenchView::Reviews {
            if let Some(item) = self.selected_review_item() {
                let url = item.github_item.url.clone();
                self.show_toast("Opening PR in browser".to_owned(), ToastStyle::Success);
                return Effect::OpenUrl(url);
            }
        }
        if let Some(task) = self.chosen_task() {
            if let Some(url) = task.pr_url {
                self.show_toast("Opening PR in browser".to_owned(), ToastStyle::Success);
                return Effect::OpenUrl(url);
            }
        }
        Effect::Nothing
    }

    fn launch_selected_task(&mut self, stored: &Option<String>) -> (e: Effect)
        requires
            old(self).wf(),
        ensures
            task_launched(*old(self), *stored, *final(self), e),
            final(self).wf(),
    {
        if self.busy.session_op {
            self.show_toast("Session operation in progress...".to_owned(), ToastStyle::Info);
            return Effect::Nothing;
        }
        let task = match self.chosen_task() {
            Some(task) => task,
            None => {
                return Effect::Nothing;
            },
        };
        match task.status {
            TaskStatus::Pending | TaskStatus::Draft => {
                return Effect::PrepareLaunch(LaunchSource::Task);
            },
            _ => {},
        }
        if let Some(thread) = self.task_thread(&task) {
            self.show_thread(&thread, stored, "Focused existing thread");
            return Effect::Nothing;
        }
        let project_id = match self.selected_project() {
            Some(project) => project.id.clone(),
            None => {
                return Effect::Nothing;
            },
        };
        match self.find_running_session() {
            Some((running, session)) => {
                release(
                    running.id,
                    session,
                    Some(project_id),
                    "Relaunching task in new session...",
                )
            },
            None => Effect::Nothing,
        }
    }

    fn launch_selection(&mut self, stored: &Option<String>) -> (e: Effect)
        requires
            old(self).wf(),
        ensures
            launches(*old(self), *stored, *final(self), e),
            final(self).wf(),
    {
        if self.nav.focus == Focus::Projects {
            self.nav.focus = Focus::Tasks;
            return Effect::Nothing;
        }
        match self.nav.workbench_view {
            WorkbenchView::SprintBoard => match self.board.selected_board_issue() {
                Some(issue) => Effect::FindBoardIssueThread {
                    github_item_id: issue.github_item_id.clone(),
                },
                None => Effect::Nothing,
            },
            WorkbenchView::Reviews => {
                if let Some(thread) = self.chosen_thread() {
                    self.show_thread(&thread, stored, "Focused existing thread");
                    return Effect::Nothing;
                }
                Effect::PrepareLaunch(LaunchSource::Review)
            },
            WorkbenchView::Threads => {
                if let Some(thread) = self.chosen_thread() {
                    return self.continue_thread(thread, stored);
                }
                self.open_adhoc_launch_modal();
                Effect::Nothing
            },
            _ => {
                if self.nav.workbench_view == WorkbenchView::MyTasks && self.uses_github_my_tasks() {
                    Effect::PrepareLaunch(LaunchSource::MyTask)
                } else {
                    self.launch_selected_task(stored)
                }
            },
        }
    }

    /// Ask about a deletion.
    pub fn ask_delete(&mut self, target: String, id: String, kind: DeleteTarget)
        ensures
            *final(self) == asks(*old(self), target, id, kind),
            old(self).wf() ==> final(self).wf(),
    {
        self.confirm = Confirm { target, entity_id: id, kind };
        self.nav.input_mode = InputMode::ConfirmDelete;
    }

    fn ask_delete_selected(&mut self)
        requires
            old(self).wf(),
        ensures
            *final(self) == delete_asked(*old(self)),
            final(self).wf(),
    {
        match self.nav.focus {
            Focus::Projects => match self.selected_sidebar_item() {
                SidebarItem::Repository(i) => {
                    if i < self.projects.len() {
                        let name = self.projects[i].name.clone();
                        let id = self.projects[i].id.clone();
                        self.ask_delete(name, id, DeleteTarget::Project);
                    }
                },
                SidebarItem::Navigation(_) => {},
            },
            Focus::Tasks => {
                if let Some(task) = self.chosen_task() {
                    self.ask_delete(task.title, task.id, DeleteTarget::Task);
                }
            },
            Focus::Inspector => {},
        }
    }

    /// Open the form for a new project.
    pub fn open_project_form(&mut self)
        ensures
            project_form_opened(*old(self), *final(self)),
            old(self).wf() ==> final(self).wf(),
    {
        self.nav.input_mode = InputMode::NewProject;
        self.input.text = String::new();
        self.project_form.open();
    }

    fn open_sprint_board(&mut self) -> (e: Effect)
        requires
            old(self).wf(),
        ensures
            board_opened(*old(self), *final(self), e),
            final(self).wf(),
    {
        let linked = match self.selected_project() {
            Some(project) => project.is_git_linked,
            None => {
                return Effect::Nothing;
            },
        };
        if linked {
            self.switch_workbench_view(WorkbenchView::SprintBoard)
        } else {
            self.show_toast("Project not linked to git".to_owned(), ToastStyle::Info);
            Effect::Nothing
        }
    }

    fn quiet_action(&mut self, action: Action)
        requires
            old(self).wf(),
        ensures
            quietly(*old(self), action, *final(self)),
            final(self).wf(),
    {
        match action {
            Action::Quit => {
                self.nav.should_quit = true;
            },
            Action::OpenCommandPalette => {
                self.open_palette();
            },
            Action::PrevTab => {
                self.prev_tab();
            },
            Action::NextTab => {
                self.next_tab();
            },
            Action::FocusProjects => {
                self.focus_left();
            },
            Action::FocusTasks => {
                self.focus_right();
            },
            Action::ShowHelp => {
                self.enter_mode(InputMode::HelpOverlay);
            },
            Action::FilterTasks => {
                self.open_filter();
            },
            Action::NewTask => {
                self.open_new_task();
            },
            Action::EditTask => {
                self.open_edit_form();
            },
            Action::DeleteItem => {
                self.ask_delete_selected();
            },
            Action::AddProject => {
                self.open_project_form();
            },
            _ => {},
        }
    }

    /// Do what an action of the keymap asks for.
    pub fn execute_action(&mut self, c: &Context, action: Action) -> (e: Effect)
        requires
            old(self).wf(),
        ensures
            action_step(*old(self), *c, action, *final(self), e),
            final(self).wf(),
    {
        match action {
            Action::ResizePaneNarrow => self.resize_workbench_pane(&c.layout, c.inspector, -2),
            Action::ResizePaneWide => self.resize_workbench_pane(&c.layout, c.inspector, 2),
            Action::MoveDown => self.move_down(),
            Action::MoveUp => self.move_up(),
            Action::ReorderTaskDown => {
                if self.nav.focus == Focus::Tasks && self.nav.task_index < self.visible.len() {
                    self.swap_with(self.nav.task_index + 1)
                } else {
                    Effect::Nothing
                }
            },
            Action::ReorderTaskUp => {
                if self.nav.focus == Focus::Tasks && self.nav.task_index > 0 {
                    self.swap_with(self.nav.task_index - 1)
                } else {
                    Effect::Nothing
                }
            },
            Action::Select => self.select(&c.stored_session),
            Action::ViewTaskDetails => self.view_details(),
            Action::OpenSubtasks => self.open_subtasks(),
            Action::MarkDone => self.complete_task(),
            Action::KillSession => self.kill_session(),
            Action::OpenPR => self.open_link(&c.stored_session),
            Action::LaunchTask => self.launch_selection(&c.stored_session),
            Action::OpenSkills => Effect::OpenSkillPanel,
            Action::Configure => {
                self.enter_mode(InputMode::ConfigureWizard);
                Effect::LoadConfigStatus
            },
            Action::OpenBoard => self.open_sprint_board(),
            _ => {
                self.quiet_action(action);
                Effect::Nothing
            },
        }
    }
}

fn release(
    task_id: String,
    session_id: String,
    relaunch_in: Option<String>,
    message: &str,
) -> (e: Effect)
    ensures
        e matches Effect::ReleaseTask { task_id: t, session_id: s, relaunch_in: p, notice } && t
            == task_id && s == session_id && p == relaunch_in && notice_is(
            notice,
            message@,
            ToastStyle::Info,
        ),
{
    Effect::ReleaseTask {
        task_id,
        session_id,
        relaunch_in,
        notice: Toast { message: message.to_owned(), style: ToastStyle::Info },
    }
}

// ---------------------------------------------------------------------------
// What follows
// ---------------------------------------------------------------------------

impl App {
    /// A task was made pending again and parted from its session. `relaunch_in` is the
    /// project in which it is to be launched anew.
    pub fn task_released(&mut self, task_id: String, relaunch_in: Option<String>)
        requires
            old(self).wf(),
        ensures
            *final(self) == (match relaunch_in {
                Some(project_id) => App {
                    pending_relaunch: Some((task_id, project_id)),
                    ..*old(self)
                },
                None => *old(self),
            }),
            final(self).wf(),
    {
        if let Some(project_id) = relaunch_in {
            self.pending_relaunch = Some((task_id, project_id));
        }
    }
}

/// The session of the selected task is shown as a conversation.
pub open spec fn task_session_shown(pre: App, session: Session, post: App, e: Effect) -> bool {
    if session.closed {
        e == Effect::Nothing && says(pre, post, "Session is closed"@, ToastStyle::Info)
    } else {
        match crate::app::tab_place(pre.tabs@, session.id@) {
            Some(i) => e == Effect::Nothing && shows_conversation(
                on_tab(pre, i as usize),
                post,
                i,
            ),
            None => e == Effect::RestoreSession(session) && post == pre,
        }
    }
}

/// A thread was looked up for the selected item of the board: it is shown, or one is
/// launched.
pub open spec fn board_thread_found(
    pre: App,
    found: Option<Thread>,
    post: App,
    e: Effect,
) -> bool {
    match found {
        Some(thread) => e == Effect::Nothing && thread_shown(
            pre,
            thread,
            thread.session_id,
            "Focused existing thread"@,
            post,
        ),
        None => e == Effect::PrepareLaunch(LaunchSource::BoardIssue) && post == pre,
    }
}

impl App {
    /// Show the session of a task; the database has it.
    pub fn task_session_loaded(&mut self, session: &Session) -> (e: Effect)
        ensures
            task_session_shown(*old(self), *session, *final(self), e),
            old(self).wf() ==> final(self).wf(),
    {
        if session.closed {
            self.show_toast("Session is closed".to_owned(), ToastStyle::Info);
            return Effect::Nothing;
        }
        match self.find_session_tab(session.id.as_str()) {
            Some(i) => {
                self.nav.active_tab = i;
                self.show_conversation(i);
                Effect::Nothing
            },
            None => Effect::RestoreSession(session.clone()),
        }
    }

    /// Go on with the selected item of the board; `found` is the thread that works on
    /// it.
    pub fn board_issue_thread(&mut self, found: &Option<Thread>) -> (e: Effect)
        ensures
            board_thread_found(*old(self), *found, *final(self), e),
            old(self).wf() ==> final(self).wf(),
    {
        match found {
            Some(thread) => {
                self.show_thread(thread, &thread.session_id, "Focused existing thread");
                Effect::Nothing
            },
            None => Effect::PrepareLaunch(LaunchSource::BoardIssue),
        }
    }

    /// Two tasks have changed places; the selection follows.
    pub fn tasks_swapped(&mut self, task_index: usize) -> (e: Effect)
        ensures
            e == Effect::Refresh,
            *final(self) == (App {
                nav: Nav { task_index: task_index, ..old(self).nav },
                ..*old(self)
            }),
            old(self).wf() ==> final(self).wf(),
    {
        self.nav.task_index = task_index;
        Effect::Refresh
    }
}

// ---------------------------------------------------------------------------
// Laws
// ---------------------------------------------------------------------------

/// Only a task that is being worked on, waits for review or has failed its checks can
/// be marked as done.
pub proof fn law_only_started_tasks_complete(pre: App, c: Context, post: App, e: Effect)
    requires
        action_step(pre, c, Action::MarkDone, post, e),
        e is CompleteTask,
    ensures
        task_of(pre) matches Some(task) && task.status != TaskStatus::Pending && task.status
            != TaskStatus::Draft && task.status != TaskStatus::Done,
        post == pre,
{
}

proof fn lemma_edit_action(pre: App, c: Context, post: App, e: Effect)
    requires
        action_step(pre, c, Action::EditTask, post, e),
    ensures
        edit_opened(pre, post),
{
    assert(quietly(pre, Action::EditTask, post));
}

proof fn lemma_edit_form(pre: App, post: App)
    requires
        edit_opened(pre, post),
        pre.nav.input_mode != InputMode::EditTask,
    ensures
        post.nav.input_mode == InputMode::EditTask <==> pre.nav.focus == Focus::Tasks && (task_of(
            pre,
        ) matches Some(task) && is_startable(task.status)),
        post.nav.input_mode == InputMode::EditTask ==> (task_of(pre) matches Some(task)
            && post.input.text@ == task.description@ && post.input.cursor == byte_len(
            post.input.text@,
        ) && post.task_form.editing_task_id == Some(task.id) && post.task_form.field == 0),
        post.nav.input_mode != InputMode::EditTask ==> post == pre,
{
    if let Some(task) = task_of(pre) {
        if pre.nav.focus == Focus::Tasks && is_startable(task.status) {
            assert(edit_form_opened(pre, task, post));
        }
    }
}

/// The form opens for a task exactly where the list of tasks has the focus and the task
/// waits to be started. It then holds the prompt of the task, with the cursor at its end;
/// otherwise nothing changes.
pub proof fn law_only_waiting_tasks_are_edited(pre: App, c: Context, post: App, e: Effect)
    requires
        action_step(pre, c, Action::EditTask, post, e),
        pre.nav.input_mode != InputMode::EditTask,
    ensures
        post.nav.input_mode == InputMode::EditTask <==> pre.nav.focus == Focus::Tasks && (task_of(
            pre,
        ) matches Some(task) && is_startable(task.status)),
        post.nav.input_mode == InputMode::EditTask ==> (task_of(pre) matches Some(task)
            && post.input.text@ == task.description@ && post.input.cursor == byte_len(
            post.input.text@,
        ) && post.task_form.editing_task_id == Some(task.id) && post.task_form.field == 0),
        post.nav.input_mode != InputMode::EditTask ==> post == pre,
{
    lemma_edit_action(pre, c, post, e);
    lemma_edit_form(pre, post);
}

/// While a session is being prepared, nothing is launched or killed from the task
/// list.
pub proof fn law_one_session_operation_at_a_time(pre: App, c: Context, post: App, e: Effect)
    requires
        pre.busy.session_op,
        pre.nav.focus == Focus::Tasks,
        pre.nav.workbench_view == WorkbenchView::Agents,
        action_step(pre, c, Action::KillSession, post, e) || action_step(
            pre,
            c,
            Action::LaunchTask,
            post,
            e,
        ),
    ensures
        e == Effect::Nothing,
        says(pre, post, "Session operation in progress..."@, ToastStyle::Info),
{
}

/// A step to the left on the board goes to the column on the left; elsewhere the focus goes
/// from the inspector to the list, and from the list to the sidebar.
pub proof fn law_left_and_right(a: App)
    ensures
        a.nav.workbench_view == WorkbenchView::SprintBoard && a.nav.focus == Focus::Tasks
            && a.board.column_index > 0 ==> focused_left(a).board.column_index + 1
            == a.board.column_index && focused_left(a).board.issue_index == 0 && focused_left(
            a,
        ).nav == a.nav,
        a.nav.focus == Focus::Inspector ==> focused_left(a).nav.focus == Focus::Tasks,
        a.nav.focus == Focus::Tasks && a.nav.workbench_view != WorkbenchView::SprintBoard
            ==> focused_left(a).nav.focus == Focus::Projects,
        a.nav.workbench_view == WorkbenchView::SprintBoard && a.nav.focus == Focus::Tasks
            && a.board.column_index + 1 < a.board.columns@.len()
            ==> focused_right(a).board.column_index == a.board.column_index + 1 && focused_right(
            a,
        ).board.issue_index == 0,
        a.nav.focus == Focus::Projects ==> focused_right(a).nav.focus == Focus::Tasks,
{
    assert(a.board.columns.len() == a.board.columns@.len());
}

/// A task that waits or is a draft can be started; one at work, in review, with a failed
/// check or in error runs.
pub proof fn law_statuses_that_start_and_run(s: TaskStatus)
    ensures
        is_startable(TaskStatus::Pending),
        is_startable(TaskStatus::Draft),
        !is_startable(TaskStatus::Working) && !is_startable(TaskStatus::Interrupted)
            && !is_startable(TaskStatus::InReview) && !is_startable(TaskStatus::CiFailed)
            && !is_startable(TaskStatus::Conflict) && !is_startable(TaskStatus::Error)
            && !is_startable(TaskStatus::Done),
        is_running(TaskStatus::Working) && is_running(TaskStatus::InReview) && is_running(
            TaskStatus::CiFailed,
        ) && is_running(TaskStatus::Error),
        !is_running(TaskStatus::Done) && !is_running(TaskStatus::Pending) && !is_running(
            TaskStatus::Draft,
        ) && !is_running(TaskStatus::Interrupted) && !is_running(TaskStatus::Conflict),
        is_completable(TaskStatus::InReview) && is_completable(TaskStatus::Working)
            && is_completable(TaskStatus::Interrupted) && is_completable(TaskStatus::CiFailed),
        !is_completable(TaskStatus::Done) && !is_completable(TaskStatus::Pending)
            && !is_completable(TaskStatus::Draft) && !is_completable(TaskStatus::Conflict)
            && !is_completable(TaskStatus::Error),
        is_startable(s) ==> !is_running(s) && !is_completable(s),
{
}

/// A task changes places with the one below it, or the one above it, in the list as it is
/// shown; at an end nothing happens.
pub proof fn law_tasks_change_places(pre: App, c: Context, down: bool, post: App, e: Effect)
    requires
        pre.nav.focus == Focus::Tasks,
        action_step(
            pre,
            c,
            if down {
                Action::ReorderTaskDown
            } else {
                Action::ReorderTaskUp
            },
            post,
            e,
        ),
        pre.nav.task_index < pre.visible@.len(),
    ensures
        post == pre,
        down && pre.nav.task_index + 1 < pre.visible@.len() ==> e == (Effect::SwapTasks {
            first: pre.tasks@[pre.visible@[pre.nav.task_index as int] as int].id,
            second: pre.tasks@[pre.visible@[pre.nav.task_index + 1] as int].id,
            task_index: (pre.nav.task_index + 1) as usize,
        }),
        down && pre.nav.task_index + 1 == pre.visible@.len() ==> e == Effect::Nothing,
        !down && pre.nav.task_index > 0 ==> e == (Effect::SwapTasks {
            first: pre.tasks@[pre.visible@[pre.nav.task_index as int] as int].id,
            second: pre.tasks@[pre.visible@[pre.nav.task_index - 1] as int].id,
            task_index: (pre.nav.task_index - 1) as usize,
        }),
        !down && pre.nav.task_index == 0 ==> e == Effect::Nothing,
{
}

/// Selecting a task opens its session; without one it shows the thread that works on it,
/// and a task that has not started is prepared for a launch.
pub proof fn law_selecting_a_task_opens_it(pre: App, c: Context, post: App, e: Effect)
    requires
        pre.nav.focus == Focus::Tasks,
        pre.nav.workbench_view == WorkbenchView::Agents || (pre.nav.workbench_view
            == WorkbenchView::MyTasks && !uses_github(pre)),
        action_step(pre, c, Action::Select, post, e),
    ensures
        task_of(pre) matches Some(task) ==> {
            &&& task.session_id matches Some(id) ==> e == (Effect::OpenTaskSession {
                task_id: task.id,
                session_id: id,
            })
            &&& task.session_id is None && (forall|j: int|
                0 <= j < pre.threads@.len() ==> !crate::store::option_is(
                    (#[trigger] pre.threads@[j]).task_id,
                    task.id@,
                )) ==> {
                &&& task.status == TaskStatus::Pending || task.status == TaskStatus::Draft ==> e
                    == Effect::PrepareLaunch(LaunchSource::Task)
                &&& task.status != TaskStatus::Pending && task.status != TaskStatus::Draft ==> e
                    == Effect::Nothing
            }
        },
        task_of(pre) is None ==> e == Effect::Nothing && post == pre,
{
    if let Some(task) = task_of(pre) {
        let p = thread_on_task(task.id@);
        if forall|j: int|
            0 <= j < pre.threads@.len() ==> !crate::store::option_is(
                (#[trigger] pre.threads@[j]).task_id,
                task.id@,
            ) {
            assert forall|j: int| 0 <= j < pre.threads@.len() implies !p(
                #[trigger] pre.threads@[j],
            ) by {}
            crate::lists::lemma_first_missing(pre.threads@, p);
        }
    }
}

/// Selecting in the sidebar switches to the view or to the project under the cursor.
pub proof fn law_selecting_in_the_sidebar(pre: App, c: Context, post: App, e: Effect)
    requires
        pre.nav.focus == Focus::Projects,
        action_step(pre, c, Action::Select, post, e),
    ensures
        pre.nav.sidebar_cursor == 0 ==> post.nav.workbench_view == WorkbenchView::MyTasks,
        pre.nav.sidebar_cursor == 1 ==> post.nav.workbench_view == WorkbenchView::SprintBoard,
        pre.nav.sidebar_cursor == 2 ==> post.nav.workbench_view == WorkbenchView::Reviews,
        pre.nav.sidebar_cursor == 3 ==> post.nav.workbench_view == WorkbenchView::Agents,
        pre.nav.sidebar_cursor == 4 ==> post.nav.workbench_view == WorkbenchView::Settings,
        5 <= pre.nav.sidebar_cursor < 5 + pre.projects@.len() ==> e == Effect::SelectProject
            && post.nav.project_index == pre.nav.sidebar_cursor - 5,
{
}

/// The form for a task that is edited holds the task as it is.
pub proof fn law_editing_shows_the_task(pre: App, c: Context, post: App, e: Effect)
    requires
        pre.nav.focus == Focus::Tasks,
        action_step(pre, c, Action::EditTask, post, e),
        task_of(pre) matches Some(task) && (task.status == TaskStatus::Pending || task.status
            == TaskStatus::Draft),
    ensures
        ({
            let task = task_of(pre)->0;
            &&& post.nav.input_mode == InputMode::EditTask
            &&& post.task_form.editing_task_id == Some(task.id)
            &&& post.task_form.description == task.description
            &&& post.input.text@ == task.description@
            &&& post.task_form.mode == task.mode
            &&& post.task_form.push_mode == task.push_mode
            &&& post.task_form.review_loop == task.review_loop
            &&& post.task_form.field == 0
            &&& task.branch matches Some(b) ==> post.task_form.branch@ == b@
            &&& task.branch is None ==> post.task_form.branch@.len() == 0
            &&& task.base matches Some(b) ==> post.task_form.base@ == b@
            &&& task.base is None ==> post.task_form.base@.len() == 0
        }),
{
}

/// A new task starts from an empty form, autonomous and with a pull request.
pub proof fn law_new_tasks_start_empty(pre: App, c: Context, post: App, e: Effect)
    requires
        action_step(pre, c, Action::NewTask, post, e),
        pre.nav.workbench_view != WorkbenchView::Threads,
        pre.nav.project_index < pre.projects@.len(),
    ensures
        post.nav.input_mode == InputMode::NewTask,
        post.task_form.description@.len() == 0 && post.task_form.base@.len() == 0
            && post.task_form.branch@.len() == 0 && post.task_form.subtasks@.len() == 0,
        post.task_form.mode == TaskMode::Autonomous && post.task_form.push_mode == PushMode::Pr
            && !post.task_form.review_loop,
        post.input.text@.len() == 0,
        e == Effect::Nothing,
{
}

/// A task that is done is completed together with its session.
pub proof fn law_done_tasks_are_completed(pre: App, c: Context, post: App, e: Effect)
    requires
        pre.nav.focus == Focus::Tasks,
        action_step(pre, c, Action::MarkDone, post, e),
    ensures
        task_of(pre) matches Some(task) ==> (task.status == TaskStatus::InReview || task.status
            == TaskStatus::Working || task.status == TaskStatus::Interrupted || task.status
            == TaskStatus::CiFailed ==> (e matches Effect::CompleteTask { task_id, session, .. }
            && task_id == task.id && session == task.session_id)),
        task_of(pre) matches Some(task) ==> (task.status == TaskStatus::Pending || task.status
            == TaskStatus::Done || task.status == TaskStatus::Draft ==> e == Effect::Nothing),
{
}

/// Killing a running task's session makes the task wait again; while another session is
/// prepared it says so.
pub proof fn law_killing_releases_the_task(pre: App, c: Context, post: App, e: Effect)
    requires
        pre.nav.focus == Focus::Tasks,
        action_step(pre, c, Action::KillSession, post, e),
    ensures
        !pre.busy.session_op ==> (task_of(pre) matches Some(task) ==> (task.session_id matches Some(
            id,
        ) ==> (task.status == TaskStatus::Working || task.status == TaskStatus::InReview
            || task.status == TaskStatus::CiFailed || task.status == TaskStatus::Error ==> (
        e matches Effect::ReleaseTask { task_id, session_id, relaunch_in, .. } && task_id == task.id
            && session_id == id && relaunch_in is None)))),
        pre.busy.session_op ==> e == Effect::Nothing && post.toast is Some,
{
}

/// What opens in the browser: the selected item, pull request or the task's pull request.
pub proof fn law_links_open_in_the_browser(pre: App, c: Context, post: App, e: Effect)
    requires
        pre.nav.focus == Focus::Tasks,
        action_step(pre, c, Action::OpenPR, post, e),
    ensures
        pre.nav.workbench_view == WorkbenchView::MyTasks ==> (my_task_item(pre) matches Some(item)
            ==> e == Effect::OpenUrl(item.github_item.url)),
        pre.nav.workbench_view == WorkbenchView::Reviews ==> (review_item(pre) matches Some(item)
            ==> e == Effect::OpenUrl(item.github_item.url)),
        pre.nav.workbench_view == WorkbenchView::Agents ==> (task_of(pre) matches Some(task) ==> (
        task.pr_url matches Some(url) ==> e == Effect::OpenUrl(url))),
        pre.nav.workbench_view == WorkbenchView::Agents ==> (task_of(pre) matches Some(task) ==> (
        task.pr_url is None ==> e == Effect::Nothing)),
{
}

/// What is launched: on the board the selected issue, in the review queue the selected pull
/// request unless a thread is on it, in GitHub's list the selected item.
pub proof fn law_launching_takes_the_selection(pre: App, c: Context, post: App, e: Effect)
    requires
        pre.nav.focus == Focus::Tasks,
        action_step(pre, c, Action::LaunchTask, post, e),
    ensures
        pre.nav.workbench_view == WorkbenchView::SprintBoard && pre.board.issue_index < shown_in(
            pre.board,
            pre.board.column_index,
        ) ==> e == (Effect::FindBoardIssueThread {
            github_item_id: pre.board.issues@[pre.board.column_index as int]@[
                pre.board.issue_index as int].github_item_id,
        }),
        pre.nav.workbench_view == WorkbenchView::Reviews && thread_of(pre) is None ==> e
            == Effect::PrepareLaunch(LaunchSource::Review),
        pre.nav.workbench_view == WorkbenchView::MyTasks && uses_github(pre) ==> e
            == Effect::PrepareLaunch(LaunchSource::MyTask),
        pre.nav.workbench_view == WorkbenchView::Agents && !pre.busy.session_op ==> (task_of(
            pre,
        ) matches Some(task) ==> (task.status == TaskStatus::Pending || task.status
            == TaskStatus::Draft ==> e == Effect::PrepareLaunch(LaunchSource::Task))),
        pre.nav.workbench_view == WorkbenchView::Agents && pre.busy.session_op ==> e
            == Effect::Nothing && post.toast is Some,
{
}

/// What is deleted is asked for first, by name: in the list the selected task, in the
/// sidebar the project under the cursor.
pub proof fn law_deletions_are_asked_for(pre: App, c: Context, post: App, e: Effect)
    requires
        action_step(pre, c, Action::DeleteItem, post, e),
    ensures
        e == Effect::Nothing,
        pre.nav.focus == Focus::Tasks ==> (task_of(pre) matches Some(task) ==> post.nav.input_mode
            == InputMode::ConfirmDelete && post.confirm.entity_id == task.id && post.confirm.target
            == task.title && post.confirm.kind == DeleteTarget::Task),
        pre.nav.focus == Focus::Projects && 5 <= pre.nav.sidebar_cursor < 5 + pre.projects@.len()
            ==> post.nav.input_mode == InputMode::ConfirmDelete && post.confirm.entity_id
            == pre.projects@[pre.nav.sidebar_cursor - 5].id && post.confirm.target
            == pre.projects@[pre.nav.sidebar_cursor - 5].name && post.confirm.kind
            == DeleteTarget::Project,
        pre.nav.focus == Focus::Projects && pre.nav.sidebar_cursor < 5 ==> post == pre,
        pre.nav.focus == Focus::Inspector ==> post == pre,
{
}

/// The actions that open something: the palette, help, the filter, the forms and the panels.
pub proof fn law_actions_open_what_they_name(
    pre: App,
    c: Context,
    action: Action,
    post: App,
    e: Effect,
)
    requires
        action_step(pre, c, action, post, e),
    ensures
        action == Action::Quit ==> post.nav.should_quit && e == Effect::Nothing,
        action == Action::OpenCommandPalette ==> post.nav.input_mode == InputMode::CommandPalette
            && post.input.text@.len() == 0,
        action == Action::ShowHelp ==> post.nav.input_mode == InputMode::HelpOverlay,
        action == Action::FilterTasks ==> post.nav.input_mode == InputMode::TaskFilter
            && post.nav.focus == Focus::Tasks && post.task_filter.text@.len() == 0,
        action == Action::AddProject ==> post.nav.input_mode == InputMode::NewProject
            && post.project_form.path@ == "."@ && post.project_form.name@.len() == 0,
        action == Action::OpenSkills ==> e == Effect::OpenSkillPanel && post == pre,
        action == Action::Configure ==> e == Effect::LoadConfigStatus && post.nav.input_mode
            == InputMode::ConfigureWizard,
{
}

/// The list of subtasks opens for the selected task, at its start.
pub proof fn law_subtasks_open_for_the_task(pre: App, c: Context, post: App, e: Effect)
    requires
        action_step(pre, c, Action::OpenSubtasks, post, e),
        pre.nav.focus == Focus::Tasks,
    ensures
        task_of(pre) matches Some(task) ==> e == (Effect::LoadSubtasks { task_id: task.id })
            && post.nav.input_mode == InputMode::SubtaskPanel && post.nav.subtask_index == 0,
        task_of(pre) is None ==> e == Effect::Nothing && post == pre,
{
}

/// The board opens for a project that is linked to its repository, and for no other.
pub proof fn law_the_board_needs_a_repository(pre: App, c: Context, post: App, e: Effect)
    requires
        action_step(pre, c, Action::OpenBoard, post, e),
    ensures
        project_of(pre) matches Some(p) ==> {
            &&& p.is_git_linked ==> post.nav.workbench_view == WorkbenchView::SprintBoard && e
                == Effect::LoadBoard
            &&& !p.is_git_linked ==> e == Effect::Nothing && post.nav == pre.nav && post.toast
                is Some
        },
        project_of(pre) is None ==> post == pre,
{
}

/// The details open for what is selected, from their first line.
pub proof fn law_details_open_for_the_selection(pre: App, c: Context, post: App, e: Effect)
    requires
        action_step(pre, c, Action::ViewTaskDetails, post, e),
    ensures
        pre.nav.focus != Focus::Tasks ==> post == pre && e == Effect::Nothing,
        pre.nav.focus == Focus::Tasks && pre.nav.workbench_view == WorkbenchView::Agents && task_of(
            pre,
        ) is Some ==> post.nav.input_mode == InputMode::TaskDetails && post.nav.task_details_scroll
            == 0,
        pre.nav.focus == Focus::Tasks && pre.nav.workbench_view == WorkbenchView::Agents && task_of(
            pre,
        ) is None ==> post == pre,
        pre.nav.focus == Focus::Tasks && pre.nav.workbench_view == WorkbenchView::Reviews
            && review_item(pre) is Some ==> post.nav.input_mode == InputMode::ReviewDrawer && e
            == Effect::LoadReviewContext,
        pre.nav.focus == Focus::Tasks && my_task_item(pre) is Some ==> post.nav.input_mode
            == InputMode::MyTaskDrawer && e == Effect::LoadMyTaskComments,
{
}

/// A session that is open is shown in its tab, or brought back in a new one; a closed one is
/// not.
pub proof fn law_task_sessions_are_shown(pre: App, session: Session, post: App, e: Effect)
    requires
        task_session_shown(pre, session, post, e),
    ensures
        session.closed ==> e == Effect::Nothing && post.nav == pre.nav && post.toast is Some,
        !session.closed && (forall|j: int|
            0 <= j < pre.tabs@.len() ==> !crate::app::is_tab_of(#[trigger] pre.tabs@[j], session.id@))
            ==> e == Effect::RestoreSession(session) && post == pre,
        !session.closed ==> (crate::app::tab_place(pre.tabs@, session.id@) matches Some(i)
            ==> e == Effect::Nothing && post.nav.active_tab == i as usize),
{
    crate::app::law_the_first_tab_counts(pre.tabs@, session.id@);
}

/// An issue of the board whose thread was found is shown there; otherwise a launch is
/// prepared.
pub proof fn law_board_threads_are_shown(pre: App, found: Option<Thread>, post: App, e: Effect)
    requires
        board_thread_found(pre, found, post, e),
    ensures
        found is None ==> e == Effect::PrepareLaunch(LaunchSource::BoardIssue) && post == pre,
        found is Some ==> e == Effect::Nothing && post.toast is Some,
{
}

} // verus!
