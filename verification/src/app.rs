//! The state of the workbench and what can be read off it: what is selected, what is
//! visible, and which thread and session are meant.

use vstd::prelude::*;
use vstd::string::*;

use crate::board_state::Board;
use crate::compose::Compose;
use crate::composer::Composer;
use crate::conversation::ConversationCache;
use crate::drafts::LaunchForm;
use crate::lists::{any_where, first_where, lemma_first_found, lemma_first_missing};
use crate::palette::Palette;
use crate::panes::{LayoutNode, Rect};
use crate::project_form::ProjectForm;
use crate::review::{MyTaskItem, ReviewQueueItem};
use crate::settings::{clone_text, text_option, Config, SettingsEditTarget};
use crate::skills::Skills;
use crate::store::{
    option_is, text_is, AgentNames, ClaudeStatus, GitHubComment, GitHubInstallation, GitHubReview,
    GitHubReviewComment, Project, Session, Subtask, Task, Thread,
};
use crate::task_form::TaskForm;
use crate::tasks::{list_contains, lists_visible_tasks, visible_task_indices, ReviewWatch};
use crate::text::{same, views};
use crate::text_input::TextInput;
use crate::views::{
    DeleteTarget, Focus, InputMode, InspectorTab, ReviewDrawerTab, ReviewQueueTab, SessionTabView,
    SidebarItem, ToastStyle, WorkbenchDragTarget, WorkbenchView,
};

verus! {

/// What is shown where, and where the selection stands.
#[derive(Clone, Copy, Debug)]
pub struct Nav {
    pub should_quit: bool,
    pub loading: bool,
    pub workbench_view: WorkbenchView,
    pub inspector_tab: InspectorTab,
    pub focus: Focus,
    pub input_mode: InputMode,
    pub leader_pending: bool,
    /// Zero is the dashboard.
    pub active_tab: usize,
    pub sidebar_cursor: usize,
    pub project_index: usize,
    pub task_index: usize,
    pub thread_index: usize,
    pub review_index: usize,
    pub review_queue_tab: ReviewQueueTab,
    pub settings_section_index: usize,
    pub settings_workflow_index: usize,
    pub installation_index: usize,
    pub project_picker_index: usize,
    pub provider_picker_index: usize,
    pub show_advanced: bool,
    pub inspector_scroll: u16,
    pub inspector_expanded: bool,
    pub sidebar_width: u16,
    pub inspector_width: u16,
    pub drag_target: Option<WorkbenchDragTarget>,
    pub review_drawer_tab: ReviewDrawerTab,
    pub review_drawer_scroll: u16,
    pub task_details_scroll: u16,
    pub subtask_index: usize,
    /// The screen as it was last drawn.
    pub screen: Rect,
}

/// A short message to the user.
pub struct Toast {
    pub message: String,
    pub style: ToastStyle,
}

/// A cell of a pane.
#[derive(Clone, Copy, Debug, PartialEq, Eq, Structural)]
pub struct CellPlace {
    pub row: u16,
    pub col: u16,
}

/// A stretch of text that the mouse has marked, from one cell of a pane to another.
#[derive(Clone, Copy, Debug, PartialEq, Eq, Structural)]
pub struct Selection {
    pub pane: u32,
    pub start: CellPlace,
    pub end: CellPlace,
}

/// The panes of a session tab.
pub struct Panes {
    pub layout: LayoutNode,
    pub focused: u32,
    pub selection: Option<Selection>,
}

pub enum Tab {
    Dashboard,
    Session { session_id: String, label: String, view_mode: SessionTabView, panes: Panes },
}

/// The user is asked whether to delete something.
pub struct Confirm {
    pub target: String,
    pub entity_id: String,
    pub kind: DeleteTarget,
}

/// The list of values that a setting can have.
pub struct SettingsPicker {
    pub options: Vec<String>,
    pub index: usize,
    pub target: Option<SettingsEditTarget>,
}

/// One value of a field of a project board.
pub struct FieldOption {
    pub id: String,
    pub name: String,
}

impl Clone for FieldOption {
    fn clone(&self) -> (r: Self)
        ensures
            r == *self,
    {
        FieldOption { id: self.id.clone(), name: self.name.clone() }
    }
}

/// The list of values that a field of a board item can have.
pub struct FieldPicker {
    pub options: Vec<FieldOption>,
    pub index: usize,
    pub field_name: Option<String>,
    pub field_id: Option<String>,
    pub project_node_id: Option<String>,
    pub item_node_id: Option<String>,
}

/// Who is logged in at GitHub, and how.
pub struct GitHubStatus {
    /// The login of the GitHub App's session, and that of the command-line tool.
    pub user_login: Option<String>,
    pub gh_user_login: Option<String>,
    pub authenticated: bool,
    pub gh_authenticated: bool,
    pub gh_has_project_scope: bool,
    /// There is a GitHub App to log in with.
    pub app_auth_available: bool,
}

/// What is known of the connection to GitHub.
pub struct GitHubState {
    pub status: GitHubStatus,
    pub gh_installed: bool,
    pub has_repos: bool,
    pub installations: Vec<GitHubInstallation>,
    pub auth_prompt: Option<String>,
    pub auth_error: Option<String>,
}

/// The open pull requests, the two queues of them, and what is known of the selected
/// one.
pub struct Reviews {
    pub items: Vec<ReviewQueueItem>,
    pub authored: Vec<usize>,
    pub requested: Vec<usize>,
    pub comments: Vec<GitHubComment>,
    pub reviews: Vec<GitHubReview>,
    pub review_comments: Vec<GitHubReviewComment>,
}

/// The issues and pull requests that may be the user's, and those of them that are and
/// match the filter.
pub struct MyTasks {
    pub items: Vec<MyTaskItem>,
    pub visible: Vec<usize>,
    /// Some item is the user's, whatever the filter.
    pub any_mine: bool,
}

/// Work that goes on in the background.
pub struct Busy {
    pub session_op: bool,
    pub github_auth: bool,
    pub github_installations: bool,
    pub github_sync: bool,
    /// The tasks whose titles are being generated.
    pub pending_titles: Vec<String>,
}

/// A stage whose prompt has been handed to an agent.
pub struct InjectedStage {
    pub stage_id: String,
    /// The agent has been seen at work since.
    pub seen_working: bool,
}

pub struct App {
    pub nav: Nav,
    pub toast: Option<Toast>,
    pub config: Config,
    pub config_warning: Option<String>,
    pub agent: AgentNames,
    pub tabs: Vec<Tab>,
    pub projects: Vec<Project>,
    pub sessions: Vec<Session>,
    pub tasks: Vec<Task>,
    pub threads: Vec<Thread>,
    pub subtasks: Vec<Subtask>,
    /// The places of the tasks that the list shows, in its order.
    pub visible: Vec<usize>,
    pub task_filter: TextInput,
    pub watch: ReviewWatch,
    pub github: GitHubState,
    pub reviews: Reviews,
    pub my_tasks: MyTasks,
    pub board: Board,
    /// The text field of the form that is open.
    pub input: TextInput,
    pub task_form: TaskForm,
    pub project_form: ProjectForm,
    pub composer: Composer,
    pub settings_edit: Option<SettingsEditTarget>,
    pub settings_picker: SettingsPicker,
    pub launch: LaunchForm,
    pub compose: Compose,
    pub palette: Palette,
    pub skills: Skills,
    pub field_picker: FieldPicker,
    pub confirm: Confirm,
    pub busy: Busy,
    /// The task and its project that are launched again once a session is torn down.
    pub pending_relaunch: Option<(String, String)>,
    /// Sessions whose agent waits for a permission.
    pub paused: Vec<String>,
    /// Sessions whose agent shows its prompt or has ended.
    pub pty_idle: Vec<String>,
    pub injected: Vec<InjectedStage>,
    pub conversation: Option<ConversationCache>,
}

// ---------------------------------------------------------------------------
// Toasts
// ---------------------------------------------------------------------------

pub open spec fn toast_is(t: Option<Toast>, message: Seq<char>, style: ToastStyle) -> bool {
    t matches Some(toast) && toast.message@ == message && toast.style == style
}

/// Nothing but the toast is new.
pub open spec fn says(pre: App, post: App, message: Seq<char>, style: ToastStyle) -> bool {
    toast_is(post.toast, message, style) && post == (App { toast: post.toast, ..pre })
}

/// The app with another input mode.
pub open spec fn in_mode(a: App, mode: InputMode) -> App {
    App { nav: Nav { input_mode: mode, ..a.nav }, ..a }
}

pub open spec fn with_focus(a: App, focus: Focus) -> App {
    App { nav: Nav { focus: focus, ..a.nav }, ..a }
}

/// The app with an empty text field in its form; the cursor stands where it stood.
pub open spec fn input_cleared(pre: App, post: App) -> bool {
    post.input.text@.len() == 0 && post.input.cursor == pre.input.cursor && post == (App {
        input: post.input,
        ..pre
    })
}

// ---------------------------------------------------------------------------
// Selections
// ---------------------------------------------------------------------------

/// The element at a place, where there is one.
pub open spec fn at<A>(s: Seq<A>, i: int) -> Option<A> {
    if 0 <= i < s.len() {
        Some(s[i])
    } else {
        None
    }
}

pub open spec fn project_of(a: App) -> Option<Project> {
    at(a.projects@, a.nav.project_index as int)
}

pub open spec fn github_login(a: App) -> Option<Seq<char>> {
    match a.github.status.user_login {
        Some(login) => Some(login@),
        None => text_option(a.github.status.gh_user_login),
    }
}

/// The task view lists GitHub items in place of tasks.
pub open spec fn uses_github(a: App) -> bool {
    a.my_tasks.any_mine || (github_login(a) is Some && a.github.has_repos)
}

/// The lists of places point into what they list.
pub open spec fn places_wf(v: Seq<usize>, n: nat) -> bool {
    forall|i: int| 0 <= i < v.len() ==> (#[trigger] v[i]) < n
}

impl App {
    /// What every operation keeps.
    pub open spec fn wf(&self) -> bool {
        &&& places_wf(self.visible@, self.tasks@.len())
        &&& places_wf(self.my_tasks.visible@, self.my_tasks.items@.len())
        &&& places_wf(self.reviews.authored@, self.reviews.items@.len())
        &&& places_wf(self.reviews.requested@, self.reviews.items@.len())
        &&& self.task_form.wf()
        &&& self.composer.field < 4
        &&& self.project_form.field < 3
        &&& self.nav.provider_picker_index < 2
        &&& self.compose.wf()
        &&& self.projects@.len() + WorkbenchView::all().len() <= usize::MAX
        &&& tabs_wf(self.tabs@)
    }
}

/// The panes of a tab divide it by percentages.
pub open spec fn tab_wf(tab: Tab) -> bool {
    tab matches Tab::Session { panes, .. } ==> panes.layout.wf()
}

pub open spec fn tabs_wf(tabs: Seq<Tab>) -> bool {
    forall|i: int| 0 <= i < tabs.len() ==> tab_wf(#[trigger] tabs[i])
}

pub open spec fn visible_task(a: App, i: usize) -> Option<Task> {
    match at(a.visible@, i as int) {
        Some(k) => Some(a.tasks@[k as int]),
        None => None,
    }
}

pub open spec fn visible_my_task(a: App, i: usize) -> Option<MyTaskItem> {
    match at(a.my_tasks.visible@, i as int) {
        Some(k) => Some(a.my_tasks.items@[k as int]),
        None => None,
    }
}

pub open spec fn queue(a: App) -> Seq<usize> {
    match a.nav.review_queue_tab {
        ReviewQueueTab::Authored => a.reviews.authored@,
        ReviewQueueTab::NeedsReview => a.reviews.requested@,
    }
}

pub open spec fn review_item(a: App) -> Option<ReviewQueueItem> {
    match at(queue(a), a.nav.review_index as int) {
        Some(k) => Some(a.reviews.items@[k as int]),
        None => None,
    }
}

pub open spec fn my_task_item(a: App) -> Option<MyTaskItem> {
    if a.nav.workbench_view == WorkbenchView::MyTasks && uses_github(a) {
        visible_my_task(a, a.nav.task_index)
    } else {
        None
    }
}

/// A thread works on a GitHub item, on a task, in a session.
pub open spec fn thread_on_item(id: Seq<char>) -> spec_fn(Thread) -> bool {
    |t: Thread| option_is(t.github_item_id, id)
}

pub open spec fn thread_on_task(id: Seq<char>) -> spec_fn(Thread) -> bool {
    |t: Thread| option_is(t.task_id, id)
}

pub open spec fn thread_in_session(id: Seq<char>) -> spec_fn(Thread) -> bool {
    |t: Thread| option_is(t.session_id, id)
}

pub open spec fn thread_with_id(id: Seq<char>) -> spec_fn(Thread) -> bool {
    |t: Thread| t.id@ == id
}

pub open spec fn task_with_id(id: Seq<char>) -> spec_fn(Task) -> bool {
    |t: Task| t.id@ == id
}

/// A task that a thread works on together with a GitHub item.
pub open spec fn task_of_item(threads: Seq<Thread>, item: Seq<char>) -> spec_fn(Task) -> bool {
    |task: Task|
        any_where(
            threads,
            |t: Thread| option_is(t.github_item_id, item) && option_is(t.task_id, task.id@),
        )
}

/// The task that the selection means.
pub open spec fn task_of(a: App) -> Option<Task> {
    match a.nav.workbench_view {
        WorkbenchView::MyTasks => if uses_github(a) {
            None
        } else {
            visible_task(a, a.nav.task_index)
        },
        WorkbenchView::Reviews => match review_item(a) {
            Some(item) => first_where(a.tasks@, task_of_item(a.threads@, item.github_item.id@)),
            None => None,
        },
        WorkbenchView::Threads => match at(a.threads@, a.nav.thread_index as int) {
            Some(thread) => match thread.task_id {
                Some(id) => first_where(a.tasks@, task_with_id(id@)),
                None => None,
            },
            None => None,
        },
        _ => visible_task(a, a.nav.task_index),
    }
}

/// The thread that works on the selected task.
pub open spec fn thread_of_task(a: App) -> Option<Thread> {
    match task_of(a) {
        Some(task) => first_where(a.threads@, thread_on_task(task.id@)),
        None => None,
    }
}

/// The thread that the selection means.
pub open spec fn thread_of(a: App) -> Option<Thread> {
    match a.nav.workbench_view {
        WorkbenchView::Threads => at(a.threads@, a.nav.thread_index as int),
        WorkbenchView::MyTasks => if uses_github(a) {
            match my_task_item(a) {
                Some(item) => match item.linked_thread {
                    Some(thread) => Some(thread),
                    None => first_where(a.threads@, thread_on_item(item.github_item.id@)),
                },
                None => None,
            }
        } else {
            thread_of_task(a)
        },
        WorkbenchView::Reviews => match review_item(a) {
            Some(item) => first_where(a.threads@, thread_on_item(item.github_item.id@)),
            None => None,
        },
        _ => thread_of_task(a),
    }
}

/// The session of the active tab.
pub open spec fn session_of(a: App) -> Option<Seq<char>> {
    match at(a.tabs@, a.nav.active_tab as int) {
        Some(Tab::Session { session_id, .. }) => Some(session_id@),
        _ => None,
    }
}

/// The thread of the active tab: the listed one, else the one that the database has.
pub open spec fn active_thread(a: App, stored: Option<Thread>) -> Option<Thread> {
    match session_of(a) {
        Some(id) => match first_where(a.threads@, thread_in_session(id)) {
            Some(thread) => Some(thread),
            None => stored,
        },
        None => None,
    }
}

/// The agent of the active session waits for a permission.
pub open spec fn is_paused(a: App) -> bool {
    session_of(a) matches Some(id) && views(a.paused@).contains(id)
}

/// The active tab shows the conversation of a thread.
pub open spec fn shows_thread(a: App, stored: Option<Thread>) -> bool {
    (at(a.tabs@, a.nav.active_tab as int) matches Some(Tab::Session {
        view_mode: SessionTabView::Conversation,
        ..
    })) && active_thread(a, stored) is Some
}

/// A session that still runs.
pub open spec fn live_session(id: Seq<char>) -> spec_fn(Session) -> bool {
    |s: Session| s.id@ == id && !s.closed
}

pub open spec fn live_session_of(a: App, thread: Thread) -> Option<Session> {
    match thread.session_id {
        Some(id) => first_where(a.sessions@, live_session(id@)),
        None => None,
    }
}

/// The tab of a session.
pub open spec fn is_tab_of(tab: Tab, id: Seq<char>) -> bool {
    tab matches Tab::Session { session_id, .. } && session_id@ == id
}

pub open spec fn tab_place(tabs: Seq<Tab>, id: Seq<char>) -> Option<int>
    decreases tabs.len(),
{
    if tabs.len() == 0 {
        None
    } else {
        match tab_place(tabs.drop_last(), id) {
            Some(i) => Some(i),
            None => if is_tab_of(tabs.last(), id) {
                Some(tabs.len() - 1)
            } else {
                None
            },
        }
    }
}

/// The entry that the sidebar's cursor is at.
pub open spec fn sidebar_item(a: App) -> SidebarItem {
    let n = WorkbenchView::all().len();
    if a.nav.sidebar_cursor < n {
        SidebarItem::Navigation(WorkbenchView::all()[a.nav.sidebar_cursor as int])
    } else {
        SidebarItem::Repository((a.nav.sidebar_cursor - n) as usize)
    }
}

proof fn lemma_tab_place(tabs: Seq<Tab>, id: Seq<char>, n: int)
    requires
        0 <= n <= tabs.len(),
    ensures
        (forall|i: int| 0 <= i < n ==> !is_tab_of(#[trigger] tabs[i], id)) ==> tab_place(
            tabs.take(n),
            id,
        ) is None,
        forall|i: int|
            0 <= i < n && is_tab_of(#[trigger] tabs[i], id) && (forall|j: int|
                0 <= j < i ==> !is_tab_of(#[trigger] tabs[j], id)) ==> tab_place(
                tabs.take(n),
                id,
            ) == Some(i),
    decreases n,
{
    if n > 0 {
        lemma_tab_place(tabs, id, n - 1);
        assert(tabs.take(n).drop_last() =~= tabs.take(n - 1));
        assert(tabs.take(n).last() == tabs[n - 1]);
    }
}

// ---------------------------------------------------------------------------
// Searching
// ---------------------------------------------------------------------------

pub fn find_thread_by_item<'a>(threads: &'a Vec<Thread>, id: &str) -> (r: Option<&'a Thread>)
    ensures
        first_where(threads@, thread_on_item(id@)) == match r {
            Some(t) => Some(*t),
            None => None,
        },
{
    let mut i: usize = 0;
    while i < threads.len()
        invariant
            i <= threads@.len(),
            forall|j: int| 0 <= j < i ==> !option_is((#[trigger] threads@[j]).github_item_id, id@),
        decreases threads@.len() - i,
    {
        if text_is(&threads[i].github_item_id, id) {
            proof {
                lemma_first_found(threads@, thread_on_item(id@), i as int);
            }
            return Some(&threads[i]);
        }
        i += 1;
    }
    proof {
        lemma_first_missing(threads@, thread_on_item(id@));
    }
    None
}

pub fn find_thread_by_task<'a>(threads: &'a Vec<Thread>, id: &str) -> (r: Option<&'a Thread>)
    ensures
        first_where(threads@, thread_on_task(id@)) == match r {
            Some(t) => Some(*t),
            None => None,
        },
{
    let mut i: usize = 0;
    while i < threads.len()
        invariant
            i <= threads@.len(),
            forall|j: int| 0 <= j < i ==> !option_is((#[trigger] threads@[j]).task_id, id@),
        decreases threads@.len() - i,
    {
        if text_is(&threads[i].task_id, id) {
            proof {
                lemma_first_found(threads@, thread_on_task(id@), i as int);
            }
            return Some(&threads[i]);
        }
        i += 1;
    }
    proof {
        lemma_first_missing(threads@, thread_on_task(id@));
    }
    None
}

pub fn find_thread_by_session<'a>(threads: &'a Vec<Thread>, id: &str) -> (r: Option<&'a Thread>)
    ensures
        first_where(threads@, thread_in_session(id@)) == match r {
            Some(t) => Some(*t),
            None => None,
        },
{
    let mut i: usize = 0;
    while i < threads.len()
        invariant
            i <= threads@.len(),
            forall|j: int| 0 <= j < i ==> !option_is((#[trigger] threads@[j]).session_id, id@),
        decreases threads@.len() - i,
    {
        if text_is(&threads[i].session_id, id) {
            proof {
                lemma_first_found(threads@, thread_in_session(id@), i as int);
            }
            return Some(&threads[i]);
        }
        i += 1;
    }
    proof {
        lemma_first_missing(threads@, thread_in_session(id@));
    }
    None
}

/// The first place of a thread with an id.
pub open spec fn thread_place(threads: Seq<Thread>, id: Seq<char>) -> Option<int> {
    if any_where(threads, thread_with_id(id)) {
        Some(
            choose|i: int|
                0 <= i < threads.len() && (#[trigger] threads[i]).id@ == id && forall|j: int|
                    0 <= j < i ==> (#[trigger] threads[j]).id@ != id,
        )
    } else {
        None
    }
}

pub fn place_of_thread(threads: &Vec<Thread>, id: &str) -> (r: Option<usize>)
    ensures
        thread_place(threads@, id@) == match r {
            Some(i) => Some(i as int),
            None => None,
        },
        r matches Some(i) ==> i < threads@.len() && threads@[i as int].id@ == id@ && first_where(
            threads@,
            thread_with_id(id@),
        ) == Some(threads@[i as int]),
        r is None ==> first_where(threads@, thread_with_id(id@)) is None,
{
    let mut i: usize = 0;
    while i < threads.len()
        invariant
            i <= threads@.len(),
            forall|j: int| 0 <= j < i ==> (#[trigger] threads@[j]).id@ != id@,
        decreases threads@.len() - i,
    {
        if same(threads[i].id.as_str(), id) {
            proof {
                lemma_first_found(threads@, thread_with_id(id@), i as int);
                assert(thread_with_id(id@)(threads@[i as int]));
                assert(any_where(threads@, thread_with_id(id@)));
                let k = thread_place(threads@, id@)->0;
                assert(threads@[i as int].id@ == id@);
                if k < i {
                    assert(threads@[k].id@ != id@);
                }
            }
            return Some(i);
        }
        i += 1;
    }
    proof {
        lemma_first_missing(threads@, thread_with_id(id@));
    }
    None
}

fn find_task<'a>(tasks: &'a Vec<Task>, id: &str) -> (r: Option<&'a Task>)
    ensures
        first_where(tasks@, task_with_id(id@)) == match r {
            Some(t) => Some(*t),
            None => None,
        },
{
    let mut i: usize = 0;
    while i < tasks.len()
        invariant
            i <= tasks@.len(),
            forall|j: int| 0 <= j < i ==> (#[trigger] tasks@[j]).id@ != id@,
        decreases tasks@.len() - i,
    {
        if same(tasks[i].id.as_str(), id) {
            proof {
                lemma_first_found(tasks@, task_with_id(id@), i as int);
            }
            return Some(&tasks[i]);
        }
        i += 1;
    }
    proof {
        lemma_first_missing(tasks@, task_with_id(id@));
    }
    None
}

fn thread_links(threads: &Vec<Thread>, item: &str, task: &str) -> (r: bool)
    ensures
        r == any_where(
            threads@,
            |t: Thread| option_is(t.github_item_id, item@) && option_is(t.task_id, task@),
        ),
{
    let mut i: usize = 0;
    while i < threads.len()
        invariant
            i <= threads@.len(),
            forall|j: int|
                0 <= j < i ==> !(option_is((#[trigger] threads@[j]).github_item_id, item@)
                    && option_is(threads@[j].task_id, task@)),
        decreases threads@.len() - i,
    {
        if text_is(&threads[i].github_item_id, item) && text_is(&threads[i].task_id, task) {
            assert(threads@[i as int] == threads@[i as int]);
            return true;
        }
        i += 1;
    }
    false
}

fn find_task_of_item<'a>(tasks: &'a Vec<Task>, threads: &Vec<Thread>, item: &str) -> (r: Option<
    &'a Task,
>)
    ensures
        first_where(tasks@, task_of_item(threads@, item@)) == match r {
            Some(t) => Some(*t),
            None => None,
        },
{
    let mut i: usize = 0;
    let ghost p = task_of_item(threads@, item@);
    while i < tasks.len()
        invariant
            i <= tasks@.len(),
            p == task_of_item(threads@, item@),
            forall|j: int| 0 <= j < i ==> !p(#[trigger] tasks@[j]),
        decreases tasks@.len() - i,
    {
        if thread_links(threads, item, tasks[i].id.as_str()) {
            assert(p(tasks@[i as int]));
            proof {
                lemma_first_found(tasks@, p, i as int);
            }
            return Some(&tasks[i]);
        }
        assert(!p(tasks@[i as int]));
        i += 1;
    }
    proof {
        lemma_first_missing(tasks@, p);
    }
    None
}

pub fn find_live_session<'a>(sessions: &'a Vec<Session>, id: &str) -> (r: Option<&'a Session>)
    ensures
        first_where(sessions@, live_session(id@)) == match r {
            Some(s) => Some(*s),
            None => None,
        },
{
    let mut i: usize = 0;
    while i < sessions.len()
        invariant
            i <= sessions@.len(),
            forall|j: int|
                0 <= j < i ==> !((#[trigger] sessions@[j]).id@ == id@ && !sessions@[j].closed),
        decreases sessions@.len() - i,
    {
        if same(sessions[i].id.as_str(), id) && !sessions[i].closed {
            proof {
                lemma_first_found(sessions@, live_session(id@), i as int);
            }
            return Some(&sessions[i]);
        }
        i += 1;
    }
    proof {
        lemma_first_missing(sessions@, live_session(id@));
    }
    None
}

/// What the listed session with an id is doing.
pub open spec fn session_with_id(id: Seq<char>) -> spec_fn(Session) -> bool {
    |s: Session| s.id@ == id
}

pub open spec fn status_of_session(a: App, id: Seq<char>) -> Option<ClaudeStatus> {
    match first_where(a.sessions@, session_with_id(id)) {
        Some(s) => Some(s.claude_status),
        None => None,
    }
}

pub(crate) fn find_session<'a>(sessions: &'a Vec<Session>, id: &str) -> (r: Option<&'a Session>)
    ensures
        first_where(sessions@, session_with_id(id@)) == match r {
            Some(s) => Some(*s),
            None => None,
        },
{
    let mut i: usize = 0;
    while i < sessions.len()
        invariant
            i <= sessions@.len(),
            forall|j: int| 0 <= j < i ==> (#[trigger] sessions@[j]).id@ != id@,
        decreases sessions@.len() - i,
    {
        if same(sessions[i].id.as_str(), id) {
            proof {
                lemma_first_found(sessions@, session_with_id(id@), i as int);
            }
            return Some(&sessions[i]);
        }
        i += 1;
    }
    proof {
        lemma_first_missing(sessions@, session_with_id(id@));
    }
    None
}

impl App {
    /// Show a message to the user.
    pub fn show_toast(&mut self, message: String, style: ToastStyle)
        ensures
            says(*old(self), *final(self), message@, style),
            old(self).wf() ==> final(self).wf(),
    {
        self.toast = Some(Toast { message, style });
    }

    pub fn sidebar_nav_count() -> (r: usize)
        ensures
            r == WorkbenchView::all().len(),
            r == 5,
    {
        5
    }

    pub fn selected_sidebar_item(&self) -> (r: SidebarItem)
        ensures
            r == sidebar_item(*self),
    {
        match WorkbenchView::at(self.nav.sidebar_cursor) {
            Some(view) => SidebarItem::Navigation(view),
            None => SidebarItem::Repository(self.nav.sidebar_cursor - App::sidebar_nav_count()),
        }
    }

    pub fn selected_project(&self) -> (r: Option<&Project>)
        ensures
            project_of(*self) == match r {
                Some(p) => Some(*p),
                None => None,
            },
    {
        if self.nav.project_index < self.projects.len() {
            Some(&self.projects[self.nav.project_index])
        } else {
            None
        }
    }

    pub fn current_github_login(&self) -> (r: Option<String>)
        ensures
            text_option(r) == github_login(*self),
    {
        match &self.github.status.user_login {
            Some(login) => Some(login.clone()),
            None => clone_text(&self.github.status.gh_user_login),
        }
    }

    pub fn uses_github_my_tasks(&self) -> (r: bool)
        ensures
            r == uses_github(*self),
    {
        self.my_tasks.any_mine || (self.current_github_login().is_some() && self.github.has_repos)
    }

    /// Narrow the task list to the tasks that match the filter, in the order of the
    /// list.
    pub fn recompute_visible_tasks(&mut self)
        ensures
            lists_visible_tasks(
                final(self).visible@,
                old(self).tasks@,
                old(self).task_filter.text@,
            ),
            *final(self) == (App { visible: final(self).visible, ..*old(self) }),
            places_wf(final(self).visible@, old(self).tasks@.len()),
            old(self).wf() ==> final(self).wf(),
    {
        self.visible = visible_task_indices(&self.tasks, self.task_filter.text.as_str());
    }

    /// The tasks of the list, in its order.
    pub fn visible_tasks(&self) -> (r: Vec<&Task>)
        requires
            self.wf(),
        ensures
            r@.len() == self.visible@.len(),
            forall|i: int|
                0 <= i < r@.len() ==> *(#[trigger] r@[i]) == self.tasks@[self.visible@[i] as int],
    {
        let mut r: Vec<&Task> = Vec::new();
        let mut i: usize = 0;
        while i < self.visible.len()
            invariant
                self.wf(),
                i <= self.visible@.len(),
                r@.len() == i,
                forall|k: int|
                    0 <= k < i ==> *(#[trigger] r@[k]) == self.tasks@[self.visible@[k] as int],
            decreases self.visible@.len() - i,
        {
            assert(self.visible@[i as int] < self.tasks@.len());
            r.push(&self.tasks[self.visible[i]]);
            i += 1;
        }
        r
    }

    /// The GitHub items of the list, in its order.
    pub fn visible_my_tasks(&self) -> (r: Vec<&MyTaskItem>)
        requires
            self.wf(),
        ensures
            r@.len() == self.my_tasks.visible@.len(),
            forall|i: int|
                0 <= i < r@.len() ==> *(#[trigger] r@[i])
                    == self.my_tasks.items@[self.my_tasks.visible@[i] as int],
    {
        let mut r: Vec<&MyTaskItem> = Vec::new();
        let mut i: usize = 0;
        while i < self.my_tasks.visible.len()
            invariant
                self.wf(),
                i <= self.my_tasks.visible@.len(),
                r@.len() == i,
                forall|k: int|
                    0 <= k < i ==> *(#[trigger] r@[k])
                        == self.my_tasks.items@[self.my_tasks.visible@[k] as int],
            decreases self.my_tasks.visible@.len() - i,
        {
            assert(self.my_tasks.visible@[i as int] < self.my_tasks.items@.len());
            r.push(&self.my_tasks.items[self.my_tasks.visible[i]]);
            i += 1;
        }
        r
    }

    pub fn visible_task_count(&self) -> (r: usize)
        ensures
            r == self.visible@.len(),
    {
        self.visible.len()
    }

    pub fn visible_my_task_count(&self) -> (r: usize)
        ensures
            r == self.my_tasks.visible@.len(),
    {
        self.my_tasks.visible.len()
    }

    pub fn visible_task_at(&self, index: usize) -> (r: Option<&Task>)
        requires
            self.wf(),
        ensures
            visible_task(*self, index) == match r {
                Some(t) => Some(*t),
                None => None,
            },
    {
        if index < self.visible.len() {
            assert(self.visible@[index as int] < self.tasks@.len());
            Some(&self.tasks[self.visible[index]])
        } else {
            None
        }
    }

    pub fn visible_my_task_at(&self, index: usize) -> (r: Option<&MyTaskItem>)
        requires
            self.wf(),
        ensures
            visible_my_task(*self, index) == match r {
                Some(t) => Some(*t),
                None => None,
            },
    {
        if index < self.my_tasks.visible.len() {
            assert(self.my_tasks.visible@[index as int] < self.my_tasks.items@.len());
            Some(&self.my_tasks.items[self.my_tasks.visible[index]])
        } else {
            None
        }
    }

    pub fn selected_my_task_item(&self) -> (r: Option<&MyTaskItem>)
        requires
            self.wf(),
        ensures
            my_task_item(*self) == match r {
                Some(t) => Some(*t),
                None => None,
            },
    {
        if self.nav.workbench_view == WorkbenchView::MyTasks && self.uses_github_my_tasks() {
            self.visible_my_task_at(self.nav.task_index)
        } else {
            None
        }
    }

    /// The places of the pull requests of the queue that is shown.
    pub fn review_items(&self) -> (r: &Vec<usize>)
        ensures
            r@ == queue(*self),
    {
        match self.nav.review_queue_tab {
            ReviewQueueTab::Authored => &self.reviews.authored,
            ReviewQueueTab::NeedsReview => &self.reviews.requested,
        }
    }

    pub fn selected_review_item(&self) -> (r: Option<&ReviewQueueItem>)
        requires
            self.wf(),
        ensures
            review_item(*self) == match r {
                Some(t) => Some(*t),
                None => None,
            },
    {
        let list = self.review_items();
        if self.nav.review_index < list.len() {
            assert(queue(*self)[self.nav.review_index as int] < self.reviews.items@.len());
            Some(&self.reviews.items[list[self.nav.review_index]])
        } else {
            None
        }
    }

    pub fn selected_task(&self) -> (r: Option<&Task>)
        requires
            self.wf(),
        ensures
            task_of(*self) == match r {
                Some(t) => Some(*t),
                None => None,
            },
    {
        match self.nav.workbench_view {
            WorkbenchView::MyTasks => if self.uses_github_my_tasks() {
                None
            } else {
                self.visible_task_at(self.nav.task_index)
            },
            WorkbenchView::Reviews => match self.selected_review_item() {
                Some(item) => find_task_of_item(
                    &self.tasks,
                    &self.threads,
                    item.github_item.id.as_str(),
                ),
                None => None,
            },
            WorkbenchView::Threads => if self.nav.thread_index < self.threads.len() {
                match &self.threads[self.nav.thread_index].task_id {
                    Some(id) => find_task(&self.tasks, id.as_str()),
                    None => None,
                }
            } else {
                None
            },
            _ => self.visible_task_at(self.nav.task_index),
        }
    }

    fn selected_task_thread(&self) -> (r: Option<&Thread>)
        requires
            self.wf(),
        ensures
            thread_of_task(*self) == match r {
                Some(t) => Some(*t),
                None => None,
            },
    {
        match self.selected_task() {
            Some(task) => find_thread_by_task(&self.threads, task.id.as_str()),
            None => None,
        }
    }

    pub fn selected_thread(&self) -> (r: Option<&Thread>)
        requires
            self.wf(),
        ensures
            thread_of(*self) == match r {
                Some(t) => Some(*t),
                None => None,
            },
    {
        match self.nav.workbench_view {
            WorkbenchView::Threads => if self.nav.thread_index < self.threads.len() {
                Some(&self.threads[self.nav.thread_index])
            } else {
                None
            },
            WorkbenchView::MyTasks => if self.uses_github_my_tasks() {
                match self.selected_my_task_item() {
                    Some(item) => match &item.linked_thread {
                        Some(thread) => Some(thread),
                        None => find_thread_by_item(&self.threads, item.github_item.id.as_str()),
                    },
                    None => None,
                }
            } else {
                self.selected_task_thread()
            },
            WorkbenchView::Reviews => match self.selected_review_item() {
                Some(item) => find_thread_by_item(&self.threads, item.github_item.id.as_str()),
                None => None,
            },
            _ => self.selected_task_thread(),
        }
    }

    pub fn active_session_id(&self) -> (r: Option<&String>)
        ensures
            session_of(*self) == match r {
                Some(id) => Some(id@),
                None => None,
            },
    {
        if self.nav.active_tab < self.tabs.len() {
            match &self.tabs[self.nav.active_tab] {
                Tab::Session { session_id, .. } => Some(session_id),
                Tab::Dashboard => None,
            }
        } else {
            None
        }
    }

    /// The thread of the active tab; `stored` is the one that the database has for
    /// its session.
    pub fn active_session_thread(&self, stored: &Option<Thread>) -> (r: Option<Thread>)
        ensures
            r == active_thread(*self, *stored),
    {
        match self.active_session_id() {
            Some(id) => match find_thread_by_session(&self.threads, id.as_str()) {
                Some(thread) => Some(thread.clone()),
                None => match stored {
                    Some(thread) => Some(thread.clone()),
                    None => None,
                },
            },
            None => None,
        }
    }

    pub fn active_session_uses_thread_workspace(&self, stored: &Option<Thread>) -> (r: bool)
        ensures
            r == shows_thread(*self, *stored),
    {
        if self.nav.active_tab < self.tabs.len() {
            match &self.tabs[self.nav.active_tab] {
                Tab::Session { view_mode: SessionTabView::Conversation, .. } => {
                    self.active_session_thread(stored).is_some()
                },
                _ => false,
            }
        } else {
            false
        }
    }

    /// The agent of the active session waits for a permission.
    pub fn active_session_is_paused(&self) -> (r: bool)
        ensures
            r == is_paused(*self),
    {
        match self.active_session_id() {
            Some(id) => list_contains(&self.paused, id.as_str()),
            None => false,
        }
    }

    pub fn live_session_for_thread(&self, thread: &Thread) -> (r: Option<Session>)
        ensures
            r == live_session_of(*self, *thread),
    {
        match &thread.session_id {
            Some(id) => match find_live_session(&self.sessions, id.as_str()) {
                Some(session) => Some(session.clone()),
                None => None,
            },
            None => None,
        }
    }

    /// What the session with an id is doing, where it is listed.
    pub fn session_status(&self, id: &str) -> (r: Option<ClaudeStatus>)
        ensures
            r == status_of_session(*self, id@),
    {
        match find_session(&self.sessions, id) {
            Some(s) => Some(s.claude_status),
            None => None,
        }
    }

    /// Go to an input mode.
    pub(crate) fn enter_mode(&mut self, mode: InputMode)
        ensures
            *final(self) == in_mode(*old(self), mode),
            old(self).wf() ==> final(self).wf(),
    {
        self.nav.input_mode = mode;
    }

    /// Move the focus to a part of the workbench.
    pub(crate) fn move_focus(&mut self, focus: Focus)
        ensures
            *final(self) == with_focus(*old(self), focus),
            old(self).wf() ==> final(self).wf(),
    {
        self.nav.focus = focus;
    }

    /// The tab of a session.
    pub fn find_session_tab(&self, id: &str) -> (r: Option<usize>)
        ensures
            tab_place(self.tabs@, id@) == match r {
                Some(i) => Some(i as int),
                None => None,
            },
            r matches Some(i) ==> i < self.tabs@.len() && is_tab_of(self.tabs@[i as int], id@),
    {
        let mut i: usize = 0;
        while i < self.tabs.len()
            invariant
                i <= self.tabs@.len(),
                forall|j: int| 0 <= j < i ==> !is_tab_of(#[trigger] self.tabs@[j], id@),
            decreases self.tabs@.len() - i,
        {
            let found = match &self.tabs[i] {
                Tab::Session { session_id, .. } => same(session_id.as_str(), id),
                Tab::Dashboard => false,
            };
            if found {
                proof {
                    lemma_tab_place(self.tabs@, id@, self.tabs@.len() as int);
                    assert(self.tabs@.take(self.tabs@.len() as int) =~= self.tabs@);
                    assert(is_tab_of(self.tabs@[i as int], id@));
                }
                return Some(i);
            }
            i += 1;
        }
        proof {
            lemma_tab_place(self.tabs@, id@, self.tabs@.len() as int);
            assert(self.tabs@.take(self.tabs@.len() as int) =~= self.tabs@);
        }
        None
    }

    /// The label of the work in the background that is shown.
    pub fn busy_indicator_label(&self) -> (r: Option<&'static str>)
        ensures
            busy_label(*self) == match r {
                Some(s) => Some(s@),
                None => None,
            },
    {
        if self.busy.session_op {
            Some("preparing session")
        } else if self.busy.github_auth {
            Some("connecting GitHub")
        } else if self.busy.github_installations {
            Some("loading GitHub installations")
        } else if self.busy.github_sync {
            Some("syncing GitHub")
        } else if self.board.loading {
            Some("loading sprint board")
        } else if self.busy.pending_titles.len() > 0 {
            Some("generating task title")
        } else {
            None
        }
    }
}

/// The first of the works in the background that go on.
pub open spec fn busy_label(a: App) -> Option<Seq<char>> {
    if a.busy.session_op {
        Some("preparing session"@)
    } else if a.busy.github_auth {
        Some("connecting GitHub"@)
    } else if a.busy.github_installations {
        Some("loading GitHub installations"@)
    } else if a.busy.github_sync {
        Some("syncing GitHub"@)
    } else if a.board.loading {
        Some("loading sprint board"@)
    } else if a.busy.pending_titles@.len() > 0 {
        Some("generating task title"@)
    } else {
        None
    }
}

// ---------------------------------------------------------------------------
// Laws
// ---------------------------------------------------------------------------

/// The tab of a session is the first one that carries its id; without such a tab there is
/// none.
pub proof fn law_the_first_tab_counts(tabs: Seq<Tab>, id: Seq<char>)
    ensures
        match tab_place(tabs, id) {
            Some(i) => 0 <= i < tabs.len() && (tabs[i] matches Tab::Session { session_id, .. }
                && session_id@ == id) && forall|j: int|
                0 <= j < i ==> !((#[trigger] tabs[j]) matches Tab::Session { session_id, .. }
                    && session_id@ == id),
            None => forall|j: int|
                0 <= j < tabs.len() ==> !((#[trigger] tabs[j]) matches Tab::Session {
                    session_id,
                    ..
                } && session_id@ == id),
        },
    decreases tabs.len(),
{
    if tabs.len() > 0 {
        let rest = tabs.drop_last();
        law_the_first_tab_counts(rest, id);
        assert forall|j: int| 0 <= j < rest.len() implies #[trigger] tabs[j] == rest[j] by {}
    }
}

/// The status of a session is that of the first listed session with its id; a session that
/// is not listed has none.
pub proof fn law_a_session_has_its_listed_status(a: App, id: Seq<char>)
    ensures
        forall|i: int|
            0 <= i < a.sessions@.len() && (#[trigger] a.sessions@[i]).id@ == id && (forall|j: int|
                0 <= j < i ==> (#[trigger] a.sessions@[j]).id@ != id) ==> status_of_session(a, id)
                == Some(a.sessions@[i].claude_status),
        (forall|i: int| 0 <= i < a.sessions@.len() ==> (#[trigger] a.sessions@[i]).id@ != id)
            ==> status_of_session(a, id) is None,
{
    assert forall|i: int|
        0 <= i < a.sessions@.len() && (#[trigger] a.sessions@[i]).id@ == id && (forall|j: int|
            0 <= j < i ==> (#[trigger] a.sessions@[j]).id@ != id) implies status_of_session(a, id)
        == Some(a.sessions@[i].claude_status) by {
        lemma_first_found(a.sessions@, session_with_id(id), i);
    }
    if forall|i: int| 0 <= i < a.sessions@.len() ==> (#[trigger] a.sessions@[i]).id@ != id {
        lemma_first_missing(a.sessions@, session_with_id(id));
    }
}

/// The login is that of the App's session, else that of the command-line tool.
pub proof fn law_the_login(a: App)
    ensures
        a.github.status.user_login matches Some(l) ==> github_login(a) == Some(l@),
        a.github.status.user_login is None ==> (a.github.status.gh_user_login matches Some(l)
            ==> github_login(a) == Some(l@)),
        a.github.status.user_login is None && a.github.status.gh_user_login is None
            ==> github_login(a) is None,
{
}

/// The list of tasks is GitHub's where an item is the user's, or where there is a login and
/// a repository; it is the project's own otherwise.
pub proof fn law_whose_tasks_are_listed(a: App)
    ensures
        a.my_tasks.any_mine ==> uses_github(a),
        a.github.status.user_login is Some && a.github.has_repos ==> uses_github(a),
        a.github.status.gh_user_login is Some && a.github.has_repos ==> uses_github(a),
        !a.my_tasks.any_mine && !a.github.has_repos ==> !uses_github(a),
        !a.my_tasks.any_mine && a.github.status.user_login is None
            && a.github.status.gh_user_login is None ==> !uses_github(a),
{
}

/// The selected task is the one under the cursor of the list that is shown; where GitHub's
/// items are listed there is none.
pub proof fn law_the_selected_task(a: App)
    ensures
        a.nav.workbench_view == WorkbenchView::MyTasks && a.my_tasks.any_mine ==> task_of(a)
            is None,
        (a.nav.workbench_view == WorkbenchView::SprintBoard || a.nav.workbench_view
            == WorkbenchView::Agents || a.nav.workbench_view == WorkbenchView::Settings || (
        a.nav.workbench_view == WorkbenchView::MyTasks && !uses_github(a))) && a.nav.task_index
            < a.visible@.len() ==> task_of(a) == Some(
            a.tasks@[a.visible@[a.nav.task_index as int] as int],
        ),
        a.nav.workbench_view == WorkbenchView::MyTasks && a.nav.task_index >= a.visible@.len()
            ==> task_of(a) is None,
        a.nav.workbench_view == WorkbenchView::MyTasks && uses_github(a) && a.nav.task_index
            < a.my_tasks.visible@.len() ==> my_task_item(a) == Some(
            a.my_tasks.items@[a.my_tasks.visible@[a.nav.task_index as int] as int],
        ),
        a.nav.workbench_view != WorkbenchView::MyTasks ==> my_task_item(a) is None,
{
}

/// The selected pull request is the one under the cursor of the queue that is shown.
pub proof fn law_the_selected_pr(a: App)
    ensures
        a.nav.review_queue_tab == ReviewQueueTab::Authored && a.nav.review_index
            < a.reviews.authored@.len() ==> review_item(a) == Some(
            a.reviews.items@[a.reviews.authored@[a.nav.review_index as int] as int],
        ),
        a.nav.review_queue_tab == ReviewQueueTab::NeedsReview && a.nav.review_index
            < a.reviews.requested@.len() ==> review_item(a) == Some(
            a.reviews.items@[a.reviews.requested@[a.nav.review_index as int] as int],
        ),
        a.nav.review_queue_tab == ReviewQueueTab::Authored && a.nav.review_index
            >= a.reviews.authored@.len() ==> review_item(a) is None,
        a.nav.review_queue_tab == ReviewQueueTab::NeedsReview && a.nav.review_index
            >= a.reviews.requested@.len() ==> review_item(a) is None,
{
}

/// The selected thread: in the list of threads the one under the cursor, on a GitHub item
/// the one that it is linked to, else the first one on that item, and on a task the first
/// one on that task.
pub proof fn law_the_selected_thread(a: App, i: int)
    requires
        0 <= i < a.threads@.len(),
    ensures
        a.nav.workbench_view == WorkbenchView::Threads && a.nav.thread_index == i ==> thread_of(a)
            == Some(a.threads@[i]),
        a.nav.workbench_view == WorkbenchView::Threads && a.nav.thread_index >= a.threads@.len()
            ==> thread_of(a) is None,
        a.nav.workbench_view == WorkbenchView::MyTasks ==> (my_task_item(a) matches Some(item) ==> {
            &&& item.linked_thread is Some ==> thread_of(a) == item.linked_thread
            &&& item.linked_thread is None && option_is(
                a.threads@[i].github_item_id,
                item.github_item.id@,
            ) && (forall|j: int|
                0 <= j < i ==> !option_is(
                    (#[trigger] a.threads@[j]).github_item_id,
                    item.github_item.id@,
                )) ==> thread_of(a) == Some(a.threads@[i])
        }),
        a.nav.workbench_view == WorkbenchView::Reviews ==> (review_item(a) matches Some(item) ==> (
        option_is(a.threads@[i].github_item_id, item.github_item.id@) && (forall|j: int|
            0 <= j < i ==> !option_is(
                (#[trigger] a.threads@[j]).github_item_id,
                item.github_item.id@,
            )) ==> thread_of(a) == Some(a.threads@[i]))),
        a.nav.workbench_view == WorkbenchView::Agents ==> (task_of(a) matches Some(task) ==> (
        option_is(a.threads@[i].task_id, task.id@) && (forall|j: int|
            0 <= j < i ==> !option_is((#[trigger] a.threads@[j]).task_id, task.id@)) ==> thread_of(a)
            == Some(a.threads@[i]))),
{
    if let Some(item) = my_task_item(a) {
        lemma_first_thread(a.threads@, thread_on_item(item.github_item.id@), i);
    }
    if let Some(item) = review_item(a) {
        lemma_first_thread(a.threads@, thread_on_item(item.github_item.id@), i);
    }
    if let Some(task) = task_of(a) {
        lemma_first_thread(a.threads@, thread_on_task(task.id@), i);
    }
}

proof fn lemma_first_thread(threads: Seq<Thread>, p: spec_fn(Thread) -> bool, i: int)
    requires
        0 <= i < threads.len(),
    ensures
        p(threads[i]) && (forall|j: int| 0 <= j < i ==> !p(#[trigger] threads[j])) ==> first_where(
            threads,
            p,
        ) == Some(threads[i]),
{
    if p(threads[i]) && (forall|j: int| 0 <= j < i ==> !p(#[trigger] threads[j])) {
        crate::lists::lemma_first_found(threads, p, i);
    }
}

/// The active session is that of the active tab; the dashboard has none.
pub proof fn law_the_active_session(a: App)
    ensures
        a.nav.active_tab < a.tabs@.len() ==> (a.tabs@[a.nav.active_tab as int] matches Tab::Session {
            session_id,
            ..
        } ==> session_of(a) == Some(session_id@)),
        a.nav.active_tab < a.tabs@.len() && a.tabs@[a.nav.active_tab as int] is Dashboard
            ==> session_of(a) is None,
        a.nav.active_tab >= a.tabs@.len() ==> session_of(a) is None,
{
}

/// The thread of the active session is the first listed one in that session, else the one
/// that is stored; without a session there is none.
pub proof fn law_the_active_thread(a: App, stored: Option<Thread>, i: int)
    ensures
        session_of(a) is None ==> active_thread(a, stored) is None,
        session_of(a) matches Some(id) ==> (0 <= i < a.threads@.len() && option_is(
            a.threads@[i].session_id,
            id,
        ) && (forall|j: int|
            0 <= j < i ==> !option_is((#[trigger] a.threads@[j]).session_id, id)) ==> active_thread(
            a,
            stored,
        ) == Some(a.threads@[i])),
        session_of(a) matches Some(id) ==> ((forall|j: int|
            0 <= j < a.threads@.len() ==> !option_is(
                (#[trigger] a.threads@[j]).session_id,
                id,
            )) ==> active_thread(a, stored) == stored),
{
    if let Some(id) = session_of(a) {
        let p = thread_in_session(id);
        if 0 <= i < a.threads@.len() {
            lemma_first_thread(a.threads@, p, i);
        }
        if forall|j: int|
            0 <= j < a.threads@.len() ==> !option_is((#[trigger] a.threads@[j]).session_id, id) {
            assert forall|j: int| 0 <= j < a.threads@.len() implies !p(
                #[trigger] a.threads@[j],
            ) by {}
            crate::lists::lemma_first_missing(a.threads@, p);
        }
    }
}

/// A thread is live where its session is listed and not closed.
pub proof fn law_live_threads(a: App, thread: Thread, i: int)
    ensures
        thread.session_id is None ==> live_session_of(a, thread) is None,
        thread.session_id matches Some(id) ==> (0 <= i < a.sessions@.len() && a.sessions@[i].id@
            == id@ && !a.sessions@[i].closed ==> (live_session_of(a, thread) matches Some(s)
            && s.id@ == id@ && !s.closed)),
        thread.session_id matches Some(id) ==> ((forall|j: int|
            0 <= j < a.sessions@.len() ==> (#[trigger] a.sessions@[j]).id@ != id@
                || a.sessions@[j].closed) ==> live_session_of(a, thread) is None),
{
    if let Some(id) = thread.session_id {
        let p = live_session(id@);
        crate::lists::law_a_search_finds_the_first(a.sessions@, p);
        if 0 <= i < a.sessions@.len() && a.sessions@[i].id@ == id@ && !a.sessions@[i].closed {
            assert(p(a.sessions@[i]));
        }
        if forall|j: int|
            0 <= j < a.sessions@.len() ==> (#[trigger] a.sessions@[j]).id@ != id@
                || a.sessions@[j].closed {
            assert forall|j: int| 0 <= j < a.sessions@.len() implies !p(
                #[trigger] a.sessions@[j],
            ) by {}
            crate::lists::lemma_first_missing(a.sessions@, p);
        }
    }
}

/// The sidebar lists the views in their order, and behind them the projects.
pub proof fn law_the_sidebar(a: App)
    ensures
        a.nav.sidebar_cursor == 0 ==> sidebar_item(a) == SidebarItem::Navigation(
            WorkbenchView::MyTasks,
        ),
        a.nav.sidebar_cursor == 1 ==> sidebar_item(a) == SidebarItem::Navigation(
            WorkbenchView::SprintBoard,
        ),
        a.nav.sidebar_cursor == 2 ==> sidebar_item(a) == SidebarItem::Navigation(
            WorkbenchView::Reviews,
        ),
        a.nav.sidebar_cursor == 3 ==> sidebar_item(a) == SidebarItem::Navigation(
            WorkbenchView::Agents,
        ),
        a.nav.sidebar_cursor == 4 ==> sidebar_item(a) == SidebarItem::Navigation(
            WorkbenchView::Settings,
        ),
        a.nav.sidebar_cursor >= 5 ==> sidebar_item(a) == SidebarItem::Repository(
            (a.nav.sidebar_cursor - 5) as usize,
        ),
{
}

/// What the status line names of the work that goes on: a session before GitHub, and a
/// title last. It names something exactly where something goes on.
pub proof fn law_the_status_names_the_work(a: App)
    ensures
        a.busy.session_op ==> busy_label(a) == Some("preparing session"@),
        !a.busy.session_op && a.busy.github_auth ==> busy_label(a) == Some("connecting GitHub"@),
        !a.busy.session_op && !a.busy.github_auth && a.busy.github_installations ==> busy_label(a)
            == Some("loading GitHub installations"@),
        !a.busy.session_op && !a.busy.github_auth && !a.busy.github_installations
            && a.busy.github_sync ==> busy_label(a) == Some("syncing GitHub"@),
        busy_label(a) is Some <==> a.busy.session_op || a.busy.github_auth
            || a.busy.github_installations || a.busy.github_sync || a.board.loading
            || a.busy.pending_titles@.len() > 0,
{
}

/// The place of a thread in the list is that of the first one of its id.
pub proof fn law_the_first_thread_counts(threads: Seq<Thread>, id: Seq<char>, i: int)
    ensures
        0 <= i < threads.len() && threads[i].id@ == id && (forall|j: int|
            0 <= j < i ==> (#[trigger] threads[j]).id@ != id) ==> thread_place(threads, id) == Some(
            i,
        ),
        (forall|j: int| 0 <= j < threads.len() ==> (#[trigger] threads[j]).id@ != id)
            ==> thread_place(threads, id) is None,
{
    let p = thread_with_id(id);
    if 0 <= i < threads.len() && threads[i].id@ == id && (forall|j: int|
        0 <= j < i ==> (#[trigger] threads[j]).id@ != id) {
        assert(p(threads[i]));
        let k = choose|k: int|
            0 <= k < threads.len() && (#[trigger] threads[k]).id@ == id && forall|j: int|
                0 <= j < k ==> (#[trigger] threads[j]).id@ != id;
        assert(0 <= i < threads.len() && threads[i].id@ == id);
        if k < i {
            assert(threads[k].id@ != id);
        } else if i < k {
            assert(threads[i].id@ != id);
        }
    }
}

/// A session waits for a permission where its id is among the paused ones.
pub proof fn law_paused_sessions(a: App, i: int)
    requires
        0 <= i < a.paused@.len(),
    ensures
        session_of(a) == Some(a.paused@[i]@) ==> is_paused(a),
        session_of(a) is None ==> !is_paused(a),
{
    assert(views(a.paused@)[i] == a.paused@[i]@);
}

/// A thread's task is the one of its id, and a pull request's the first one that a thread on
/// it works on.
pub proof fn law_the_task_of_a_thread(a: App, i: int)
    requires
        0 <= i < a.tasks@.len(),
        a.nav.workbench_view == WorkbenchView::Threads,
        a.nav.thread_index < a.threads@.len(),
        a.threads@[a.nav.thread_index as int].task_id is Some,
    ensures
        a.tasks@[i].id@ == a.threads@[a.nav.thread_index as int].task_id->0@ && (forall|j: int|
            0 <= j < i ==> (#[trigger] a.tasks@[j]).id@
                != a.threads@[a.nav.thread_index as int].task_id->0@) ==> task_of(a) == Some(
            a.tasks@[i],
        ),
{
    let p = task_with_id(a.threads@[a.nav.thread_index as int].task_id->0@);
    if a.tasks@[i].id@ == a.threads@[a.nav.thread_index as int].task_id->0@ && (forall|j: int|
        0 <= j < i ==> (#[trigger] a.tasks@[j]).id@
            != a.threads@[a.nav.thread_index as int].task_id->0@) {
        crate::lists::lemma_first_found(a.tasks@, p, i);
    }
}

/// The task of a pull request is the first one that some thread on the pull request works
/// on.
pub proof fn law_the_task_of_a_pr(a: App, i: int, t: int)
    requires
        a.nav.workbench_view == WorkbenchView::Reviews,
        review_item(a) is Some,
        0 <= i < a.tasks@.len(),
        0 <= t < a.threads@.len(),
        option_is(a.threads@[t].github_item_id, review_item(a)->0.github_item.id@),
        option_is(a.threads@[t].task_id, a.tasks@[i].id@),
    ensures
        task_of(a) is Some,
        i == 0 ==> task_of(a) == Some(a.tasks@[0]),
{
    let item = review_item(a)->0.github_item.id@;
    let p = task_of_item(a.threads@, item);
    let q = |x: Thread| option_is(x.github_item_id, item) && option_is(x.task_id, a.tasks@[i].id@);
    assert(q(a.threads@[t]));
    assert(any_where(a.threads@, q));
    assert(p(a.tasks@[i]));
    crate::lists::law_a_search_finds_the_first(a.tasks@, p);
    if i == 0 {
        crate::lists::lemma_first_found(a.tasks@, p, 0);
    }
}

/// What is said changes nothing but the message that is shown; a mode, a focus and a cleared
/// field change only themselves.
pub proof fn law_small_changes_stay_small(
    pre: App,
    post: App,
    message: Seq<char>,
    style: ToastStyle,
    mode: InputMode,
    focus: Focus,
)
    ensures
        says(pre, post, message, style) ==> (post.toast matches Some(t) && t.message@ == message
            && t.style == style) && post.nav == pre.nav && post.tasks == pre.tasks && post.input
            == pre.input && post.tabs == pre.tabs && post.compose == pre.compose && post.board
            == pre.board && post.config == pre.config,
        in_mode(pre, mode).nav.input_mode == mode && in_mode(pre, mode).nav.focus == pre.nav.focus
            && in_mode(pre, mode).input == pre.input && in_mode(pre, mode).board == pre.board,
        with_focus(pre, focus).nav.focus == focus && with_focus(pre, focus).nav.input_mode
            == pre.nav.input_mode && with_focus(pre, focus).board == pre.board,
        input_cleared(pre, post) ==> post.input.text@.len() == 0 && post.input.cursor
            == pre.input.cursor && post.nav == pre.nav && post.board == pre.board,
{
}

} // verus!
