//! What follows once the records have been loaded anew: the lists, the queues, the
//! announcements, and the selections, which stay inside what they select from.

use vstd::prelude::*;
use vstd::string::*;

use crate::app::{
    at, github_login, queue, says, toast_is, visible_task, App, GitHubState, GitHubStatus, MyTasks,
    Nav, Reviews,
};
use crate::board_state::{clamp, clamped, Board};
use crate::effects::Effect;
use crate::input_board::board_issue;
use crate::moves::task_list_len;
use crate::review::{
    authored_queue, has_my_tasks, is_my_task, lists_authored, lists_my_tasks, lists_requested,
    my_task_indices, requested_queue, MyTaskItem, ReviewQueueItem,
};
use crate::settings::{clone_text, text_option};
use crate::store::{
    GitHubComment, GitHubProjectV2, GitHubReview, GitHubReviewComment, Project, Session, Subtask,
    Task, TaskStatus, Thread,
};
use crate::tasks::{
    law_review_announced_once, lists_visible_tasks, newly_in_review, observed, recorded_status,
    records_tasks,
};
use crate::text::same_ignoring_case;
use crate::views::{SettingsSection, ToastStyle, WorkbenchView};

verus! {

/// What the database holds: all projects, and the records of the selected one.
pub struct Records {
    pub status: GitHubStatus,
    pub projects: Vec<Project>,
    pub sessions: Vec<Session>,
    pub tasks: Vec<Task>,
    pub threads: Vec<Thread>,
    pub board_projects: Vec<GitHubProjectV2>,
    /// Some repository of GitHub is known, and what is known of their items.
    pub has_repos: bool,
    pub my_items: Vec<MyTaskItem>,
    pub review_items: Vec<ReviewQueueItem>,
}

/// How many subtasks a task has, and how many of them are done.
pub struct SubtaskCount {
    pub task_id: String,
    pub total: i64,
    pub done: i64,
}

/// A count that is shown beside its task.
pub open spec fn shown_count() -> spec_fn(SubtaskCount) -> bool {
    |c: SubtaskCount| c.total > 0
}

/// The counts that are shown: those of tasks with subtasks.
pub fn subtask_counts(counted: Vec<SubtaskCount>) -> (r: Vec<SubtaskCount>)
    ensures
        r@ == counted@.filter(shown_count()),
{
    let mut counted = counted;
    let ghost all = counted@;
    let mut r: Vec<SubtaskCount> = Vec::new();
    let ghost mut i: int = 0;
    assert(all.skip(0) =~= all);
    assert(all.take(0).filter(shown_count()) =~= Seq::empty()) by {
        reveal(Seq::filter);
    }
    while counted.len() > 0
        invariant
            0 <= i <= all.len(),
            counted@ == all.skip(i),
            r@ == all.take(i).filter(shown_count()),
        decreases counted@.len(),
    {
        let c = counted.remove(0);
        assert(all.take(i + 1).filter(shown_count()) == if c.total > 0 {
            r@.push(c)
        } else {
            r@
        }) by {
            reveal(Seq::filter);
            assert(all.take(i + 1).drop_last() =~= all.take(i));
            assert(all.take(i + 1).last() == c);
        }
        if c.total > 0 {
            r.push(c);
        }
        proof {
            i = i + 1;
        }
        assert(counted@ =~= all.skip(i));
    }
    assert(all.take(i) =~= all);
    r
}

/// What is left to do after the records have been taken over.
pub struct FollowUps {
    /// The task whose review loop may start.
    pub review_loop: Option<String>,
    /// The issue of the board whose comments are shown.
    pub board_comments: Option<String>,
    /// The pull request whose comments and reviews are shown.
    pub review_context: Option<String>,
    /// The task whose subtasks are shown.
    pub subtasks_of: Option<String>,
}

// ---------------------------------------------------------------------------
// The user's items
// ---------------------------------------------------------------------------

/// The user's items are listed: none without a login or a repository.
pub open spec fn my_tasks_listed(
    items: Vec<MyTaskItem>,
    has_repos: bool,
    login: Option<Seq<char>>,
    filter: Seq<char>,
    post: MyTasks,
) -> bool {
    match login {
        Some(name) if has_repos => post.items == items && lists_my_tasks(
            post.visible@,
            items@,
            name,
            filter,
        ) && post.any_mine == (exists|i: int|
            0 <= i < items@.len() && is_my_task(#[trigger] items@[i], name)),
        _ => post.items@.len() == 0 && post.visible@.len() == 0 && !post.any_mine,
    }
}

/// The queues of pull requests: empty without a login or a repository.
pub open spec fn queues_listed(
    items: Vec<ReviewQueueItem>,
    has_repos: bool,
    login: Option<Seq<char>>,
    post: Reviews,
) -> bool {
    match login {
        Some(name) if has_repos => post.items == items && lists_authored(
            post.authored@,
            items@,
            name,
        ) && lists_requested(post.requested@, items@, name),
        _ => post.items@.len() == 0 && post.authored@.len() == 0 && post.requested@.len() == 0,
    }
}

impl App {
    /// Show the user's items.
    pub fn recompute_my_task_items(&mut self, items: Vec<MyTaskItem>, has_repos: bool)
        requires
            old(self).wf(),
        ensures
            my_tasks_listed(
                items,
                has_repos,
                github_login(*old(self)),
                old(self).task_filter.text@,
                final(self).my_tasks,
            ),
            *final(self) == (App { my_tasks: final(self).my_tasks, ..*old(self) }),
            final(self).wf(),
    {
        match self.current_github_login() {
            Some(login) => {
                if has_repos {
                    let visible = my_task_indices(
                        &items,
                        login.as_str(),
                        self.task_filter.text.as_str(),
                    );
                    let any_mine = has_my_tasks(&items, login.as_str());
                    self.my_tasks = MyTasks { items, visible, any_mine };
                    return;
                }
            },
            None => {},
        }
        self.my_tasks = MyTasks { items: Vec::new(), visible: Vec::new(), any_mine: false };
    }

    /// Show the queues of pull requests.
    pub fn recompute_review_items(&mut self, items: Vec<ReviewQueueItem>, has_repos: bool)
        requires
            old(self).wf(),
        ensures
            queues_listed(
                items,
                has_repos,
                github_login(*old(self)),
                final(self).reviews,
            ),
            *final(self) == (App {
                reviews: Reviews {
                    items: final(self).reviews.items,
                    authored: final(self).reviews.authored,
                    requested: final(self).reviews.requested,
                    ..old(self).reviews
                },
                ..*old(self)
            }),
            final(self).wf(),
    {
        match self.current_github_login() {
            Some(login) => {
                if has_repos {
                    self.reviews.authored = authored_queue(&items, login.as_str());
                    self.reviews.requested = requested_queue(&items, login.as_str());
                    self.reviews.items = items;
                    return;
                }
            },
            None => {},
        }
        self.reviews.authored = Vec::new();
        self.reviews.requested = Vec::new();
        self.reviews.items = Vec::new();
    }
}

// ---------------------------------------------------------------------------
// Clamping
// ---------------------------------------------------------------------------

/// The selections, each inside what it selects from.
pub open spec fn clamped_places(a: App) -> Nav {
    Nav {
        project_index: clamped(a.nav.project_index, a.projects@.len()),
        sidebar_cursor: clamped(
            a.nav.sidebar_cursor,
            WorkbenchView::all().len() + a.projects@.len(),
        ),
        settings_section_index: clamped(
            a.nav.settings_section_index,
            SettingsSection::all().len(),
        ),
        installation_index: clamped(
            a.nav.installation_index,
            a.github.installations@.len(),
        ),
        task_index: clamped(a.nav.task_index, task_list_len(a)),
        review_index: clamped(a.nav.review_index, queue(a).len()),
        thread_index: clamped(a.nav.thread_index, a.threads@.len()),
        ..a.nav
    }
}

pub open spec fn clamped_app(a: App) -> App {
    App {
        nav: clamped_places(a),
        board: Board {
            project_index: clamped(a.board.project_index, a.board.projects@.len()),
            ..a.board
        },
        ..a
    }
}

impl App {
    /// Keep the sidebar's cursor on an entry.
    pub fn sync_sidebar_cursor(&mut self)
        requires
            old(self).wf(),
        ensures
            *final(self) == (App {
                nav: Nav {
                    sidebar_cursor: clamped(
                        old(self).nav.sidebar_cursor,
                        WorkbenchView::all().len() + old(self).projects@.len(),
                    ),
                    ..old(self).nav
                },
                ..*old(self)
            }),
            final(self).wf(),
    {
        let total: usize = App::sidebar_nav_count() + self.projects.len();
        self.nav.sidebar_cursor = clamp(self.nav.sidebar_cursor, total);
    }

    fn clamp_places(&mut self)
        requires
            old(self).wf(),
        ensures
            *final(self) == clamped_app(*old(self)),
            final(self).wf(),
    {
        self.nav = self.inner_places();
        self.board.project_index = clamp(self.board.project_index, self.board.projects.len());
    }

    fn inner_places(&self) -> (r: Nav)
        requires
            self.wf(),
        ensures
            r == clamped_places(*self),
    {
        let entries: usize = App::sidebar_nav_count() + self.projects.len();
        Nav {
            project_index: clamp(self.nav.project_index, self.projects.len()),
            sidebar_cursor: clamp(self.nav.sidebar_cursor, entries),
            settings_section_index: clamp(
                self.nav.settings_section_index,
                SettingsSection::count(),
            ),
            installation_index: clamp(
                self.nav.installation_index,
                self.github.installations.len(),
            ),
            task_index: clamp(self.nav.task_index, self.listed_tasks()),
            review_index: clamp(self.nav.review_index, self.review_items().len()),
            thread_index: clamp(self.nav.thread_index, self.threads.len()),
            ..self.nav
        }
    }
}

// ---------------------------------------------------------------------------
// The refresh
// ---------------------------------------------------------------------------

/// The records are taken over; without a selected project there are none of it.
pub open spec fn records_taken(pre: App, records: Records, post: App) -> bool {
    let selected = pre.nav.project_index < records.projects@.len();
    &&& if selected {
        post.sessions == records.sessions && post.tasks == records.tasks && post.threads
            == records.threads && post.board.projects == records.board_projects
    } else {
        post.sessions@.len() == 0 && post.tasks@.len() == 0 && post.threads@.len() == 0
            && post.board.projects@.len() == 0
    }
    &&& lists_visible_tasks(post.visible@, post.tasks@, pre.task_filter.text@)
    &&& my_tasks_listed(
        records.my_items,
        records.has_repos,
        github_login(post),
        pre.task_filter.text@,
        post.my_tasks,
    )
    &&& queues_listed(records.review_items, records.has_repos, github_login(post), post.reviews)
    &&& post == (App {
        github: GitHubState {
            status: records.status,
            has_repos: records.has_repos,
            ..pre.github
        },
        projects: records.projects,
        sessions: post.sessions,
        tasks: post.tasks,
        threads: post.threads,
        board: Board { projects: post.board.projects, ..pre.board },
        visible: post.visible,
        my_tasks: post.my_tasks,
        reviews: Reviews {
            items: post.reviews.items,
            authored: post.reviews.authored,
            requested: post.reviews.requested,
            ..pre.reviews
        },
        ..pre
    })
}

/// A task that became ready for review is announced.
pub open spec fn review_announced(pre: App, post: App, loop_of: Option<Seq<char>>) -> bool {
    exists|r: Option<usize>| #[trigger]
        observed(pre.watch, pre.tasks@, post.watch, r) && match r {
            Some(p) => loop_of == Some(pre.tasks@[p as int].id@) && toast_is(
                post.toast,
                "Ready for review: "@ + pre.tasks@[p as int].title@,
                ToastStyle::Success,
            ) && post == (App { watch: post.watch, toast: post.toast, ..pre }),
            None => loop_of is None && post == (App { watch: post.watch, ..pre }),
        }
}

/// The pull request at the place of the selection, before it is clamped.
pub open spec fn review_shown(a: App) -> Option<Seq<char>> {
    match crate::app::review_item(a) {
        Some(item) => Some(item.github_item.id@),
        None => None,
    }
}

/// The task whose subtasks are shown: none in the task view.
pub open spec fn subtasks_shown(a: App) -> Option<Seq<char>> {
    if a.nav.workbench_view == WorkbenchView::MyTasks {
        None
    } else {
        match visible_task(a, a.nav.task_index) {
            Some(task) => Some(task.id@),
            None => None,
        }
    }
}

/// Without a task there are no subtasks.
pub open spec fn subtasks_dropped(pre: App, post: App) -> bool {
    match subtasks_shown(pre) {
        Some(_) => post == pre,
        None => post.subtasks@.len() == 0 && post == (App {
            subtasks: post.subtasks,
            nav: Nav { subtask_index: 0, ..pre.nav },
            ..pre
        }),
    }
}

/// The issue of the board that is selected.
pub open spec fn issue_shown(a: App) -> Option<Seq<char>> {
    match board_issue(a) {
        Some(issue) => Some(issue.github_item_id@),
        None => None,
    }
}

/// The records have been loaded anew.
pub open spec fn refreshed(pre: App, records: Records, post: App, f: FollowUps) -> bool {
    exists|taken: App, told: App|
        #![trigger records_taken(pre, records, taken), review_announced(taken, told, text_option(f.review_loop))]
        records_taken(pre, records, taken) && review_announced(
            taken,
            told,
            text_option(f.review_loop),
        ) && text_option(f.board_comments) == issue_shown(told) && text_option(f.review_context)
            == review_shown(told) && subtasks_dropped(
            clamped_app(told),
            post,
        ) && text_option(f.subtasks_of) == subtasks_shown(clamped_app(told))
}

/// A place in a list of `n` entries; the first one where the list is empty.
pub open spec fn is_place(i: usize, n: nat) -> bool {
    if n == 0 {
        i == 0
    } else {
        i < n
    }
}

/// The selections are inside what they select from.
pub open spec fn places_exist(a: App) -> bool {
    &&& is_place(a.nav.project_index, a.projects@.len())
    &&& a.nav.sidebar_cursor < 5 + a.projects@.len()
    &&& a.nav.settings_section_index < 9
    &&& is_place(a.nav.installation_index, a.github.installations@.len())
    &&& is_place(a.board.project_index, a.board.projects@.len())
    &&& is_place(a.nav.task_index, task_list_len(a))
    &&& is_place(a.nav.review_index, queue(a).len())
    &&& is_place(a.nav.thread_index, a.threads@.len())
}

/// The subtasks of the selected task are shown.
pub open spec fn subtasks_taken(pre: App, subtasks: Vec<Subtask>, post: App) -> bool {
    post == (App {
        subtasks: subtasks,
        nav: Nav {
            subtask_index: clamped(pre.nav.subtask_index, subtasks@.len()),
            ..pre.nav
        },
        ..pre
    })
}

impl App {
    /// The project whose records are to be loaded, among all projects.
    pub fn project_to_load(&self, projects: &Vec<Project>) -> (r: Option<String>)
        ensures
            r == match at(projects@, self.nav.project_index as int) {
                Some(project) => Some(project.id),
                None => None,
            },
    {
        if self.nav.project_index < projects.len() {
            Some(projects[self.nav.project_index].id.clone())
        } else {
            None
        }
    }

    fn take_records(&mut self, records: Records)
        requires
            old(self).wf(),
            records.projects@.len() + WorkbenchView::all().len() <= usize::MAX,
        ensures
            records_taken(*old(self), records, *final(self)),
            final(self).wf(),
    {
        let selected = self.nav.project_index < records.projects.len();
        self.github.status = records.status;
        self.github.has_repos = records.has_repos;
        self.projects = records.projects;
        if selected {
            self.sessions = records.sessions;
            self.tasks = records.tasks;
            self.threads = records.threads;
            self.board.projects = records.board_projects;
        } else {
            self.sessions = Vec::new();
            self.tasks = Vec::new();
            self.threads = Vec::new();
            self.board.projects = Vec::new();
        }
        self.recompute_visible_tasks();
        self.recompute_my_task_items(records.my_items, records.has_repos);
        self.recompute_review_items(records.review_items, records.has_repos);
    }

    fn announce_review(&mut self) -> (r: Option<String>)
        requires
            old(self).wf(),
        ensures
            review_announced(*old(self), *final(self), text_option(r)),
            final(self).wf(),
    {
        let r = self.watch.observe(&self.tasks);
        assert(observed(old(self).watch, old(self).tasks@, self.watch, r));
        match r {
            Some(p) => {
                let id = self.tasks[p].id.clone();
                let message = "Ready for review: ".to_owned().concat(self.tasks[p].title.as_str());
                self.show_toast(message, ToastStyle::Success);
                Some(id)
            },
            None => None,
        }
    }

    fn issue_to_show(&self) -> (r: Option<String>)
        ensures
            text_option(r) == issue_shown(*self),
    {
        match self.board.selected_board_issue() {
            Some(issue) => Some(issue.github_item_id.clone()),
            None => None,
        }
    }

    fn review_to_show(&self) -> (r: Option<String>)
        requires
            self.wf(),
        ensures
            text_option(r) == review_shown(*self),
    {
        match self.selected_review_item() {
            Some(item) => Some(item.github_item.id.clone()),
            None => None,
        }
    }

    fn drop_subtasks(&mut self) -> (r: Option<String>)
        requires
            old(self).wf(),
        ensures
            text_option(r) == subtasks_shown(*old(self)),
            subtasks_dropped(*old(self), *final(self)),
            final(self).wf(),
    {
        if self.nav.workbench_view != WorkbenchView::MyTasks {
            if let Some(task) = self.visible_task_at(self.nav.task_index) {
                return Some(task.id.clone());
            }
        }
        self.subtasks = Vec::new();
        self.nav.subtask_index = 0;
        None
    }

    /// Take over the records that were loaded anew.
    pub fn refresh_data(&mut self, records: Records) -> (f: FollowUps)
        requires
            old(self).wf(),
            records.projects@.len() + WorkbenchView::all().len() <= usize::MAX,
        ensures
            refreshed(*old(self), records, *final(self), f),
            places_exist(*final(self)),
            final(self).wf(),
    {
        let ghost given = records;
        self.take_records(records);
        let ghost taken = *self;
        let review_loop = self.announce_review();
        let ghost told = *self;
        let board_comments = self.issue_to_show();
        let review_context = self.review_to_show();
        self.clamp_places();
        let subtasks_of = self.drop_subtasks();
        assert(records_taken(*old(self), given, taken));
        assert(review_announced(taken, told, text_option(review_loop)));
        proof {
            lemma_places_kept(told, *self);
        }
        FollowUps { review_loop, board_comments, review_context, subtasks_of }
    }

    /// Show the subtasks of the selected task.
    pub fn subtasks_loaded(&mut self, subtasks: Vec<Subtask>)
        requires
            old(self).wf(),
        ensures
            subtasks_taken(*old(self), subtasks, *final(self)),
            final(self).wf(),
    {
        self.nav.subtask_index = clamp(self.nav.subtask_index, subtasks.len());
        self.subtasks = subtasks;
    }

    /// Show the comments and reviews of the selected pull request.
    pub fn review_context_loaded(
        &mut self,
        comments: Vec<GitHubComment>,
        reviews: Vec<GitHubReview>,
        review_comments: Vec<GitHubReviewComment>,
    )
        requires
            old(self).wf(),
        ensures
            *final(self) == (App {
                reviews: Reviews {
                    comments: comments,
                    reviews: reviews,
                    review_comments: review_comments,
                    ..old(self).reviews
                },
                ..*old(self)
            }),
            final(self).wf(),
    {
        self.reviews.comments = comments;
        self.reviews.reviews = reviews;
        self.reviews.review_comments = review_comments;
    }
}

// ---------------------------------------------------------------------------
// Sessions of finished tasks
// ---------------------------------------------------------------------------

/// A session whose task is done and has been pushed.
pub struct FinishedSession {
    pub session_id: String,
    pub task_title: String,
}

/// The first such session is closed, unless another one is being prepared.
pub open spec fn finished_closed(
    pre: App,
    sessions: Seq<FinishedSession>,
    post: App,
    e: Effect,
) -> bool {
    if pre.busy.session_op || sessions.len() == 0 {
        e == Effect::Nothing && post == pre
    } else {
        e == (Effect::TearDown { session_id: sessions[0].session_id }) && says(
            pre,
            post,
            "Push completed — session closed: "@ + sessions[0].task_title@,
            ToastStyle::Success,
        )
    }
}

impl App {
    /// Close the session of a task that was pushed: no pull request would ever do so.
    pub fn maybe_teardown_push_mode_sessions(&mut self, sessions: &Vec<FinishedSession>) -> (e:
        Effect)
        requires
            old(self).wf(),
        ensures
            finished_closed(*old(self), sessions@, *final(self), e),
            final(self).wf(),
    {
        if self.busy.session_op || sessions.len() == 0 {
            return Effect::Nothing;
        }
        let message = "Push completed — session closed: ".to_owned().concat(
            sessions[0].task_title.as_str(),
        );
        self.show_toast(message, ToastStyle::Success);
        Effect::TearDown { session_id: sessions[0].session_id.clone() }
    }
}

/// A text that may be missing: the new one, else the one that was known.
pub fn keep_known(new: Option<String>, known: &Option<String>) -> (r: Option<String>)
    ensures
        r == if new is Some {
            new
        } else {
            *known
        },
        new is Some ==> r == new,
        new is None ==> r == *known,
{
    match new {
        Some(text) => Some(text),
        None => clone_text(known),
    }
}

// ---------------------------------------------------------------------------
// Laws
// ---------------------------------------------------------------------------

proof fn lemma_clamped(i: usize, n: nat)
    ensures
        is_place(clamped(i, n), n),
        clamped(clamped(i, n), n) == clamped(i, n),
{
}

/// What a refresh clamps, it would not clamp again.
pub proof fn law_clamping_is_done_at_once(a: App)
    ensures
        clamped_app(clamped_app(a)) == clamped_app(a),
        places_exist(clamped_app(a)),
{
    let b = clamped_app(a);
    assert(task_list_len(b) == task_list_len(a));
    assert(queue(b) == queue(a));
    lemma_clamped(a.nav.project_index, a.projects@.len());
    lemma_clamped(a.nav.sidebar_cursor, 5 + a.projects@.len());
    lemma_clamped(a.nav.settings_section_index, 9);
    lemma_clamped(a.nav.installation_index, a.github.installations@.len());
    lemma_clamped(a.nav.task_index, task_list_len(a));
    lemma_clamped(a.nav.review_index, queue(a).len());
    lemma_clamped(a.nav.thread_index, a.threads@.len());
    lemma_clamped(a.board.project_index, a.board.projects@.len());
    assert(WorkbenchView::all().len() == 5 && SettingsSection::all().len() == 9);
    assert(clamped_places(b) == b.nav);
}

proof fn lemma_places_kept(told: App, post: App)
    requires
        subtasks_dropped(clamped_app(told), post),
    ensures
        places_exist(post),
{
    law_clamping_is_done_at_once(told);
    assert(task_list_len(post) == task_list_len(clamped_app(told)));
    assert(queue(post) == queue(clamped_app(told)));
}

/// The task view lists the user's items at GitHub where somebody is logged in and some
/// repository is known, else the tasks.
pub proof fn law_github_takes_over_the_task_view(pre: App, records: Records, post: App)
    requires
        records_taken(pre, records, post),
    ensures
        crate::app::uses_github(post) == (github_login(post) is Some && records.has_repos),
{
}

/// Without a login no item counts as the user's and no pull request waits for them.
pub proof fn law_nothing_is_mine_without_a_login(pre: App, records: Records, post: App)
    requires
        records_taken(pre, records, post),
        github_login(post) is None,
    ensures
        post.my_tasks.visible@.len() == 0,
        !crate::app::uses_github(post),
        queue(post).len() == 0,
{
}

/// After a refresh, and once the subtasks that it asks for are loaded, every selection is
/// inside its list, and at the first place of an empty one.
pub proof fn law_every_place_exists(
    pre: App,
    records: Records,
    mid: App,
    f: FollowUps,
    subtasks: Vec<Subtask>,
    post: App,
)
    requires
        refreshed(pre, records, mid, f),
        if f.subtasks_of is Some {
            subtasks_taken(mid, subtasks, post)
        } else {
            post == mid
        },
    ensures
        places_exist(mid),
        places_exist(post),
        is_place(post.nav.subtask_index, post.subtasks@.len()),
{
    let (taken, told) = choose|taken: App, told: App|
        #![trigger records_taken(pre, records, taken), review_announced(taken, told, text_option(f.review_loop))]
        records_taken(pre, records, taken) && review_announced(
            taken,
            told,
            text_option(f.review_loop),
        ) && text_option(f.board_comments) == issue_shown(told) && text_option(f.review_context)
            == review_shown(told) && subtasks_dropped(
            clamped_app(told),
            mid,
        ) && text_option(f.subtasks_of) == subtasks_shown(clamped_app(told));
    lemma_places_kept(told, mid);
}

proof fn lemma_recorded_in_review(seen: Seq<(String, TaskStatus)>, tasks: Seq<Task>, i: int)
    requires
        records_tasks(seen, tasks),
        ids_distinct(tasks),
        0 <= i < tasks.len(),
    ensures
        recorded_status(seen, tasks[i].id@) == Some(tasks[i].status),
    decreases tasks.len(),
{
    if i < tasks.len() - 1 {
        assert(seen.last().0@ == tasks.last().id@);
        assert(tasks[i].id@ != tasks[tasks.len() - 1].id@);
        assert(seen.drop_last().len() == tasks.drop_last().len());
        assert forall|k: int| 0 <= k < tasks.drop_last().len() implies (
        #[trigger] seen.drop_last()[k]).0@ == tasks.drop_last()[k].id@ && seen.drop_last()[k].1
            == tasks.drop_last()[k].status by {
            assert(seen.drop_last()[k] == seen[k]);
        }
        lemma_recorded_in_review(seen.drop_last(), tasks.drop_last(), i);
    } else {
        assert(seen.last() == seen[i]);
    }
}

/// No two tasks have the same id.
pub open spec fn ids_distinct(tasks: Seq<Task>) -> bool {
    forall|i: int, j: int|
        0 <= i < j < tasks.len() ==> (#[trigger] tasks[i]).id@ != (#[trigger] tasks[j]).id@
}

/// A refresh that finds one task newly in review announces it. A second refresh that finds
/// the same tasks does not announce it again. Where no two tasks share an id, it announces
/// nothing, and what is shown stays.
pub proof fn law_refresh_announces_once(
    a: App,
    records: Records,
    b: App,
    f: FollowUps,
    c: App,
    again: Records,
    d: App,
    g: FollowUps,
    t: int,
)
    requires
        refreshed(a, records, b, f),
        refreshed(c, again, d, g),
        a.nav.project_index < records.projects@.len(),
        c.nav.project_index < again.projects@.len(),
        again.tasks@ == records.tasks@,
        c.watch == b.watch,
        0 <= t < records.tasks@.len(),
        forall|i: int|
            0 <= i < records.tasks@.len() ==> (newly_in_review(
                a.watch,
                #[trigger] records.tasks@[i],
            ) <==> i == t),
    ensures
        toast_is(b.toast, "Ready for review: "@ + records.tasks@[t].title@, ToastStyle::Success),
        text_option(f.review_loop) == Some(records.tasks@[t].id@),
        text_option(g.review_loop) != Some(records.tasks@[t].id@),
        g.review_loop is None ==> d.toast == c.toast,
        ids_distinct(records.tasks@) ==> g.review_loop is None,
{
    let tasks = records.tasks@;
    assert(newly_in_review(a.watch, tasks[t]));
    lemma_refresh_looks(a, records, b, f);
    lemma_refresh_looks(c, again, d, g);
    let r = choose|r: Option<usize>| #[trigger] looked(a, tasks, b, f, r);
    let q = choose|q: Option<usize>| #[trigger] looked(c, tasks, d, g, q);
    if let Some(p) = q {
        if tasks[p as int].id@ == tasks[t].id@ {
            law_review_announced_once(a.watch, tasks, r, b.watch, tasks[p as int]);
        }
        if ids_distinct(tasks) {
            lemma_recorded_in_review(b.watch.seen@, tasks, p as int);
        }
    }
}

/// The tasks were looked at, and what is new was announced.
spec fn looked(pre: App, tasks: Seq<Task>, post: App, f: FollowUps, r: Option<usize>) -> bool {
    &&& observed(pre.watch, tasks, post.watch, r)
    &&& match r {
        Some(p) => text_option(f.review_loop) == Some(tasks[p as int].id@) && toast_is(
            post.toast,
            "Ready for review: "@ + tasks[p as int].title@,
            ToastStyle::Success,
        ),
        None => f.review_loop is None && post.toast == pre.toast,
    }
}

proof fn lemma_refresh_looks(pre: App, records: Records, post: App, f: FollowUps)
    requires
        refreshed(pre, records, post, f),
        pre.nav.project_index < records.projects@.len(),
    ensures
        exists|r: Option<usize>| #[trigger] looked(pre, records.tasks@, post, f, r),
{
    let (taken, told) = choose|taken: App, told: App|
        #![trigger records_taken(pre, records, taken), review_announced(taken, told, text_option(f.review_loop))]
        records_taken(pre, records, taken) && review_announced(
            taken,
            told,
            text_option(f.review_loop),
        ) && text_option(f.board_comments) == issue_shown(told) && text_option(f.review_context)
            == review_shown(told) && subtasks_dropped(
            clamped_app(told),
            post,
        ) && text_option(f.subtasks_of) == subtasks_shown(clamped_app(told));
    let r = choose|r: Option<usize>| #[trigger]
        observed(taken.watch, taken.tasks@, told.watch, r) && match r {
            Some(p) => text_option(f.review_loop) == Some(taken.tasks@[p as int].id@) && toast_is(
                told.toast,
                "Ready for review: "@ + taken.tasks@[p as int].title@,
                ToastStyle::Success,
            ) && told == (App { watch: told.watch, toast: told.toast, ..taken }),
            None => text_option(f.review_loop) is None && told == (App {
                watch: told.watch,
                ..taken
            }),
        };
    assert(post.watch == told.watch && post.toast == told.toast);
    assert(looked(pre, records.tasks@, post, f, r));
}

/// A refresh shows the records of the chosen project; where no project is chosen there are
/// none.
pub proof fn law_refreshes_show_the_records(pre: App, records: Records, post: App)
    requires
        records_taken(pre, records, post),
    ensures
        post.projects == records.projects,
        post.github.status == records.status,
        post.github.has_repos == records.has_repos,
        pre.nav.project_index < records.projects@.len() ==> post.tasks == records.tasks
            && post.sessions == records.sessions && post.threads == records.threads,
        pre.nav.project_index >= records.projects@.len() ==> post.tasks@.len() == 0
            && post.sessions@.len() == 0 && post.threads@.len() == 0,
        post.nav == pre.nav && post.input == pre.input && post.tabs == pre.tabs && post.toast
            == pre.toast,
{
}

/// Some item counts as the user's where it is open and assigned to the login.
pub proof fn law_own_items_are_noticed(
    items: Vec<MyTaskItem>,
    login: Seq<char>,
    filter: Seq<char>,
    post: MyTasks,
    i: int,
    j: int,
)
    requires
        my_tasks_listed(items, true, Some(login), filter, post),
        0 <= i < items@.len(),
        same_ignoring_case(items@[i].github_item.state@, "open"@),
        0 <= j < items@[i].github_item.assignee_logins@.len(),
        same_ignoring_case(items@[i].github_item.assignee_logins@[j]@, login),
    ensures
        post.any_mine,
{
    let given = crate::text::views(items@[i].github_item.assignee_logins@);
    assert(given[j] == items@[i].github_item.assignee_logins@[j]@);
    assert(is_my_task(items@[i], login));
}

/// A task that came into review is said to be ready, by its title.
pub proof fn law_announcements_name_the_task(pre: App, post: App, loop_of: Option<Seq<char>>)
    requires
        review_announced(pre, post, loop_of),
    ensures
        loop_of is None ==> post.toast == pre.toast,
        loop_of matches Some(id) ==> exists|i: int|
            0 <= i < pre.tasks@.len() && (#[trigger] pre.tasks@[i]).id@ == id
                && pre.tasks@[i].status == crate::store::TaskStatus::InReview && (
            post.toast matches Some(t) && t.message@ == "Ready for review: "@ + pre.tasks@[i].title@),
        post.nav == pre.nav && post.tasks == pre.tasks,
{
    let r = choose|r: Option<usize>| #[trigger]
        observed(pre.watch, pre.tasks@, post.watch, r) && match r {
            Some(p) => loop_of == Some(pre.tasks@[p as int].id@) && toast_is(
                post.toast,
                "Ready for review: "@ + pre.tasks@[p as int].title@,
                ToastStyle::Success,
            ) && post == (App { watch: post.watch, toast: post.toast, ..pre }),
            None => loop_of is None && post == (App { watch: post.watch, ..pre }),
        };
    if let Some(p) = r {
        assert(pre.tasks@[p as int].id@ == loop_of->0);
    }
}

/// Places that exist are kept, and others become the last ones.
pub proof fn law_places_are_kept(a: App)
    ensures
        a.nav.task_index < task_list_len(a) ==> clamped_app(a).nav.task_index == a.nav.task_index,
        a.nav.thread_index < a.threads@.len() ==> clamped_app(a).nav.thread_index
            == a.nav.thread_index,
        a.threads@.len() > 0 && a.nav.thread_index >= a.threads@.len()
            ==> clamped_app(a).nav.thread_index == a.threads@.len() - 1,
        a.threads@.len() == 0 ==> clamped_app(a).nav.thread_index == 0,
        a.nav.project_index < a.projects@.len() ==> clamped_app(a).nav.project_index
            == a.nav.project_index,
        clamped_app(a).tasks == a.tasks && clamped_app(a).tabs == a.tabs && clamped_app(a).input
            == a.input,
{
    assert(a.threads.len() == a.threads@.len());
}

/// A pushed task's session is closed, one at a time, and not while another session is
/// prepared.
pub proof fn law_finished_sessions_are_closed(
    pre: App,
    sessions: Seq<FinishedSession>,
    post: App,
    e: Effect,
)
    requires
        finished_closed(pre, sessions, post, e),
    ensures
        pre.busy.session_op ==> e == Effect::Nothing && post == pre,
        sessions.len() == 0 ==> e == Effect::Nothing && post == pre,
        !pre.busy.session_op && sessions.len() > 0 ==> e == (Effect::TearDown {
            session_id: sessions[0].session_id,
        }),
{
}

/// The subtasks that a refresh asks for are those of the selected task; GitHub's list has
/// none.
pub proof fn law_subtasks_of_the_selected_task(a: App)
    ensures
        a.nav.workbench_view == WorkbenchView::MyTasks ==> subtasks_shown(a) is None,
        a.nav.workbench_view != WorkbenchView::MyTasks && a.nav.task_index < a.visible@.len()
            ==> subtasks_shown(a) == Some(
            a.tasks@[a.visible@[a.nav.task_index as int] as int].id@,
        ),
        a.nav.workbench_view != WorkbenchView::MyTasks && a.nav.task_index >= a.visible@.len()
            ==> subtasks_shown(a) is None,
{
}

/// The subtasks of a task are counted where it has any.
pub proof fn law_counted_subtasks(c: SubtaskCount)
    ensures
        shown_count()(c) <==> c.total > 0,
{
}

} // verus!
