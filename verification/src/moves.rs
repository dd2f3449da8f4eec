//! Moving around: the selection, the tabs, the views and the dividers.

use vstd::prelude::*;
use vstd::string::*;

use crate::app::{queue, uses_github, App, Nav};
use crate::board_state::{clamped, next_place, previous_place, step_down, step_up, Board};
use crate::effects::Effect;
use crate::keys::KeyCode;
use crate::panes::{capped, less, Rect};
use crate::text_input::TextInput;
use crate::views::{
    Focus, InputMode, InspectorTab, ReviewDrawerTab, ReviewQueueTab, SettingsSection,
    WorkbenchDragTarget, WorkbenchView,
};

verus! {

// ---------------------------------------------------------------------------
// Tabs
// ---------------------------------------------------------------------------

pub open spec fn next_tab_of(a: App) -> usize {
    if a.tabs@.len() > 1 {
        ((a.nav.active_tab + 1) % a.tabs@.len() as int) as usize
    } else {
        a.nav.active_tab
    }
}

pub open spec fn previous_tab_of(a: App) -> usize {
    if a.tabs@.len() > 1 {
        if a.nav.active_tab == 0 {
            (a.tabs@.len() - 1) as usize
        } else {
            (a.nav.active_tab - 1) as usize
        }
    } else {
        a.nav.active_tab
    }
}

pub open spec fn on_tab(a: App, tab: usize) -> App {
    App { nav: Nav { active_tab: tab, ..a.nav }, ..a }
}

// ---------------------------------------------------------------------------
// The selection
// ---------------------------------------------------------------------------

/// The installations are missing where the settings show them.
pub open spec fn lacks_installations(a: App) -> bool {
    &&& a.nav.workbench_view == WorkbenchView::Settings
    &&& a.nav.settings_section_index < SettingsSection::all().len()
    &&& SettingsSection::all()[a.nav.settings_section_index as int] == SettingsSection::GitHub
    &&& a.github.status.authenticated
    &&& a.github.installations@.len() == 0
}

pub open spec fn prefetches(a: App, e: Effect) -> bool {
    e == if lacks_installations(a) {
        Effect::FetchInstallations
    } else {
        Effect::Nothing
    }
}

/// How many entries the task list has.
pub open spec fn task_list_len(a: App) -> nat {
    if a.nav.workbench_view == WorkbenchView::MyTasks && uses_github(a) {
        a.my_tasks.visible@.len()
    } else {
        a.visible@.len()
    }
}

/// One step down. An empty list leaves the selection where it is.
pub open spec fn down(i: usize, n: nat) -> usize {
    if n == 0 {
        i
    } else {
        next_place(i, n)
    }
}

pub open spec fn moved_down(pre: App, post: App, e: Effect) -> bool {
    match pre.nav.focus {
        Focus::Projects => e == Effect::Nothing && post == (App {
            nav: Nav {
                sidebar_cursor: next_place(
                    pre.nav.sidebar_cursor,
                    WorkbenchView::all().len() + pre.projects@.len(),
                ),
                ..pre.nav
            },
            ..pre
        }),
        Focus::Tasks => match pre.nav.workbench_view {
            WorkbenchView::Reviews => post == (App {
                nav: Nav { review_index: down(pre.nav.review_index, queue(pre).len()), ..pre.nav },
                ..pre
            }) && e == (if queue(pre).len() > 0 {
                Effect::LoadReviewContext
            } else {
                Effect::Nothing
            }),
            WorkbenchView::Threads => e == Effect::Nothing && post == (App {
                nav: Nav {
                    thread_index: down(pre.nav.thread_index, pre.threads@.len()),
                    ..pre.nav
                },
                ..pre
            }),
            WorkbenchView::Settings => prefetches(post, e) && post == (App {
                nav: Nav {
                    settings_section_index: next_place(
                        pre.nav.settings_section_index,
                        SettingsSection::all().len(),
                    ),
                    ..pre.nav
                },
                ..pre
            }),
            _ => e == Effect::Nothing && post == (App {
                nav: Nav { task_index: down(pre.nav.task_index, task_list_len(pre)), ..pre.nav },
                ..pre
            }),
        },
        Focus::Inspector => e == Effect::Nothing && post == (App {
            nav: Nav { inspector_scroll: capped(pre.nav.inspector_scroll + 1), ..pre.nav },
            ..pre
        }),
    }
}

pub open spec fn moved_up(pre: App, post: App, e: Effect) -> bool {
    match pre.nav.focus {
        Focus::Projects => e == Effect::Nothing && post == (App {
            nav: Nav { sidebar_cursor: previous_place(pre.nav.sidebar_cursor), ..pre.nav },
            ..pre
        }),
        Focus::Tasks => match pre.nav.workbench_view {
            WorkbenchView::Reviews => e == Effect::LoadReviewContext && post == (App {
                nav: Nav { review_index: previous_place(pre.nav.review_index), ..pre.nav },
                ..pre
            }),
            WorkbenchView::Threads => e == Effect::Nothing && post == (App {
                nav: Nav { thread_index: previous_place(pre.nav.thread_index), ..pre.nav },
                ..pre
            }),
            WorkbenchView::Settings => prefetches(post, e) && post == (App {
                nav: Nav {
                    settings_section_index: previous_place(pre.nav.settings_section_index),
                    ..pre.nav
                },
                ..pre
            }),
            _ => e == Effect::Nothing && post == (App {
                nav: Nav { task_index: previous_place(pre.nav.task_index), ..pre.nav },
                ..pre
            }),
        },
        Focus::Inspector => e == Effect::Nothing && post == (App {
            nav: Nav { inspector_scroll: less(pre.nav.inspector_scroll, 1), ..pre.nav },
            ..pre
        }),
    }
}

// ---------------------------------------------------------------------------
// Views
// ---------------------------------------------------------------------------

/// The board as it is when it is opened: the selection at its start and nothing
/// searched for.
pub open spec fn opened_board(pre: Board, post: Board) -> bool {
    post.filter.text@.len() == 0 && post == (Board {
        column_index: 0,
        issue_index: 0,
        first_load: true,
        filter: TextInput { text: post.filter.text, cursor: 0 },
        ..pre
    })
}

/// A mode that does not outlive a change of the view.
pub open spec fn is_view_mode(m: InputMode) -> bool {
    m == InputMode::BoardView || m == InputMode::MilestoneFilter || m == InputMode::BoardFilter || m
        == InputMode::LaunchThread || m == InputMode::ThreadCompose || m == InputMode::SettingsEdit
        || m == InputMode::GitHubInstallationPicker || m == InputMode::GitHubProjectPicker
}

/// The navigation right after a view was chosen.
pub open spec fn at_view(n: Nav, view: WorkbenchView) -> Nav {
    Nav {
        workbench_view: view,
        sidebar_cursor: view.spec_position(),
        inspector_scroll: 0,
        focus: Focus::Tasks,
        ..n
    }
}

/// The thread editor is emptied.
pub open spec fn compose_dropped(pre: App, post: App) -> bool {
    post.compose.draft.text@.len() == 0 && post.compose.draft.cursor == 0 && post == (App {
        compose: crate::compose::Compose {
            thread_id: None,
            draft: post.compose.draft,
            ..pre.compose
        },
        ..pre
    })
}

/// Another view is shown.
pub open spec fn switched_view(pre: App, view: WorkbenchView, post: App, e: Effect) -> bool {
    let mid = App { nav: at_view(pre.nav, view), ..pre };
    if view == WorkbenchView::SprintBoard {
        e == Effect::LoadBoard && opened_board(pre.board, post.board) && post == (App {
            nav: Nav { input_mode: InputMode::BoardView, ..mid.nav },
            board: post.board,
            ..pre
        })
    } else if lacks_installations(mid) {
        e == Effect::FetchInstallations && post == (App {
            nav: Nav { input_mode: InputMode::Normal, ..mid.nav },
            ..pre
        })
    } else if is_view_mode(pre.nav.input_mode) {
        e == Effect::Nothing && compose_dropped(
            App { nav: Nav { input_mode: InputMode::Normal, ..mid.nav }, ..pre },
            post,
        )
    } else {
        e == Effect::Nothing && post == mid
    }
}

/// The settings are shown at a section.
pub open spec fn at_section(a: App, place: usize) -> App {
    App { nav: Nav { settings_section_index: place, ..a.nav }, ..a }
}

/// The wait for the key after the leader key is over.
pub open spec fn without_leader(a: App) -> App {
    App { nav: Nav { leader_pending: false, ..a.nav }, ..a }
}

/// What a key means after the leader key.
pub open spec fn leader_step(pre: App, code: KeyCode, post: App, e: Effect) -> bool {
    match code {
        KeyCode::Char('t') => switched_view(pre, WorkbenchView::MyTasks, post, e),
        KeyCode::Char('b') => switched_view(pre, WorkbenchView::SprintBoard, post, e),
        KeyCode::Char('h') => switched_view(pre, WorkbenchView::Threads, post, e),
        KeyCode::Char('r') => switched_view(pre, WorkbenchView::Reviews, post, e),
        KeyCode::Char('a') => switched_view(pre, WorkbenchView::Agents, post, e),
        KeyCode::Char('s') => switched_view(pre, WorkbenchView::Settings, post, e),
        KeyCode::Char('g') => exists|mid: App, first: Effect|
            #[trigger] switched_view(pre, WorkbenchView::Settings, mid, first) && post
                == at_section(mid, 2) && e == (if lacks_installations(post) {
                Effect::FetchInstallations
            } else {
                first
            }),
        KeyCode::Char('p') => exists|mid: App|
            #[trigger] switched_view(pre, WorkbenchView::Settings, mid, e) && post == at_section(
                mid,
                0,
            ),
        _ => e == Effect::Nothing && post == pre,
    }
}

pub open spec fn on_inspector_tab(a: App, tab: InspectorTab) -> App {
    App { nav: Nav { inspector_tab: tab, inspector_scroll: 0, ..a.nav }, ..a }
}

/// The page of the inspector that a digit means.
pub open spec fn inspector_digit(code: KeyCode) -> Option<InspectorTab> {
    match code {
        KeyCode::Char('1') => Some(InspectorTab::Issue),
        KeyCode::Char('2') => Some(InspectorTab::Diff),
        KeyCode::Char('3') => Some(InspectorTab::Runtime),
        KeyCode::Char('4') => Some(InspectorTab::Tests),
        KeyCode::Char('5') => Some(InspectorTab::Plan),
        KeyCode::Char('6') => Some(InspectorTab::Attachments),
        _ => None,
    }
}

/// A key of the inspector; `None` for one that means nothing there.
pub open spec fn inspector_step(nav: Nav, code: KeyCode) -> Option<Nav> {
    match inspector_digit(code) {
        Some(tab) => Some(Nav { inspector_tab: tab, inspector_scroll: 0, ..nav }),
        None => if code == KeyCode::Char('f') {
            Some(Nav { inspector_expanded: !nav.inspector_expanded, ..nav })
        } else if code == KeyCode::Char('v') && nav.workbench_view == WorkbenchView::Reviews {
            Some(
                Nav {
                    review_drawer_tab: ReviewDrawerTab::Description,
                    review_drawer_scroll: 0,
                    input_mode: InputMode::ReviewDrawer,
                    ..nav
                },
            )
        } else if code == KeyCode::Esc && nav.inspector_expanded {
            Some(Nav { inspector_expanded: false, ..nav })
        } else {
            None
        },
    }
}

/// The pane after and before a pane.
pub open spec fn next_focus(f: Focus, inspector: bool) -> Focus {
    match f {
        Focus::Projects => Focus::Tasks,
        Focus::Tasks => if inspector {
            Focus::Inspector
        } else {
            Focus::Projects
        },
        Focus::Inspector => Focus::Projects,
    }
}

pub open spec fn previous_focus(f: Focus, inspector: bool) -> Focus {
    match f {
        Focus::Projects => if inspector {
            Focus::Inspector
        } else {
            Focus::Tasks
        },
        Focus::Tasks => Focus::Projects,
        Focus::Inspector => Focus::Tasks,
    }
}

/// The keys that change the focus, and the leader key.
pub open spec fn focus_step(nav: Nav, code: KeyCode, inspector: bool) -> Option<Nav> {
    match code {
        KeyCode::Char(' ') => Some(Nav { leader_pending: true, ..nav }),
        KeyCode::Tab => Some(Nav { focus: next_focus(nav.focus, inspector), ..nav }),
        KeyCode::BackTab => Some(Nav { focus: previous_focus(nav.focus, inspector), ..nav }),
        KeyCode::Char('3') => if inspector {
            Some(Nav { focus: Focus::Inspector, ..nav })
        } else {
            None
        },
        _ => None,
    }
}

/// The selections after a key of the inspector or one that changes the focus.
pub open spec fn prefix_place(nav: Nav, code: KeyCode, inspector: bool) -> Option<Nav> {
    if inspector && nav.focus == Focus::Inspector && inspector_step(nav, code) is Some {
        inspector_step(nav, code)
    } else {
        focus_step(nav, code, inspector)
    }
}

/// The key means the same in every view.
pub open spec fn is_prefix(a: App, code: KeyCode, inspector: bool) -> bool {
    a.nav.leader_pending || prefix_place(a.nav, code, inspector) is Some
}

/// The keys that mean the same in every view. The result tells whether the key was
/// one of them.
pub open spec fn prefix_step(
    pre: App,
    code: KeyCode,
    inspector: bool,
    post: App,
    r: Option<Effect>,
) -> bool {
    if pre.nav.leader_pending {
        r matches Some(e) && leader_step(
            without_leader(pre),
            code,
            post,
            e,
        )
    } else {
        match prefix_place(pre.nav, code, inspector) {
            Some(nav) => r == Some(Effect::Nothing) && post == (App { nav, ..pre }),
            None => r is None && post == pre,
        }
    }
}

impl App {
    pub fn next_tab(&mut self)
        ensures
            *final(self) == on_tab(*old(self), next_tab_of(*old(self))),
            old(self).wf() ==> final(self).wf(),
    {
        let n: usize = self.tabs.len();
        if n > 1 {
            self.nav.active_tab = if self.nav.active_tab < n {
                (self.nav.active_tab + 1) % n
            } else {
                let rest: usize = self.nav.active_tab % n;
                proof {
                    assert((self.nav.active_tab + 1) % n as int == (rest + 1) % n as int)
                        by (nonlinear_arith)
                        requires
                            rest == self.nav.active_tab % n,
                            n > 1,
                    ;
                }
                (rest + 1) % n
            };
        }
    }

    pub fn prev_tab(&mut self)
        ensures
            *final(self) == on_tab(*old(self), previous_tab_of(*old(self))),
            old(self).wf() ==> final(self).wf(),
    {
        let n: usize = self.tabs.len();
        if n > 1 {
            self.nav.active_tab = if self.nav.active_tab == 0 {
                n - 1
            } else {
                self.nav.active_tab - 1
            };
        }
    }

    /// Fetch the installations where the settings are about to show them.
    pub fn maybe_prefetch_github_installations(&self) -> (e: Effect)
        ensures
            prefetches(*self, e),
    {
        if self.nav.workbench_view == WorkbenchView::Settings {
            if let Some(SettingsSection::GitHub) = SettingsSection::at(
                self.nav.settings_section_index,
            ) {
                if self.github.status.authenticated && self.github.installations.len() == 0 {
                    return Effect::FetchInstallations;
                }
            }
        }
        Effect::Nothing
    }

    /// The number of entries of the task list.
    pub fn listed_tasks(&self) -> (r: usize)
        ensures
            r == task_list_len(*self),
    {
        if self.nav.workbench_view == WorkbenchView::MyTasks && self.uses_github_my_tasks() {
            self.visible_my_task_count()
        } else {
            self.visible_task_count()
        }
    }

    /// Move the selection of the focused pane one step down.
    pub fn move_down(&mut self) -> (e: Effect)
        requires
            old(self).wf(),
        ensures
            moved_down(*old(self), *final(self), e),
            final(self).wf(),
    {
        match self.nav.focus {
            Focus::Projects => {
                self.nav.sidebar_cursor = step_down(
                    self.nav.sidebar_cursor,
                    App::sidebar_nav_count() + self.projects.len(),
                );
                Effect::Nothing
            },
            Focus::Tasks => match self.nav.workbench_view {
                WorkbenchView::Reviews => {
                    let n: usize = self.review_items().len();
                    if n > 0 {
                        self.nav.review_index = step_down(self.nav.review_index, n);
                        Effect::LoadReviewContext
                    } else {
                        Effect::Nothing
                    }
                },
                WorkbenchView::Threads => {
                    if self.threads.len() > 0 {
                        self.nav.thread_index = step_down(
                            self.nav.thread_index,
                            self.threads.len(),
                        );
                    }
                    Effect::Nothing
                },
                WorkbenchView::Settings => {
                    self.nav.settings_section_index = step_down(
                        self.nav.settings_section_index,
                        9,
                    );
                    self.maybe_prefetch_github_installations()
                },
                _ => {
                    let n: usize = self.listed_tasks();
                    if n > 0 {
                        self.nav.task_index = step_down(self.nav.task_index, n);
                    }
                    Effect::Nothing
                },
            },
            Focus::Inspector => {
                self.nav.inspector_scroll = self.nav.inspector_scroll.saturating_add(1);
                Effect::Nothing
            },
        }
    }

    /// Move the selection of the focused pane one step up.
    pub fn move_up(&mut self) -> (e: Effect)
        ensures
            moved_up(*old(self), *final(self), e),
            old(self).wf() ==> final(self).wf(),
    {
        match self.nav.focus {
            Focus::Projects => {
                self.nav.sidebar_cursor = step_up(self.nav.sidebar_cursor);
                Effect::Nothing
            },
            Focus::Tasks => match self.nav.workbench_view {
                WorkbenchView::Reviews => {
                    self.nav.review_index = step_up(self.nav.review_index);
                    Effect::LoadReviewContext
                },
                WorkbenchView::Threads => {
                    self.nav.thread_index = step_up(self.nav.thread_index);
                    Effect::Nothing
                },
                WorkbenchView::Settings => {
                    self.nav.settings_section_index = step_up(self.nav.settings_section_index);
                    self.maybe_prefetch_github_installations()
                },
                _ => {
                    self.nav.task_index = step_up(self.nav.task_index);
                    Effect::Nothing
                },
            },
            Focus::Inspector => {
                self.nav.inspector_scroll = self.nav.inspector_scroll.saturating_sub(1);
                Effect::Nothing
            },
        }
    }

    /// Empty the thread editor.
    pub fn drop_compose(&mut self)
        ensures
            compose_dropped(*old(self), *final(self)),
            old(self).wf() ==> final(self).wf(),
    {
        self.compose.thread_id = None;
        self.compose.draft = TextInput { text: String::new(), cursor: 0 };
    }

    /// Put the board's selection at its start and search for nothing.
    pub fn open_board_at_start(&mut self)
        ensures
            opened_board(old(self).board, final(self).board),
            *final(self) == (App { board: final(self).board, ..*old(self) }),
            old(self).wf() ==> final(self).wf(),
    {
        self.board.column_index = 0;
        self.board.issue_index = 0;
        self.board.first_load = true;
        self.board.filter = TextInput { text: String::new(), cursor: 0 };
    }

    fn show_view(&mut self, view: WorkbenchView)
        ensures
            *final(self) == (App { nav: at_view(old(self).nav, view), ..*old(self) }),
            old(self).wf() ==> final(self).wf(),
    {
        let mut nav = self.nav;
        nav.workbench_view = view;
        nav.sidebar_cursor = view.position();
        nav.inspector_scroll = 0;
        nav.focus = Focus::Tasks;
        self.nav = nav;
    }

    fn end_leader(&mut self)
        ensures
            *final(self) == without_leader(*old(self)),
            old(self).wf() ==> final(self).wf(),
    {
        self.nav.leader_pending = false;
    }

    pub fn switch_workbench_view(&mut self, view: WorkbenchView) -> (e: Effect)
        ensures
            switched_view(*old(self), view, *final(self), e),
            old(self).wf() ==> final(self).wf(),
    {
        self.show_view(view);
        if view == WorkbenchView::SprintBoard {
            self.open_board_at_start();
            self.enter_mode(InputMode::BoardView);
            return Effect::LoadBoard;
        }
        let e = self.maybe_prefetch_github_installations();
        if let Effect::FetchInstallations = e {
            self.enter_mode(InputMode::Normal);
            return e;
        }
        match self.nav.input_mode {
            InputMode::BoardView
            | InputMode::MilestoneFilter
            | InputMode::BoardFilter
            | InputMode::LaunchThread
            | InputMode::ThreadCompose
            | InputMode::SettingsEdit
            | InputMode::GitHubInstallationPicker
            | InputMode::GitHubProjectPicker => {
                self.enter_mode(InputMode::Normal);
                self.drop_compose();
            },
            _ => {},
        }
        Effect::Nothing
    }

    fn leader_key(&mut self, code: KeyCode) -> (e: Effect)
        ensures
            leader_step(*old(self), code, *final(self), e),
            old(self).wf() ==> final(self).wf(),
    {
        match code {
            KeyCode::Char('t') => self.switch_workbench_view(WorkbenchView::MyTasks),
            KeyCode::Char('b') => self.switch_workbench_view(WorkbenchView::SprintBoard),
            KeyCode::Char('h') => self.switch_workbench_view(WorkbenchView::Threads),
            KeyCode::Char('r') => self.switch_workbench_view(WorkbenchView::Reviews),
            KeyCode::Char('a') => self.switch_workbench_view(WorkbenchView::Agents),
            KeyCode::Char('s') => self.switch_workbench_view(WorkbenchView::Settings),
            KeyCode::Char('g') => {
                let first = self.switch_workbench_view(WorkbenchView::Settings);
                let ghost mid = *self;
                self.nav.settings_section_index = 2;
                proof {
                    assert(switched_view(*old(self), WorkbenchView::Settings, mid, first));
                }
                match self.maybe_prefetch_github_installations() {
                    Effect::FetchInstallations => Effect::FetchInstallations,
                    _ => first,
                }
            },
            KeyCode::Char('p') => {
                let e = self.switch_workbench_view(WorkbenchView::Settings);
                let ghost mid = *self;
                self.nav.settings_section_index = 0;
                proof {
                    assert(switched_view(*old(self), WorkbenchView::Settings, mid, e));
                }
                e
            },
            _ => Effect::Nothing,
        }
    }

    /// Handle the keys that mean the same in every view: the leader key and what
    /// follows it, the keys of the inspector, and those that change the focus.
    /// `inspector` tells whether the view has an inspector.
    pub fn handle_workbench_prefix(&mut self, code: KeyCode, inspector: bool) -> (r: Option<Effect>)
        ensures
            prefix_step(*old(self), code, inspector, *final(self), r),
            r is Some <==> is_prefix(*old(self), code, inspector),
            r is None ==> *final(self) == *old(self),
            old(self).wf() ==> final(self).wf(),
    {
        if self.nav.leader_pending {
            self.end_leader();
            let ghost mid = *self;
            let e = self.leader_key(code);
            assert(leader_step(mid, code, *self, e));
            return Some(e);
        }
        if inspector && self.nav.focus == Focus::Inspector {
            if let Some(nav) = inspector_place(self.nav, code) {
                self.nav = nav;
                return Some(Effect::Nothing);
            }
        }
        match focus_place(self.nav, code, inspector) {
            Some(nav) => {
                self.nav = nav;
                Some(Effect::Nothing)
            },
            None => None,
        }
    }
}

/// The selections after a key of the inspector.
fn inspector_place(nav: Nav, code: KeyCode) -> (r: Option<Nav>)
    ensures
        r == inspector_step(nav, code),
{
    let mut to = nav;
    match inspector_page(code) {
        Some(tab) => {
            to.inspector_tab = tab;
            to.inspector_scroll = 0;
        },
        None => {
            if code == KeyCode::Char('f') {
                to.inspector_expanded = !nav.inspector_expanded;
            } else if code == KeyCode::Char('v') && nav.workbench_view == WorkbenchView::Reviews {
                to.review_drawer_tab = ReviewDrawerTab::Description;
                to.review_drawer_scroll = 0;
                to.input_mode = InputMode::ReviewDrawer;
            } else if code == KeyCode::Esc && nav.inspector_expanded {
                to.inspector_expanded = false;
            } else {
                return None;
            }
        },
    }
    Some(to)
}

/// The selections after a key that changes the focus.
fn focus_place(nav: Nav, code: KeyCode, inspector: bool) -> (r: Option<Nav>)
    ensures
        r == focus_step(nav, code, inspector),
{
    let mut to = nav;
    match code {
        KeyCode::Char(' ') => {
            to.leader_pending = true;
        },
        KeyCode::Tab => {
            to.focus = match nav.focus {
                Focus::Projects => Focus::Tasks,
                Focus::Tasks => if inspector {
                    Focus::Inspector
                } else {
                    Focus::Projects
                },
                Focus::Inspector => Focus::Projects,
            };
        },
        KeyCode::BackTab => {
            to.focus = match nav.focus {
                Focus::Projects => if inspector {
                    Focus::Inspector
                } else {
                    Focus::Tasks
                },
                Focus::Tasks => Focus::Projects,
                Focus::Inspector => Focus::Tasks,
            };
        },
        KeyCode::Char('3') => {
            if !inspector {
                return None;
            }
            to.focus = Focus::Inspector;
        },
        _ => {
            return None;
        },
    }
    Some(to)
}

/// The page of the inspector that a digit means.
pub fn inspector_page(code: KeyCode) -> (r: Option<InspectorTab>)
    ensures
        r == inspector_digit(code),
{
    match code {
        KeyCode::Char('1') => Some(InspectorTab::Issue),
        KeyCode::Char('2') => Some(InspectorTab::Diff),
        KeyCode::Char('3') => Some(InspectorTab::Runtime),
        KeyCode::Char('4') => Some(InspectorTab::Tests),
        KeyCode::Char('5') => Some(InspectorTab::Plan),
        KeyCode::Char('6') => Some(InspectorTab::Attachments),
        _ => None,
    }
}

// ---------------------------------------------------------------------------
// Dividers
// ---------------------------------------------------------------------------

/// How the workbench divides its part of the screen.
#[derive(Clone, Copy, Debug)]
pub struct WorkbenchLayout {
    pub body: Rect,
    pub sidebar: Rect,
    pub main: Rect,
    pub inspector: Rect,
}

/// The screen without the tab bar, which is there once a session is open.
pub open spec fn workbench_part(a: App) -> Rect {
    if a.tabs@.len() > 1 {
        Rect { x: 0, y: 1, width: a.nav.screen.width, height: less(a.nav.screen.height, 1) }
    } else {
        a.nav.screen
    }
}

/// A width that is changed by a signed number of columns, kept in its range.
pub open spec fn widened(width: u16, delta: i16) -> u16 {
    if width + delta < 0 {
        0
    } else {
        capped(width + delta)
    }
}

/// The widths that a resize asks for: of the sidebar where it is focused or there is
/// no inspector, else of the inspector.
pub open spec fn resized(a: App, layout: WorkbenchLayout, inspector: bool, delta: i16) -> Effect {
    if workbench_part(a).width == 0 || workbench_part(a).height == 0 || layout.body.width == 0 {
        Effect::Nothing
    } else if !inspector || a.nav.focus == Focus::Projects {
        Effect::ResizePanes {
            sidebar: widened(a.nav.sidebar_width, delta),
            inspector: a.nav.inspector_width,
        }
    } else {
        Effect::ResizePanes {
            sidebar: a.nav.sidebar_width,
            inspector: widened(a.nav.inspector_width, delta),
        }
    }
}

/// At most two columns less than the body.
pub open spec fn within_body(n: u16, body: Rect) -> u16 {
    if n < less(body.width, 2) {
        n
    } else {
        less(body.width, 2)
    }
}

/// The widths that a dragged divider asks for.
pub open spec fn dragged(a: App, layout: WorkbenchLayout, col: u16) -> Effect {
    if layout.body.width == 0 {
        Effect::Nothing
    } else {
        match a.nav.drag_target {
            None => Effect::Nothing,
            Some(WorkbenchDragTarget::SidebarDivider) => Effect::ResizePanes {
                sidebar: within_body(capped(less(col, layout.body.x as int) + 1), layout.body),
                inspector: a.nav.inspector_width,
            },
            Some(WorkbenchDragTarget::InspectorDivider) => {
                let right = less(capped(layout.body.x + layout.body.width), col as int);
                Effect::ResizePanes {
                    sidebar: a.nav.sidebar_width,
                    inspector: within_body(
                        if right == 0 {
                            1
                        } else {
                            right
                        },
                        layout.body,
                    ),
                }
            },
        }
    }
}

impl App {
    pub fn workbench_area(&self) -> (r: Rect)
        ensures
            r == workbench_part(*self),
    {
        if self.tabs.len() > 1 {
            Rect {
                x: 0,
                y: 1,
                width: self.nav.screen.width,
                height: self.nav.screen.height.saturating_sub(1),
            }
        } else {
            self.nav.screen
        }
    }

    /// The widths to ask for where the focused pane is to be wider or narrower.
    pub fn resize_workbench_pane(&self, layout: &WorkbenchLayout, inspector: bool, delta: i16) -> (e:
        Effect)
        ensures
            e == resized(*self, *layout, inspector, delta),
    {
        let area = self.workbench_area();
        if area.width == 0 || area.height == 0 || layout.body.width == 0 {
            return Effect::Nothing;
        }
        if !inspector || self.nav.focus == Focus::Projects {
            Effect::ResizePanes {
                sidebar: widen(self.nav.sidebar_width, delta),
                inspector: self.nav.inspector_width,
            }
        } else {
            Effect::ResizePanes {
                sidebar: self.nav.sidebar_width,
                inspector: widen(self.nav.inspector_width, delta),
            }
        }
    }

    /// The panes have got these widths.
    pub fn set_widths(&mut self, sidebar: u16, inspector: u16)
        ensures
            *final(self) == (App {
                nav: Nav { sidebar_width: sidebar, inspector_width: inspector, ..old(self).nav },
                ..*old(self)
            }),
            old(self).wf() ==> final(self).wf(),
    {
        self.nav.sidebar_width = sidebar;
        self.nav.inspector_width = inspector;
    }

    pub fn begin_workbench_drag(&mut self, target: WorkbenchDragTarget)
        ensures
            *final(self) == (App {
                nav: Nav {
                    drag_target: Some(target),
                    focus: match target {
                        WorkbenchDragTarget::SidebarDivider => Focus::Projects,
                        WorkbenchDragTarget::InspectorDivider => Focus::Inspector,
                    },
                    ..old(self).nav
                },
                ..*old(self)
            }),
            old(self).wf() ==> final(self).wf(),
    {
        self.nav.drag_target = Some(target);
        self.nav.focus = match target {
            WorkbenchDragTarget::SidebarDivider => Focus::Projects,
            WorkbenchDragTarget::InspectorDivider => Focus::Inspector,
        };
    }

    /// The widths to ask for where a divider is dragged to a column.
    pub fn update_workbench_drag(&self, layout: &WorkbenchLayout, col: u16) -> (e: Effect)
        ensures
            e == dragged(*self, *layout, col),
    {
        if layout.body.width == 0 {
            return Effect::Nothing;
        }
        let most: u16 = layout.body.width.saturating_sub(2);
        match self.nav.drag_target {
            None => Effect::Nothing,
            Some(WorkbenchDragTarget::SidebarDivider) => {
                let wanted: u16 = col.saturating_sub(layout.body.x).saturating_add(1);
                Effect::ResizePanes {
                    sidebar: if wanted < most {
                        wanted
                    } else {
                        most
                    },
                    inspector: self.nav.inspector_width,
                }
            },
            Some(WorkbenchDragTarget::InspectorDivider) => {
                let right: u16 = layout.body.x.saturating_add(layout.body.width).saturating_sub(
                    col,
                );
                let wanted: u16 = if right == 0 {
                    1
                } else {
                    right
                };
                Effect::ResizePanes {
                    sidebar: self.nav.sidebar_width,
                    inspector: if wanted < most {
                        wanted
                    } else {
                        most
                    },
                }
            },
        }
    }
}

fn widen(width: u16, delta: i16) -> (r: u16)
    ensures
        r == widened(width, delta),
{
    let n: i32 = width as i32 + delta as i32;
    if n < 0 {
        0
    } else if n > 65535 {
        65535
    } else {
        n as u16
    }
}

// ---------------------------------------------------------------------------
// Laws
// ---------------------------------------------------------------------------

/// Going to the next tab and back leads to the same tab.
pub proof fn law_tabs_go_round(a: App)
    requires
        a.nav.active_tab < a.tabs@.len(),
        a.tabs@.len() <= usize::MAX,
    ensures
        on_tab(on_tab(a, next_tab_of(a)), previous_tab_of(on_tab(a, next_tab_of(a)))) == a,
        on_tab(on_tab(a, previous_tab_of(a)), next_tab_of(on_tab(a, previous_tab_of(a)))) == a,
        next_tab_of(a) < a.tabs@.len(),
        previous_tab_of(a) < a.tabs@.len(),
{
    let n = a.tabs@.len() as int;
    if n > 1 {
        let i = a.nav.active_tab as int;
        if i + 1 < n {
            vstd::arithmetic::div_mod::lemma_small_mod((i + 1) as nat, n as nat);
        } else {
            vstd::arithmetic::div_mod::lemma_mod_self_0(n);
        }
        if i > 0 {
            vstd::arithmetic::div_mod::lemma_small_mod(i as nat, n as nat);
        } else {
            vstd::arithmetic::div_mod::lemma_mod_self_0(n);
        }
    }
}

/// Tab and Shift+Tab move the focus in opposite directions.
pub proof fn law_focus_goes_round(f: Focus, inspector: bool)
    requires
        inspector || f != Focus::Inspector,
    ensures
        previous_focus(next_focus(f, inspector), inspector) == f,
        next_focus(previous_focus(f, inspector), inspector) == f,
{
}

/// A step down never leaves the list, and a step up undoes it.
pub proof fn law_steps_stay_in_the_list(i: usize, n: nat)
    requires
        i < n,
        n <= usize::MAX,
    ensures
        down(i, n) < n,
        i + 1 < n ==> previous_place(down(i, n)) == i,
        clamped(down(i, n), n) == down(i, n),
{
}

/// The next tab is the one to the right, behind the last one the first; the one before is
/// to the left, before the first one the last.
pub proof fn law_tabs_are_beside_each_other(a: App)
    requires
        a.tabs@.len() > 1,
        a.nav.active_tab < a.tabs@.len(),
    ensures
        a.nav.active_tab + 1 < a.tabs@.len() ==> next_tab_of(a) == a.nav.active_tab + 1,
        a.nav.active_tab + 1 == a.tabs@.len() ==> next_tab_of(a) == 0,
        a.nav.active_tab > 0 ==> previous_tab_of(a) + 1 == a.nav.active_tab,
        a.nav.active_tab == 0 ==> previous_tab_of(a) + 1 == a.tabs@.len(),
{
    let n = a.tabs@.len() as int;
    assert(a.tabs.len() == n);
    let i = a.nav.active_tab as int;
    if i + 1 < n {
        assert((i + 1) % n == i + 1) by (nonlinear_arith)
            requires
                0 <= i + 1 < n,
        ;
    } else {
        assert(n % n == 0) by (nonlinear_arith)
            requires
                n > 0,
        ;
    }
}

/// A step down moves the selection of the focused list by one and stops at its end; nothing
/// else is selected.
pub proof fn law_down_moves_the_focused_list(pre: App, post: App, e: Effect)
    requires
        moved_down(pre, post, e),
    ensures
        pre.nav.focus == Focus::Projects && pre.nav.sidebar_cursor + 1 < 5 + pre.projects@.len()
            && pre.nav.sidebar_cursor < usize::MAX ==> post.nav.sidebar_cursor
            == pre.nav.sidebar_cursor + 1,
        pre.nav.focus == Focus::Tasks && pre.nav.workbench_view == WorkbenchView::Threads
            && pre.nav.thread_index + 1 < pre.threads@.len() ==> post.nav.thread_index
            == pre.nav.thread_index + 1,
        pre.nav.focus == Focus::Tasks && pre.nav.workbench_view == WorkbenchView::Reviews
            && pre.nav.review_queue_tab == ReviewQueueTab::Authored && pre.nav.review_index + 1
            < pre.reviews.authored@.len() ==> post.nav.review_index == pre.nav.review_index + 1
            && e == Effect::LoadReviewContext,
        pre.nav.focus == Focus::Tasks && pre.nav.workbench_view == WorkbenchView::Reviews
            && pre.nav.review_queue_tab == ReviewQueueTab::NeedsReview && pre.nav.review_index + 1
            < pre.reviews.requested@.len() ==> post.nav.review_index == pre.nav.review_index + 1
            && e == Effect::LoadReviewContext,
        pre.nav.focus == Focus::Tasks && pre.nav.workbench_view == WorkbenchView::Settings
            && pre.nav.settings_section_index + 1 < 9 ==> post.nav.settings_section_index
            == pre.nav.settings_section_index + 1,
        pre.nav.focus == Focus::Tasks && pre.nav.workbench_view == WorkbenchView::MyTasks
            && uses_github(pre) && pre.nav.task_index + 1 < pre.my_tasks.visible@.len()
            ==> post.nav.task_index == pre.nav.task_index + 1,
        pre.nav.focus == Focus::Tasks && pre.nav.workbench_view == WorkbenchView::MyTasks
            && !uses_github(pre) && pre.nav.task_index + 1 < pre.visible@.len()
            ==> post.nav.task_index == pre.nav.task_index + 1,
        pre.nav.focus == Focus::Inspector && pre.nav.inspector_scroll < u16::MAX
            ==> post.nav.inspector_scroll == pre.nav.inspector_scroll + 1,
        pre.nav.focus != Focus::Inspector ==> post.nav.inspector_scroll
            == pre.nav.inspector_scroll,
        pre.nav.focus != Focus::Projects ==> post.nav.sidebar_cursor == pre.nav.sidebar_cursor,
        post.nav.focus == pre.nav.focus && post.nav.workbench_view == pre.nav.workbench_view,
{
    assert(pre.threads.len() == pre.threads@.len());
    assert(pre.reviews.authored.len() == pre.reviews.authored@.len());
    assert(pre.reviews.requested.len() == pre.reviews.requested@.len());
    assert(pre.my_tasks.visible.len() == pre.my_tasks.visible@.len());
    assert(pre.visible.len() == pre.visible@.len());
}

/// A step up moves the selection of the focused list back by one and stops at its start.
pub proof fn law_up_moves_the_focused_list(pre: App, post: App, e: Effect)
    requires
        moved_up(pre, post, e),
    ensures
        pre.nav.focus == Focus::Projects && pre.nav.sidebar_cursor > 0 ==> post.nav.sidebar_cursor
            + 1 == pre.nav.sidebar_cursor,
        pre.nav.focus == Focus::Tasks && pre.nav.workbench_view == WorkbenchView::Threads
            && pre.nav.thread_index > 0 ==> post.nav.thread_index + 1 == pre.nav.thread_index,
        pre.nav.focus == Focus::Tasks && pre.nav.workbench_view == WorkbenchView::Reviews
            && pre.nav.review_index > 0 ==> post.nav.review_index + 1 == pre.nav.review_index && e
            == Effect::LoadReviewContext,
        pre.nav.focus == Focus::Tasks && pre.nav.workbench_view == WorkbenchView::Settings
            && pre.nav.settings_section_index > 0 ==> post.nav.settings_section_index + 1
            == pre.nav.settings_section_index,
        pre.nav.focus == Focus::Tasks && pre.nav.workbench_view == WorkbenchView::MyTasks
            && pre.nav.task_index > 0 ==> post.nav.task_index + 1 == pre.nav.task_index,
        pre.nav.focus == Focus::Inspector && pre.nav.inspector_scroll > 0
            ==> post.nav.inspector_scroll + 1 == pre.nav.inspector_scroll,
        post.nav.focus == pre.nav.focus && post.nav.workbench_view == pre.nav.workbench_view,
{
}

/// A view that is switched to is shown with its list in focus; the board is loaded and
/// shown with the first issue of its first column and no search text.
pub proof fn law_views_open_on_their_list(pre: App, view: WorkbenchView, post: App, e: Effect)
    requires
        switched_view(pre, view, post, e),
    ensures
        post.nav.workbench_view == view,
        post.nav.focus == Focus::Tasks,
        post.nav.inspector_scroll == 0,
        view == WorkbenchView::MyTasks || view == WorkbenchView::Threads ==> post.nav.sidebar_cursor
            == 0,
        view == WorkbenchView::SprintBoard ==> post.nav.sidebar_cursor == 1,
        view == WorkbenchView::Reviews ==> post.nav.sidebar_cursor == 2,
        view == WorkbenchView::Agents ==> post.nav.sidebar_cursor == 3,
        view == WorkbenchView::Settings ==> post.nav.sidebar_cursor == 4,
        view == WorkbenchView::SprintBoard ==> e == Effect::LoadBoard && post.board.column_index
            == 0 && post.board.issue_index == 0 && post.board.filter.text@.len() == 0
            && post.board.first_load && post.nav.input_mode == InputMode::BoardView,
        view != WorkbenchView::SprintBoard ==> e != Effect::LoadBoard && post.board == pre.board,
        view != WorkbenchView::SprintBoard && (pre.nav.input_mode == InputMode::BoardView
            || pre.nav.input_mode == InputMode::ThreadCompose || pre.nav.input_mode
            == InputMode::LaunchThread) ==> post.nav.input_mode == InputMode::Normal,
{
}

/// The keys behind the leader: each names the view that it leads to.
pub proof fn law_the_leader_keys(pre: App, code: KeyCode, post: App, e: Effect)
    requires
        leader_step(pre, code, post, e),
    ensures
        code == KeyCode::Char('t') ==> post.nav.workbench_view == WorkbenchView::MyTasks,
        code == KeyCode::Char('b') ==> post.nav.workbench_view == WorkbenchView::SprintBoard,
        code == KeyCode::Char('h') ==> post.nav.workbench_view == WorkbenchView::Threads,
        code == KeyCode::Char('r') ==> post.nav.workbench_view == WorkbenchView::Reviews,
        code == KeyCode::Char('a') ==> post.nav.workbench_view == WorkbenchView::Agents,
        code == KeyCode::Char('s') ==> post.nav.workbench_view == WorkbenchView::Settings,
        code == KeyCode::Char('g') ==> post.nav.workbench_view == WorkbenchView::Settings
            && post.nav.settings_section_index == 2,
        code == KeyCode::Char('p') ==> post.nav.workbench_view == WorkbenchView::Settings
            && post.nav.settings_section_index == 0,
        code == KeyCode::Esc ==> post == pre && e == Effect::Nothing,
{
}

/// In the inspector the digits one to six choose its tabs in their order, `f` turns its
/// size, and escape makes it small again.
pub proof fn law_the_inspector_keys(nav: Nav, code: KeyCode)
    requires
        nav.focus == Focus::Inspector,
    ensures
        code == KeyCode::Char('1') ==> (prefix_place(nav, code, true) matches Some(n)
            && n.inspector_tab == InspectorTab::Issue && n.inspector_scroll == 0),
        code == KeyCode::Char('2') ==> (prefix_place(nav, code, true) matches Some(n)
            && n.inspector_tab == InspectorTab::Diff),
        code == KeyCode::Char('3') ==> (prefix_place(nav, code, true) matches Some(n)
            && n.inspector_tab == InspectorTab::Runtime),
        code == KeyCode::Char('4') ==> (prefix_place(nav, code, true) matches Some(n)
            && n.inspector_tab == InspectorTab::Tests),
        code == KeyCode::Char('5') ==> (prefix_place(nav, code, true) matches Some(n)
            && n.inspector_tab == InspectorTab::Plan),
        code == KeyCode::Char('6') ==> (prefix_place(nav, code, true) matches Some(n)
            && n.inspector_tab == InspectorTab::Attachments),
        code == KeyCode::Char('f') ==> (prefix_place(nav, code, true) matches Some(n)
            && n.inspector_expanded == !nav.inspector_expanded),
        code == KeyCode::Esc && nav.inspector_expanded ==> (prefix_place(nav, code, true) matches Some(
            n,
        ) && !n.inspector_expanded && n.focus == nav.focus),
        code == KeyCode::Char('v') && nav.workbench_view == WorkbenchView::Reviews ==> (
        prefix_place(nav, code, true) matches Some(n) && n.input_mode == InputMode::ReviewDrawer),
{
}

/// Tab takes the focus on from the sidebar to the list and, where there is one, to the
/// inspector; the other tab takes it back. A blank begins a leader sequence.
pub proof fn law_tab_takes_the_focus_on(nav: Nav, inspector: bool)
    ensures
        nav.focus == Focus::Projects ==> (prefix_place(nav, KeyCode::Tab, inspector) matches Some(n)
            && n.focus == Focus::Tasks),
        nav.focus == Focus::Tasks && inspector ==> (prefix_place(
            nav,
            KeyCode::Tab,
            inspector,
        ) matches Some(n) && n.focus == Focus::Inspector),
        nav.focus == Focus::Tasks && !inspector ==> (prefix_place(
            nav,
            KeyCode::Tab,
            inspector,
        ) matches Some(n) && n.focus == Focus::Projects),
        nav.focus == Focus::Tasks ==> (prefix_place(
            nav,
            KeyCode::BackTab,
            inspector,
        ) matches Some(n) && n.focus == Focus::Projects),
        nav.focus == Focus::Inspector ==> (prefix_place(
            nav,
            KeyCode::BackTab,
            inspector,
        ) matches Some(n) && n.focus == Focus::Tasks),
        prefix_place(nav, KeyCode::Char(' '), inspector) matches Some(n) && n.leader_pending,
{
}

/// Widths are changed by the step that is asked for, the sidebar's where it has the focus or
/// there is no inspector, else the inspector's; a width does not fall below zero.
pub proof fn law_widths_change_by_the_step(
    a: App,
    layout: WorkbenchLayout,
    inspector: bool,
    delta: i16,
)
    requires
        a.nav.screen.width > 0,
        a.nav.screen.height > 1,
        layout.body.width > 0,
        -100 <= delta <= 100,
        a.nav.sidebar_width <= 60000,
        a.nav.inspector_width <= 60000,
    ensures
        !inspector || a.nav.focus == Focus::Projects ==> (resized(
            a,
            layout,
            inspector,
            delta,
        ) matches Effect::ResizePanes { sidebar, inspector: other } && other
            == a.nav.inspector_width && sidebar == if a.nav.sidebar_width + delta < 0 {
            0
        } else {
            a.nav.sidebar_width + delta
        }),
        inspector && a.nav.focus != Focus::Projects ==> (resized(
            a,
            layout,
            inspector,
            delta,
        ) matches Effect::ResizePanes { sidebar, inspector: other } && sidebar
            == a.nav.sidebar_width && other == if a.nav.inspector_width + delta < 0 {
            0
        } else {
            a.nav.inspector_width + delta
        }),
{
}

/// A dragged divider follows the pointer: the sidebar reaches up to it, the inspector from
/// it to the right end of the body.
pub proof fn law_dividers_follow_the_pointer(a: App, layout: WorkbenchLayout, col: u16)
    requires
        layout.body.width >= 4,
        layout.body.x + layout.body.width <= u16::MAX,
        layout.body.x <= col < layout.body.x + layout.body.width - 3,
    ensures
        a.nav.drag_target == Some(WorkbenchDragTarget::SidebarDivider) ==> dragged(a, layout, col)
            == (Effect::ResizePanes {
            sidebar: (col - layout.body.x + 1) as u16,
            inspector: a.nav.inspector_width,
        }),
        a.nav.drag_target == Some(WorkbenchDragTarget::InspectorDivider) && col > layout.body.x + 2
            ==> dragged(a, layout, col) == (Effect::ResizePanes {
            sidebar: a.nav.sidebar_width,
            inspector: (layout.body.x + layout.body.width - col) as u16,
        }),
        a.nav.drag_target is None ==> dragged(a, layout, col) == Effect::Nothing,
{
}

/// The digit three gives the focus to the inspector, where there is one.
pub proof fn law_three_is_the_inspector(nav: Nav)
    requires
        nav.focus != Focus::Inspector,
    ensures
        prefix_place(nav, KeyCode::Char('3'), true) matches Some(n) && n.focus == Focus::Inspector,
        prefix_place(nav, KeyCode::Char('3'), false) is None,
        prefix_place(nav, KeyCode::Char('1'), true) is None,
        prefix_place(nav, KeyCode::Char('f'), true) is None,
{
}

} // verus!
