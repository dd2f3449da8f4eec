//! The keys of the drawers that show one item of GitHub, of the lists that belong to
//! the board, and of the forms that write to GitHub.

use vstd::prelude::*;
use vstd::string::*;

use crate::actions::thread_shown;
use crate::app::{
    at, github_login, in_mode, my_task_item, project_of, review_item, says, tab_place, thread_of,
    App, FieldOption, FieldPicker, Nav,
};
use crate::board_state::{previous_place, refiltered, step_up, Board};
use crate::composer::{cursor_within, issue_field, posts_issue, with_issue_field, Composer, GitHubPost};
use crate::effects::{Effect, LaunchSource};
use crate::input_board::{
    board_comment_opened, board_issue, comment_opened, issue_opened, number_text, state_toggled,
    unconfirmed, with_board,
};
use crate::keys::{KeyCode, KeyModifiers};
use crate::moves::on_tab;
use crate::panes::{capped, less};
use crate::review::MyTaskItem;
use crate::settings::{clone_text, text_option, text_or_empty, unwrap_text};
use crate::text::{eq_ignore_case, is_blank, same_ignoring_case, trimmed};
use crate::text_input::{after_edit, edited, TextInput};
use crate::views::{InputMode, ReviewDrawerTab, ToastStyle};

verus! {

// ---------------------------------------------------------------------------
// The lists of the board
// ---------------------------------------------------------------------------

/// The sprint that a place in the list of sprints stands for; the first place stands
/// for all of them.
pub open spec fn sprint_at(b: Board) -> Option<String> {
    if b.sprint_index == 0 {
        None
    } else {
        at(b.sprints@, b.sprint_index - 1)
    }
}

impl Board {
    /// Show the items of the sprint that is selected in the list of sprints.
    fn filter_by_sprint(&mut self, login: &Option<String>)
        ensures
            refiltered(
                (Board { sprint_filter: sprint_at(*old(self)), ..*old(self) }),
                *final(self),
                text_option(*login),
            ),
    {
        let i: usize = self.sprint_index;
        self.sprint_filter = if i == 0 || i > self.sprints.len() {
            None
        } else {
            Some(self.sprints[i - 1].clone())
        };
        self.apply_board_filter(login);
    }
}

pub open spec fn at_sprint(a: App, i: usize) -> App {
    with_board(a, Board { sprint_index: i, ..a.board })
}

/// A key of the list of sprints.
pub open spec fn sprints_step(pre: App, code: KeyCode, post: App) -> bool {
    match code {
        KeyCode::Esc => post == in_mode(pre, InputMode::BoardView),
        KeyCode::Char('j') | KeyCode::Down => post == (if pre.board.sprint_index
            < pre.board.sprints@.len() {
            at_sprint(pre, (pre.board.sprint_index + 1) as usize)
        } else {
            pre
        }),
        KeyCode::Char('k') | KeyCode::Up => post == at_sprint(
            pre,
            previous_place(pre.board.sprint_index),
        ),
        KeyCode::Enter => {
            &&& refiltered(
                Board { sprint_filter: sprint_at(pre.board), ..pre.board },
                post.board,
                github_login(pre),
            )
            &&& post == in_mode(with_board(pre, post.board), InputMode::BoardView)
        },
        _ => post == pre,
    }
}

/// A key of the search over the board.
pub open spec fn search_step(pre: App, code: KeyCode, m: KeyModifiers, post: App) -> bool {
    if code == KeyCode::Enter || code == KeyCode::Esc {
        post == in_mode(pre, InputMode::BoardView)
    } else {
        match edited(pre.board.filter@, code, m) {
            Some(line) => {
                &&& post.board.filter@ == line
                &&& refiltered(
                    Board { filter: post.board.filter, ..pre.board },
                    post.board,
                    github_login(pre),
                )
                &&& post == with_board(pre, post.board)
            },
            None => post.board.filter@ == pre.board.filter@ && post == with_board(
                pre,
                Board { filter: post.board.filter, ..pre.board },
            ),
        }
    }
}

impl App {
    fn go_to_sprint(&mut self, i: usize)
        requires
            old(self).wf(),
        ensures
            *final(self) == at_sprint(*old(self), i),
            final(self).wf(),
    {
        self.board.sprint_index = i;
    }

    /// Handle a key of the list of sprints.
    pub fn handle_board_sprint_picker_key(&mut self, code: KeyCode)
        requires
            old(self).wf(),
        ensures
            sprints_step(*old(self), code, *final(self)),
            final(self).wf(),
    {
        match code {
            KeyCode::Esc => {
                self.enter_mode(InputMode::BoardView);
            },
            KeyCode::Char('j') | KeyCode::Down => {
                if self.board.sprint_index < self.board.sprints.len() {
                    self.go_to_sprint(self.board.sprint_index + 1);
                }
            },
            KeyCode::Char('k') | KeyCode::Up => {
                self.go_to_sprint(step_up(self.board.sprint_index));
            },
            KeyCode::Enter => {
                self.choose_sprint();
            },
            _ => {},
        }
    }

    fn choose_sprint(&mut self)
        requires
            old(self).wf(),
        ensures
            sprints_step(*old(self), KeyCode::Enter, *final(self)),
            final(self).wf(),
    {
        let login = self.current_github_login();
        self.board.filter_by_sprint(&login);
        self.enter_mode(InputMode::BoardView);
    }

    /// Handle a key of the search over the board.
    pub fn handle_board_filter_key(&mut self, code: KeyCode, m: KeyModifiers)
        requires
            old(self).wf(),
        ensures
            search_step(*old(self), code, m, *final(self)),
            final(self).wf(),
    {
        if code == KeyCode::Enter || code == KeyCode::Esc {
            self.nav.input_mode = InputMode::BoardView;
            return;
        }
        if self.board.filter.apply_text_edit(code, m) {
            let login = self.current_github_login();
            self.board.apply_board_filter(&login);
        }
    }
}

// ---------------------------------------------------------------------------
// Drawers
// ---------------------------------------------------------------------------

pub open spec fn details_at(a: App, scroll: u16) -> App {
    App { nav: Nav { task_details_scroll: scroll, ..a.nav }, ..a }
}

/// The fields that an item of the board can have are asked for.
pub open spec fn fields_asked(pre: App, post: App, e: Effect) -> bool {
    match board_issue(pre) {
        None => e == Effect::Nothing && post == pre,
        Some(issue) => match at(pre.board.projects@, pre.board.project_index as int) {
            Some(project) if project.node_id is Some => post == pre && e == (Effect::FindItemNode {
                project_node_id: project.node_id->0,
                github_item_id: issue.github_item_id,
            }),
            _ => e == Effect::Nothing && says(
                pre,
                post,
                "No project node ID cached. Press R on the board to sync first."@,
                ToastStyle::Error,
            ),
        },
    }
}

/// A key of the drawer of an item of the board.
pub open spec fn board_drawer_step(
    pre: App,
    code: KeyCode,
    m: KeyModifiers,
    post: App,
    e: Effect,
) -> bool {
    let a = unconfirmed(pre, code);
    match code {
        KeyCode::Esc | KeyCode::Char('v') | KeyCode::Char('q') => e == Effect::Nothing && post
            == in_mode(a, InputMode::BoardView),
        KeyCode::Char('j') | KeyCode::Down => e == Effect::Nothing && post == details_at(
            a,
            capped(a.nav.task_details_scroll + 1),
        ),
        KeyCode::Char('k') | KeyCode::Up => e == Effect::Nothing && post == details_at(
            a,
            less(a.nav.task_details_scroll, 1),
        ),
        KeyCode::Char('L') => e == Effect::PrepareLaunch(LaunchSource::BoardIssue) && post
            == in_mode(a, InputMode::BoardView),
        _ => if !m.is_empty() {
            e == Effect::Nothing && post == a
        } else {
            match code {
                KeyCode::Char('c') => e == Effect::Nothing && board_comment_opened(a, post),
                KeyCode::Char('x') => state_toggled(a, post, e),
                KeyCode::Char('o') => issue_opened(a, post, e),
                KeyCode::Char('s') => fields_asked(a, post, e),
                _ => e == Effect::Nothing && post == a,
            }
        },
    }
}

pub open spec fn on_drawer_tab(a: App, tab: ReviewDrawerTab) -> App {
    App { nav: Nav { review_drawer_tab: tab, review_drawer_scroll: 0, ..a.nav }, ..a }
}

pub open spec fn drawer_at(a: App, scroll: u16) -> App {
    App { nav: Nav { review_drawer_scroll: scroll, ..a.nav }, ..a }
}

/// A key of the drawer of a pull request.
pub open spec fn review_drawer_step(
    pre: App,
    code: KeyCode,
    m: KeyModifiers,
    post: App,
    e: Effect,
) -> bool {
    match code {
        KeyCode::Esc | KeyCode::Char('q') => e == Effect::Nothing && post == in_mode(
            pre,
            InputMode::Normal,
        ),
        KeyCode::Char('j') | KeyCode::Down => e == Effect::Nothing && post == drawer_at(
            pre,
            capped(pre.nav.review_drawer_scroll + 1),
        ),
        KeyCode::Char('k') | KeyCode::Up => e == Effect::Nothing && post == drawer_at(
            pre,
            less(pre.nav.review_drawer_scroll, 1),
        ),
        _ => if !m.is_empty() {
            e == Effect::Nothing && post == pre
        } else {
            match code {
                KeyCode::Char('1') => e == Effect::Nothing && post == on_drawer_tab(
                    pre,
                    ReviewDrawerTab::Description,
                ),
                KeyCode::Char('2') => e == Effect::Nothing && post == on_drawer_tab(
                    pre,
                    ReviewDrawerTab::Diff,
                ),
                KeyCode::Char('3') => e == Effect::Nothing && post == on_drawer_tab(
                    pre,
                    ReviewDrawerTab::Comments,
                ),
                KeyCode::Char('l') => e == Effect::PrepareLaunch(LaunchSource::Review) && post
                    == in_mode(pre, InputMode::Normal),
                KeyCode::Char('o') => post == pre && e == (match review_item(pre) {
                    Some(item) => Effect::OpenUrl(item.github_item.url),
                    None => Effect::Nothing,
                }),
                KeyCode::Char('c') => post == pre && e == (match review_item(pre) {
                    Some(item) => Effect::FindRepo { repo_id: item.github_item.repo_id },
                    None => Effect::Nothing,
                }),
                _ => e == Effect::Nothing && post == pre,
            }
        },
    }
}

/// The selected pull request's repository was looked up: a comment is written.
pub open spec fn review_comment_opened(pre: App, full_name: Option<Seq<char>>, post: App) -> bool {
    match (review_item(pre), full_name) {
        (Some(item), Some(name)) => comment_opened(
            pre,
            post,
            name,
            item.github_item.number,
            item.github_item.id@,
            InputMode::ReviewDrawer,
        ),
        (Some(_), None) => says(pre, post, "No repo found for this PR"@, ToastStyle::Error),
        (None, _) => post == pre,
    }
}

/// A comment on the selected item of the user is written.
pub open spec fn my_task_comment_opened(pre: App, post: App) -> bool {
    match my_task_item(pre) {
        Some(item) => comment_opened(
            pre,
            post,
            item.repo.full_name@,
            item.github_item.number,
            item.github_item.id@,
            InputMode::MyTaskDrawer,
        ),
        None => post == pre,
    }
}

/// The tab of a session.
pub open spec fn tab_of_session(a: App, session: Option<String>) -> Option<int> {
    match session {
        Some(id) => tab_place(a.tabs@, id@),
        None => None,
    }
}

/// The session of the thread that works on an item.
pub open spec fn linked_session(item: MyTaskItem) -> Option<String> {
    match item.linked_thread {
        Some(thread) => thread.session_id,
        None => None,
    }
}

/// The session of an item of the user is shown, or the item is launched.
pub open spec fn resumed(pre: App, session: Option<String>, post: App, e: Effect) -> bool {
    match tab_of_session(pre, session) {
        Some(i) => e == Effect::Nothing && says(
            in_mode(on_tab(pre, i as usize), InputMode::Normal),
            post,
            "Switched to live session"@,
            ToastStyle::Info,
        ),
        None => e == Effect::PrepareLaunch(LaunchSource::MyTask) && post == in_mode(
            pre,
            InputMode::Normal,
        ),
    }
}

/// The session of the selected item of the user is shown, or the item is launched.
pub open spec fn my_task_launched(pre: App, post: App, e: Effect) -> bool {
    match my_task_item(pre) {
        None => e == Effect::Nothing && post == pre,
        Some(item) => resumed(pre, linked_session(item), post, e),
    }
}

/// A key of the drawer of an item of the user.
pub open spec fn my_task_drawer_step(
    pre: App,
    stored: Option<String>,
    code: KeyCode,
    m: KeyModifiers,
    post: App,
    e: Effect,
) -> bool {
    match code {
        KeyCode::Esc | KeyCode::Char('v') | KeyCode::Char('q') => e == Effect::Nothing && post
            == in_mode(pre, InputMode::Normal),
        KeyCode::Char('j') | KeyCode::Down => e == Effect::Nothing && post == details_at(
            pre,
            capped(pre.nav.task_details_scroll + 1),
        ),
        KeyCode::Char('k') | KeyCode::Up => e == Effect::Nothing && post == details_at(
            pre,
            less(pre.nav.task_details_scroll, 1),
        ),
        _ => if !m.is_empty() {
            e == Effect::Nothing && post == pre
        } else {
            match code {
                KeyCode::Char('c') => e == Effect::Nothing && my_task_comment_opened(pre, post),
                KeyCode::Char('o') => match my_task_item(pre) {
                    Some(item) => e == Effect::OpenUrl(item.github_item.url) && says(
                        pre,
                        post,
                        "Opening "@ + number_text(item.github_item.number) + " in browser"@,
                        ToastStyle::Info,
                    ),
                    None => e == Effect::Nothing && post == pre,
                },
                KeyCode::Char('t') => e == Effect::Nothing && (match thread_of(pre) {
                    Some(thread) => thread_shown(
                        in_mode(pre, InputMode::Normal),
                        thread,
                        stored,
                        "Focused thread"@,
                        post,
                    ),
                    None => post == pre,
                }),
                KeyCode::Char('l') | KeyCode::Char('L') => my_task_launched(pre, post, e),
                _ => e == Effect::Nothing && post == pre,
            }
        },
    }
}

fn one_more(n: u16) -> (r: u16)
    ensures
        r == capped(n + 1),
{
    if n < u16::MAX {
        n + 1
    } else {
        n
    }
}

fn one_less(n: u16) -> (r: u16)
    ensures
        r == less(n, 1),
{
    if n > 0 {
        n - 1
    } else {
        0
    }
}

fn session_of_item(item: &MyTaskItem) -> (r: Option<String>)
    ensures
        r == linked_session(*item),
{
    match &item.linked_thread {
        Some(thread) => clone_text(&thread.session_id),
        None => None,
    }
}

impl App {
    fn scroll_details(&mut self, down: bool)
        requires
            old(self).wf(),
        ensures
            *final(self) == details_at(
                *old(self),
                if down {
                    capped(old(self).nav.task_details_scroll + 1)
                } else {
                    less(old(self).nav.task_details_scroll, 1)
                },
            ),
            final(self).wf(),
    {
        self.nav.task_details_scroll = if down {
            one_more(self.nav.task_details_scroll)
        } else {
            one_less(self.nav.task_details_scroll)
        };
    }

    /// Ask for the fields that the selected item of the board can have.
    pub fn open_field_picker(&mut self) -> (e: Effect)
        requires
            old(self).wf(),
        ensures
            fields_asked(*old(self), *final(self), e),
            final(self).wf(),
    {
        let id = match self.board.selected_board_issue() {
            Some(issue) => issue.github_item_id.clone(),
            None => {
                return Effect::Nothing;
            },
        };
        let i: usize = self.board.project_index;
        let node = if i < self.board.projects.len() {
            clone_text(&self.board.projects[i].node_id)
        } else {
            None
        };
        match node {
            Some(project_node_id) => Effect::FindItemNode { project_node_id, github_item_id: id },
            None => {
                self.show_toast(
                    "No project node ID cached. Press R on the board to sync first.".to_owned(),
                    ToastStyle::Error,
                );
                Effect::Nothing
            },
        }
    }

    fn board_drawer_act(&mut self, code: KeyCode) -> (e: Effect)
        requires
            old(self).wf(),
        ensures
            match code {
                KeyCode::Char('c') => e == Effect::Nothing && board_comment_opened(
                    *old(self),
                    *final(self),
                ),
                KeyCode::Char('x') => state_toggled(*old(self), *final(self), e),
                KeyCode::Char('o') => issue_opened(*old(self), *final(self), e),
                KeyCode::Char('s') => fields_asked(*old(self), *final(self), e),
                _ => e == Effect::Nothing && *final(self) == *old(self),
            },
            final(self).wf(),
    {
        match code {
            KeyCode::Char('c') => {
                self.open_comment_compose();
                Effect::Nothing
            },
            KeyCode::Char('x') => self.toggle_board_issue_state(),
            KeyCode::Char('o') => self.open_selected_issue(),
            KeyCode::Char('s') => self.open_field_picker(),
            _ => Effect::Nothing,
        }
    }

    /// Handle a key of the drawer of an item of the board.
    pub fn handle_board_drawer_key(&mut self, code: KeyCode, m: KeyModifiers) -> (e: Effect)
        requires
            old(self).wf(),
        ensures
            board_drawer_step(*old(self), code, m, *final(self), e),
            final(self).wf(),
    {
        self.drop_confirmation(code);
        match code {
            KeyCode::Esc | KeyCode::Char('v') | KeyCode::Char('q') => {
                self.enter_mode(InputMode::BoardView);
                Effect::Nothing
            },
            KeyCode::Char('j') | KeyCode::Down => {
                self.scroll_details(true);
                Effect::Nothing
            },
            KeyCode::Char('k') | KeyCode::Up => {
                self.scroll_details(false);
                Effect::Nothing
            },
            KeyCode::Char('L') => {
                self.enter_mode(InputMode::BoardView);
                Effect::PrepareLaunch(LaunchSource::BoardIssue)
            },
            _ => {
                if m.is_empty() {
                    self.board_drawer_act(code)
                } else {
                    Effect::Nothing
                }
            },
        }
    }

    fn show_drawer_tab(&mut self, tab: ReviewDrawerTab)
        requires
            old(self).wf(),
        ensures
            *final(self) == on_drawer_tab(*old(self), tab),
            final(self).wf(),
    {
        self.nav.review_drawer_tab = tab;
        self.nav.review_drawer_scroll = 0;
    }

    fn review_drawer_act(&mut self, code: KeyCode) -> (e: Effect)
        requires
            old(self).wf(),
            !(code == KeyCode::Esc || code == KeyCode::Char('q') || code == KeyCode::Char('j')
                || code == KeyCode::Down || code == KeyCode::Char('k') || code == KeyCode::Up),
        ensures
            review_drawer_step(*old(self), code, KeyModifiers::none(), *final(self), e),
            final(self).wf(),
    {
        match code {
            KeyCode::Char('1') => {
                self.show_drawer_tab(ReviewDrawerTab::Description);
                Effect::Nothing
            },
            KeyCode::Char('2') => {
                self.show_drawer_tab(ReviewDrawerTab::Diff);
                Effect::Nothing
            },
            KeyCode::Char('3') => {
                self.show_drawer_tab(ReviewDrawerTab::Comments);
                Effect::Nothing
            },
            KeyCode::Char('l') => {
                self.nav.input_mode = InputMode::Normal;
                Effect::PrepareLaunch(LaunchSource::Review)
            },
            KeyCode::Char('o') => match self.selected_review_item() {
                Some(item) => Effect::OpenUrl(item.github_item.url.clone()),
                None => Effect::Nothing,
            },
            KeyCode::Char('c') => match self.selected_review_item() {
                Some(item) => Effect::FindRepo { repo_id: item.github_item.repo_id.clone() },
                None => Effect::Nothing,
            },
            _ => Effect::Nothing,
        }
    }

    /// Handle a key of the drawer of a pull request.
    pub fn handle_review_drawer_key(&mut self, code: KeyCode, m: KeyModifiers) -> (e: Effect)
        requires
            old(self).wf(),
        ensures
            review_drawer_step(*old(self), code, m, *final(self), e),
            final(self).wf(),
    {
        match code {
            KeyCode::Esc | KeyCode::Char('q') => {
                self.nav.input_mode = InputMode::Normal;
                Effect::Nothing
            },
            KeyCode::Char('j') | KeyCode::Down => {
                self.nav.review_drawer_scroll = one_more(self.nav.review_drawer_scroll);
                Effect::Nothing
            },
            KeyCode::Char('k') | KeyCode::Up => {
                self.nav.review_drawer_scroll = one_less(self.nav.review_drawer_scroll);
                Effect::Nothing
            },
            _ => {
                if m.is_empty() {
                    self.review_drawer_act(code)
                } else {
                    Effect::Nothing
                }
            },
        }
    }

    /// Write a comment on the selected pull request; `full_name` is the name of its
    /// repository, where the database has it.
    pub fn open_review_comment_compose(&mut self, full_name: &Option<String>)
        requires
            old(self).wf(),
        ensures
            review_comment_opened(
                *old(self),
                crate::settings::text_option(*full_name),
                *final(self),
            ),
            final(self).wf(),
    {
        let (number, id) = match self.selected_review_item() {
            Some(item) => (item.github_item.number, item.github_item.id.clone()),
            None => {
                return;
            },
        };
        match full_name {
            Some(name) => {
                self.compose_comment(name.clone(), number, id, InputMode::ReviewDrawer);
            },
            None => {
                self.show_toast("No repo found for this PR".to_owned(), ToastStyle::Error);
            },
        }
    }

    /// Write a comment on the selected item of the user.
    pub fn open_my_task_comment_compose(&mut self)
        requires
            old(self).wf(),
        ensures
            my_task_comment_opened(*old(self), *final(self)),
            final(self).wf(),
    {
        let (name, number, id) = match self.selected_my_task_item() {
            Some(item) => (
                item.repo.full_name.clone(),
                item.github_item.number,
                item.github_item.id.clone(),
            ),
            None => {
                return;
            },
        };
        self.compose_comment(name, number, id, InputMode::MyTaskDrawer);
    }

    fn launch_my_task(&mut self) -> (e: Effect)
        requires
            old(self).wf(),
        ensures
            my_task_launched(*old(self), *final(self), e),
            final(self).wf(),
    {
        let session = match self.selected_my_task_item() {
            Some(item) => session_of_item(item),
            None => {
                return Effect::Nothing;
            },
        };
        self.resume(&session)
    }

    fn resume(&mut self, session: &Option<String>) -> (e: Effect)
        requires
            old(self).wf(),
        ensures
            resumed(*old(self), *session, *final(self), e),
            final(self).wf(),
    {
        let switched = match session {
            Some(id) => self.goto_session_tab(id.as_str()),
            None => false,
        };
        self.nav.input_mode = InputMode::Normal;
        if switched {
            self.show_toast("Switched to live session".to_owned(), ToastStyle::Info);
            Effect::Nothing
        } else {
            Effect::PrepareLaunch(LaunchSource::MyTask)
        }
    }

    fn show_my_task_thread(&mut self, stored: &Option<String>)
        requires
            old(self).wf(),
        ensures
            match thread_of(*old(self)) {
                Some(thread) => thread_shown(
                    in_mode(*old(self), InputMode::Normal),
                    thread,
                    *stored,
                    "Focused thread"@,
                    *final(self),
                ),
                None => *final(self) == *old(self),
            },
            final(self).wf(),
    {
        if let Some(thread) = self.chosen_thread() {
            self.nav.input_mode = InputMode::Normal;
            self.show_thread(&thread, stored, "Focused thread");
        }
    }

    fn open_my_task_url(&mut self) -> (e: Effect)
        requires
            old(self).wf(),
        ensures
            match my_task_item(*old(self)) {
                Some(item) => e == Effect::OpenUrl(item.github_item.url) && says(
                    *old(self),
                    *final(self),
                    "Opening "@ + number_text(item.github_item.number) + " in browser"@,
                    ToastStyle::Info,
                ),
                None => e == Effect::Nothing && *final(self) == *old(self),
            },
            final(self).wf(),
    {
        let (url, number) = match self.selected_my_task_item() {
            Some(item) => (item.github_item.url.clone(), item.github_item.number),
            None => {
                return Effect::Nothing;
            },
        };
        self.say_opening(number);
        Effect::OpenUrl(url)
    }

    /// Handle a key of the drawer of an item of the user.
    pub fn handle_my_task_drawer_key(
        &mut self,
        stored: &Option<String>,
        code: KeyCode,
        m: KeyModifiers,
    ) -> (e: Effect)
        requires
            old(self).wf(),
        ensures
            my_task_drawer_step(*old(self), *stored, code, m, *final(self), e),
            final(self).wf(),
    {
        match code {
            KeyCode::Esc | KeyCode::Char('v') | KeyCode::Char('q') => {
                self.nav.input_mode = InputMode::Normal;
                return Effect::Nothing;
            },
            KeyCode::Char('j') | KeyCode::Down => {
                self.scroll_details(true);
                return Effect::Nothing;
            },
            KeyCode::Char('k') | KeyCode::Up => {
                self.scroll_details(false);
                return Effect::Nothing;
            },
            _ => {},
        }
        if !m.is_empty() {
            return Effect::Nothing;
        }
        match code {
            KeyCode::Char('c') => {
                self.open_my_task_comment_compose();
                Effect::Nothing
            },
            KeyCode::Char('o') => self.open_my_task_url(),
            KeyCode::Char('t') => {
                self.show_my_task_thread(stored);
                Effect::Nothing
            },
            KeyCode::Char('l') | KeyCode::Char('L') => self.launch_my_task(),
            _ => Effect::Nothing,
        }
    }
}

// ---------------------------------------------------------------------------
// Fields of an item of the board
// ---------------------------------------------------------------------------

/// A field of a project board.
pub struct ProjectField {
    pub id: String,
    pub name: String,
    pub options: Vec<FieldOption>,
}

/// The node of the selected item was looked up.
pub open spec fn item_node_shown(
    pre: App,
    project: String,
    node: Option<String>,
    post: App,
    e: Effect,
) -> bool {
    match node {
        Some(id) => post == pre && e == (Effect::FetchFields {
            project_node_id: project,
            item_node_id: id,
        }),
        None => e == Effect::Nothing && says(
            pre,
            post,
            "No item node ID cached"@,
            ToastStyle::Error,
        ),
    }
}

/// The place of the first field with this name, whatever its case.
pub open spec fn field_place(fields: Seq<ProjectField>, name: Seq<char>, from: int) -> Option<int>
    decreases fields.len() - from,
{
    if from < 0 || from >= fields.len() {
        None
    } else if same_ignoring_case(fields[from].name@, name) {
        Some(from)
    } else {
        field_place(fields, name, from + 1)
    }
}

/// The fields of the project were fetched: the values of the status are listed.
pub open spec fn fields_listed(
    pre: App,
    project: String,
    item: String,
    fields: Result<Vec<ProjectField>, String>,
    post: App,
) -> bool {
    match fields {
        Err(e) => says(pre, post, "Failed to fetch fields: "@ + e@, ToastStyle::Error),
        Ok(list) => match field_place(list@, "status"@, 0) {
            None => says(
                pre,
                post,
                "No 'status' field found on this project"@,
                ToastStyle::Error,
            ),
            Some(i) => if list@[i].options@.len() == 0 {
                says(
                    pre,
                    post,
                    "Field 'status' has no selectable options"@,
                    ToastStyle::Error,
                )
            } else {
                post == (App {
                    field_picker: FieldPicker {
                        options: list@[i].options,
                        index: 0,
                        field_name: Some(list@[i].name),
                        field_id: Some(list@[i].id),
                        project_node_id: Some(project),
                        item_node_id: Some(item),
                    },
                    nav: Nav { input_mode: InputMode::FieldPicker, ..pre.nav },
                    ..pre
                })
            },
        },
    }
}

pub open spec fn at_option(a: App, i: usize) -> App {
    App { field_picker: FieldPicker { index: i, ..a.field_picker }, ..a }
}

/// The chosen value is set.
pub open spec fn field_chosen(pre: App, post: App, e: Effect) -> bool {
    let p = pre.field_picker;
    match (
        at(p.options@, p.index as int),
        p.project_node_id,
        p.item_node_id,
        p.field_id,
    ) {
        (Some(option), Some(project), Some(item), Some(field)) => {
            &&& e matches Effect::SetField {
                project_node_id,
                item_node_id,
                field_id,
                field_name,
                option_id,
                option_name,
            } && project_node_id == project && item_node_id == item && field_id == field
                && field_name@ == text_or_empty(p.field_name) && option_id == option.id
                && option_name == option.name
            &&& says(
                in_mode(pre, InputMode::BoardIssueDrawer),
                post,
                "Setting "@ + text_or_empty(p.field_name) + " to "@ + option.name@ + "..."@,
                ToastStyle::Info,
            )
        },
        _ => e == Effect::Nothing && post == pre,
    }
}

/// A key of the list of values.
pub open spec fn field_picker_step(pre: App, code: KeyCode, post: App, e: Effect) -> bool {
    let i = pre.field_picker.index;
    match code {
        KeyCode::Esc => e == Effect::Nothing && post == in_mode(pre, InputMode::BoardIssueDrawer),
        KeyCode::Char('j') | KeyCode::Down => e == Effect::Nothing && post == (if i + 1
            < pre.field_picker.options@.len() {
            at_option(pre, (i + 1) as usize)
        } else {
            pre
        }),
        KeyCode::Char('k') | KeyCode::Up => e == Effect::Nothing && post == at_option(
            pre,
            previous_place(i),
        ),
        KeyCode::Enter => field_chosen(pre, post, e),
        _ => e == Effect::Nothing && post == pre,
    }
}

fn find_field(fields: &Vec<ProjectField>, name: &str) -> (r: Option<usize>)
    ensures
        field_place(fields@, name@, 0) == match r {
            Some(i) => Some(i as int),
            None => None,
        },
        r matches Some(i) ==> i < fields@.len(),
{
    let mut i: usize = 0;
    while i < fields.len()
        invariant
            i <= fields@.len(),
            field_place(fields@, name@, 0) == field_place(fields@, name@, i as int),
        decreases fields@.len() - i,
    {
        if eq_ignore_case(fields[i].name.as_str(), name) {
            return Some(i);
        }
        i += 1;
    }
    None
}

impl App {
    /// Go on once the node of the selected item was looked up.
    pub fn item_node_found(&mut self, project_node_id: String, node: Option<String>) -> (e: Effect)
        ensures
            item_node_shown(*old(self), project_node_id, node, *final(self), e),
            old(self).wf() ==> final(self).wf(),
    {
        match node {
            Some(item_node_id) => Effect::FetchFields { project_node_id, item_node_id },
            None => {
                self.show_toast("No item node ID cached".to_owned(), ToastStyle::Error);
                Effect::Nothing
            },
        }
    }

    /// List the values of the status; the fields of the project were fetched.
    pub fn fields_fetched(
        &mut self,
        project_node_id: String,
        item_node_id: String,
        fields: Result<Vec<ProjectField>, String>,
    )
        ensures
            fields_listed(*old(self), project_node_id, item_node_id, fields, *final(self)),
            old(self).wf() ==> final(self).wf(),
    {
        let mut list = match fields {
            Ok(list) => list,
            Err(e) => {
                let mut message = "Failed to fetch fields: ".to_owned();
                message.append(e.as_str());
                self.show_toast(message, ToastStyle::Error);
                return;
            },
        };
        match find_field(&list, "status") {
            None => {
                self.show_toast(
                    "No 'status' field found on this project".to_owned(),
                    ToastStyle::Error,
                );
            },
            Some(i) => {
                if list[i].options.len() == 0 {
                    self.show_toast(
                        "Field 'status' has no selectable options".to_owned(),
                        ToastStyle::Error,
                    );
                    return;
                }
                let field = list.swap_remove(i);
                self.field_picker = FieldPicker {
                    options: field.options,
                    index: 0,
                    field_name: Some(field.name),
                    field_id: Some(field.id),
                    project_node_id: Some(project_node_id),
                    item_node_id: Some(item_node_id),
                };
                self.nav.input_mode = InputMode::FieldPicker;
            },
        }
    }

    /// Set the value that was chosen.
    pub fn submit_field_picker_selection(&mut self) -> (e: Effect)
        requires
            old(self).wf(),
        ensures
            field_chosen(*old(self), *final(self), e),
            final(self).wf(),
    {
        let i: usize = self.field_picker.index;
        if i >= self.field_picker.options.len() {
            return Effect::Nothing;
        }
        let option = self.field_picker.options[i].clone();
        let field_name = unwrap_text(&self.field_picker.field_name);
        match (
            clone_text(&self.field_picker.project_node_id),
            clone_text(&self.field_picker.item_node_id),
            clone_text(&self.field_picker.field_id),
        ) {
            (Some(project_node_id), Some(item_node_id), Some(field_id)) => {
                let mut message = "Setting ".to_owned();
                message.append(field_name.as_str());
                message.append(" to ");
                message.append(option.name.as_str());
                message.append("...");
                self.nav.input_mode = InputMode::BoardIssueDrawer;
                self.show_toast(message, ToastStyle::Info);
                Effect::SetField {
                    project_node_id,
                    item_node_id,
                    field_id,
                    field_name,
                    option_id: option.id,
                    option_name: option.name,
                }
            },
            _ => Effect::Nothing,
        }
    }

    /// Handle a key of the list of values.
    pub fn handle_field_picker_key(&mut self, code: KeyCode) -> (e: Effect)
        requires
            old(self).wf(),
        ensures
            field_picker_step(*old(self), code, *final(self), e),
            final(self).wf(),
    {
        match code {
            KeyCode::Esc => {
                self.nav.input_mode = InputMode::BoardIssueDrawer;
                Effect::Nothing
            },
            KeyCode::Char('j') | KeyCode::Down => {
                let n: usize = self.field_picker.options.len();
                if self.field_picker.index < n && n - self.field_picker.index > 1 {
                    self.field_picker.index = self.field_picker.index + 1;
                }
                Effect::Nothing
            },
            KeyCode::Char('k') | KeyCode::Up => {
                self.field_picker.index = step_up(self.field_picker.index);
                Effect::Nothing
            },
            KeyCode::Enter => self.submit_field_picker_selection(),
            _ => Effect::Nothing,
        }
    }
}

// ---------------------------------------------------------------------------
// Comments and issues
// ---------------------------------------------------------------------------

/// The comment is posted, where there is one.
pub open spec fn comment_submitted(pre: App, post: App, e: Effect) -> bool {
    match pre.composer.target {
        Some(target) if !is_blank(pre.composer.comment@) => {
            &&& e matches Effect::Post(p) && p matches GitHubPost::Comment {
                repo_path,
                number,
                body,
            } && repo_path == target.repo_path && number == target.number && body@ == trimmed(
                pre.composer.comment@,
            )
            &&& post.composer.comment@.len() == 0
            &&& says(
                App {
                    composer: Composer {
                        comment: post.composer.comment,
                        cursor: 0,
                        target: None,
                        ..pre.composer
                    },
                    nav: Nav { input_mode: pre.composer.return_mode, ..pre.nav },
                    ..pre
                },
                post,
                "Posting comment..."@,
                ToastStyle::Info,
            )
        },
        _ => e == Effect::Nothing && post == pre,
    }
}

/// A key while a comment is written.
pub open spec fn comment_step(
    pre: App,
    code: KeyCode,
    m: KeyModifiers,
    post: App,
    e: Effect,
) -> bool {
    if code == KeyCode::Esc {
        e == Effect::Nothing && post == (App {
            composer: Composer { target: None, ..pre.composer },
            nav: Nav { input_mode: pre.composer.return_mode, ..pre.nav },
            ..pre
        })
    } else if code == KeyCode::Enter && m.is_empty() {
        comment_submitted(pre, post, e)
    } else {
        &&& e == Effect::Nothing
        &&& (TextInput { text: post.composer.comment, cursor: post.composer.cursor })@ == after_edit(
            (TextInput { text: pre.composer.comment, cursor: pre.composer.cursor })@,
            code,
            m,
        )
        &&& post == (App {
            composer: Composer {
                comment: post.composer.comment,
                cursor: post.composer.cursor,
                ..pre.composer
            },
            ..pre
        })
    }
}

/// The issue that the form describes is created or changed.
pub open spec fn issue_submitted(pre: App, post: App, e: Effect) -> bool {
    if is_blank(pre.composer.title@) {
        e == Effect::Nothing && says(pre, post, "Title is required"@, ToastStyle::Error)
    } else {
        match project_of(pre) {
            None => e == Effect::Nothing && post == pre,
            Some(project) => {
                &&& e matches Effect::Post(p) && posts_issue(p, pre.composer, project.repo_path@)
                &&& says(
                    in_mode(pre, InputMode::BoardView),
                    post,
                    if pre.composer.editing_number is Some {
                        "Updating issue..."@
                    } else {
                        "Creating issue..."@
                    },
                    ToastStyle::Info,
                )
            },
        }
    }
}

/// The field of the form was edited.
pub open spec fn issue_field_edited(pre: App, code: KeyCode, m: KeyModifiers, post: App) -> bool {
    &&& post == (App {
        composer: Composer {
            cursor: post.composer.cursor,
            ..with_issue_field(pre.composer, issue_field(post.composer))
        },
        ..pre
    })
    &&& (TextInput { text: issue_field(post.composer), cursor: post.composer.cursor })@
        == after_edit(
        (TextInput {
            text: issue_field(pre.composer),
            cursor: cursor_within(pre.composer.cursor, issue_field(pre.composer)@),
        })@,
        code,
        m,
    )
}

pub open spec fn at_issue_field(a: App, field: u8) -> App {
    App { composer: Composer { field: field, ..a.composer }, ..a }
}

/// A key of the form for an issue.
pub open spec fn issue_form_step(
    pre: App,
    code: KeyCode,
    m: KeyModifiers,
    post: App,
    e: Effect,
) -> bool {
    if code == KeyCode::Esc {
        e == Effect::Nothing && post == in_mode(pre, InputMode::BoardView)
    } else if code == KeyCode::Tab {
        e == Effect::Nothing && post == at_issue_field(pre, (pre.composer.field + 1) as u8 % 4)
    } else if code == KeyCode::BackTab {
        e == Effect::Nothing && post == at_issue_field(pre, (pre.composer.field + 3) as u8 % 4)
    } else if code == KeyCode::Enter && m.alt {
        issue_submitted(pre, post, e)
    } else {
        e == Effect::Nothing && issue_field_edited(pre, code, m, post)
    }
}

impl App {
    /// Post the comment.
    pub fn submit_comment(&mut self) -> (e: Effect)
        requires
            old(self).wf(),
        ensures
            comment_submitted(*old(self), *final(self), e),
            final(self).wf(),
    {
        match self.composer.submit_comment() {
            Some(post) => {
                self.nav.input_mode = self.composer.return_mode;
                self.show_toast("Posting comment...".to_owned(), ToastStyle::Info);
                Effect::Post(post)
            },
            None => Effect::Nothing,
        }
    }

    /// Handle a key while a comment is written.
    pub fn handle_comment_compose_key(&mut self, code: KeyCode, m: KeyModifiers) -> (e: Effect)
        requires
            old(self).wf(),
        ensures
            comment_step(*old(self), code, m, *final(self), e),
            final(self).wf(),
    {
        if code == KeyCode::Esc {
            self.nav.input_mode = self.composer.return_mode;
            self.composer.target = None;
            return Effect::Nothing;
        }
        if code == KeyCode::Enter && m.is_empty() {
            return self.submit_comment();
        }
        self.composer.edit_comment(code, m);
        Effect::Nothing
    }

    /// Create or change the issue that the form describes.
    pub fn submit_github_issue_form(&mut self) -> (e: Effect)
        requires
            old(self).wf(),
        ensures
            issue_submitted(*old(self), *final(self), e),
            final(self).wf(),
    {
        if crate::text::blank(self.composer.title.as_str()) {
            self.show_toast("Title is required".to_owned(), ToastStyle::Error);
            return Effect::Nothing;
        }
        let post = match self.selected_project() {
            Some(project) => self.composer.issue_post(&project.repo_path),
            None => {
                return Effect::Nothing;
            },
        };
        match post {
            Some(post) => {
                let message = if self.composer.editing_number.is_some() {
                    "Updating issue..."
                } else {
                    "Creating issue..."
                };
                self.nav.input_mode = InputMode::BoardView;
                self.show_toast(message.to_owned(), ToastStyle::Info);
                Effect::Post(post)
            },
            None => Effect::Nothing,
        }
    }

    /// Handle a key of the form for an issue.
    pub fn handle_github_issue_form_key(&mut self, code: KeyCode, m: KeyModifiers) -> (e: Effect)
        requires
            old(self).wf(),
        ensures
            issue_form_step(*old(self), code, m, *final(self), e),
            final(self).wf(),
    {
        if code == KeyCode::Esc {
            self.nav.input_mode = InputMode::BoardView;
            return Effect::Nothing;
        }
        if code == KeyCode::Tab {
            self.composer.turn_issue_field(true);
            return Effect::Nothing;
        }
        if code == KeyCode::BackTab {
            self.composer.turn_issue_field(false);
            return Effect::Nothing;
        }
        if code == KeyCode::Enter && m.alt {
            return self.submit_github_issue_form();
        }
        self.composer.edit_issue_field(code, m);
        Effect::Nothing
    }
}

// ---------------------------------------------------------------------------
// Laws
// ---------------------------------------------------------------------------

/// An issue is closed or reopened only by two requests in a row: the first one only
/// asks for the second, and any other key in between withdraws it.
pub proof fn law_closing_takes_two_requests(
    a: App,
    code: KeyCode,
    m: KeyModifiers,
    b: App,
    e: Effect,
)
    requires
        board_drawer_step(a, code, m, b, e),
    ensures
        e is SetIssueState ==> a.board.confirm_close && code == KeyCode::Char('x'),
        b.board.confirm_close && !a.board.confirm_close ==> code == KeyCode::Char('x'),
        code != KeyCode::Char('x') ==> !b.board.confirm_close,
{
}

/// The tabulator keys of the issue form undo each other.
pub proof fn law_issue_fields_turn_back(a: App, m: KeyModifiers, b: App, c: App)
    requires
        a.wf(),
        issue_form_step(a, KeyCode::Tab, m, b, Effect::Nothing),
        issue_form_step(b, KeyCode::BackTab, m, c, Effect::Nothing),
    ensures
        c == a,
{
}

/// A chosen sprint narrows the board to it: the first entry stands for all sprints, the
/// others for the sprints in their order.
pub proof fn law_chosen_sprints_narrow_the_board(pre: App, code: KeyCode, post: App)
    requires
        sprints_step(pre, code, post),
    ensures
        code == KeyCode::Enter && pre.board.sprint_index == 0 ==> post.board.sprint_filter is None,
        code == KeyCode::Enter && 1 <= pre.board.sprint_index <= pre.board.sprints@.len()
            ==> post.board.sprint_filter == Some(
            pre.board.sprints@[pre.board.sprint_index - 1],
        ),
        code == KeyCode::Enter || code == KeyCode::Esc ==> post.nav.input_mode
            == InputMode::BoardView,
        code == KeyCode::Esc ==> post.board == pre.board,
        (code == KeyCode::Down || code == KeyCode::Char('j')) && pre.board.sprint_index
            < pre.board.sprints@.len() ==> post.board.sprint_index == pre.board.sprint_index + 1,
        (code == KeyCode::Down || code == KeyCode::Char('j')) && pre.board.sprint_index
            >= pre.board.sprints@.len() ==> post == pre,
        (code == KeyCode::Up || code == KeyCode::Char('k')) && pre.board.sprint_index > 0
            ==> post.board.sprint_index + 1 == pre.board.sprint_index,
{
    assert(pre.board.sprints.len() == pre.board.sprints@.len());
}

/// What is typed in the search narrows the board at once; enter and escape keep it.
pub proof fn law_searches_narrow_the_board(pre: App, code: KeyCode, m: KeyModifiers, post: App)
    requires
        search_step(pre, code, m, post),
    ensures
        code == KeyCode::Enter || code == KeyCode::Esc ==> post.board == pre.board
            && post.nav.input_mode == InputMode::BoardView,
        code is Char && m.is_empty() ==> post.board.filter@.text() =~= pre.board.filter@.before
            + seq![code->Char_0] + pre.board.filter@.after && crate::board_state::shows_filtered(
            post.board,
            github_login(pre),
        ) && post.board.source == pre.board.source,
{
}

/// What the keys of an issue's drawer do.
pub proof fn law_board_drawer_keys(
    pre: App,
    code: KeyCode,
    m: KeyModifiers,
    post: App,
    e: Effect,
)
    requires
        board_drawer_step(pre, code, m, post, e),
        pre.board.column_index < pre.board.issues@.len(),
        pre.board.issue_index < pre.board.issues@[pre.board.column_index as int]@.len(),
    ensures
        ({
            let issue = pre.board.issues@[pre.board.column_index as int]@[
                pre.board.issue_index as int];
            &&& code == KeyCode::Esc || code == KeyCode::Char('q') || code == KeyCode::Char('v')
                ==> post.nav.input_mode == InputMode::BoardView && e == Effect::Nothing
            &&& (code == KeyCode::Down || code == KeyCode::Char('j')) && pre.nav.task_details_scroll
                < u16::MAX ==> post.nav.task_details_scroll == pre.nav.task_details_scroll + 1
            &&& (code == KeyCode::Up || code == KeyCode::Char('k')) && pre.nav.task_details_scroll
                > 0 ==> post.nav.task_details_scroll + 1 == pre.nav.task_details_scroll
            &&& code == KeyCode::Char('L') ==> e == Effect::PrepareLaunch(LaunchSource::BoardIssue)
            &&& m.is_empty() && code == KeyCode::Char('o') ==> e == Effect::OpenUrl(issue.url)
            &&& m.is_empty() && code == KeyCode::Char('c') && pre.nav.project_index
                < pre.projects@.len() ==> post.nav.input_mode == InputMode::CommentCompose && (
            post.composer.target matches Some(t) && t.number == issue.number)
            &&& m.is_empty() && code == KeyCode::Char('s') && pre.board.project_index
                < pre.board.projects@.len() ==> (pre.board.projects@[
                pre.board.project_index as int].node_id matches Some(node) ==> e
                == (Effect::FindItemNode {
                project_node_id: node,
                github_item_id: issue.github_item_id,
            }))
            &&& m.is_empty() && code == KeyCode::Char('x') && !pre.board.confirm_close ==> e
                == Effect::Nothing && post.board.confirm_close
        }),
{
}

/// What the keys of a pull request's drawer do: the digits choose its three tabs, `l`
/// launches, `o` opens it in the browser, and `c` begins a comment.
pub proof fn law_review_drawer_keys(
    pre: App,
    code: KeyCode,
    m: KeyModifiers,
    post: App,
    e: Effect,
)
    requires
        review_drawer_step(pre, code, m, post, e),
    ensures
        code == KeyCode::Esc || code == KeyCode::Char('q') ==> post.nav.input_mode
            == InputMode::Normal && e == Effect::Nothing,
        m.is_empty() && code == KeyCode::Char('1') ==> post.nav.review_drawer_tab
            == ReviewDrawerTab::Description && post.nav.review_drawer_scroll == 0,
        m.is_empty() && code == KeyCode::Char('2') ==> post.nav.review_drawer_tab
            == ReviewDrawerTab::Diff && post.nav.review_drawer_scroll == 0,
        m.is_empty() && code == KeyCode::Char('3') ==> post.nav.review_drawer_tab
            == ReviewDrawerTab::Comments && post.nav.review_drawer_scroll == 0,
        m.is_empty() && code == KeyCode::Char('l') ==> e == Effect::PrepareLaunch(
            LaunchSource::Review,
        ) && post.nav.input_mode == InputMode::Normal,
        m.is_empty() && code == KeyCode::Char('o') ==> (review_item(pre) matches Some(item) ==> e
            == Effect::OpenUrl(item.github_item.url)),
        m.is_empty() && code == KeyCode::Char('c') ==> (review_item(pre) matches Some(item) ==> e
            == (Effect::FindRepo { repo_id: item.github_item.repo_id })),
        code == KeyCode::Down && pre.nav.review_drawer_scroll < u16::MAX
            ==> post.nav.review_drawer_scroll == pre.nav.review_drawer_scroll + 1,
        code == KeyCode::Up && pre.nav.review_drawer_scroll > 0 ==> post.nav.review_drawer_scroll
            + 1 == pre.nav.review_drawer_scroll,
{
}

/// A comment on a pull request goes to its repository, under its number; one on a task
/// likewise.
pub proof fn law_comments_go_to_their_item(pre: App, name: Seq<char>, post: App)
    ensures
        review_comment_opened(pre, Some(name), post) ==> (review_item(pre) matches Some(item) ==> (
        post.composer.target matches Some(t) && t.repo_path@ == name && t.number
            == item.github_item.number && t.github_item_id@ == item.github_item.id@)
            && post.nav.input_mode == InputMode::CommentCompose && post.composer.return_mode
            == InputMode::ReviewDrawer && post.composer.comment@.len() == 0),
        my_task_comment_opened(pre, post) ==> (my_task_item(pre) matches Some(item) ==> (
        post.composer.target matches Some(t) && t.repo_path@ == item.repo.full_name@ && t.number
            == item.github_item.number) && post.composer.return_mode == InputMode::MyTaskDrawer),
{
}

/// A task whose thread has a session with a tab is shown there; any other is prepared for a
/// launch.
pub proof fn law_live_tasks_are_shown(pre: App, session: Option<String>, post: App, e: Effect)
    requires
        resumed(pre, session, post, e),
    ensures
        session is None ==> e == Effect::PrepareLaunch(LaunchSource::MyTask),
        session matches Some(id) ==> (tab_place(pre.tabs@, id@) matches Some(i)
            ==> post.nav.active_tab == i as usize && e == Effect::Nothing),
        session matches Some(id) ==> (tab_place(pre.tabs@, id@) is None ==> e
            == Effect::PrepareLaunch(LaunchSource::MyTask)),
        post.nav.input_mode == InputMode::Normal,
{
}

/// The field that is offered is the first one named `status`, in any case, with its options
/// from the first one.
pub proof fn law_the_status_field_is_offered(
    pre: App,
    project: String,
    item: String,
    list: Vec<ProjectField>,
    post: App,
    k: int,
)
    requires
        fields_listed(pre, project, item, Ok(list), post),
        0 <= k <= list@.len(),
        forall|j: int|
            0 <= j < k ==> !same_ignoring_case((#[trigger] list@[j]).name@, "status"@),
    ensures
        k < list@.len() && same_ignoring_case(list@[k].name@, "status"@) && list@[k].options@.len()
            > 0 ==> post.field_picker.options == list@[k].options && post.field_picker.field_id
            == Some(list@[k].id) && post.field_picker.index == 0 && post.field_picker.item_node_id
            == Some(item) && post.field_picker.project_node_id == Some(project)
            && post.nav.input_mode == InputMode::FieldPicker,
        k == list@.len() ==> post.nav == pre.nav && (post.toast matches Some(t) && t.style
            == ToastStyle::Error),
{
    lemma_field_found(list@, "status"@, 0, k);
}

proof fn lemma_field_found(fields: Seq<ProjectField>, name: Seq<char>, from: int, k: int)
    requires
        0 <= from <= k <= fields.len(),
        forall|j: int| from <= j < k ==> !same_ignoring_case((#[trigger] fields[j]).name@, name),
    ensures
        k < fields.len() && same_ignoring_case(fields[k].name@, name) ==> field_place(
            fields,
            name,
            from,
        ) == Some(k),
        k == fields.len() ==> field_place(fields, name, from) is None,
    decreases k - from,
{
    if from < k {
        assert(!same_ignoring_case(fields[from].name@, name));
        lemma_field_found(fields, name, from + 1, k);
    }
}

/// The chosen option of the field is set on the item.
pub proof fn law_the_chosen_option_is_set(pre: App, post: App, e: Effect)
    requires
        field_chosen(pre, post, e),
        pre.field_picker.index < pre.field_picker.options@.len(),
        pre.field_picker.project_node_id is Some,
        pre.field_picker.item_node_id is Some,
        pre.field_picker.field_id is Some,
    ensures
        e matches Effect::SetField {
            project_node_id,
            item_node_id,
            field_id,
            option_id,
            option_name,
            ..
        } && project_node_id == pre.field_picker.project_node_id->0 && item_node_id
            == pre.field_picker.item_node_id->0 && field_id == pre.field_picker.field_id->0
            && option_id == pre.field_picker.options@[pre.field_picker.index as int].id
            && option_name == pre.field_picker.options@[pre.field_picker.index as int].name,
        post.nav.input_mode == InputMode::BoardIssueDrawer,
{
}

/// A comment is posted without the space around it, where it was begun for, and the drawer
/// is shown again; a blank one is not posted.
pub proof fn law_comments_are_posted(pre: App, post: App, e: Effect)
    requires
        comment_submitted(pre, post, e),
    ensures
        pre.composer.target matches Some(t) ==> (!is_blank(pre.composer.comment@) ==> (
        e matches Effect::Post(p) && p matches GitHubPost::Comment { repo_path, number, body }
            && repo_path == t.repo_path && number == t.number && body@ == trimmed(
            pre.composer.comment@,
        )) && post.nav.input_mode == pre.composer.return_mode && post.composer.comment@.len() == 0
            && post.composer.target is None),
        is_blank(pre.composer.comment@) || pre.composer.target is None ==> e == Effect::Nothing
            && post == pre,
{
}

/// An issue needs a title; it is posted to the repository of the project.
pub proof fn law_issues_need_a_title(pre: App, post: App, e: Effect)
    requires
        issue_submitted(pre, post, e),
    ensures
        is_blank(pre.composer.title@) ==> e == Effect::Nothing && post.nav == pre.nav && (
        post.toast matches Some(t) && t.style == ToastStyle::Error),
        !is_blank(pre.composer.title@) && pre.nav.project_index < pre.projects@.len() ==> (
        e matches Effect::Post(p) && (pre.composer.editing_number is None ==> p is CreateIssue) && (
        pre.composer.editing_number is Some ==> p is EditIssue)) && post.nav.input_mode
            == InputMode::BoardView,
{
}

/// The list of options is walked by one and left with escape for the drawer.
pub proof fn law_options_are_walked(pre: App, code: KeyCode, post: App, e: Effect)
    requires
        field_picker_step(pre, code, post, e),
    ensures
        code == KeyCode::Esc ==> e == Effect::Nothing && post.nav.input_mode
            == InputMode::BoardIssueDrawer && post.field_picker == pre.field_picker,
        (code == KeyCode::Down || code == KeyCode::Char('j')) && pre.field_picker.index + 1
            < pre.field_picker.options@.len() ==> post.field_picker.index == pre.field_picker.index
            + 1 && e == Effect::Nothing,
        (code == KeyCode::Up || code == KeyCode::Char('k')) && pre.field_picker.index > 0
            ==> post.field_picker.index + 1 == pre.field_picker.index && e == Effect::Nothing,
        code == KeyCode::Char('z') ==> e == Effect::Nothing && post == pre,
{
    assert(pre.field_picker.options.len() == pre.field_picker.options@.len());
}

/// The fields of an item are fetched by its node; without one it says so.
pub proof fn law_fields_are_fetched_by_node(
    pre: App,
    project: String,
    node: Option<String>,
    post: App,
    e: Effect,
)
    requires
        item_node_shown(pre, project, node, post, e),
    ensures
        node matches Some(id) ==> e == (Effect::FetchFields {
            project_node_id: project,
            item_node_id: id,
        }) && post == pre,
        node is None ==> e == Effect::Nothing && (post.toast matches Some(t) && t.style
            == ToastStyle::Error),
{
}

/// The keys of the form for an issue: tab goes round its four fields, alt and enter submit
/// it, escape leaves it.
pub proof fn law_issue_form_keys(pre: App, code: KeyCode, m: KeyModifiers, post: App, e: Effect)
    requires
        issue_form_step(pre, code, m, post, e),
        pre.composer.field < 4,
    ensures
        code == KeyCode::Esc ==> post.nav.input_mode == InputMode::BoardView && e
            == Effect::Nothing && post.composer == pre.composer,
        code == KeyCode::Tab && pre.composer.field < 3 ==> post.composer.field
            == pre.composer.field + 1,
        code == KeyCode::Tab && pre.composer.field == 3 ==> post.composer.field == 0,
        code == KeyCode::BackTab && pre.composer.field > 0 ==> post.composer.field + 1
            == pre.composer.field,
        code == KeyCode::Enter && m.alt ==> issue_submitted(pre, post, e),
        code is Char && pre.composer.field == 0 ==> post.composer.body == pre.composer.body
            && post.composer.labels == pre.composer.labels && post.composer.assignees
            == pre.composer.assignees && e == Effect::Nothing,
        code is Char && pre.composer.field == 1 ==> post.composer.title == pre.composer.title,
{
}

} // verus!
