//! The keys of the sprint board, of the drawers that show one item, and of the forms
//! that write to GitHub.

use vstd::prelude::*;
use vstd::string::*;

use crate::actions::{action_step, details_opened, palette_opened, selected, Context};
use crate::app::{github_login, in_mode, project_of, says, with_focus, App, Nav};
use crate::board::BoardItem;
use crate::board_state::{
    column_left, column_right, previous_place, refiltered, shown_in, snapshot_cleared,
    snapshot_shown, step_up, Board,
};
use crate::composer::{opened_comment, CommentTarget, Composer};
use crate::drafts::{is_issue_task, task_for_issue};
use crate::effects::Effect;
use crate::input_pickers::{not_linked, opened_projects, syncs};
use crate::keys::{KeyCode, KeyModifiers};
use crate::moves::{
    is_prefix, moved_down, moved_up, next_tab_of, on_tab, prefix_step, previous_tab_of,
};
use crate::settings::{clone_text, text_option};
use crate::store::{GitHubItemKind, GitHubProjectV2};
use crate::text::{eq_ignore_case, format_signed, same_ignoring_case, signed_decimal};
use crate::text_input::TextInput;
use crate::views::{Action, Focus, InputMode, ToastStyle, WorkbenchView};

verus! {

// ---------------------------------------------------------------------------
// Loading the board
// ---------------------------------------------------------------------------

/// What is cached of a project board.
pub struct BoardSnapshot {
    pub projects: Vec<GitHubProjectV2>,
    pub selected: Option<GitHubProjectV2>,
    pub items: Vec<BoardItem>,
}

/// The cache has been read.
pub open spec fn board_shown(pre: App, snapshot: Result<BoardSnapshot, String>, post: App) -> bool {
    &&& post == (App { board: post.board, ..pre })
    &&& match snapshot {
        Ok(s) => snapshot_shown(
            pre.board,
            post.board,
            s.projects,
            s.selected,
            s.items,
            text_option(pre.config.github_app.default_project_id),
            github_login(pre),
        ),
        Err(e) => post.board.error == Some(e) && snapshot_cleared(
            pre.board,
            post.board,
            github_login(pre),
        ),
    }
}

impl App {
    /// Whether the board of the project can be loaded: it must be linked to git.
    pub fn begin_board_load(&mut self) -> (r: bool)
        ensures
            r <==> (project_of(*old(self)) matches Some(p) && p.is_git_linked),
            match project_of(*old(self)) {
                Some(p) => if p.is_git_linked {
                    *final(self) == *old(self)
                } else {
                    not_linked(*old(self), *final(self))
                },
                None => *final(self) == *old(self),
            },
            old(self).wf() ==> final(self).wf(),
    {
        let linked = match self.selected_project() {
            Some(project) => project.is_git_linked,
            None => {
                return false;
            },
        };
        if !linked {
            self.board.error = Some("Project not linked to git".to_owned());
        }
        linked
    }

    /// Show what is cached of the project board.
    pub fn board_loaded(&mut self, snapshot: Result<BoardSnapshot, String>)
        ensures
            board_shown(*old(self), snapshot, *final(self)),
            old(self).wf() ==> final(self).wf(),
    {
        let login = self.current_github_login();
        match snapshot {
            Ok(s) => {
                let hint = clone_text(&self.config.github_app.default_project_id);
                self.board.apply_board_snapshot(s.projects, s.selected, s.items, &hint, &login);
            },
            Err(e) => {
                self.board.clear_board_snapshot(Some(e), &login);
            },
        }
    }
}

// ---------------------------------------------------------------------------
// Single actions
// ---------------------------------------------------------------------------

/// The selected item of the board.
pub open spec fn board_issue(a: App) -> Option<BoardItem> {
    if a.board.issue_index < shown_in(a.board, a.board.column_index) {
        Some(a.board.issues@[a.board.column_index as int]@[a.board.issue_index as int])
    } else {
        None
    }
}

pub open spec fn number_text(n: i64) -> Seq<char> {
    "#"@ + signed_decimal(n as int)
}

/// The selected item of the board is opened in the browser.
pub open spec fn issue_opened(pre: App, post: App, e: Effect) -> bool {
    match board_issue(pre) {
        Some(issue) => e == Effect::OpenUrl(issue.url) && says(
            pre,
            post,
            "Opening "@ + number_text(issue.number) + " in browser"@,
            ToastStyle::Info,
        ),
        None => e == Effect::Nothing && post == pre,
    }
}

/// A comment is written.
pub open spec fn comment_opened(
    pre: App,
    post: App,
    repo_path: Seq<char>,
    number: i64,
    item: Seq<char>,
    mode: InputMode,
) -> bool {
    &&& post.composer.target matches Some(t) && t.repo_path@ == repo_path && t.number == number
        && t.github_item_id@ == item && opened_comment(pre.composer, post.composer, t, mode)
    &&& post == (App {
        composer: post.composer,
        nav: Nav { input_mode: InputMode::CommentCompose, ..pre.nav },
        ..pre
    })
}

/// A comment on the selected item of the board is written.
pub open spec fn board_comment_opened(pre: App, post: App) -> bool {
    match (board_issue(pre), project_of(pre)) {
        (Some(issue), Some(project)) => comment_opened(
            pre,
            post,
            project.repo_path@,
            issue.number,
            issue.github_item_id@,
            InputMode::BoardIssueDrawer,
        ),
        _ => post == pre,
    }
}

/// The state that closing or reopening gives an issue.
pub open spec fn other_state(state: Seq<char>) -> Seq<char> {
    if same_ignoring_case(state, "open"@) {
        "closed"@
    } else {
        "open"@
    }
}

pub open spec fn other_state_shown(state: Seq<char>) -> Seq<char> {
    if same_ignoring_case(state, "open"@) {
        "CLOSED"@
    } else {
        "OPEN"@
    }
}

/// One item has another state.
pub open spec fn state_set(
    pre: Seq<Vec<BoardItem>>,
    post: Seq<Vec<BoardItem>>,
    c: int,
    i: int,
    state: Seq<char>,
) -> bool {
    &&& post.len() == pre.len()
    &&& forall|k: int| 0 <= k < pre.len() && k != c ==> #[trigger] post[k] == pre[k]
    &&& post[c]@ == pre[c]@.update(i, BoardItem { state: post[c]@[i].state, ..pre[c]@[i] })
    &&& post[c]@[i].state@ == state
}

pub open spec fn confirming(a: App, on: bool) -> App {
    App { board: Board { confirm_close: on, ..a.board }, ..a }
}

/// The selected issue is closed or reopened: the first request asks for a second one.
pub open spec fn state_toggled(pre: App, post: App, e: Effect) -> bool {
    match board_issue(pre) {
        None => e == Effect::Nothing && post == pre,
        Some(issue) => if !pre.board.confirm_close {
            e == Effect::Nothing && says(
                confirming(pre, true),
                post,
                "Press x again to "@ + other_state(issue.state@) + " "@ + number_text(issue.number),
                ToastStyle::Info,
            )
        } else {
            match project_of(pre) {
                None => e == Effect::Nothing && post == confirming(pre, false),
                Some(project) => {
                    &&& e matches Effect::SetIssueState { repo_path, number, state } && repo_path
                        == project.repo_path && number == issue.number && state@ == other_state(
                        issue.state@,
                    )
                    &&& state_set(
                        pre.board.issues@,
                        post.board.issues@,
                        pre.board.column_index as int,
                        pre.board.issue_index as int,
                        other_state_shown(issue.state@),
                    )
                    &&& says(
                        App {
                            board: Board {
                                confirm_close: false,
                                issues: post.board.issues,
                                ..pre.board
                            },
                            ..pre
                        },
                        post,
                        "Setting "@ + number_text(issue.number) + " to "@ + other_state(
                            issue.state@,
                        ) + "..."@,
                        ToastStyle::Info,
                    )
                },
            }
        },
    }
}

/// The form for a new issue is open.
pub open spec fn issue_form_opened(pre: App, post: App) -> bool {
    &&& post.composer.title@.len() == 0
    &&& post.composer.body@.len() == 0
    &&& post.composer.labels@.len() == 0
    &&& post.composer.assignees@.len() == 0
    &&& post == (App {
        composer: Composer {
            title: post.composer.title,
            body: post.composer.body,
            labels: post.composer.labels,
            assignees: post.composer.assignees,
            field: 0,
            editing_number: None,
            ..pre.composer
        },
        nav: Nav { input_mode: InputMode::CreateGitHubIssue, ..pre.nav },
        ..pre
    })
}

/// The form for the selected issue is open.
pub open spec fn issue_edit_opened(pre: App, post: App) -> bool {
    match board_issue(pre) {
        None => post == pre,
        Some(issue) => {
            &&& post.composer.title == issue.title
            &&& post.composer.body@ == crate::settings::text_or_empty(issue.body)
            &&& post.composer.labels@ == crate::text::joined(
                crate::text::views(issue.labels@),
                ", "@,
            )
            &&& post.composer.assignees@ == crate::text::joined(
                crate::text::views(issue.assignees@),
                ", "@,
            )
            &&& post == (App {
                composer: Composer {
                    title: post.composer.title,
                    body: post.composer.body,
                    labels: post.composer.labels,
                    assignees: post.composer.assignees,
                    field: 0,
                    editing_number: Some(issue.number),
                    ..pre.composer
                },
                nav: Nav { input_mode: InputMode::EditGitHubIssue, ..pre.nav },
                ..pre
            })
        },
    }
}

impl App {
    /// Open the selected item of the board in the browser.
    pub fn open_selected_issue(&mut self) -> (e: Effect)
        ensures
            issue_opened(*old(self), *final(self), e),
            old(self).wf() ==> final(self).wf(),
    {
        let (url, number) = match self.board.selected_board_issue() {
            Some(issue) => (issue.url.clone(), issue.number),
            None => {
                return Effect::Nothing;
            },
        };
        self.say_opening(number);
        Effect::OpenUrl(url)
    }

    pub(crate) fn say_opening(&mut self, number: i64)
        ensures
            says(
                *old(self),
                *final(self),
                "Opening "@ + number_text(number) + " in browser"@,
                ToastStyle::Info,
            ),
            old(self).wf() ==> final(self).wf(),
    {
        let mut message = "Opening ".to_owned();
        message.append(hash_number(number).as_str());
        message.append(" in browser");
        self.show_toast(message, ToastStyle::Info);
    }

    pub(crate) fn compose_comment(
        &mut self,
        repo_path: String,
        number: i64,
        github_item_id: String,
        mode: InputMode,
    )
        ensures
            comment_opened(
                *old(self),
                *final(self),
                repo_path@,
                number,
                github_item_id@,
                mode,
            ),
            old(self).wf() ==> final(self).wf(),
    {
        self.composer.open_comment(CommentTarget { repo_path, number, github_item_id }, mode);
        self.nav.input_mode = InputMode::CommentCompose;
    }

    /// Write a comment on the selected item of the board.
    pub fn open_comment_compose(&mut self)
        ensures
            board_comment_opened(*old(self), *final(self)),
            old(self).wf() ==> final(self).wf(),
    {
        let (number, id) = match self.board.selected_board_issue() {
            Some(issue) => (issue.number, issue.github_item_id.clone()),
            None => {
                return;
            },
        };
        let repo_path = match self.selected_project() {
            Some(project) => project.repo_path.clone(),
            None => {
                return;
            },
        };
        self.compose_comment(repo_path, number, id, InputMode::BoardIssueDrawer);
    }

    fn set_selected_state(&mut self, state: String)
        requires
            board_issue(*old(self)) is Some,
        ensures
            state_set(
                old(self).board.issues@,
                final(self).board.issues@,
                old(self).board.column_index as int,
                old(self).board.issue_index as int,
                state@,
            ),
            *final(self) == (App {
                board: Board { issues: final(self).board.issues, ..old(self).board },
                ..*old(self)
            }),
    {
        let c: usize = self.board.column_index;
        let i: usize = self.board.issue_index;
        self.board.issues[c][i].state = state;
    }

    /// Close or reopen the selected item of the board.
    pub fn toggle_board_issue_state(&mut self) -> (e: Effect)
        ensures
            state_toggled(*old(self), *final(self), e),
            old(self).wf() ==> final(self).wf(),
    {
        let (number, open) = match self.board.selected_board_issue() {
            Some(issue) => (issue.number, eq_ignore_case(issue.state.as_str(), "open")),
            None => {
                return Effect::Nothing;
            },
        };
        let new_state = if open {
            "closed"
        } else {
            "open"
        };
        if !self.board.confirm_close {
            self.board.confirm_close = true;
            let mut message = "Press x again to ".to_owned();
            message.append(new_state);
            message.append(" ");
            message.append(hash_number(number).as_str());
            self.show_toast(message, ToastStyle::Info);
            return Effect::Nothing;
        }
        let repo_path = match self.selected_project() {
            Some(project) => project.repo_path.clone(),
            None => {
                self.board.confirm_close = false;
                return Effect::Nothing;
            },
        };
        self.set_selected_state(
            if open {
                "CLOSED".to_owned()
            } else {
                "OPEN".to_owned()
            },
        );
        self.board.confirm_close = false;
        let mut message = "Setting ".to_owned();
        message.append(hash_number(number).as_str());
        message.append(" to ");
        message.append(new_state);
        message.append("...");
        self.show_toast(message, ToastStyle::Info);
        Effect::SetIssueState { repo_path, number, state: new_state.to_owned() }
    }

    /// Open the form for a new issue.
    pub fn open_github_issue_create(&mut self)
        ensures
            issue_form_opened(*old(self), *final(self)),
            old(self).wf() ==> final(self).wf(),
    {
        self.composer.open_issue_create();
        self.nav.input_mode = InputMode::CreateGitHubIssue;
    }

    /// Open the form for the selected issue.
    pub fn open_github_issue_edit(&mut self)
        ensures
            issue_edit_opened(*old(self), *final(self)),
            old(self).wf() ==> final(self).wf(),
    {
        match self.board.selected_board_issue() {
            Some(issue) => {
                self.composer.open_issue_edit(issue);
            },
            None => {
                return;
            },
        }
        self.nav.input_mode = InputMode::EditGitHubIssue;
    }
}

fn hash_number(n: i64) -> (r: String)
    ensures
        r@ == number_text(n),
{
    let mut r = "#".to_owned();
    r.append(format_signed(n).as_str());
    r
}

// ---------------------------------------------------------------------------
// The board
// ---------------------------------------------------------------------------

/// A request to close an issue does not outlive another key.
pub open spec fn unconfirmed(a: App, code: KeyCode) -> App {
    if code == KeyCode::Char('x') {
        a
    } else {
        confirming(a, false)
    }
}

pub open spec fn with_board(a: App, b: Board) -> App {
    App { board: b, ..a }
}

/// Ten items further down, at most at the last one.
pub open spec fn page_down(i: usize, n: nat) -> usize {
    if n == 0 {
        0
    } else if i + 10 < n {
        (i + 10) as usize
    } else {
        (n - 1) as usize
    }
}

pub open spec fn page_up(i: usize) -> usize {
    if i < 10 {
        0
    } else {
        (i - 10) as usize
    }
}

pub open spec fn last_place(n: nat) -> usize {
    if n == 0 {
        0
    } else {
        (n - 1) as usize
    }
}

pub open spec fn column_exists(a: App) -> bool {
    a.board.column_index < a.board.issues@.len()
}

/// The board with another item selected.
pub open spec fn with_issue(b: Board, i: usize) -> Board {
    Board { issue_index: i, ..b }
}

/// The board after a key that moves the selection over it; `None` for other keys.
pub open spec fn board_moved(a: App, code: KeyCode, m: KeyModifiers) -> Option<Board> {
    let b = a.board;
    let n = shown_in(b, b.column_index);
    let i = b.issue_index;
    match code {
        KeyCode::Char('h') | KeyCode::Left => Some(column_left(b, a.nav.screen.width)),
        KeyCode::Char('l') | KeyCode::Right => Some(column_right(b, a.nav.screen.width)),
        KeyCode::Char('j') | KeyCode::Down => Some(
            if i + 1 < n {
                with_issue(b, (i + 1) as usize)
            } else {
                b
            },
        ),
        KeyCode::Char('k') | KeyCode::Up => Some(with_issue(b, previous_place(i))),
        KeyCode::Char('d') => if m == KeyModifiers::control() {
            Some(
                if column_exists(a) {
                    with_issue(b, page_down(i, n))
                } else {
                    b
                },
            )
        } else {
            None
        },
        KeyCode::Char('u') => if m == KeyModifiers::control() {
            Some(with_issue(b, page_up(i)))
        } else {
            None
        },
        KeyCode::Char('G') => Some(
            if column_exists(a) {
                with_issue(b, last_place(n))
            } else {
                b
            },
        ),
        _ => None,
    }
}

/// The search over the board starts.
pub open spec fn board_search_opened(pre: App, post: App) -> bool {
    &&& post.board.filter.text@.len() == 0
    &&& post.board.filter.cursor == 0
    &&& post == (App {
        board: Board { filter: post.board.filter, ..pre.board },
        nav: Nav { input_mode: InputMode::BoardFilter, ..pre.nav },
        ..pre
    })
}

/// The other scope is shown.
pub open spec fn scope_turned(pre: App, post: App) -> bool {
    &&& refiltered(
        Board { scope: pre.board.scope.next(), issue_index: 0, ..pre.board },
        post.board,
        github_login(pre),
    )
    &&& post == with_board(pre, post.board)
}

/// The drawer of the selected item is open.
pub open spec fn issue_drawer_opened(a: App) -> App {
    if board_issue(a) is Some {
        details_opened(a, InputMode::BoardIssueDrawer)
    } else {
        a
    }
}

pub open spec fn finds_thread(a: App) -> Effect {
    match board_issue(a) {
        Some(issue) => Effect::FindBoardIssueThread { github_item_id: issue.github_item_id },
        None => Effect::Nothing,
    }
}

/// The board is left for the tasks.
pub open spec fn board_left(a: App) -> App {
    App {
        nav: Nav {
            workbench_view: WorkbenchView::MyTasks,
            input_mode: InputMode::Normal,
            ..a.nav
        },
        ..a
    }
}

/// The list of sprints is open.
pub open spec fn sprints_opened(a: App) -> App {
    App {
        board: Board { sprint_index: 0, ..a.board },
        nav: Nav { input_mode: InputMode::MilestoneFilter, ..a.nav },
        ..a
    }
}

pub open spec fn projects_or_palette(pre: App, palette: bool, post: App) -> bool {
    if palette {
        palette_opened(pre, post)
    } else {
        opened_projects(pre, post)
    }
}

/// The selected issue becomes a task of the project; another item is shown in its drawer.
pub open spec fn issue_taken_up(pre: App, post: App, e: Effect) -> bool {
    match board_issue(pre) {
        Some(issue) if issue.kind == GitHubItemKind::Issue => post == pre && match project_of(pre) {
            Some(project) => e matches Effect::CreateIssueTask { project_id, task } && project_id
                == project.id && is_issue_task(task, issue),
            None => e == Effect::Nothing,
        },
        _ => e == Effect::Nothing && post == issue_drawer_opened(pre),
    }
}

/// The keys of the board that open something.
pub open spec fn board_opened_by(
    pre: App,
    code: KeyCode,
    m: KeyModifiers,
    post: App,
    e: Effect,
) -> bool {
    match code {
        KeyCode::Esc | KeyCode::Char('b') => e == Effect::Nothing && post == board_left(pre),
        KeyCode::Char('v') => e == Effect::Nothing && post == issue_drawer_opened(pre),
        KeyCode::Enter => issue_taken_up(pre, post, e),
        KeyCode::Char('/') => e == Effect::Nothing && board_search_opened(pre, post),
        KeyCode::Char('m') => e == Effect::Nothing && post == sprints_opened(pre),
        KeyCode::Char('p') => e == Effect::Nothing && projects_or_palette(
            pre,
            m == KeyModifiers::control(),
            post,
        ),
        KeyCode::Char('P') => e == Effect::Nothing && opened_projects(pre, post),
        KeyCode::Char('g') => e == Effect::PickProjectBoard && post == pre,
        KeyCode::Char('q') => e == Effect::Nothing && post == (App {
            nav: Nav { should_quit: true, ..pre.nav },
            ..pre
        }),
        _ => e == Effect::Nothing && post == pre,
    }
}

/// The keys of the board that open something or act on the selected item.
pub open spec fn board_acted(
    pre: App,
    code: KeyCode,
    m: KeyModifiers,
    post: App,
    e: Effect,
) -> bool {
    match code {
        KeyCode::Char('o') => issue_opened(pre, post, e),
        KeyCode::Char('L') => e == finds_thread(pre) && post == pre,
        KeyCode::Char('t') => e == Effect::Nothing && scope_turned(pre, post),
        KeyCode::Char('R') => syncs(pre, post, e),
        KeyCode::Char('c') => e == Effect::Nothing && board_comment_opened(pre, post),
        KeyCode::Char('x') => state_toggled(pre, post, e),
        KeyCode::Char('n') => e == Effect::Nothing && issue_form_opened(pre, post),
        KeyCode::Char('e') => e == Effect::Nothing && issue_edit_opened(pre, post),
        _ => board_opened_by(pre, code, m, post, e),
    }
}

/// A key that means the same wherever the focus is; `None` for other keys.
pub open spec fn board_common(a: App, code: KeyCode, m: KeyModifiers) -> Option<App> {
    if m.is_empty() {
        match code {
            KeyCode::Char('1') => Some(with_focus(a, Focus::Projects)),
            KeyCode::Char('2') => Some(with_focus(a, Focus::Tasks)),
            KeyCode::Char('?') => Some(in_mode(a, InputMode::HelpOverlay)),
            _ => None,
        }
    } else if m == KeyModifiers::control() {
        match code {
            KeyCode::Char('j') => Some(on_tab(a, next_tab_of(a))),
            KeyCode::Char('k') => Some(on_tab(a, previous_tab_of(a))),
            _ => None,
        }
    } else {
        None
    }
}

/// What a key does where it is neither a prefix nor bound to a resize.
pub open spec fn board_plain(
    pre: App,
    c: Context,
    code: KeyCode,
    m: KeyModifiers,
    post: App,
    e: Effect,
) -> bool {
    let away = pre.nav.focus != Focus::Tasks && m.is_empty();
    if away && (code == KeyCode::Char('j') || code == KeyCode::Down) {
        moved_down(pre, post, e)
    } else if away && (code == KeyCode::Char('k') || code == KeyCode::Up) {
        moved_up(pre, post, e)
    } else if away && code == KeyCode::Enter {
        selected(pre, c.stored_session, post, e)
    } else {
        match board_common(pre, code, m) {
            Some(a) => e == Effect::Nothing && post == a,
            None => match board_moved(pre, code, m) {
                Some(b) => e == Effect::Nothing && post == with_board(pre, b),
                None => board_acted(pre, code, m, post, e),
            },
        }
    }
}

pub open spec fn is_resize(bound: Option<Action>) -> bool {
    bound == Some(Action::ResizePaneNarrow) || bound == Some(Action::ResizePaneWide)
}

/// A key of the sprint board.
pub open spec fn board_step(
    pre: App,
    c: Context,
    code: KeyCode,
    m: KeyModifiers,
    post: App,
    e: Effect,
) -> bool {
    let a = unconfirmed(pre, code);
    if m.is_empty() && is_prefix(a, code, c.inspector) {
        prefix_step(a, code, c.inspector, post, Some(e))
    } else if is_resize(c.bound) {
        action_step(a, c, c.bound->0, post, e)
    } else {
        board_plain(a, c, code, m, post, e)
    }
}

impl App {
    /// A request to close an issue does not outlive another key.
    pub(crate) fn drop_confirmation(&mut self, code: KeyCode)
        requires
            old(self).wf(),
        ensures
            *final(self) == unconfirmed(*old(self), code),
            final(self).wf(),
    {
        if code != KeyCode::Char('x') {
            self.board.confirm_close = false;
        }
    }

    fn go_to_issue(&mut self, i: usize)
        requires
            old(self).wf(),
        ensures
            *final(self) == with_board(*old(self), with_issue(old(self).board, i)),
            final(self).wf(),
    {
        self.board.issue_index = i;
    }

    fn first_sprint(&mut self)
        requires
            old(self).wf(),
        ensures
            *final(self) == with_board(
                *old(self),
                Board { sprint_index: 0, ..old(self).board },
            ),
            final(self).wf(),
    {
        self.board.sprint_index = 0;
    }

    fn board_move_key(&mut self, code: KeyCode, m: KeyModifiers) -> (r: bool)
        requires
            old(self).wf(),
        ensures
            r == board_moved(*old(self), code, m) is Some,
            r ==> *final(self) == with_board(*old(self), board_moved(*old(self), code, m)->0),
            !r ==> *final(self) == *old(self),
            final(self).wf(),
    {
        let exists: bool = self.board.column_index < self.board.issues.len();
        let n: usize = if exists {
            self.board.issues[self.board.column_index].len()
        } else {
            0
        };
        let i: usize = self.board.issue_index;
        let to: usize = match code {
            KeyCode::Char('h') | KeyCode::Left => {
                self.board.move_column_left(self.nav.screen.width);
                return true;
            },
            KeyCode::Char('l') | KeyCode::Right => {
                self.board.move_column_right(self.nav.screen.width);
                return true;
            },
            KeyCode::Char('j') | KeyCode::Down => if i < n && n - i > 1 {
                i + 1
            } else {
                i
            },
            KeyCode::Char('k') | KeyCode::Up => step_up(i),
            KeyCode::Char('d') => {
                if m != KeyModifiers::control() {
                    return false;
                }
                if !exists {
                    i
                } else if n == 0 {
                    0
                } else if i < n && n - i > 10 {
                    i + 10
                } else {
                    n - 1
                }
            },
            KeyCode::Char('u') => {
                if m != KeyModifiers::control() {
                    return false;
                }
                if i < 10 {
                    0
                } else {
                    i - 10
                }
            },
            KeyCode::Char('G') => if !exists {
                i
            } else if n == 0 {
                0
            } else {
                n - 1
            },
            _ => {
                return false;
            },
        };
        assert(with_issue(self.board, i) == self.board);
        self.go_to_issue(to);
        true
    }

    fn turn_board_scope(&mut self)
        requires
            old(self).wf(),
        ensures
            scope_turned(*old(self), *final(self)),
            final(self).wf(),
    {
        let login = self.current_github_login();
        self.board.scope = self.board.scope.next();
        self.board.issue_index = 0;
        self.board.apply_board_filter(&login);
    }

    fn open_projects_or_palette(&mut self, palette: bool)
        requires
            old(self).wf(),
        ensures
            projects_or_palette(*old(self), palette, *final(self)),
            final(self).wf(),
    {
        if palette {
            self.open_palette();
        } else {
            self.open_project_picker();
        }
    }

    fn leave_board(&mut self)
        requires
            old(self).wf(),
        ensures
            *final(self) == board_left(*old(self)),
            final(self).wf(),
    {
        self.nav.workbench_view = WorkbenchView::MyTasks;
        self.nav.input_mode = InputMode::Normal;
    }

    fn open_issue_drawer(&mut self)
        requires
            old(self).wf(),
        ensures
            *final(self) == issue_drawer_opened(*old(self)),
            final(self).wf(),
    {
        if self.board.selected_board_issue().is_some() {
            self.nav.task_details_scroll = 0;
            self.nav.input_mode = InputMode::BoardIssueDrawer;
        }
    }

    fn take_up_issue(&mut self) -> (e: Effect)
        requires
            old(self).wf(),
        ensures
            issue_taken_up(*old(self), *final(self), e),
            final(self).wf(),
    {
        let task = match self.board.selected_board_issue() {
            Some(issue) => match issue.kind {
                GitHubItemKind::Issue => Some(task_for_issue(issue)),
                GitHubItemKind::PullRequest => None,
            },
            None => None,
        };
        match task {
            Some(task) => match self.selected_project() {
                Some(project) => Effect::CreateIssueTask { project_id: project.id.clone(), task },
                None => Effect::Nothing,
            },
            None => {
                self.open_issue_drawer();
                Effect::Nothing
            },
        }
    }

    fn open_board_search(&mut self)
        requires
            old(self).wf(),
        ensures
            board_search_opened(*old(self), *final(self)),
            final(self).wf(),
    {
        self.board.filter = TextInput { text: String::new(), cursor: 0 };
        self.nav.input_mode = InputMode::BoardFilter;
    }

    fn open_sprints(&mut self)
        requires
            old(self).wf(),
        ensures
            *final(self) == sprints_opened(*old(self)),
            final(self).wf(),
    {
        self.first_sprint();
        self.enter_mode(InputMode::MilestoneFilter);
    }

    fn board_open_key(&mut self, code: KeyCode, m: KeyModifiers) -> (e: Effect)
        requires
            old(self).wf(),
        ensures
            board_opened_by(*old(self), code, m, *final(self), e),
            final(self).wf(),
    {
        match code {
            KeyCode::Esc | KeyCode::Char('b') => {
                self.leave_board();
                Effect::Nothing
            },
            KeyCode::Char('v') => {
                self.open_issue_drawer();
                Effect::Nothing
            },
            KeyCode::Enter => self.take_up_issue(),
            KeyCode::Char('/') => {
                self.open_board_search();
                Effect::Nothing
            },
            KeyCode::Char('m') => {
                self.open_sprints();
                Effect::Nothing
            },
            KeyCode::Char('p') => {
                self.open_projects_or_palette(m == KeyModifiers::control());
                Effect::Nothing
            },
            KeyCode::Char('P') => {
                self.open_project_picker();
                Effect::Nothing
            },
            KeyCode::Char('g') => Effect::PickProjectBoard,
            KeyCode::Char('q') => {
                self.nav.should_quit = true;
                Effect::Nothing
            },
            _ => Effect::Nothing,
        }
    }

    fn board_act_key(&mut self, code: KeyCode, m: KeyModifiers) -> (e: Effect)
        requires
            old(self).wf(),
        ensures
            board_acted(*old(self), code, m, *final(self), e),
            final(self).wf(),
    {
        match code {
            KeyCode::Char('o') => self.open_selected_issue(),
            KeyCode::Char('L') => match self.board.selected_board_issue() {
                Some(issue) => Effect::FindBoardIssueThread {
                    github_item_id: issue.github_item_id.clone(),
                },
                None => Effect::Nothing,
            },
            KeyCode::Char('t') => {
                self.turn_board_scope();
                Effect::Nothing
            },
            KeyCode::Char('R') => self.refresh_board_issues(),
            KeyCode::Char('c') => {
                self.open_comment_compose();
                Effect::Nothing
            },
            KeyCode::Char('x') => self.toggle_board_issue_state(),
            KeyCode::Char('n') => {
                self.open_github_issue_create();
                Effect::Nothing
            },
            KeyCode::Char('e') => {
                self.open_github_issue_edit();
                Effect::Nothing
            },
            _ => self.board_open_key(code, m),
        }
    }

    fn board_common_key(&mut self, code: KeyCode, m: KeyModifiers) -> (r: bool)
        requires
            old(self).wf(),
        ensures
            r == board_common(*old(self), code, m) is Some,
            r ==> *final(self) == board_common(*old(self), code, m)->0,
            !r ==> *final(self) == *old(self),
            final(self).wf(),
    {
        if m.is_empty() {
            match code {
                KeyCode::Char('1') => {
                    self.move_focus(Focus::Projects);
                    true
                },
                KeyCode::Char('2') => {
                    self.move_focus(Focus::Tasks);
                    true
                },
                KeyCode::Char('?') => {
                    self.enter_mode(InputMode::HelpOverlay);
                    true
                },
                _ => false,
            }
        } else if m == KeyModifiers::control() {
            match code {
                KeyCode::Char('j') => {
                    self.next_tab();
                    true
                },
                KeyCode::Char('k') => {
                    self.prev_tab();
                    true
                },
                _ => false,
            }
        } else {
            false
        }
    }

    fn board_plain_key(&mut self, c: &Context, code: KeyCode, m: KeyModifiers) -> (e: Effect)
        requires
            old(self).wf(),
        ensures
            board_plain(*old(self), *c, code, m, *final(self), e),
            final(self).wf(),
    {
        if self.nav.focus != Focus::Tasks && m.is_empty() {
            match code {
                KeyCode::Char('j') | KeyCode::Down => {
                    return self.move_down();
                },
                KeyCode::Char('k') | KeyCode::Up => {
                    return self.move_up();
                },
                KeyCode::Enter => {
                    return self.select(&c.stored_session);
                },
                _ => {},
            }
        }
        if self.board_common_key(code, m) || self.board_move_key(code, m) {
            return Effect::Nothing;
        }
        self.board_act_key(code, m)
    }

    /// Handle a key of the sprint board.
    pub fn handle_board_key(&mut self, c: &Context, code: KeyCode, m: KeyModifiers) -> (e: Effect)
        requires
            old(self).wf(),
        ensures
            board_step(*old(self), *c, code, m, *final(self), e),
            final(self).wf(),
    {
        self.drop_confirmation(code);
        if m.is_empty() {
            if let Some(e) = self.handle_workbench_prefix(code, c.inspector) {
                return e;
            }
        }
        match c.bound {
            Some(Action::ResizePaneNarrow) => self.execute_action(c, Action::ResizePaneNarrow),
            Some(Action::ResizePaneWide) => self.execute_action(c, Action::ResizePaneWide),
            _ => self.board_plain_key(c, code, m),
        }
    }
}

// ---------------------------------------------------------------------------
// Laws
// ---------------------------------------------------------------------------

/// Something asks GitHub for news.
pub open spec fn asks_github(e: Effect) -> bool {
    e is SyncGitHub || e is SyncProject
}

proof fn lemma_prefixes_ask_nothing(
    pre: App,
    code: KeyCode,
    inspector: bool,
    post: App,
    e: Effect,
)
    requires
        prefix_step(pre, code, inspector, post, Some(e)),
    ensures
        !asks_github(e),
{
}

proof fn lemma_selections_ask_nothing(pre: App, stored: Option<String>, post: App, e: Effect)
    requires
        selected(pre, stored, post, e),
    ensures
        !asks_github(e),
{
}

proof fn lemma_board_acts_ask_nothing(
    pre: App,
    code: KeyCode,
    m: KeyModifiers,
    post: App,
    e: Effect,
)
    requires
        board_acted(pre, code, m, post, e),
        code != KeyCode::Char('R'),
    ensures
        !asks_github(e),
{
}

proof fn lemma_plain_keys_ask_nothing(
    pre: App,
    c: Context,
    code: KeyCode,
    m: KeyModifiers,
    post: App,
    e: Effect,
)
    requires
        board_plain(pre, c, code, m, post, e),
        code != KeyCode::Char('R'),
    ensures
        !asks_github(e),
{
    let away = pre.nav.focus != Focus::Tasks && m.is_empty();
    if away && (code == KeyCode::Char('j') || code == KeyCode::Down) {
    } else if away && (code == KeyCode::Char('k') || code == KeyCode::Up) {
    } else if away && code == KeyCode::Enter {
        lemma_selections_ask_nothing(pre, c.stored_session, post, e);
    } else if board_common(pre, code, m) is None && board_moved(pre, code, m) is None {
        lemma_board_acts_ask_nothing(pre, code, m, post, e);
    }
}

/// The board is shown from what is cached: no key of it asks GitHub for news but the
/// one that is meant to.
pub proof fn law_board_is_refreshed_on_request(
    pre: App,
    c: Context,
    code: KeyCode,
    m: KeyModifiers,
    post: App,
    e: Effect,
)
    requires
        board_step(pre, c, code, m, post, e),
        asks_github(e),
    ensures
        code == KeyCode::Char('R'),
{
    let a = unconfirmed(pre, code);
    if m.is_empty() && is_prefix(a, code, c.inspector) {
        lemma_prefixes_ask_nothing(a, code, c.inspector, post, e);
    } else if !is_resize(c.bound) {
        if code != KeyCode::Char('R') {
            lemma_plain_keys_ask_nothing(a, c, code, m, post, e);
        }
    }
}

/// The board is opened from what is cached.
pub proof fn law_board_opens_from_the_cache(pre: App, post: App, e: Effect)
    requires
        crate::moves::switched_view(pre, WorkbenchView::SprintBoard, post, e),
    ensures
        e == Effect::LoadBoard,
        post.nav.input_mode == InputMode::BoardView,
        post.nav.workbench_view == WorkbenchView::SprintBoard,
{
}

/// An issue that is open is closed, and any other is opened again.
pub proof fn law_states_are_turned(state: Seq<char>)
    ensures
        same_ignoring_case(state, "open"@) ==> other_state(state) == "closed"@
            && other_state_shown(state) == "CLOSED"@,
        !same_ignoring_case(state, "open"@) ==> other_state(state) == "open"@ && other_state_shown(
            state,
        ) == "OPEN"@,
{
}

/// The state of an issue is changed on the second request, of that issue in the project's
/// repository, and shown at once; other issues keep theirs.
pub proof fn law_the_second_request_changes_the_state(
    pre: App,
    post: App,
    e: Effect,
    c: int,
    i: int,
)
    requires
        state_toggled(pre, post, e),
        pre.board.column_index < pre.board.issues@.len(),
        pre.board.issue_index < pre.board.issues@[pre.board.column_index as int]@.len(),
        pre.nav.project_index < pre.projects@.len(),
        0 <= c < pre.board.issues@.len(),
        0 <= i < pre.board.issues@[c]@.len(),
    ensures
        ({
            let issue = pre.board.issues@[pre.board.column_index as int]@[
                pre.board.issue_index as int];
            &&& !pre.board.confirm_close ==> e == Effect::Nothing && post.board.confirm_close
                && post.board.issues == pre.board.issues
            &&& pre.board.confirm_close ==> {
                &&& e matches Effect::SetIssueState { repo_path, number, state } && repo_path
                    == pre.projects@[pre.nav.project_index as int].repo_path && number
                    == issue.number && (same_ignoring_case(issue.state@, "open"@) ==> state@
                    == "closed"@) && (!same_ignoring_case(issue.state@, "open"@) ==> state@
                    == "open"@)
                &&& !post.board.confirm_close
                &&& c != pre.board.column_index || i != pre.board.issue_index
                    ==> post.board.issues@[c]@[i] == pre.board.issues@[c]@[i]
                &&& c == pre.board.column_index && i == pre.board.issue_index
                    && same_ignoring_case(issue.state@, "open"@)
                    ==> post.board.issues@[c]@[i].state@ == "CLOSED"@
            }
        }),
{
}

/// What a key opens on the board: the issue in the browser, its thread, a comment, a new
/// issue, the issue for editing, the search or the sprints.
pub proof fn law_board_keys(pre: App, code: KeyCode, m: KeyModifiers, post: App, e: Effect)
    requires
        board_acted(pre, code, m, post, e),
        pre.board.column_index < pre.board.issues@.len(),
        pre.board.issue_index < pre.board.issues@[pre.board.column_index as int]@.len(),
    ensures
        ({
            let issue = pre.board.issues@[pre.board.column_index as int]@[
                pre.board.issue_index as int];
            &&& code == KeyCode::Char('o') ==> e == Effect::OpenUrl(issue.url)
            &&& code == KeyCode::Char('L') ==> e == (Effect::FindBoardIssueThread {
                github_item_id: issue.github_item_id,
            })
            &&& code == KeyCode::Char('t') ==> post.board.scope != pre.board.scope
                && post.board.source == pre.board.source
            &&& code == KeyCode::Char('c') && pre.nav.project_index < pre.projects@.len() ==> (
            post.composer.target matches Some(t) && t.number == issue.number && t.repo_path@
                == pre.projects@[pre.nav.project_index as int].repo_path@) && post.nav.input_mode
                == InputMode::CommentCompose
            &&& code == KeyCode::Char('n') ==> post.nav.input_mode == InputMode::CreateGitHubIssue
                && post.composer.editing_number is None && post.composer.title@.len() == 0
            &&& code == KeyCode::Char('e') ==> post.nav.input_mode == InputMode::EditGitHubIssue
                && post.composer.editing_number == Some(issue.number) && post.composer.title
                == issue.title
            &&& code == KeyCode::Char('/') ==> post.nav.input_mode == InputMode::BoardFilter
                && post.board.filter.text@.len() == 0
            &&& code == KeyCode::Char('m') ==> post.nav.input_mode == InputMode::MilestoneFilter
            &&& code == KeyCode::Char('v') ==> post.nav.input_mode == InputMode::BoardIssueDrawer
            &&& code == KeyCode::Char('q') ==> post.nav.should_quit
            &&& code == KeyCode::Esc || code == KeyCode::Char('b') ==> post.nav.workbench_view
                == WorkbenchView::MyTasks && post.nav.input_mode == InputMode::Normal
            &&& code == KeyCode::Char('g') ==> e == Effect::PickProjectBoard
            &&& code == KeyCode::Enter && issue.kind == GitHubItemKind::Issue
                && pre.nav.project_index < pre.projects@.len() ==> (
            e matches Effect::CreateIssueTask { project_id, .. } && project_id
                == pre.projects@[pre.nav.project_index as int].id)
            &&& code == KeyCode::Enter && issue.kind == GitHubItemKind::PullRequest
                ==> post.nav.input_mode == InputMode::BoardIssueDrawer
        }),
{
}

/// The selection moves by one issue, by pages of ten with control, and with a large `G` to
/// the last one.
pub proof fn law_board_moves(a: App, m: KeyModifiers)
    requires
        a.board.column_index < a.board.issues@.len(),
        a.board.issue_index < a.board.issues@[a.board.column_index as int]@.len(),
    ensures
        ({
            let n = a.board.issues@[a.board.column_index as int]@.len();
            let i = a.board.issue_index;
            &&& i + 1 < n ==> (board_moved(a, KeyCode::Char('j'), m) matches Some(b)
                && b.issue_index == i + 1) && (board_moved(a, KeyCode::Down, m) matches Some(b)
                && b.issue_index == i + 1)
            &&& i + 1 == n ==> (board_moved(a, KeyCode::Down, m) matches Some(b) && b.issue_index
                == i)
            &&& i > 0 ==> (board_moved(a, KeyCode::Up, m) matches Some(b) && b.issue_index + 1 == i)
            &&& board_moved(a, KeyCode::Char('G'), m) matches Some(b) && b.issue_index + 1 == n
            &&& m == KeyModifiers::control() && i + 10 < n ==> (board_moved(
                a,
                KeyCode::Char('d'),
                m,
            ) matches Some(b) && b.issue_index == i + 10)
            &&& m == KeyModifiers::control() && i >= 10 ==> (board_moved(
                a,
                KeyCode::Char('u'),
                m,
            ) matches Some(b) && b.issue_index + 10 == i)
        }),
{
    assert(a.board.issues@[a.board.column_index as int].len()
        == a.board.issues@[a.board.column_index as int]@.len());
}

/// A key other than the one that closes an issue takes back what was begun.
pub proof fn law_other_keys_take_the_closing_back(a: App, code: KeyCode)
    ensures
        code != KeyCode::Char('x') ==> !unconfirmed(a, code).board.confirm_close,
        unconfirmed(a, KeyCode::Char('x')) == a,
{
}

/// A board that could not be read shows the error and no items.
pub proof fn law_unreadable_boards_say_so(
    pre: App,
    error: String,
    post: App,
)
    requires
        board_shown(pre, Err(error), post),
    ensures
        post.board.error == Some(error),
        post.board.source@.len() == 0,
        post.board.project_title is None,
        post.nav == pre.nav,
{
}

} // verus!
