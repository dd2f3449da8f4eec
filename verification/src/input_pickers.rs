//! The lists to choose from, the editor of the settings, and what follows once the
//! things that they ask for have been done.

use vstd::prelude::*;
use vstd::string::*;

use crate::app::{
    active_thread, in_mode, live_session_of, project_of, says, shows_thread, tab_place, thread_of,
    App, Nav, Tab, Toast,
};
use crate::board_state::{clamped, next_place, previous_place, step_down, step_up, Board};
use crate::effects::{notice_is, Effect};
use crate::keys::{KeyCode, KeyModifiers};
use crate::settings::{Config, GitHubAppConfig};
use crate::store::{
    provider_name, provider_text, GitHubProjectV2, Project, ProviderKind, Thread,
};
use crate::text::{
    chars_of, contains, contains_text, format_signed, lowercase, occurs_at, same, signed_decimal,
    text_between, to_lowercase, trim, trimmed,
};
use crate::text_input::{after_edit, edited, TextInput};
use crate::views::{InputMode, SessionTabView, ToastStyle, WorkbenchView};

verus! {

// ---------------------------------------------------------------------------
// Project boards
// ---------------------------------------------------------------------------

/// The project board has the query in its title, its number or its label.
pub open spec fn board_has(project: GitHubProjectV2, query: Seq<char>) -> bool {
    contains_text(lowercase(project.title@), query) || contains_text(
        signed_decimal(project.project_number as int),
        query,
    ) || contains_text(lowercase(project.label@), query)
}

/// The places of the first `n` project boards that match a query, in order.
pub open spec fn board_places(projects: Seq<GitHubProjectV2>, query: Seq<char>, n: nat) -> Seq<usize>
    decreases n,
{
    if n == 0 {
        Seq::empty()
    } else {
        let rest = board_places(projects, query, (n - 1) as nat);
        if query.len() == 0 || board_has(projects[n - 1], query) {
            rest.push((n - 1) as usize)
        } else {
            rest
        }
    }
}

/// What was typed, without the space around it and in lower case.
pub open spec fn board_query(a: App) -> Seq<char> {
    lowercase(trimmed(a.input.text@))
}

/// The project boards that the list shows.
pub open spec fn shown_boards(a: App) -> Seq<usize> {
    board_places(a.board.projects@, board_query(a), a.board.projects@.len())
}

pub open spec fn index_in(v: Seq<usize>, x: usize, from: int) -> Option<int>
    decreases v.len() - from,
{
    if from < 0 || from >= v.len() {
        None
    } else if v[from] == x {
        Some(from)
    } else {
        index_in(v, x, from + 1)
    }
}

/// The place of the chosen board among those that are shown, else the first.
pub open spec fn board_cursor(a: App) -> int {
    match index_in(shown_boards(a), a.board.project_index, 0) {
        Some(i) => i,
        None => 0,
    }
}

pub open spec fn at_board(a: App, i: usize) -> App {
    App { board: Board { project_index: i, ..a.board }, ..a }
}

/// The first of the boards that are shown is chosen.
pub open spec fn at_first_board(a: App) -> App {
    if shown_boards(a).len() > 0 {
        at_board(a, shown_boards(a)[0])
    } else {
        a
    }
}

/// The mode that a list of boards is left for.
pub open spec fn view_mode_of(a: App) -> InputMode {
    if a.nav.workbench_view == WorkbenchView::SprintBoard {
        InputMode::BoardView
    } else {
        InputMode::Normal
    }
}

pub open spec fn input_emptied(pre: App, post: App) -> bool {
    post.input.text@.len() == 0 && post.input.cursor == 0 && post == (App {
        input: post.input,
        ..pre
    })
}

/// The place of the board with a number.
pub open spec fn numbered_board(projects: Seq<GitHubProjectV2>, number: Seq<char>, from: int) -> Option<
    int,
>
    decreases projects.len() - from,
{
    if from < 0 || from >= projects.len() {
        None
    } else if signed_decimal(projects[from].project_number as int) == number {
        Some(from)
    } else {
        numbered_board(projects, number, from + 1)
    }
}

/// The board that the configuration names, else the chosen one.
pub open spec fn default_board(a: App) -> usize {
    match a.config.github_app.default_project_id {
        Some(number) => match numbered_board(a.board.projects@, number@, 0) {
            Some(i) => i as usize,
            None => a.board.project_index,
        },
        None => a.board.project_index,
    }
}

/// The list of project boards is open, where any is known.
pub open spec fn opened_boards(pre: App, post: App) -> bool {
    if pre.board.projects@.len() == 0 {
        says(pre, post, "Sync a GitHub project first"@, ToastStyle::Info)
    } else {
        input_emptied(
            in_mode(at_board(pre, default_board(pre)), InputMode::GitHubProjectPicker),
            post,
        )
    }
}

/// The data of the project is synchronised with GitHub.
pub open spec fn syncs(pre: App, post: App, e: Effect) -> bool {
    match project_of(pre) {
        None => e == Effect::Nothing && post == pre,
        Some(project) => if project.is_git_linked {
            e == Effect::SyncGitHub && says(
                pre,
                post,
                "Syncing GitHub data..."@,
                ToastStyle::Info,
            )
        } else {
            e == Effect::Nothing && not_linked(pre, post)
        },
    }
}

/// The board tells that the project has no repository at GitHub.
pub open spec fn not_linked(pre: App, post: App) -> bool {
    (post.board.error matches Some(t) && t@ == "Project not linked to git"@) && post == (App {
        board: Board { error: post.board.error, ..pre.board },
        ..pre
    })
}

pub open spec fn with_default_board(c: Config, number: Option<String>) -> Config {
    Config { github_app: GitHubAppConfig { default_project_id: number, ..c.github_app }, ..c }
}

/// Another default board is saved.
pub open spec fn saves_board(pre: App, post: App, e: Effect, message: Seq<char>) -> bool {
    &&& e matches Effect::SaveGitHubSettings { load_board, notice } && load_board == (
    pre.nav.workbench_view == WorkbenchView::SprintBoard) && notice_is(
        notice,
        message,
        ToastStyle::Success,
    )
    &&& post == (App {
        config: with_default_board(pre.config, post.config.github_app.default_project_id),
        nav: Nav { input_mode: view_mode_of(pre), ..pre.nav },
        ..pre
    })
}

/// A key of the list of project boards.
pub open spec fn boards_step(
    pre: App,
    code: KeyCode,
    m: KeyModifiers,
    post: App,
    e: Effect,
) -> bool {
    let shown = shown_boards(pre);
    match code {
        KeyCode::Esc | KeyCode::Char('q') => e == Effect::Nothing && input_emptied(
            in_mode(pre, view_mode_of(pre)),
            post,
        ),
        KeyCode::Char('j') | KeyCode::Down => e == Effect::Nothing && post == (if shown.len() == 0 {
            pre
        } else {
            at_board(pre, shown[next_place(board_cursor(pre) as usize, shown.len()) as int])
        }),
        KeyCode::Char('k') | KeyCode::Up => e == Effect::Nothing && post == (if shown.len() == 0 {
            pre
        } else {
            at_board(pre, shown[previous_place(board_cursor(pre) as usize) as int])
        }),
        KeyCode::Char('f') | KeyCode::Char('R') => boards_synced(pre, post, e),
        KeyCode::Char('x') => post.config.github_app.default_project_id is None && saves_board(
            pre,
            post,
            e,
            "Cleared default GitHub project; board will use the first synced project"@,
        ),
        KeyCode::Enter => if pre.board.project_index < pre.board.projects@.len() {
            let project = pre.board.projects@[pre.board.project_index as int];
            (post.config.github_app.default_project_id matches Some(n) && n@ == signed_decimal(
                project.project_number as int,
            )) && saves_board(
                pre,
                post,
                e,
                "Selected default GitHub project "@ + project.label@,
            )
        } else {
            e == Effect::Nothing && post == pre
        },
        _ => e == Effect::Nothing && board_typed(pre, code, m, post),
    }
}

/// The boards are asked for anew, and the first of them is selected.
pub open spec fn boards_synced(pre: App, post: App, e: Effect) -> bool {
    exists|mid: App| #[trigger]
        syncs(pre, mid, e) && says(
            at_first_board(mid),
            post,
            "Refreshing GitHub projects..."@,
            ToastStyle::Info,
        )
}

/// The search over the boards was edited; the first board that it finds is selected.
pub open spec fn board_typed(pre: App, code: KeyCode, m: KeyModifiers, post: App) -> bool {
    exists|mid: App| #[trigger]
        input_edited(pre, code, m, mid) && post == (if edited(pre.input@, code, m) is Some {
            at_first_board(mid)
        } else {
            mid
        })
}

/// The text field after an editing key.
pub open spec fn input_edited(pre: App, code: KeyCode, m: KeyModifiers, post: App) -> bool {
    post.input@ == after_edit(pre.input@, code, m) && post == (App { input: post.input, ..pre })
}

fn query_matches(project: &GitHubProjectV2, query: &str) -> (r: bool)
    ensures
        r == (query@.len() == 0 || board_has(*project, query@)),
{
    query.is_empty() || contains(to_lowercase(project.title.as_str()).as_str(), query) || contains(
        format_signed(project.project_number).as_str(),
        query,
    ) || contains(to_lowercase(project.label.as_str()).as_str(), query)
}

fn find_index(v: &Vec<usize>, x: usize) -> (r: Option<usize>)
    ensures
        index_in(v@, x, 0) == match r {
            Some(i) => Some(i as int),
            None => None,
        },
        r matches Some(i) ==> i < v@.len() && v@[i as int] == x,
{
    let mut i: usize = 0;
    while i < v.len()
        invariant
            i <= v@.len(),
            index_in(v@, x, 0) == index_in(v@, x, i as int),
        decreases v@.len() - i,
    {
        if v[i] == x {
            return Some(i);
        }
        i += 1;
    }
    None
}

fn find_numbered(projects: &Vec<GitHubProjectV2>, number: &str) -> (r: Option<usize>)
    ensures
        numbered_board(projects@, number@, 0) == match r {
            Some(i) => Some(i as int),
            None => None,
        },
{
    let mut i: usize = 0;
    while i < projects.len()
        invariant
            i <= projects@.len(),
            numbered_board(projects@, number@, 0) == numbered_board(projects@, number@, i as int),
        decreases projects@.len() - i,
    {
        if same(format_signed(projects[i].project_number).as_str(), number) {
            return Some(i);
        }
        i += 1;
    }
    None
}

impl App {
    /// The places of the project boards that match what was typed.
    pub fn visible_github_project_indices(&self) -> (r: Vec<usize>)
        ensures
            r@ == shown_boards(*self),
            r@.len() <= self.board.projects@.len(),
    {
        let query = to_lowercase(trim(self.input.text.as_str()).as_str());
        let mut r: Vec<usize> = Vec::new();
        let mut i: usize = 0;
        while i < self.board.projects.len()
            invariant
                i <= self.board.projects@.len(),
                query@ == board_query(*self),
                r@ == board_places(self.board.projects@, query@, i as nat),
                r@.len() <= i,
            decreases self.board.projects@.len() - i,
        {
            if query_matches(&self.board.projects[i], query.as_str()) {
                r.push(i);
            }
            i += 1;
        }
        r
    }

    fn default_board_index(&self) -> (r: usize)
        ensures
            r == default_board(*self),
    {
        match &self.config.github_app.default_project_id {
            Some(number) => match find_numbered(&self.board.projects, number.as_str()) {
                Some(i) => i,
                None => self.board.project_index,
            },
            None => self.board.project_index,
        }
    }

    /// Open the list of project boards; the board has been loaded.
    pub fn open_github_project_picker(&mut self)
        ensures
            opened_boards(*old(self), *final(self)),
            old(self).wf() ==> final(self).wf(),
    {
        if self.board.projects.len() == 0 {
            self.show_toast("Sync a GitHub project first".to_owned(), ToastStyle::Info);
            return;
        }
        self.board.project_index = self.default_board_index();
        self.input = TextInput { text: String::new(), cursor: 0 };
        self.nav.input_mode = InputMode::GitHubProjectPicker;
    }

    /// Synchronise the data of the project with GitHub.
    pub fn refresh_board_issues(&mut self) -> (e: Effect)
        ensures
            syncs(*old(self), *final(self), e),
            old(self).wf() ==> final(self).wf(),
    {
        let linked = match self.selected_project() {
            Some(project) => project.is_git_linked,
            None => {
                return Effect::Nothing;
            },
        };
        if linked {
            self.show_toast("Syncing GitHub data...".to_owned(), ToastStyle::Info);
            Effect::SyncGitHub
        } else {
            self.board.error = Some("Project not linked to git".to_owned());
            Effect::Nothing
        }
    }

    fn choose_first_board(&mut self)
        ensures
            *final(self) == at_first_board(*old(self)),
    {
        let shown = self.visible_github_project_indices();
        if shown.len() > 0 {
            self.board.project_index = shown[0];
        }
    }

    fn board_position(&self, shown: &Vec<usize>) -> (r: usize)
        requires
            shown@ == shown_boards(*self),
            shown@.len() > 0,
        ensures
            r == board_cursor(*self),
            r < shown@.len(),
    {
        match find_index(shown, self.board.project_index) {
            Some(i) => i,
            None => 0,
        }
    }

    fn save_default_board(&mut self, number: Option<String>, message: String) -> (e: Effect)
        ensures
            saves_board(*old(self), *final(self), e, message@),
            final(self).config.github_app.default_project_id == number,
    {
        self.config.github_app.default_project_id = number;
        let on_board = self.nav.workbench_view == WorkbenchView::SprintBoard;
        self.nav.input_mode = if on_board {
            InputMode::BoardView
        } else {
            InputMode::Normal
        };
        Effect::SaveGitHubSettings {
            load_board: on_board,
            notice: Toast { message, style: ToastStyle::Success },
        }
    }

    fn leave_boards(&mut self)
        ensures
            input_emptied(in_mode(*old(self), view_mode_of(*old(self))), *final(self)),
    {
        let mode = if self.nav.workbench_view == WorkbenchView::SprintBoard {
            InputMode::BoardView
        } else {
            InputMode::Normal
        };
        self.enter_mode(mode);
        self.input = TextInput { text: String::new(), cursor: 0 };
    }

    fn go_to_board(&mut self, i: usize)
        ensures
            *final(self) == at_board(*old(self), i),
    {
        self.board.project_index = i;
    }

    fn sync_boards(&mut self) -> (e: Effect)
        ensures
            boards_synced(*old(self), *final(self), e),
    {
        let e = self.refresh_board_issues();
        let ghost mid = *self;
        self.choose_first_board();
        self.show_toast("Refreshing GitHub projects...".to_owned(), ToastStyle::Info);
        assert(syncs(*old(self), mid, e));
        e
    }

    fn type_board(&mut self, code: KeyCode, m: KeyModifiers)
        ensures
            board_typed(*old(self), code, m, *final(self)),
    {
        let typed = self.input.apply_text_edit(code, m);
        let ghost mid = *self;
        assert(input_edited(*old(self), code, m, mid));
        if typed {
            self.choose_first_board();
        }
    }

    /// Handle a key of the list of project boards.
    #[verifier::rlimit(40)]
    pub fn handle_github_project_picker_key(
        &mut self,
        code: KeyCode,
        modifiers: KeyModifiers,
    ) -> (e: Effect)
        ensures
            boards_step(*old(self), code, modifiers, *final(self), e),
    {
        match code {
            KeyCode::Esc | KeyCode::Char('q') => {
                self.leave_boards();
                Effect::Nothing
            },
            KeyCode::Char('j') | KeyCode::Down => {
                let shown = self.visible_github_project_indices();
                if shown.len() > 0 {
                    let at: usize = self.board_position(&shown);
                    self.go_to_board(shown[step_down(at, shown.len())]);
                }
                Effect::Nothing
            },
            KeyCode::Char('k') | KeyCode::Up => {
                let shown = self.visible_github_project_indices();
                if shown.len() > 0 {
                    let at: usize = self.board_position(&shown);
                    self.go_to_board(shown[step_up(at)]);
                }
                Effect::Nothing
            },
            KeyCode::Char('f') | KeyCode::Char('R') => self.sync_boards(),
            KeyCode::Char('x') => self.save_default_board(
                None,
                "Cleared default GitHub project; board will use the first synced project".to_owned(),
            ),
            KeyCode::Enter => {
                if self.board.project_index >= self.board.projects.len() {
                    return Effect::Nothing;
                }
                let project = &self.board.projects[self.board.project_index];
                let number = format_signed(project.project_number);
                let message = "Selected default GitHub project ".to_owned().concat(
                    project.label.as_str(),
                );
                self.save_default_board(Some(number), message)
            },
            _ => {
                self.type_board(code, modifiers);
                Effect::Nothing
            },
        }
    }
}

// ---------------------------------------------------------------------------
// Installations
// ---------------------------------------------------------------------------

/// A key of the list of installations.
pub open spec fn installations_step(pre: App, code: KeyCode, post: App, e: Effect) -> bool {
    let i = pre.nav.installation_index;
    let list = pre.github.installations@;
    match code {
        KeyCode::Esc | KeyCode::Char('q') => e == Effect::Nothing && post == in_mode(
            pre,
            InputMode::Normal,
        ),
        KeyCode::Char('j') | KeyCode::Down => e == Effect::Nothing && post == (App {
            nav: Nav { installation_index: crate::moves::down(i, list.len()), ..pre.nav },
            ..pre
        }),
        KeyCode::Char('k') | KeyCode::Up => e == Effect::Nothing && post == (App {
            nav: Nav { installation_index: previous_place(i), ..pre.nav },
            ..pre
        }),
        KeyCode::Char('f') | KeyCode::Char('r') => e == Effect::FetchInstallations && says(
            pre,
            post,
            "Refreshing GitHub installations..."@,
            ToastStyle::Info,
        ),
        KeyCode::Enter => if i < list.len() {
            let id = signed_decimal(list[i as int].id as int);
            &&& e matches Effect::SaveGitHubSettings { load_board, notice } && !load_board
                && notice_is(
                notice,
                "Selected GitHub installation "@ + list[i as int].login@ + " ("@ + id + ")"@,
                ToastStyle::Success,
            )
            &&& post.config.github_app.default_installation_id matches Some(t) && t@ == id
            &&& post == (App {
                config: Config {
                    github_app: GitHubAppConfig {
                        default_installation_id: post.config.github_app.default_installation_id,
                        ..pre.config.github_app
                    },
                    ..pre.config
                },
                nav: Nav { input_mode: InputMode::Normal, ..pre.nav },
                ..pre
            })
        } else {
            e == Effect::Nothing && post == pre
        },
        _ => e == Effect::Nothing && post == pre,
    }
}

impl App {
    /// Handle a key of the list of installations.
    pub fn handle_github_installation_picker_key(&mut self, code: KeyCode) -> (e: Effect)
        ensures
            installations_step(*old(self), code, *final(self), e),
    {
        match code {
            KeyCode::Esc | KeyCode::Char('q') => {
                self.nav.input_mode = InputMode::Normal;
                Effect::Nothing
            },
            KeyCode::Char('j') | KeyCode::Down => {
                if self.github.installations.len() > 0 {
                    self.nav.installation_index = step_down(
                        self.nav.installation_index,
                        self.github.installations.len(),
                    );
                }
                Effect::Nothing
            },
            KeyCode::Char('k') | KeyCode::Up => {
                self.nav.installation_index = step_up(self.nav.installation_index);
                Effect::Nothing
            },
            KeyCode::Char('f') | KeyCode::Char('r') => {
                self.show_toast("Refreshing GitHub installations...".to_owned(), ToastStyle::Info);
                Effect::FetchInstallations
            },
            KeyCode::Enter => {
                if self.nav.installation_index >= self.github.installations.len() {
                    return Effect::Nothing;
                }
                let chosen = &self.github.installations[self.nav.installation_index];
                let id = format_signed(chosen.id);
                let mut message = "Selected GitHub installation ".to_owned();
                message.append(chosen.login.as_str());
                message.append(" (");
                message.append(id.as_str());
                message.append(")");
                self.config.github_app.default_installation_id = Some(id);
                self.nav.input_mode = InputMode::Normal;
                Effect::SaveGitHubSettings {
                    load_board: false,
                    notice: Toast { message, style: ToastStyle::Success },
                }
            },
            _ => Effect::Nothing,
        }
    }
}

// ---------------------------------------------------------------------------
// Projects
// ---------------------------------------------------------------------------

/// The list of projects is open at the selected one, and nothing has been typed.
pub open spec fn opened_projects(pre: App, post: App) -> bool {
    if pre.projects@.len() == 0 {
        says(pre, post, "Add a repository first"@, ToastStyle::Info)
    } else {
        input_emptied(
            App {
                nav: Nav {
                    project_picker_index: clamped(pre.nav.project_index, pre.projects@.len()),
                    input_mode: InputMode::ProjectPicker,
                    ..pre.nav
                },
                ..pre
            },
            post,
        )
    }
}

/// The places of the first `n` projects with a query in their names, in order.
pub open spec fn project_places(projects: Seq<Project>, query: Seq<char>, n: nat) -> Seq<usize>
    decreases n,
{
    if n == 0 {
        Seq::empty()
    } else {
        let rest = project_places(projects, query, (n - 1) as nat);
        if query.len() == 0 || contains_text(lowercase(projects[n - 1].name@), query) {
            rest.push((n - 1) as usize)
        } else {
            rest
        }
    }
}

/// The projects that the list shows: those with what was typed in their names.
pub open spec fn shown_projects(a: App) -> Seq<usize> {
    project_places(a.projects@, board_query(a), a.projects@.len())
}

/// The place of the chosen project among those that are shown.
pub open spec fn project_cursor(a: App) -> Option<int> {
    index_in(shown_projects(a), a.nav.project_picker_index, 0)
}

pub open spec fn at_project(a: App, i: usize) -> App {
    App { nav: Nav { project_picker_index: i, ..a.nav }, ..a }
}

/// The first of the projects that are shown is chosen.
pub open spec fn at_first_project(a: App) -> App {
    if shown_projects(a).len() > 0 {
        at_project(a, shown_projects(a)[0])
    } else {
        a
    }
}

/// The project after or before the chosen one is chosen; a chosen one that is not shown
/// gives way to the first.
pub open spec fn project_moved(a: App, down: bool) -> App {
    match project_cursor(a) {
        Some(i) => at_project(
            a,
            shown_projects(a)[if down {
                next_place(i as usize, shown_projects(a).len()) as int
            } else {
                previous_place(i as usize) as int
            }],
        ),
        None => at_first_project(a),
    }
}

/// The chosen project becomes the selected one.
pub open spec fn project_picked(a: App) -> App {
    let i = a.nav.project_picker_index;
    App {
        nav: Nav {
            project_index: i,
            sidebar_cursor: (WorkbenchView::all().len() + i) as usize,
            task_index: 0,
            thread_index: 0,
            review_index: 0,
            inspector_scroll: 0,
            ..a.nav
        },
        ..a
    }
}

/// The search over the projects was edited; the first project that it finds is chosen.
pub open spec fn project_typed(pre: App, code: KeyCode, m: KeyModifiers, post: App) -> bool {
    exists|mid: App| #[trigger]
        input_edited(pre, code, m, mid) && post == (if edited(pre.input@, code, m) is Some {
            at_first_project(mid)
        } else {
            mid
        })
}

/// A key of the list of projects.
pub open spec fn projects_step(
    pre: App,
    code: KeyCode,
    m: KeyModifiers,
    post: App,
    e: Effect,
) -> bool {
    match code {
        KeyCode::Esc => e == Effect::Nothing && post == in_mode(pre, InputMode::Normal),
        KeyCode::Char('j') | KeyCode::Down => e == Effect::Nothing && post == project_moved(
            pre,
            true,
        ),
        KeyCode::Char('k') | KeyCode::Up => e == Effect::Nothing && post == project_moved(
            pre,
            false,
        ),
        KeyCode::Enter => if project_cursor(pre) is Some {
            e == Effect::SwitchProject && post == project_picked(pre)
        } else {
            e == Effect::Nothing && post == pre
        },
        _ => e == Effect::Nothing && project_typed(pre, code, m, post),
    }
}

/// The records of the project that was chosen have been loaded.
pub open spec fn project_shown(pre: App, post: App, e: Effect) -> bool {
    let mid = in_mode(pre, view_mode_of(pre));
    &&& e == if pre.nav.workbench_view == WorkbenchView::SprintBoard {
        Effect::LoadBoard
    } else {
        Effect::Nothing
    }
    &&& match project_of(pre) {
        Some(project) => says(
            mid,
            post,
            "Switched to project "@ + project.name@,
            ToastStyle::Success,
        ),
        None => post == mid,
    }
}

impl App {
    /// Open the list of projects.
    pub fn open_project_picker(&mut self)
        ensures
            opened_projects(*old(self), *final(self)),
            old(self).wf() ==> final(self).wf(),
    {
        if self.projects.len() == 0 {
            self.show_toast("Add a repository first".to_owned(), ToastStyle::Info);
            return;
        }
        self.nav.project_picker_index = crate::board_state::clamp(
            self.nav.project_index,
            self.projects.len(),
        );
        self.enter_mode(InputMode::ProjectPicker);
        self.input = TextInput { text: String::new(), cursor: 0 };
    }

    /// The places of the projects that match what was typed.
    pub fn visible_project_indices(&self) -> (r: Vec<usize>)
        ensures
            r@ == shown_projects(*self),
            forall|k: int| 0 <= k < r@.len() ==> (#[trigger] r@[k]) < self.projects@.len(),
    {
        let query = to_lowercase(trim(self.input.text.as_str()).as_str());
        let mut r: Vec<usize> = Vec::new();
        let mut i: usize = 0;
        while i < self.projects.len()
            invariant
                i <= self.projects@.len(),
                query@ == board_query(*self),
                r@ == project_places(self.projects@, query@, i as nat),
                forall|k: int| 0 <= k < r@.len() ==> (#[trigger] r@[k]) < i,
            decreases self.projects@.len() - i,
        {
            if query.as_str().is_empty() || contains(
                to_lowercase(self.projects[i].name.as_str()).as_str(),
                query.as_str(),
            ) {
                r.push(i);
            }
            i += 1;
        }
        r
    }

    fn choose_project(&mut self, i: usize)
        ensures
            *final(self) == at_project(*old(self), i),
            old(self).wf() ==> final(self).wf(),
    {
        self.nav.project_picker_index = i;
    }

    fn choose_first_project(&mut self)
        ensures
            *final(self) == at_first_project(*old(self)),
            old(self).wf() ==> final(self).wf(),
    {
        let shown = self.visible_project_indices();
        if shown.len() > 0 {
            self.choose_project(shown[0]);
        }
    }

    fn move_in_projects(&mut self, down: bool)
        ensures
            *final(self) == project_moved(*old(self), down),
            old(self).wf() ==> final(self).wf(),
    {
        let shown = self.visible_project_indices();
        match find_index(&shown, self.nav.project_picker_index) {
            Some(i) => {
                let to: usize = if down {
                    step_down(i, shown.len())
                } else {
                    step_up(i)
                };
                self.choose_project(shown[to]);
            },
            None => {
                self.choose_first_project();
            },
        }
    }

    fn pick_project(&mut self) -> (e: Effect)
        requires
            old(self).wf(),
        ensures
            if project_cursor(*old(self)) is Some {
                e == Effect::SwitchProject && *final(self) == project_picked(*old(self))
            } else {
                e == Effect::Nothing && *final(self) == *old(self)
            },
            final(self).wf(),
    {
        let shown = self.visible_project_indices();
        let i: usize = self.nav.project_picker_index;
        match find_index(&shown, i) {
            Some(_) => {
                let mut nav = self.nav;
                nav.project_index = i;
                nav.sidebar_cursor = App::sidebar_nav_count() + i;
                nav.task_index = 0;
                nav.thread_index = 0;
                nav.review_index = 0;
                nav.inspector_scroll = 0;
                self.nav = nav;
                Effect::SwitchProject
            },
            None => Effect::Nothing,
        }
    }

    fn type_project(&mut self, code: KeyCode, m: KeyModifiers)
        requires
            old(self).wf(),
        ensures
            project_typed(*old(self), code, m, *final(self)),
            final(self).wf(),
    {
        let typed = self.input.apply_text_edit(code, m);
        let ghost mid = *self;
        assert(input_edited(*old(self), code, m, mid));
        if typed {
            self.choose_first_project();
        }
    }

    /// Handle a key of the list of projects.
    pub fn handle_project_picker_key(&mut self, code: KeyCode, modifiers: KeyModifiers) -> (e:
        Effect)
        requires
            old(self).wf(),
        ensures
            projects_step(*old(self), code, modifiers, *final(self), e),
            final(self).wf(),
    {
        match code {
            KeyCode::Esc => {
                self.enter_mode(InputMode::Normal);
                Effect::Nothing
            },
            KeyCode::Char('j') | KeyCode::Down => {
                self.move_in_projects(true);
                Effect::Nothing
            },
            KeyCode::Char('k') | KeyCode::Up => {
                self.move_in_projects(false);
                Effect::Nothing
            },
            KeyCode::Enter => self.pick_project(),
            _ => {
                self.type_project(code, modifiers);
                Effect::Nothing
            },
        }
    }

    /// Show the project that was chosen; its records have been loaded.
    pub fn project_switched(&mut self) -> (e: Effect)
        ensures
            project_shown(*old(self), *final(self), e),
            old(self).wf() ==> final(self).wf(),
    {
        let on_board = self.nav.workbench_view == WorkbenchView::SprintBoard;
        self.nav.input_mode = if on_board {
            InputMode::BoardView
        } else {
            InputMode::Normal
        };
        let name = match self.selected_project() {
            Some(project) => Some(project.name.clone()),
            None => None,
        };
        if let Some(name) = name {
            self.show_toast(
                "Switched to project ".to_owned().concat(name.as_str()),
                ToastStyle::Success,
            );
        }
        if on_board {
            Effect::LoadBoard
        } else {
            Effect::Nothing
        }
    }
}

// ---------------------------------------------------------------------------
// Providers
// ---------------------------------------------------------------------------

/// The two providers, in the order of the list.
pub open spec fn provider_at(i: usize) -> ProviderKind {
    if i == 0 {
        ProviderKind::Claude
    } else {
        ProviderKind::Codex
    }
}

pub open spec fn provider_place(k: ProviderKind) -> usize {
    match k {
        ProviderKind::Claude => 0,
        ProviderKind::Codex => 1,
    }
}

/// The thread whose provider is chosen: that of the session that is shown, else the
/// selected one.
pub open spec fn provider_target(a: App, stored: Option<Thread>) -> Option<Thread> {
    if shows_thread(a, stored) {
        active_thread(a, stored)
    } else {
        thread_of(a)
    }
}

pub open spec fn opened_providers(pre: App, stored: Option<Thread>, post: App) -> bool {
    match provider_target(pre, stored) {
        None => says(pre, post, "Select a thread first"@, ToastStyle::Info),
        Some(thread) => post == (App {
            nav: Nav {
                provider_picker_index: provider_place(thread.provider_kind),
                input_mode: InputMode::ThreadProviderPicker,
                ..pre.nav
            },
            ..pre
        }),
    }
}

/// A key of the list of providers.
pub open spec fn providers_picker_step(
    pre: App,
    stored: Option<Thread>,
    code: KeyCode,
    post: App,
    e: Effect,
) -> bool {
    let i = pre.nav.provider_picker_index;
    match code {
        KeyCode::Esc | KeyCode::Char('q') => e == Effect::Nothing && post == in_mode(
            pre,
            InputMode::Normal,
        ),
        KeyCode::Char('j')
        | KeyCode::Char('l')
        | KeyCode::Down
        | KeyCode::Right
        | KeyCode::Char('k')
        | KeyCode::Char('h')
        | KeyCode::Up
        | KeyCode::Left => e == Effect::Nothing && post == (App {
            nav: Nav { provider_picker_index: (1 - i) as usize, ..pre.nav },
            ..pre
        }),
        KeyCode::Enter => match provider_target(pre, stored) {
            None => e == Effect::Nothing && says(
                in_mode(pre, InputMode::Normal),
                post,
                "Select a thread first"@,
                ToastStyle::Info,
            ),
            Some(thread) => post == pre && e == (Effect::SwitchProvider {
                thread: thread,
                provider: provider_at(i),
            }),
        },
        _ => e == Effect::Nothing && post == pre,
    }
}

/// The last place at which a text holds the beginning of a provider's name in
/// brackets.
pub open spec fn last_bracket(label: Seq<char>, n: int) -> Option<int>
    decreases n,
{
    if n <= 0 {
        None
    } else if occurs_at(label, " ["@, n - 1) {
        Some(n - 1)
    } else {
        last_bracket(label, n - 1)
    }
}

/// The label of a tab with another provider in it.
pub open spec fn provider_label(label: Seq<char>, provider: Seq<char>) -> Seq<char> {
    match last_bracket(label, label.len() as int) {
        Some(i) => label.take(i) + " ["@ + provider + "]"@,
        None => label + " ["@ + provider + "]"@,
    }
}

/// The tab shows the conversation with another provider.
pub open spec fn is_switched_tab(pre: Tab, post: Tab, provider: Seq<char>) -> bool {
    match pre {
        Tab::Session { session_id, label, view_mode, panes } => post matches Tab::Session {
            session_id: id,
            label: l,
            view_mode: v,
            panes: p,
        } && id == session_id && l@ == provider_label(label@, provider) && v
            == SessionTabView::Conversation && p == panes,
        Tab::Dashboard => post == pre,
    }
}

/// The tab of a thread that is live goes over to another provider.
pub open spec fn live_switched(
    pre: App,
    thread: Thread,
    kind: ProviderKind,
    post: App,
    r: bool,
) -> bool {
    match live_session_of(pre, thread) {
        Some(session) => match tab_place(pre.tabs@, session.id@) {
            Some(i) => r && post.tabs@.len() == pre.tabs@.len() && is_switched_tab(
                pre.tabs@[i],
                post.tabs@[i],
                provider_text(kind, pre.agent.id@),
            ) && (forall|k: int|
                0 <= k < pre.tabs@.len() && k != i ==> (#[trigger] post.tabs@[k]) == pre.tabs@[k])
                && post == (App { tabs: post.tabs, ..pre }),
            None => !r && post == pre,
        },
        None => !r && post == pre,
    }
}

pub open spec fn switch_message(live: bool, provider: Seq<char>) -> Seq<char> {
    if live {
        "Switched live thread to "@ + provider
    } else {
        "Provider set to "@ + provider + " — press l to continue"@
    }
}

fn relabel(label: &String, provider: &str) -> (r: String)
    ensures
        r@ == provider_label(label@, provider@),
{
    let cs = chars_of(label.as_str());
    let mut n: usize = cs.len();
    let mut base = label.clone();
    let mut open = true;
    proof {
        reveal_strlit(" [");
    }
    while n > 0 && open
        invariant
            n <= cs@.len(),
            cs@ == label@,
            " ["@ == seq![' ', '['],
            open ==> last_bracket(label@, label@.len() as int) == last_bracket(label@, n as int)
                && base@ == label@,
            !open ==> last_bracket(label@, label@.len() as int) == Some(n as int) && base@
                == label@.take(n as int),
        decreases (if open {
            n as int
        } else {
            0
        }),
    {
        n -= 1;
        proof {
            let here = n + 2 <= cs@.len() && cs@[n as int] == ' ' && cs@[n + 1] == '[';
            if here {
                assert(label@.subrange(n as int, n + 2) =~= " ["@);
            } else if occurs_at(label@, " ["@, n as int) {
                assert(label@.subrange(n as int, n + 2)[0] == label@[n as int]);
                assert(label@.subrange(n as int, n + 2)[1] == label@[n + 1]);
            }
        }
        if n + 1 < cs.len() && cs[n] == ' ' && cs[n + 1] == '[' {
            base = text_between(&cs, 0, n);
            assert(base@ =~= label@.take(n as int));
            open = false;
        }
    }
    let mut r = base;
    r.append(" [");
    r.append(provider);
    r.append("]");
    r
}

impl App {
    fn thread_provider_picker_target(&self, stored: &Option<Thread>) -> (r: Option<Thread>)
        requires
            self.wf(),
        ensures
            r == provider_target(*self, *stored),
    {
        if self.active_session_uses_thread_workspace(stored) {
            self.active_session_thread(stored)
        } else {
            match self.selected_thread() {
                Some(thread) => Some(thread.clone()),
                None => None,
            }
        }
    }

    /// Open the list of providers.
    pub fn open_thread_provider_picker(&mut self, stored: &Option<Thread>)
        requires
            old(self).wf(),
        ensures
            opened_providers(*old(self), *stored, *final(self)),
            final(self).wf(),
    {
        match self.thread_provider_picker_target(stored) {
            Some(thread) => {
                self.nav.provider_picker_index = match thread.provider_kind {
                    ProviderKind::Claude => 0,
                    ProviderKind::Codex => 1,
                };
                self.nav.input_mode = InputMode::ThreadProviderPicker;
            },
            None => {
                self.show_toast("Select a thread first".to_owned(), ToastStyle::Info);
            },
        }
    }

    /// Handle a key of the list of providers.
    pub fn handle_thread_provider_picker_key(&mut self, stored: &Option<Thread>, code: KeyCode) -> (e:
        Effect)
        requires
            old(self).wf(),
        ensures
            providers_picker_step(*old(self), *stored, code, *final(self), e),
            final(self).wf(),
    {
        match code {
            KeyCode::Esc | KeyCode::Char('q') => {
                self.nav.input_mode = InputMode::Normal;
                Effect::Nothing
            },
            KeyCode::Char('j')
            | KeyCode::Char('l')
            | KeyCode::Down
            | KeyCode::Right
            | KeyCode::Char('k')
            | KeyCode::Char('h')
            | KeyCode::Up
            | KeyCode::Left => {
                self.nav.provider_picker_index = 1 - self.nav.provider_picker_index;
                Effect::Nothing
            },
            KeyCode::Enter => match self.thread_provider_picker_target(stored) {
                Some(thread) => {
                    let provider = if self.nav.provider_picker_index == 0 {
                        ProviderKind::Claude
                    } else {
                        ProviderKind::Codex
                    };
                    Effect::SwitchProvider { thread, provider }
                },
                None => {
                    self.nav.input_mode = InputMode::Normal;
                    self.show_toast("Select a thread first".to_owned(), ToastStyle::Info);
                    Effect::Nothing
                },
            },
            _ => Effect::Nothing,
        }
    }

    /// Let the tab of a live thread go over to another provider. The result tells
    /// whether there is one.
    pub fn switch_live_tab(&mut self, thread: &Thread, kind: ProviderKind) -> (r: bool)
        ensures
            live_switched(*old(self), *thread, kind, *final(self), r),
            old(self).wf() ==> final(self).wf(),
    {
        let session = match self.live_session_for_thread(thread) {
            Some(session) => session,
            None => {
                return false;
            },
        };
        let i: usize = match self.find_session_tab(session.id.as_str()) {
            Some(i) => i,
            None => {
                return false;
            },
        };
        let provider = provider_name(kind, self.agent.id.as_str());
        match &mut self.tabs[i] {
            Tab::Session { label, view_mode, .. } => {
                *label = relabel(label, provider.as_str());
                *view_mode = SessionTabView::Conversation;
            },
            Tab::Dashboard => {},
        }
        true
    }

    /// The provider of a thread has been changed.
    pub fn provider_switched(&mut self, kind: ProviderKind, live: bool)
        ensures
            says(
                in_mode(*old(self), InputMode::Normal),
                *final(self),
                switch_message(live, provider_text(kind, old(self).agent.id@)),
                ToastStyle::Success,
            ),
            old(self).wf() ==> final(self).wf(),
    {
        self.nav.input_mode = InputMode::Normal;
        let provider = provider_name(kind, self.agent.id.as_str());
        let message = if live {
            "Switched live thread to ".to_owned().concat(provider.as_str())
        } else {
            let mut message = "Provider set to ".to_owned();
            message.append(provider.as_str());
            message.append(" — press l to continue");
            message
        };
        self.show_toast(message, ToastStyle::Success);
    }
}

/// What a thread notes of another provider.
pub fn switch_note(kind: ProviderKind, agent_id: &str) -> (r: String)
    ensures
        r@ == "Switched thread provider to "@ + provider_text(kind, agent_id@) + "."@,
{
    let mut r = "Switched thread provider to ".to_owned();
    r.append(provider_name(kind, agent_id).as_str());
    r.append(".");
    r
}

/// What a session shows of another provider.
pub fn switch_activity(kind: ProviderKind, agent_id: &str) -> (r: String)
    ensures
        r@ == "Switched to "@ + provider_text(kind, agent_id@),
{
    "Switched to ".to_owned().concat(provider_name(kind, agent_id).as_str())
}

/// The profile under which another provider goes on: the one of the thread, else the
/// default.
pub fn profile_kept(thread: &Thread) -> (r: String)
    ensures
        r@ == match thread.provider_profile {
            Some(profile) => profile@,
            None => "default"@,
        },
{
    match &thread.provider_profile {
        Some(profile) => profile.clone(),
        None => "default".to_owned(),
    }
}

// ---------------------------------------------------------------------------
// Laws
// ---------------------------------------------------------------------------

proof fn lemma_all_projects(projects: Seq<Project>, n: nat)
    requires
        n <= projects.len() <= usize::MAX,
    ensures
        project_places(projects, Seq::empty(), n) == Seq::new(n, |i: int| i as usize),
    decreases n,
{
    if n > 0 {
        lemma_all_projects(projects, (n - 1) as nat);
        assert(Seq::new(n, |i: int| i as usize) =~= Seq::new(
            (n - 1) as nat,
            |i: int| i as usize,
        ).push((n - 1) as usize));
    } else {
        assert(Seq::new(n, |i: int| i as usize) =~= Seq::empty());
    }
}

proof fn lemma_index_of(v: Seq<usize>, x: usize, from: int)
    requires
        0 <= from <= x < v.len(),
        forall|k: int| 0 <= k < v.len() ==> (#[trigger] v[k]) == k,
    ensures
        index_in(v, x, from) == Some(x as int),
    decreases x - from,
{
    if from < x {
        lemma_index_of(v, x, from + 1);
    }
}

/// While nothing has been typed, the list of projects shows them all, and its keys go to
/// the next one and the one before, not past either end.
pub proof fn law_an_empty_search_moves_over_all_projects(a: App)
    requires
        board_query(a).len() == 0,
        a.nav.project_picker_index < a.projects@.len() <= usize::MAX,
    ensures
        shown_projects(a) == Seq::new(a.projects@.len(), |i: int| i as usize),
        project_moved(a, true) == at_project(
            a,
            next_place(a.nav.project_picker_index, a.projects@.len()),
        ),
        project_moved(a, false) == at_project(a, previous_place(a.nav.project_picker_index)),
{
    assert(board_query(a) =~= Seq::empty());
    lemma_all_projects(a.projects@, a.projects@.len());
    lemma_index_of(shown_projects(a), a.nav.project_picker_index, 0);
}

proof fn lemma_shown_boards(projects: Seq<GitHubProjectV2>, query: Seq<char>, n: nat, k: int)
    requires
        n <= projects.len() <= usize::MAX,
    ensures
        0 <= k < n && (query.len() == 0 || board_has(projects[k], query)) ==> board_places(
            projects,
            query,
            n,
        ).contains(k as usize),
        0 <= k < n && query.len() > 0 && !board_has(projects[k], query) ==> !board_places(
            projects,
            query,
            n,
        ).contains(k as usize),
        forall|i: int|
            0 <= i < board_places(projects, query, n).len() ==> (#[trigger] board_places(
                projects,
                query,
                n,
            )[i]) < n,
    decreases n,
{
    if n > 0 {
        let m = (n - 1) as nat;
        lemma_shown_boards(projects, query, m, k);
        let rest = board_places(projects, query, m);
        let all = board_places(projects, query, n);
        assert forall|i: int| 0 <= i < all.len() implies (#[trigger] all[i]) < n by {
            if i < rest.len() {
                assert(all[i] == rest[i]);
            }
        }
        if 0 <= k < n && (query.len() == 0 || board_has(projects[k], query)) {
            if k < m {
                let j = choose|j: int| 0 <= j < rest.len() && rest[j] == k as usize;
                assert(all[j] == k as usize);
            } else {
                assert(all[all.len() - 1] == k as usize);
            }
        }
        if 0 <= k < n && query.len() > 0 && !board_has(projects[k], query) && all.contains(
            k as usize,
        ) {
            let j = choose|j: int| 0 <= j < all.len() && all[j] == k as usize;
            if j < rest.len() {
                assert(rest[j] == k as usize);
                if k == m {
                    assert(rest[j] < m);
                }
            }
        }
    }
}

/// The list of project boards shows every board whose title, number or label holds what was
/// typed, in lower case and without the space around it.
pub proof fn law_boards_are_found(a: App, k: int)
    requires
        0 <= k < a.board.projects@.len(),
    ensures
        ({
            let q = lowercase(trimmed(a.input.text@));
            let p = a.board.projects@[k];
            &&& q.len() == 0 ==> shown_boards(a).contains(k as usize)
            &&& contains_text(lowercase(p.title@), q) ==> shown_boards(a).contains(k as usize)
            &&& contains_text(signed_decimal(p.project_number as int), q) ==> shown_boards(
                a,
            ).contains(k as usize)
            &&& contains_text(lowercase(p.label@), q) ==> shown_boards(a).contains(k as usize)
            &&& q.len() > 0 && !contains_text(lowercase(p.title@), q) && !contains_text(
                signed_decimal(p.project_number as int),
                q,
            ) && !contains_text(lowercase(p.label@), q) ==> !shown_boards(a).contains(k as usize)
        }),
{
    assert(a.board.projects.len() == a.board.projects@.len());
    lemma_shown_boards(a.board.projects@, board_query(a), a.board.projects@.len(), k);
}

proof fn lemma_shown_projects(projects: Seq<Project>, query: Seq<char>, n: nat, k: int)
    requires
        n <= projects.len() <= usize::MAX,
    ensures
        0 <= k < n && (query.len() == 0 || contains_text(lowercase(projects[k].name@), query))
            ==> project_places(projects, query, n).contains(k as usize),
        0 <= k < n && query.len() > 0 && !contains_text(lowercase(projects[k].name@), query)
            ==> !project_places(projects, query, n).contains(k as usize),
        forall|i: int|
            0 <= i < project_places(projects, query, n).len() ==> (#[trigger] project_places(
                projects,
                query,
                n,
            )[i]) < n,
    decreases n,
{
    if n > 0 {
        let m = (n - 1) as nat;
        lemma_shown_projects(projects, query, m, k);
        let rest = project_places(projects, query, m);
        let all = project_places(projects, query, n);
        assert forall|i: int| 0 <= i < all.len() implies (#[trigger] all[i]) < n by {
            if i < rest.len() {
                assert(all[i] == rest[i]);
            }
        }
        if 0 <= k < n && (query.len() == 0 || contains_text(lowercase(projects[k].name@), query)) {
            if k < m {
                let j = choose|j: int| 0 <= j < rest.len() && rest[j] == k as usize;
                assert(all[j] == k as usize);
            } else {
                assert(all[all.len() - 1] == k as usize);
            }
        }
        if 0 <= k < n && query.len() > 0 && !contains_text(lowercase(projects[k].name@), query)
            && all.contains(k as usize) {
            let j = choose|j: int| 0 <= j < all.len() && all[j] == k as usize;
            if j < rest.len() {
                assert(rest[j] == k as usize);
                if k == m {
                    assert(rest[j] < m);
                }
            }
        }
    }
}

/// The list of projects shows every project whose lowercased name holds what was typed, in
/// lower case and without the space around it, and no other.
pub proof fn law_projects_are_found(a: App, k: int)
    requires
        0 <= k < a.projects@.len(),
    ensures
        ({
            let q = lowercase(trimmed(a.input.text@));
            &&& q.len() == 0 || contains_text(lowercase(a.projects@[k].name@), q)
                ==> shown_projects(a).contains(k as usize)
            &&& q.len() > 0 && !contains_text(lowercase(a.projects@[k].name@), q)
                ==> !shown_projects(a).contains(k as usize)
        }),
{
    assert(a.projects.len() == a.projects@.len());
    lemma_shown_projects(a.projects@, board_query(a), a.projects@.len(), k);
}

/// The list of boards opens on the one that the settings name by its number.
pub proof fn law_the_default_board_is_marked(a: App, k: int)
    requires
        0 <= k < a.board.projects@.len(),
        a.config.github_app.default_project_id is Some,
        signed_decimal(a.board.projects@[k].project_number as int)
            == a.config.github_app.default_project_id->0@,
        forall|j: int|
            0 <= j < k ==> signed_decimal((#[trigger] a.board.projects@[j]).project_number as int)
                != a.config.github_app.default_project_id->0@,
    ensures
        default_board(a) == k,
{
    assert(a.board.projects.len() == a.board.projects@.len());
    lemma_numbered(a.board.projects@, a.config.github_app.default_project_id->0@, 0, k);
}

proof fn lemma_numbered(projects: Seq<GitHubProjectV2>, number: Seq<char>, from: int, k: int)
    requires
        0 <= from <= k < projects.len(),
        signed_decimal(projects[k].project_number as int) == number,
        forall|j: int|
            from <= j < k ==> signed_decimal((#[trigger] projects[j]).project_number as int)
                != number,
    ensures
        numbered_board(projects, number, from) == Some(k),
    decreases k - from,
{
    if from < k {
        assert(signed_decimal(projects[from].project_number as int) != number);
        lemma_numbered(projects, number, from + 1, k);
    }
}

/// A chosen board is stored by its number, `x` clears it, and escape leaves the settings as
/// they are.
pub proof fn law_chosen_boards_are_stored(
    pre: App,
    code: KeyCode,
    m: KeyModifiers,
    post: App,
    e: Effect,
)
    requires
        boards_step(pre, code, m, post, e),
        pre.board.project_index < pre.board.projects@.len(),
    ensures
        code == KeyCode::Enter ==> (post.config.github_app.default_project_id matches Some(n) && n@
            == signed_decimal(
            pre.board.projects@[pre.board.project_index as int].project_number as int,
        )) && (e matches Effect::SaveGitHubSettings { load_board, .. } && load_board == (
        pre.nav.workbench_view == WorkbenchView::SprintBoard)),
        code == KeyCode::Char('x') ==> post.config.github_app.default_project_id is None
            && e is SaveGitHubSettings,
        code == KeyCode::Esc || code == KeyCode::Char('q') ==> post.config == pre.config
            && post.input.text@.len() == 0 && e == Effect::Nothing,
        code == KeyCode::Enter || code == KeyCode::Esc ==> (pre.nav.workbench_view
            == WorkbenchView::SprintBoard ==> post.nav.input_mode == InputMode::BoardView) && (
        pre.nav.workbench_view != WorkbenchView::SprintBoard ==> post.nav.input_mode
            == InputMode::Normal),
{
}

/// GitHub is read anew for a project that is linked to its repository, and for no other.
pub proof fn law_only_linked_projects_sync(pre: App, post: App, e: Effect)
    requires
        syncs(pre, post, e),
    ensures
        project_of(pre) matches Some(p) ==> {
            &&& p.is_git_linked ==> e == Effect::SyncGitHub && post.toast is Some
            &&& !p.is_git_linked ==> e == Effect::Nothing && post.board.error is Some
        },
        project_of(pre) is None ==> e == Effect::Nothing && post == pre,
{
}

/// A chosen installation is stored by its number.
pub proof fn law_chosen_installations_are_stored(pre: App, code: KeyCode, post: App, e: Effect)
    requires
        installations_step(pre, code, post, e),
    ensures
        code == KeyCode::Enter && pre.nav.installation_index < pre.github.installations@.len() ==> (
        post.config.github_app.default_installation_id matches Some(t) && t@ == signed_decimal(
            pre.github.installations@[pre.nav.installation_index as int].id as int,
        )) && e is SaveGitHubSettings && post.nav.input_mode == InputMode::Normal,
        code == KeyCode::Down && pre.nav.installation_index + 1 < pre.github.installations@.len()
            ==> post.nav.installation_index == pre.nav.installation_index + 1,
        code == KeyCode::Up && pre.nav.installation_index > 0 ==> post.nav.installation_index + 1
            == pre.nav.installation_index,
        code == KeyCode::Char('f') || code == KeyCode::Char('r') ==> e
            == Effect::FetchInstallations,
        code == KeyCode::Esc || code == KeyCode::Char('q') ==> post.config == pre.config
            && post.nav.input_mode == InputMode::Normal,
{
    assert(pre.github.installations.len() == pre.github.installations@.len());
}

/// A project that is switched to is shown from the start of its lists.
pub proof fn law_switched_projects_start_anew(
    pre: App,
    code: KeyCode,
    m: KeyModifiers,
    post: App,
    e: Effect,
)
    requires
        projects_step(pre, code, m, post, e),
        pre.nav.project_picker_index < 1000,
        shown_projects(pre).contains(pre.nav.project_picker_index),
    ensures
        code == KeyCode::Enter ==> e == Effect::SwitchProject && post.nav.project_index
            == pre.nav.project_picker_index && post.nav.task_index == 0 && post.nav.thread_index
            == 0 && post.nav.review_index == 0 && post.nav.sidebar_cursor == 5
            + pre.nav.project_picker_index,
        code == KeyCode::Esc ==> post.nav.project_index == pre.nav.project_index
            && post.nav.input_mode == InputMode::Normal && e == Effect::Nothing,
        code != KeyCode::Enter ==> e != Effect::SwitchProject,
{
    let shown = shown_projects(pre);
    let k = choose|k: int| 0 <= k < shown.len() && shown[k] == pre.nav.project_picker_index;
    lemma_index_found(shown, pre.nav.project_picker_index, 0, k);
}

proof fn lemma_index_found(v: Seq<usize>, x: usize, from: int, k: int)
    requires
        0 <= from <= k < v.len(),
        v[k] == x,
    ensures
        index_in(v, x, from) matches Some(i) && from <= i <= k && v[i] == x && forall|j: int|
            from <= j < i ==> (#[trigger] v[j]) != x,
    decreases k - from,
{
    if v[from] != x {
        lemma_index_found(v, x, from + 1, k);
    }
}

/// The list of providers opens on the thread's own, the keys turn between the two, and enter
/// asks for the one that is marked.
pub proof fn law_providers_are_switched(
    pre: App,
    stored: Option<Thread>,
    code: KeyCode,
    post: App,
    e: Effect,
)
    requires
        providers_picker_step(pre, stored, code, post, e),
        pre.nav.provider_picker_index < 2,
    ensures
        code == KeyCode::Down || code == KeyCode::Up || code == KeyCode::Char('j') || code
            == KeyCode::Char('k') ==> post.nav.provider_picker_index
            != pre.nav.provider_picker_index && post.nav.provider_picker_index < 2,
        code == KeyCode::Enter ==> (provider_target(pre, stored) matches Some(t) ==> {
            &&& pre.nav.provider_picker_index == 0 ==> e == (Effect::SwitchProvider {
                thread: t,
                provider: ProviderKind::Claude,
            })
            &&& pre.nav.provider_picker_index == 1 ==> e == (Effect::SwitchProvider {
                thread: t,
                provider: ProviderKind::Codex,
            })
        }),
        code == KeyCode::Esc ==> e == Effect::Nothing && post.nav.input_mode == InputMode::Normal,
        provider_place(ProviderKind::Claude) == 0 && provider_place(ProviderKind::Codex) == 1,
{
}

/// The label of a tab names its provider in brackets at its end: a name that stood there is
/// replaced.
pub proof fn law_labels_name_the_provider(
    title: Seq<char>,
    old_name: Seq<char>,
    provider: Seq<char>,
)
    requires
        !contains_text(old_name, " ["@),
        forall|i: int| 0 <= i < old_name.len() ==> old_name[i] != ' ',
    ensures
        provider_label(title + " ["@ + old_name + "]"@, provider) =~= title + " ["@ + provider
            + "]"@,
{
    reveal_strlit(" [");
    reveal_strlit("]");
    let label = title + " ["@ + old_name + "]"@;
    let n = title.len() as int;
    assert(label.subrange(n, n + 2) =~= " ["@);
    assert(occurs_at(label, " ["@, n));
    assert forall|j: int| n < j < label.len() implies !occurs_at(label, " ["@, j) by {
        if occurs_at(label, " ["@, j) {
            assert(label.subrange(j, j + 2)[0] == ' ');
            assert(label[j] == ' ');
            if j == n + 1 {
                assert(label[j] == '[');
            } else if j < n + 2 + old_name.len() {
                assert(label[j] == old_name[j - n - 2]);
            } else {
                assert(label[j] == ']');
            }
        }
    }
    lemma_last_bracket(label, label.len() as int, n);
    assert(label.take(n) =~= title);
}

proof fn lemma_last_bracket(label: Seq<char>, n: int, k: int)
    requires
        0 <= k < n,
        occurs_at(label, " ["@, k),
        forall|j: int| k < j < n ==> !occurs_at(label, " ["@, j),
    ensures
        last_bracket(label, n) == Some(k),
    decreases n,
{
    if k < n - 1 {
        assert(!occurs_at(label, " ["@, n - 1));
        lemma_last_bracket(label, n - 1, k);
    }
}

/// The lists that are left with escape leave everything as it is but the mode.
pub proof fn law_left_lists_change_nothing(
    pre: App,
    stored: Option<Thread>,
    m: KeyModifiers,
    post: App,
    e: Effect,
)
    ensures
        providers_picker_step(pre, stored, KeyCode::Esc, post, e) ==> e == Effect::Nothing && post
            == in_mode(pre, InputMode::Normal),
        installations_step(pre, KeyCode::Esc, post, e) ==> e == Effect::Nothing && post == in_mode(
            pre,
            InputMode::Normal,
        ),
        projects_step(pre, KeyCode::Esc, m, post, e) ==> e == Effect::Nothing && post == in_mode(
            pre,
            InputMode::Normal,
        ),
{
}

/// The list of boards opens where boards are known, with nothing typed; where none is it
/// says so.
pub proof fn law_boards_open_where_known(pre: App, post: App)
    requires
        opened_boards(pre, post),
    ensures
        pre.board.projects@.len() > 0 ==> post.nav.input_mode == InputMode::GitHubProjectPicker
            && post.input.text@.len() == 0 && post.board.project_index == default_board(pre),
        pre.board.projects@.len() == 0 ==> post.nav == pre.nav && post.toast is Some,
{
}

/// A project that was switched to is named, and its board is loaded where the board is
/// shown.
pub proof fn law_switched_projects_are_named(pre: App, post: App, e: Effect)
    requires
        project_shown(pre, post, e),
    ensures
        pre.nav.workbench_view == WorkbenchView::SprintBoard ==> e == Effect::LoadBoard
            && post.nav.input_mode == InputMode::BoardView,
        pre.nav.workbench_view != WorkbenchView::SprintBoard ==> e == Effect::Nothing
            && post.nav.input_mode == InputMode::Normal,
        pre.nav.project_index < pre.projects@.len() ==> (post.toast matches Some(t)
            && contains_text(t.message@, pre.projects@[pre.nav.project_index as int].name@)),
{
    if pre.nav.project_index < pre.projects@.len() {
        crate::text::lemma_found_beside(
            "Switched to project "@,
            pre.projects@[pre.nav.project_index as int].name@,
        );
    }
}

/// A live thread's tab is relabelled in place and shows the conversation; the other tabs
/// stay.
pub proof fn law_live_tabs_are_relabelled(
    pre: App,
    thread: Thread,
    kind: ProviderKind,
    post: App,
    r: bool,
    k: int,
)
    requires
        live_switched(pre, thread, kind, post, r),
        0 <= k < pre.tabs@.len(),
    ensures
        live_session_of(pre, thread) is None ==> !r && post == pre,
        live_session_of(pre, thread) matches Some(s) ==> (tab_place(pre.tabs@, s.id@) matches Some(
            i,
        ) ==> r && (k != i ==> post.tabs@[k] == pre.tabs@[k]) && (k == i ==> (
        pre.tabs@[k] matches Tab::Session { label, panes, session_id, .. } ==> (
        post.tabs@[k] matches Tab::Session { label: l, view_mode, panes: p, session_id: q } && l@
            == provider_label(label@, provider_text(kind, pre.agent.id@)) && view_mode
            == SessionTabView::Conversation && p == panes && q == session_id)))),
        live_session_of(pre, thread) matches Some(s) ==> (tab_place(pre.tabs@, s.id@) is None
            ==> !r && post == pre),
{
}

/// The message on a switch names the provider, and whether the thread goes on at once.
pub proof fn law_switches_are_named(provider: Seq<char>)
    ensures
        switch_message(true, provider) == "Switched live thread to "@ + provider,
        contains_text(switch_message(false, provider), provider),
{
    crate::text::lemma_found_beside("Provider set to "@, provider);
    crate::text::lemma_found_beside("Provider set to "@ + provider, " — press l to continue"@);
}

} // verus!
