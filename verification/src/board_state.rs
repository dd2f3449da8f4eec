//! The state of the sprint board and what moves it: a new snapshot of the project,
//! a changed filter, and the movements of the selection.

use vstd::prelude::*;
use vstd::string::*;

use crate::board::{
    clone_texts, collect_board_sprints, column_items, column_visible, default_board_sprint,
    discover_columns, discovered_columns, first_column, grid_views, has_sprint, is_default_sprint,
    item_views, law_a_search_keeps_what_holds_it, law_chosen_items_stand_in_their_column,
    law_columns_hold_chosen_items_only, lists_sprints, BoardItem, BoardItemView,
};
use crate::review::names_login;
use crate::settings::text_option;
use crate::store::GitHubProjectV2;
use crate::text::{
    contains_text, eq_ignore_case, format_signed, same, same_ignoring_case, signed_decimal, views,
};
use crate::text_input::TextInput;
use crate::views::BoardScope;

verus! {

pub struct Board {
    /// The projects that a board can be shown for, and the chosen one.
    pub projects: Vec<GitHubProjectV2>,
    pub project_index: usize,
    pub project_title: Option<String>,
    /// All items of the chosen project.
    pub source: Vec<BoardItem>,
    pub columns: Vec<String>,
    /// The columns of the configuration; they are shown where no item has a status.
    pub config_columns: Vec<String>,
    /// The items of each column: of the sprint and scope, and of those the ones that
    /// match the search text.
    pub all_issues: Vec<Vec<BoardItem>>,
    pub issues: Vec<Vec<BoardItem>>,
    pub column_index: usize,
    pub issue_index: usize,
    pub sprint_filter: Option<String>,
    pub sprints: Vec<String>,
    /// Zero stands for all sprints, the others for the sprints in order.
    pub sprint_index: usize,
    pub scope: BoardScope,
    pub loading: bool,
    pub error: Option<String>,
    /// The first column that is drawn, counted over the columns with items.
    pub scroll_offset: usize,
    /// The next request to close the selected issue is carried out.
    pub confirm_close: bool,
    pub filter: TextInput,
    pub first_load: bool,
}

/// A place in a list of `n`: itself where it exists, else the last one.
pub open spec fn clamped(i: usize, n: nat) -> usize {
    if n == 0 {
        0
    } else if i < n {
        i
    } else {
        (n - 1) as usize
    }
}

pub fn clamp(i: usize, n: usize) -> (r: usize)
    ensures
        r == clamped(i, n as nat),
{
    if n == 0 {
        0
    } else if i < n {
        i
    } else {
        n - 1
    }
}

/// The next place in a list of `n`, at most the last one; the same in an empty list.
pub open spec fn next_place(i: usize, n: nat) -> usize {
    if n == 0 {
        i
    } else if i + 1 < n {
        (i + 1) as usize
    } else {
        (n - 1) as usize
    }
}

pub fn step_down(i: usize, n: usize) -> (r: usize)
    ensures
        r == next_place(i, n as nat),
{
    if n == 0 {
        i
    } else if i < n - 1 {
        i + 1
    } else {
        n - 1
    }
}

/// The place before, at least the first one.
pub open spec fn previous_place(i: usize) -> usize {
    if i == 0 {
        0
    } else {
        (i - 1) as usize
    }
}

pub fn step_up(i: usize) -> (r: usize)
    ensures
        r == previous_place(i),
{
    if i == 0 {
        0
    } else {
        i - 1
    }
}

/// The items that each column holds.
pub open spec fn sorted_items(b: Board, login: Option<Seq<char>>) -> Seq<Seq<BoardItemView>> {
    Seq::new(
        b.columns@.len(),
        |c: int|
            column_items(
                item_views(b.source@),
                views(b.columns@),
                text_option(b.sprint_filter),
                b.scope,
                login,
                c,
            ),
    )
}

/// The columns hold the items of the sprint and scope, and show those of them that
/// match the search text.
pub open spec fn shows_filtered(b: Board, login: Option<Seq<char>>) -> bool {
    &&& grid_views(b.all_issues@) == sorted_items(b, login)
    &&& grid_views(b.issues@) == Seq::new(
        b.columns@.len(),
        |c: int| column_visible(sorted_items(b, login)[c], b.filter.text@),
    )
}

/// The number of items that a column shows; zero for a column that does not exist.
pub open spec fn shown_in(b: Board, c: usize) -> nat {
    if c < b.issues@.len() {
        b.issues@[c as int]@.len()
    } else {
        0
    }
}

/// `post` differs from `pre` at most in what the filter recomputes, and that is up to
/// date: the columns and the clamped selection.
pub open spec fn refiltered(pre: Board, post: Board, login: Option<Seq<char>>) -> bool {
    &&& shows_filtered(post, login)
    &&& post.column_index == clamped(pre.column_index, pre.columns@.len())
    &&& post.issue_index == clamped(pre.issue_index, shown_in(post, post.column_index))
    &&& post == (Board {
        all_issues: post.all_issues,
        issues: post.issues,
        column_index: post.column_index,
        issue_index: post.issue_index,
        ..pre
    })
}

/// The place of the first project with a number.
pub open spec fn project_place(projects: Seq<GitHubProjectV2>, number: i64) -> Option<int>
    decreases projects.len(),
{
    if projects.len() == 0 {
        None
    } else if projects[0].project_number == number {
        Some(0)
    } else {
        match project_place(projects.drop_first(), number) {
            Some(i) => Some(i + 1),
            None => None,
        }
    }
}

/// The project is the one that the configuration names: by id, number or title.
pub open spec fn is_configured(project: GitHubProjectV2, hint: Option<Seq<char>>) -> bool {
    hint matches Some(h) && (project.id@ == h || signed_decimal(project.project_number as int) == h
        || same_ignoring_case(project.title@, h))
}

/// The place of a text in a list.
pub open spec fn text_place(list: Seq<Seq<char>>, s: Seq<char>) -> Option<int> {
    first_column(list, |c: Seq<char>| c == s)
}

pub proof fn lemma_text_place(list: Seq<Seq<char>>, s: Seq<char>)
    ensures
        text_place(list, s) is Some <==> list.contains(s),
        text_place(list, s) matches Some(i) ==> 0 <= i < list.len() && list[i] == s,
    decreases list.len(),
{
    if list.len() > 0 {
        lemma_text_place(list.drop_first(), s);
        if list[0] != s {
            if list.contains(s) {
                let k = choose|k: int| 0 <= k < list.len() && list[k] == s;
                assert(list.drop_first()[k - 1] == s);
            }
            if let Some(i) = text_place(list.drop_first(), s) {
                assert(list[i + 1] == s);
            }
        }
    }
}

/// The place of a text in a list.
pub fn place_of(list: &Vec<String>, s: &str) -> (r: Option<usize>)
    ensures
        r matches Some(i) ==> text_place(views(list@), s@) == Some(i as int) && i < list@.len() && i
            < usize::MAX,
        r is None ==> text_place(views(list@), s@) is None,
{
    let ghost names = views(list@);
    let ghost wanted = |c: Seq<char>| c == s@;
    let mut i: usize = 0;
    assert(names.skip(0) =~= names);
    while i < list.len()
        invariant
            i <= list@.len(),
            names == views(list@),
            wanted == (|c: Seq<char>| c == s@),
            first_column(names, wanted) == match first_column(names.skip(i as int), wanted) {
                Some(k) => Some(k + i),
                None => None,
            },
        decreases list@.len() - i,
    {
        assert(names.skip(i as int).drop_first() =~= names.skip(i as int + 1));
        assert(names.skip(i as int)[0] == list@[i as int]@);
        if same(list[i].as_str(), s) {
            return Some(i);
        }
        i += 1;
    }
    None
}

/// The nearest column with items to the left, or the first column.
pub open spec fn left_target(issues: Seq<Vec<BoardItem>>, from: int) -> int
    decreases from,
{
    if from <= 0 {
        0
    } else if from - 1 < issues.len() && issues[from - 1]@.len() > 0 {
        from - 1
    } else {
        left_target(issues, from - 1)
    }
}

/// The nearest column with items to the right, if there is one.
pub open spec fn right_target(issues: Seq<Vec<BoardItem>>, columns: int, from: int) -> Option<int>
    decreases columns - from,
{
    if from + 1 >= columns {
        None
    } else if from + 1 < issues.len() && issues[from + 1]@.len() > 0 {
        Some(from + 1)
    } else {
        right_target(issues, columns, from + 1)
    }
}

/// The column is drawn: it shows items or is the selected one.
pub open spec fn is_drawn(b: Board, c: int) -> bool {
    (c < b.issues@.len() && b.issues@[c]@.len() > 0) || c == b.column_index
}

/// How many of the first `n` columns are drawn.
pub open spec fn drawn_before(b: Board, n: int) -> nat
    decreases n,
{
    if n <= 0 {
        0
    } else {
        drawn_before(b, n - 1) + if is_drawn(b, n - 1) {
            1nat
        } else {
            0
        }
    }
}

/// How many columns fit on a screen of this width, at least one and at most those
/// that are drawn.
pub open spec fn columns_on_screen(b: Board, width: u16) -> nat {
    let fit = (width / 26) as nat;
    let drawn = drawn_before(b, b.columns@.len() as int);
    let wanted = if fit < 1 {
        1
    } else {
        fit
    };
    if wanted < drawn {
        wanted
    } else {
        drawn
    }
}

/// The scroll offset that keeps the selected column in sight.
pub open spec fn synced_offset(b: Board, width: u16) -> usize {
    if b.column_index >= b.columns@.len() {
        b.scroll_offset
    } else {
        let pos = drawn_before(b, b.column_index as int);
        let fit = columns_on_screen(b, width);
        if pos < b.scroll_offset {
            pos as usize
        } else if pos >= b.scroll_offset + fit {
            (pos - (fit - 1)) as usize
        } else {
            b.scroll_offset
        }
    }
}

/// The board with another column selected, in sight.
pub open spec fn at_sight_of(b: Board, target: int, width: u16) -> Board {
    let moved = Board { column_index: target as usize, issue_index: 0, ..b };
    Board { scroll_offset: synced_offset(moved, width), ..moved }
}

/// The nearest column with items to the left is selected.
pub open spec fn column_left(b: Board, width: u16) -> Board {
    let target = left_target(b.issues@, b.column_index as int);
    if target == b.column_index {
        b
    } else {
        at_sight_of(b, target, width)
    }
}

/// The nearest column with items to the right is selected.
pub open spec fn column_right(b: Board, width: u16) -> Board {
    match right_target(b.issues@, b.columns@.len() as int, b.column_index as int) {
        None => b,
        Some(target) => at_sight_of(b, target, width),
    }
}

/// The items are forgotten.
pub open spec fn snapshot_cleared(pre: Board, post: Board, login: Option<Seq<char>>) -> bool {
    &&& post.source@.len() == 0
    &&& post.sprints@.len() == 0
    &&& refiltered(
        Board {
            project_title: None,
            source: post.source,
            sprints: post.sprints,
            sprint_filter: None,
            sprint_index: 0,
            error: post.error,
            ..pre
        },
        post,
        login,
    )
}

/// The sprint that is shown after a load: on the first one the sprint with the most
/// items, later the one that was shown before, where it still exists.
pub open spec fn is_kept_sprint(
    pre: Board,
    sprint: Option<String>,
    items: Seq<BoardItemView>,
) -> bool {
    if pre.first_load {
        match sprint {
            Some(s) => is_default_sprint(items, s@),
            None => forall|s: Seq<char>| !has_sprint(items, s),
        }
    } else {
        text_option(sprint) == match pre.sprint_filter {
            Some(s) => if has_sprint(items, s@) {
                Some(s@)
            } else {
                None
            },
            None => None,
        }
    }
}

/// A snapshot of a project is shown: `projects` are those that a board can be shown
/// for, `selected` the one that the items belong to, `hint` the configured one.
pub open spec fn snapshot_shown(
    pre: Board,
    post: Board,
    projects: Vec<GitHubProjectV2>,
    selected: Option<GitHubProjectV2>,
    items: Vec<BoardItem>,
    hint: Option<Seq<char>>,
    login: Option<Seq<char>>,
) -> bool {
    match selected {
        None => text_option(post.error) == Some(
            "No cached GitHub Projects v2 found. Press R to sync the board first."@,
        ) && snapshot_cleared(Board { projects: projects, ..pre }, post, login),
        Some(p) => {
            &&& text_option(post.project_title) == Some(
                if is_configured(p, hint) {
                    p.label@
                } else {
                    p.label@ + " [auto]"@
                },
            )
            &&& post.project_index == match project_place(projects@, p.project_number) {
                Some(i) => i as usize,
                None => pre.project_index,
            }
            &&& views(post.columns@) == if discovered_columns(item_views(items@)).len() == 0 {
                views(pre.config_columns@)
            } else {
                discovered_columns(item_views(items@))
            }
            &&& lists_sprints(views(post.sprints@), item_views(items@))
            &&& post.scope == if !pre.first_load {
                pre.scope
            } else if login is Some {
                BoardScope::AssignedToMe
            } else {
                BoardScope::AllSprint
            }
            &&& is_kept_sprint(pre, post.sprint_filter, item_views(items@))
            &&& post.sprint_index == match post.sprint_filter {
                Some(s) => (text_place(views(post.sprints@), s@)->0 + 1) as usize,
                None => 0,
            }
            &&& refiltered(
                Board {
                    projects: projects,
                    project_index: post.project_index,
                    project_title: post.project_title,
                    source: items,
                    columns: post.columns,
                    sprint_filter: post.sprint_filter,
                    sprints: post.sprints,
                    sprint_index: post.sprint_index,
                    scope: post.scope,
                    error: None,
                    first_load: false,
                    ..pre
                },
                post,
                login,
            )
        },
    }
}

proof fn lemma_drawn_before(b: Board, i: int, j: int)
    requires
        0 <= i <= j,
    ensures
        drawn_before(b, i) <= drawn_before(b, j),
        drawn_before(b, j) <= j,
    decreases j,
{
    if i < j {
        lemma_drawn_before(b, i, j - 1);
    } else if j > 0 {
        lemma_drawn_before(b, j - 1, j - 1);
    }
}

impl Board {
    pub fn selected_board_issue(&self) -> (r: Option<&BoardItem>)
        ensures
            r matches Some(item) ==> self.column_index < self.issues@.len() && self.issue_index
                < self.issues@[self.column_index as int]@.len() && *item
                == self.issues@[self.column_index as int]@[self.issue_index as int],
            r is None <==> self.issue_index >= shown_in(*self, self.column_index),
    {
        if self.column_index < self.issues.len() {
            let column = &self.issues[self.column_index];
            if self.issue_index < column.len() {
                return Some(&column[self.issue_index]);
            }
        }
        None
    }

    /// Sort the items into the columns again, narrow them by the search text, and
    /// clamp the selection.
    pub fn apply_board_filter(&mut self, login: &Option<String>)
        ensures
            refiltered(*old(self), *final(self), text_option(*login)),
    {
        let count: usize = self.columns.len();
        let mut all: Vec<Vec<BoardItem>> = Vec::new();
        let mut shown: Vec<Vec<BoardItem>> = Vec::new();
        let mut c: usize = 0;
        let ghost sorted = sorted_items(*self, text_option(*login));
        while c < count
            invariant
                c <= count,
                count == self.columns@.len(),
                *self == *old(self),
                sorted == sorted_items(*self, text_option(*login)),
                all@.len() == c,
                shown@.len() == c,
                forall|k: int| 0 <= k < c ==> item_views((#[trigger] all@[k])@) == sorted[k],
                forall|k: int|
                    0 <= k < c ==> item_views((#[trigger] shown@[k])@) == column_visible(
                        sorted[k],
                        self.filter.text@,
                    ),
            decreases count - c,
        {
            let items = crate::board::collect_column(
                &self.source,
                &self.columns,
                &self.sprint_filter,
                self.scope,
                login,
                c,
            );
            let visible = crate::board::narrow_column(&items, self.filter.text.as_str());
            all.push(items);
            shown.push(visible);
            c += 1;
        }
        self.all_issues = all;
        self.issues = shown;
        self.column_index = clamp(self.column_index, count);
        if self.column_index < self.issues.len() {
            self.issue_index = clamp(self.issue_index, self.issues[self.column_index].len());
        } else {
            self.issue_index = 0;
        }
        proof {
            assert(grid_views(self.all_issues@) =~= sorted);
            assert(grid_views(self.issues@) =~= Seq::new(
                self.columns@.len(),
                |k: int| column_visible(sorted[k], self.filter.text@),
            ));
            assert(sorted_items(*self, text_option(*login)) =~= sorted);
        }
    }

    /// Forget the items and show a message instead.
    pub fn clear_board_snapshot(&mut self, error: Option<String>, login: &Option<String>)
        ensures
            final(self).error == error,
            snapshot_cleared(*old(self), *final(self), text_option(*login)),
    {
        self.project_title = None;
        self.source = Vec::new();
        self.sprints = Vec::new();
        self.sprint_filter = None;
        self.sprint_index = 0;
        self.error = error;
        self.apply_board_filter(login);
    }

    /// Show a new snapshot of the project.
    ///
    /// On the first load the board opens with the user's own items, where it knows
    /// who the user is, and with the sprint that has the most items. Later loads keep
    /// both, but a sprint that is gone is dropped.
    #[verifier::rlimit(60)]
    pub fn apply_board_snapshot(
        &mut self,
        projects: Vec<GitHubProjectV2>,
        selected: Option<GitHubProjectV2>,
        items: Vec<BoardItem>,
        hint: &Option<String>,
        login: &Option<String>,
    )
        ensures
            snapshot_shown(
                *old(self),
                *final(self),
                projects,
                selected,
                items,
                text_option(*hint),
                text_option(*login),
            ),
    {
        self.projects = projects;
        match selected {
            Some(p) => {
                let configured = match hint {
                    Some(h) => same(p.id.as_str(), h.as_str()) || same(
                        format_signed(p.project_number).as_str(),
                        h.as_str(),
                    ) || eq_ignore_case(p.title.as_str(), h.as_str()),
                    None => false,
                };
                let title = if configured {
                    p.label.clone()
                } else {
                    p.label.clone().concat(" [auto]")
                };
                self.project_title = Some(title);
                if let Some(i) = place_of_project(&self.projects, p.project_number) {
                    self.project_index = i;
                }
                let columns = discover_columns(&items);
                let sprints = collect_board_sprints(&items);
                let opening = default_board_sprint(&items);
                self.source = items;
                self.columns = if columns.len() > 0 {
                    columns
                } else {
                    clone_texts(&self.config_columns)
                };
                self.sprints = sprints;
                let ghost names = views(self.sprints@);
                let ghost all = item_views(self.source@);
                if self.first_load {
                    self.first_load = false;
                    self.scope = if login.is_some() {
                        BoardScope::AssignedToMe
                    } else {
                        BoardScope::AllSprint
                    };
                    self.sprint_filter = opening;
                }
                let kept: Option<usize> = match &self.sprint_filter {
                    Some(s) => {
                        proof {
                            lemma_text_place(names, s@);
                            assert(names.contains(s@) <==> has_sprint(all, s@));
                        }
                        place_of(&self.sprints, s.as_str())
                    },
                    None => None,
                };
                match kept {
                    Some(i) => {
                        self.sprint_index = i + 1;
                    },
                    None => {
                        self.sprint_filter = None;
                        self.sprint_index = 0;
                    },
                }
                self.error = None;
                self.apply_board_filter(login);
            },
            None => {
                self.clear_board_snapshot(
                    Some(
                        "No cached GitHub Projects v2 found. Press R to sync the board first.".to_owned(),
                    ),
                    login,
                );
            },
        }
    }

    /// Keep the selected column in sight.
    pub fn sync_board_scroll_offset(&mut self, width: u16)
        ensures
            *final(self) == (Board {
                scroll_offset: synced_offset(*old(self), width),
                ..*old(self)
            }),
    {
        if self.column_index >= self.columns.len() {
            return;
        }
        let count: usize = self.columns.len();
        let mut pos: usize = 0;
        let mut drawn: usize = 0;
        let mut c: usize = 0;
        while c < count
            invariant
                c <= count,
                count == self.columns@.len(),
                *self == *old(self),
                self.column_index < count,
                drawn == drawn_before(*self, c as int),
                drawn <= c,
                c > self.column_index ==> pos == drawn_before(*self, self.column_index as int),
            decreases count - c,
        {
            if c == self.column_index {
                pos = drawn;
            }
            if (c < self.issues.len() && self.issues[c].len() > 0) || c == self.column_index {
                drawn += 1;
            }
            c += 1;
        }
        proof {
            lemma_drawn_before(*self, self.column_index as int + 1, count as int);
        }
        let fit: usize = (width / 26) as usize;
        let wanted: usize = if fit < 1 {
            1
        } else {
            fit
        };
        let max_visible: usize = if wanted < drawn {
            wanted
        } else {
            drawn
        };
        assert(max_visible == columns_on_screen(*self, width));
        if pos < self.scroll_offset {
            self.scroll_offset = pos;
        } else if pos - self.scroll_offset >= max_visible {
            self.scroll_offset = pos - (max_visible - 1);
        }
    }

    /// Select the nearest column with items to the left.
    pub fn move_column_left(&mut self, width: u16)
        ensures
            *final(self) == column_left(*old(self), width),
    {
        let mut target: usize = self.column_index;
        let mut found = false;
        while target > 0 && !found
            invariant
                *self == *old(self),
                target <= self.column_index,
                !found ==> left_target(self.issues@, target as int) == left_target(
                    self.issues@,
                    self.column_index as int,
                ),
                found ==> target == left_target(self.issues@, self.column_index as int),
            decreases target,
        {
            target -= 1;
            if target < self.issues.len() && self.issues[target].len() > 0 {
                found = true;
            }
        }
        if target != self.column_index {
            self.column_index = target;
            self.issue_index = 0;
            self.sync_board_scroll_offset(width);
        }
    }

    /// Select the nearest column with items to the right.
    pub fn move_column_right(&mut self, width: u16)
        ensures
            *final(self) == column_right(*old(self), width),
    {
        let count: usize = self.columns.len();
        if self.column_index >= count {
            return;
        }
        let mut target: usize = self.column_index;
        let mut found = false;
        while target < count - 1 && !found
            invariant
                *self == *old(self),
                count == self.columns@.len(),
                self.column_index <= target < count,
                !found ==> right_target(self.issues@, count as int, target as int) == right_target(
                    self.issues@,
                    count as int,
                    self.column_index as int,
                ),
                found ==> target > self.column_index && right_target(
                    self.issues@,
                    count as int,
                    self.column_index as int,
                ) == Some(target as int),
            decreases count - target,
        {
            target += 1;
            if target < self.issues.len() && self.issues[target].len() > 0 {
                found = true;
            }
        }
        if found {
            self.column_index = target;
            self.issue_index = 0;
            self.sync_board_scroll_offset(width);
        }
    }
}

fn place_of_project(projects: &Vec<GitHubProjectV2>, number: i64) -> (r: Option<usize>)
    ensures
        r matches Some(i) ==> project_place(projects@, number) == Some(i as int),
        r is None ==> project_place(projects@, number) is None,
{
    let mut i: usize = 0;
    assert(projects@.skip(0) =~= projects@);
    while i < projects.len()
        invariant
            i <= projects@.len(),
            project_place(projects@, number) == match project_place(
                projects@.skip(i as int),
                number,
            ) {
                Some(k) => Some(k + i),
                None => None,
            },
        decreases projects@.len() - i,
    {
        assert(projects@.skip(i as int).drop_first() =~= projects@.skip(i as int + 1));
        if projects[i].project_number == number {
            return Some(i);
        }
        i += 1;
    }
    None
}

/// After the filter has run, the selected column exists where there are columns, and
/// the selected issue exists where the column shows items.
pub proof fn law_selection_stays_on_the_board(pre: Board, post: Board, login: Option<Seq<char>>)
    requires
        refiltered(pre, post, login),
    ensures
        post.columns@.len() > 0 ==> post.column_index < post.columns@.len(),
        shown_in(post, post.column_index) > 0 ==> post.issue_index < shown_in(
            post,
            post.column_index,
        ),
        shown_in(post, post.column_index) == 0 ==> post.issue_index == 0,
{
}

/// Every item of the board stands in at most one column, and only in a column that
/// exists.
pub proof fn law_items_keep_one_column(
    b: Board,
    login: Option<Seq<char>>,
    c: int,
    d: int,
    i: int,
    j: int,
)
    requires
        shows_filtered(b, login),
        0 <= c < b.columns@.len(),
        0 <= d < b.columns@.len(),
        0 <= i < grid_views(b.issues@)[c].len(),
        0 <= j < grid_views(b.issues@)[d].len(),
        grid_views(b.issues@)[c][i] == grid_views(b.issues@)[d][j],
    ensures
        c == d,
{
    lemma_shown_column(b, login, c, i);
    lemma_shown_column(b, login, d, j);
}

/// What the board shows is of the chosen sprint and, in the scope of the user's own
/// items, assigned to the user: without a login that scope shows nothing.
pub proof fn law_board_shows_what_is_chosen(b: Board, login: Option<Seq<char>>, c: int, i: int)
    requires
        shows_filtered(b, login),
        0 <= c < b.columns@.len(),
        0 <= i < grid_views(b.issues@)[c].len(),
    ensures
        b.sprint_filter matches Some(s) ==> crate::board::sprint_of(grid_views(b.issues@)[c][i])
            == Some(s@),
        b.scope == BoardScope::AssignedToMe ==> (login matches Some(name) && names_login(
            grid_views(b.issues@)[c][i].assignees,
            name,
        )),
{
    lemma_shown_column(b, login, c, i);
}

/// A board opens with the user's own items where there is a login, and with all items
/// otherwise; a board that was open keeps its scope.
pub proof fn law_board_opens_on_own_items(
    pre: Board,
    post: Board,
    projects: Vec<GitHubProjectV2>,
    selected: GitHubProjectV2,
    items: Vec<BoardItem>,
    hint: Option<Seq<char>>,
    login: Option<Seq<char>>,
)
    requires
        snapshot_shown(pre, post, projects, Some(selected), items, hint, login),
    ensures
        post.scope == if !pre.first_load {
            pre.scope
        } else if login is Some {
            BoardScope::AssignedToMe
        } else {
            BoardScope::AllSprint
        },
        !post.first_load,
{
}

/// An item that column `c` shows belongs to that column, and is chosen.
proof fn lemma_shown_column(b: Board, login: Option<Seq<char>>, c: int, i: int)
    requires
        shows_filtered(b, login),
        0 <= c < b.columns@.len(),
        0 <= i < grid_views(b.issues@)[c].len(),
    ensures
        crate::board::column_of(views(b.columns@), grid_views(b.issues@)[c][i]) == c,
        crate::board::in_scope(
            grid_views(b.issues@)[c][i],
            text_option(b.sprint_filter),
            b.scope,
            login,
        ),
{
    let sorted = sorted_items(b, login)[c];
    let p = |v: BoardItemView|
        crate::board::in_scope(v, text_option(b.sprint_filter), b.scope, login)
            && crate::board::column_of(views(b.columns@), v) == c;
    let q = |v: BoardItemView| crate::board::board_matches(v, b.filter.text@);
    let shown = sorted.filter(q);
    lemma_filter_members(sorted, q, i);
    let k = choose|k: int| 0 <= k < sorted.len() && sorted[k] == shown[i];
    item_views(b.source@).lemma_filter_pred(p, k);
}

/// What a filter keeps was in the list.
proof fn lemma_filter_members<A>(s: Seq<A>, p: spec_fn(A) -> bool, i: int)
    requires
        0 <= i < s.filter(p).len(),
    ensures
        exists|k: int| 0 <= k < s.len() && s[k] == s.filter(p)[i],
    decreases s.len(),
{
    reveal(Seq::filter);
    if s.len() > 0 {
        let rest = s.drop_last().filter(p);
        if i < rest.len() {
            lemma_filter_members(s.drop_last(), p, i);
            let k = choose|k: int| 0 <= k < s.drop_last().len() && s.drop_last()[k] == rest[i];
            assert(s[k] == s.filter(p)[i]);
        } else {
            assert(s[s.len() - 1] == s.filter(p)[i]);
        }
    }
}

/// A project whose items have no status is shown in the columns of the configuration,
/// whatever columns the project before it called for.
pub proof fn law_columns_fall_back(
    pre: Board,
    post: Board,
    projects: Vec<GitHubProjectV2>,
    selected: Option<GitHubProjectV2>,
    items: Vec<BoardItem>,
    hint: Option<Seq<char>>,
    login: Option<Seq<char>>,
)
    requires
        snapshot_shown(pre, post, projects, selected, items, hint, login),
        selected is Some,
    ensures
        discovered_columns(item_views(items@)).len() == 0 ==> views(post.columns@) == views(
            pre.config_columns@,
        ),
        post.config_columns == pre.config_columns,
{
}

/// The board shows every item of the project that is of the chosen sprint and scope and
/// holds the lowercased search text in its title, its number, a label, an assignee or its
/// kind; without a search text, every item of the sprint and scope. It stands in its own
/// column.
pub proof fn law_board_shows_every_match(
    b: Board,
    login: Option<Seq<char>>,
    k: int,
    mine: int,
    j: int,
)
    requires
        shows_filtered(b, login),
        0 <= k < b.source@.len(),
        b.sprint_filter matches Some(s) ==> crate::board::sprint_of(b.source@[k]@) == Some(s@),
        b.scope == BoardScope::AssignedToMe ==> login is Some && 0 <= mine
            < b.source@[k].assignees@.len() && same_ignoring_case(
            b.source@[k].assignees@[mine]@,
            login->0,
        ),
        crate::board::column_of(views(b.columns@), b.source@[k]@) < b.columns@.len(),
        ({
            let q = crate::text::lowercase(b.filter.text@);
            let item = b.source@[k];
            ||| b.filter.text@.len() == 0
            ||| contains_text(crate::text::lowercase(item.title@), q)
            ||| contains_text(signed_decimal(item.number as int), q)
            ||| (0 <= j < item.labels@.len() && contains_text(
                crate::text::lowercase(item.labels@[j]@),
                q,
            ))
            ||| (0 <= j < item.assignees@.len() && contains_text(
                crate::text::lowercase(item.assignees@[j]@),
                q,
            ))
            ||| contains_text(item.kind_label@, q)
        }),
    ensures
        grid_views(b.issues@)[crate::board::column_of(
            views(b.columns@),
            b.source@[k]@,
        )].contains(b.source@[k]@),
{
    let source = item_views(b.source@);
    let columns = views(b.columns@);
    let item = source[k];
    let c = crate::board::column_of(columns, item);
    lemma_column_stands(columns, item);
    assert(item == b.source@[k]@);
    assert(0 <= mine < b.source@[k].assignees@.len() ==> item.assignees[mine]
        == b.source@[k].assignees@[mine]@);
    assert(0 <= j < b.source@[k].assignees@.len() ==> item.assignees[j]
        == b.source@[k].assignees@[j]@);
    assert(0 <= j < b.source@[k].labels@.len() ==> item.labels[j] == b.source@[k].labels@[j]@);
    law_chosen_items_stand_in_their_column(
        source,
        columns,
        text_option(b.sprint_filter),
        b.scope,
        login,
        k,
        mine,
    );
    let sorted = sorted_items(b, login)[c];
    let m = choose|m: int| 0 <= m < sorted.len() && sorted[m] == item;
    law_a_search_keeps_what_holds_it(sorted, b.filter.text@, m, j);
    assert(grid_views(b.issues@)[c] == column_visible(sorted, b.filter.text@));
}

proof fn lemma_column_stands(columns: Seq<Seq<char>>, item: BoardItemView)
    ensures
        crate::board::column_of(columns, item) >= 0,
{
    lemma_found_column_stands(
        columns,
        |c: Seq<char>| same_ignoring_case(c, crate::board::status_or_empty(item)),
    );
}

proof fn lemma_found_column_stands(columns: Seq<Seq<char>>, wanted: spec_fn(Seq<char>) -> bool)
    ensures
        first_column(columns, wanted) matches Some(i) ==> 0 <= i < columns.len(),
    decreases columns.len(),
{
    if columns.len() > 0 {
        lemma_found_column_stands(columns.drop_first(), wanted);
    }
}

/// The board shows no item that is not of the project, and none that a search text was not
/// found in.
pub proof fn law_board_shows_nothing_else(b: Board, login: Option<Seq<char>>, c: int, i: int)
    requires
        shows_filtered(b, login),
        0 <= c < b.columns@.len(),
        0 <= i < grid_views(b.issues@)[c].len(),
    ensures
        ({
            let v = grid_views(b.issues@)[c][i];
            let q = crate::text::lowercase(b.filter.text@);
            &&& item_views(b.source@).contains(v)
            &&& crate::board::column_of(views(b.columns@), v) == c
            &&& {
                ||| b.filter.text@.len() == 0
                ||| contains_text(crate::text::lowercase(v.title), q)
                ||| contains_text(signed_decimal(v.number as int), q)
                ||| contains_text(v.kind_label, q)
                ||| exists|j: int|
                    0 <= j < v.labels.len() && contains_text(
                        crate::text::lowercase(#[trigger] v.labels[j]),
                        q,
                    )
                ||| exists|j: int|
                    0 <= j < v.assignees.len() && contains_text(
                        crate::text::lowercase(#[trigger] v.assignees[j]),
                        q,
                    )
            }
        }),
{
    let v = grid_views(b.issues@)[c][i];
    let sorted = sorted_items(b, login)[c];
    let shown = column_visible(sorted, b.filter.text@);
    assert(shown == grid_views(b.issues@)[c]);
    assert(shown.contains(v));
    let q = |x: BoardItemView| crate::board::board_matches(x, b.filter.text@);
    lemma_filter_members(sorted, q, i);
    sorted.lemma_filter_pred(q, i);
    assert(sorted.contains(v));
    law_columns_hold_chosen_items_only(
        item_views(b.source@),
        views(b.columns@),
        text_option(b.sprint_filter),
        b.scope,
        login,
        c,
        v,
    );
}

/// A step to the left goes to the nearest column on the left that shows items, and to the
/// first column where there is none.
pub proof fn law_left_goes_to_the_next_items(issues: Seq<Vec<BoardItem>>, from: int, c: int)
    requires
        0 <= c < from <= issues.len(),
        forall|d: int| c < d < from ==> (#[trigger] issues[d])@.len() == 0,
        issues[c]@.len() > 0 || c == 0,
    ensures
        left_target(issues, from) == c,
    decreases from,
{
    if c < from - 1 {
        assert(issues[from - 1]@.len() == 0);
        law_left_goes_to_the_next_items(issues, from - 1, c);
    } else {
        assert(from - 1 == c);
        if issues[c]@.len() == 0 {
            assert(left_target(issues, 0) == 0);
        }
    }
}

/// A step to the right goes to the nearest column on the right that shows items; where
/// there is none the selection stays.
pub proof fn law_right_goes_to_the_next_items(
    issues: Seq<Vec<BoardItem>>,
    columns: int,
    from: int,
    c: int,
)
    requires
        0 <= from < c <= columns,
        columns <= issues.len(),
        forall|d: int| from < d < c ==> (#[trigger] issues[d])@.len() == 0,
    ensures
        c < columns && issues[c]@.len() > 0 ==> right_target(issues, columns, from) == Some(c),
        c == columns ==> right_target(issues, columns, from) is None,
    decreases columns - from,
{
    if from + 1 < c {
        assert(issues[from + 1]@.len() == 0);
        law_right_goes_to_the_next_items(issues, columns, from + 1, c);
    }
}

proof fn lemma_drawn_grows(b: Board, n: int, m: int)
    requires
        n <= m,
    ensures
        drawn_before(b, n) <= drawn_before(b, m),
    decreases m - n,
{
    if n < m {
        lemma_drawn_grows(b, n, m - 1);
    }
}

/// After a move to another column the selected column is among those on screen, counted
/// over the drawn ones, and its first issue is selected.
pub proof fn law_the_selected_column_is_in_sight(b: Board, target: int, width: u16)
    requires
        0 <= target < b.columns@.len() <= usize::MAX,
    ensures
        ({
            let post = at_sight_of(b, target, width);
            let place = drawn_before(post, target);
            &&& post.column_index == target
            &&& post.issue_index == 0
            &&& post.scroll_offset <= place
            &&& place < post.scroll_offset + columns_on_screen(post, width)
            &&& columns_on_screen(post, width) >= 1
            &&& columns_on_screen(post, width) == 1 || columns_on_screen(post, width) * 26 <= width
            &&& post.issues == b.issues && post.columns == b.columns && post.source == b.source
        }),
{
    let moved = Board { column_index: target as usize, issue_index: 0, ..b };
    let post = at_sight_of(b, target, width);
    lemma_drawn_alike(moved, post, target);
    lemma_drawn_alike(moved, post, b.columns@.len() as int);
    lemma_drawn_bound(moved, target);
    assert(is_drawn(moved, target));
    assert(drawn_before(moved, target + 1) == drawn_before(moved, target) + 1);
    lemma_drawn_grows(moved, target + 1, b.columns@.len() as int);
}

proof fn lemma_drawn_alike(a: Board, b: Board, n: int)
    requires
        a.issues == b.issues,
        a.column_index == b.column_index,
    ensures
        drawn_before(a, n) == drawn_before(b, n),
    decreases n,
{
    if n > 0 {
        lemma_drawn_alike(a, b, n - 1);
    }
}

proof fn lemma_drawn_bound(b: Board, n: int)
    requires
        n >= 0,
    ensures
        drawn_before(b, n) <= n,
    decreases n,
{
    if n > 0 {
        lemma_drawn_bound(b, n - 1);
    }
}

/// A board that was loaded before keeps its sprint while an item has it; the first load
/// takes the sprint with the most items, of equally many the last by name.
pub proof fn law_the_sprint_is_kept(
    pre: Board,
    post: Board,
    projects: Vec<GitHubProjectV2>,
    selected: Option<GitHubProjectV2>,
    items: Vec<BoardItem>,
    hint: Option<Seq<char>>,
    login: Option<Seq<char>>,
    k: int,
)
    requires
        snapshot_shown(pre, post, projects, selected, items, hint, login),
        selected is Some,
        0 <= k < items@.len(),
        crate::board::sprint_of(items@[k]@) is Some,
    ensures
        ({
            let s = crate::board::sprint_of(items@[k]@)->0;
            &&& !pre.first_load && text_option(pre.sprint_filter) == Some(s) ==> text_option(
                post.sprint_filter,
            ) == Some(s)
            &&& !pre.first_load && pre.sprint_filter is None ==> post.sprint_filter is None
            &&& pre.first_load ==> (post.sprint_filter matches Some(t) && (t@ == s
                || crate::board::sprint_count(item_views(items@), s) < crate::board::sprint_count(
                item_views(items@),
                t@,
            ) || (crate::board::sprint_count(item_views(items@), s) == crate::board::sprint_count(
                item_views(items@),
                t@,
            ) && crate::ranking::text_less(s, t@))))
        }),
{
    let s = crate::board::sprint_of(items@[k]@)->0;
    let all = item_views(items@);
    assert(all[k] == items@[k]@);
    assert(has_sprint(all, s));
}

/// The board is titled by its project, with a mark where the project was not chosen by the
/// configuration: by its id, its number or its title.
pub proof fn law_the_title_marks_chance_projects(
    pre: Board,
    post: Board,
    projects: Vec<GitHubProjectV2>,
    p: GitHubProjectV2,
    items: Vec<BoardItem>,
    hint: Option<Seq<char>>,
    login: Option<Seq<char>>,
)
    requires
        snapshot_shown(pre, post, projects, Some(p), items, hint, login),
    ensures
        hint is None ==> text_option(post.project_title) == Some(p.label@ + " [auto]"@),
        hint matches Some(h) ==> {
            &&& p.id@ == h || signed_decimal(p.project_number as int) == h || same_ignoring_case(
                p.title@,
                h,
            ) ==> text_option(post.project_title) == Some(p.label@)
            &&& p.id@ != h && signed_decimal(p.project_number as int) != h && !same_ignoring_case(
                p.title@,
                h,
            ) ==> text_option(post.project_title) == Some(p.label@ + " [auto]"@)
        },
        post.error is None,
        post.source == items,
        post.projects == projects,
{
}

/// The chosen project is found among the listed ones by its number.
pub proof fn law_the_first_project_counts(projects: Seq<GitHubProjectV2>, number: i64, k: int)
    requires
        0 <= k <= projects.len(),
        forall|j: int| 0 <= j < k ==> (#[trigger] projects[j]).project_number != number,
    ensures
        k < projects.len() && projects[k].project_number == number ==> project_place(
            projects,
            number,
        ) == Some(k),
        k == projects.len() ==> project_place(projects, number) is None,
    decreases projects.len(),
{
    if projects.len() > 0 && k > 0 {
        assert(projects[0].project_number != number);
        assert forall|j: int| 0 <= j < k - 1 implies (
        #[trigger] projects.drop_first()[j]).project_number != number by {
            assert(projects.drop_first()[j] == projects[j + 1]);
        }
        law_the_first_project_counts(projects.drop_first(), number, k - 1);
    }
}

/// A project without a snapshot leaves the board empty, of no sprint, and says how to get
/// one.
pub proof fn law_a_board_without_project_is_empty(
    pre: Board,
    post: Board,
    projects: Vec<GitHubProjectV2>,
    items: Vec<BoardItem>,
    hint: Option<Seq<char>>,
    login: Option<Seq<char>>,
    c: int,
)
    requires
        snapshot_shown(pre, post, projects, None, items, hint, login),
    ensures
        post.error is Some,
        post.project_title is None,
        post.sprint_filter is None,
        post.source@.len() == 0,
        0 <= c < post.columns@.len() ==> grid_views(post.issues@)[c].len() == 0,
{
    if 0 <= c < post.columns@.len() && grid_views(post.issues@)[c].len() > 0 {
        law_board_shows_nothing_else(post, login, c, 0);
    }
}

/// A step up or down moves the selection by one and stops at the ends.
pub proof fn law_places_move_by_one(i: usize, n: nat)
    requires
        n <= usize::MAX,
    ensures
        i + 1 < n ==> next_place(i, n) == i + 1 && previous_place(next_place(i, n)) == i,
        i + 1 == n ==> next_place(i, n) == i,
        previous_place(0) == 0,
        i > 0 ==> previous_place(i) == i - 1,
        i < n ==> clamped(i, n) == i,
        n > 0 && i >= n ==> clamped(i, n) == n - 1,
        clamped(i, 0) == 0,
{
}

/// As many columns are on screen as fit with a width of twenty-six cells, at least one, and
/// no more than are drawn.
pub proof fn law_columns_that_fit_are_shown(b: Board, width: u16)
    ensures
        ({
            let n = columns_on_screen(b, width);
            let drawn = drawn_before(b, b.columns@.len() as int);
            &&& n <= drawn
            &&& n == drawn || (n + 1) * 26 > width
            &&& n <= 1 || n * 26 <= width
        }),
{
}

/// A step to a column beside selects its first issue; where there is none to go to the board
/// stays as it is.
pub proof fn law_steps_to_columns_beside(b: Board, width: u16, c: int)
    requires
        0 <= c < b.columns@.len(),
        b.columns@.len() == b.issues@.len(),
        b.column_index < b.columns@.len(),
        b.issues@[c]@.len() > 0,
    ensures
        c < b.column_index && (forall|d: int|
            c < d < b.column_index ==> (#[trigger] b.issues@[d])@.len() == 0) ==> column_left(
            b,
            width,
        ).column_index == c && column_left(b, width).issue_index == 0,
        b.column_index < c && (forall|d: int|
            b.column_index < d < c ==> (#[trigger] b.issues@[d])@.len() == 0) ==> column_right(
            b,
            width,
        ).column_index == c && column_right(b, width).issue_index == 0,
        b.column_index == 0 ==> column_left(b, width) == b,
        b.column_index + 1 == b.columns@.len() ==> column_right(b, width) == b,
{
    assert(b.columns.len() == b.columns@.len());
    if c < b.column_index && (forall|d: int|
        c < d < b.column_index ==> (#[trigger] b.issues@[d])@.len() == 0) {
        law_left_goes_to_the_next_items(b.issues@, b.column_index as int, c);
    }
    if b.column_index < c && (forall|d: int|
        b.column_index < d < c ==> (#[trigger] b.issues@[d])@.len() == 0) {
        law_right_goes_to_the_next_items(
            b.issues@,
            b.columns@.len() as int,
            b.column_index as int,
            c,
        );
    }
}

} // verus!
