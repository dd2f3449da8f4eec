//! The sprint board: the items of a GitHub project, sorted into columns by their
//! status and narrowed by sprint, scope and search text.

use vstd::prelude::*;
use vstd::string::*;

use crate::ranking::{lemma_text_less_total, lemma_text_less_transitive, text_is_less, text_less};
use crate::review::{any_holds, any_login, any_text_holds, names_login};
use crate::settings::{clone_text, text_option};
use crate::store::GitHubItemKind;
use crate::text::{
    contains, contains_text, eq_ignore_case, format_signed, lemma_views_push, lowercase, same,
    same_ignoring_case, signed_decimal, to_lowercase, views,
};
use crate::views::BoardScope;

verus! {

/// A field of a project item. The value is absent where it is not a text.
pub struct FieldValue {
    pub name: String,
    pub value: Option<String>,
}

/// An item of the board.
pub struct BoardItem {
    pub github_item_id: String,
    pub number: i64,
    pub title: String,
    pub body: Option<String>,
    pub url: String,
    pub state: String,
    pub kind: GitHubItemKind,
    pub kind_label: String,
    pub labels: Vec<String>,
    pub assignees: Vec<String>,
    pub fields: Vec<FieldValue>,
    pub linked_pr_item_id: Option<String>,
}

/// What an item says.
pub struct BoardItemView {
    pub github_item_id: Seq<char>,
    pub number: i64,
    pub title: Seq<char>,
    pub body: Option<Seq<char>>,
    pub url: Seq<char>,
    pub state: Seq<char>,
    pub kind: GitHubItemKind,
    pub kind_label: Seq<char>,
    pub labels: Seq<Seq<char>>,
    pub assignees: Seq<Seq<char>>,
    pub fields: Seq<(Seq<char>, Option<Seq<char>>)>,
    pub linked_pr_item_id: Option<Seq<char>>,
}

impl FieldValue {
    pub open spec fn pair(self) -> (Seq<char>, Option<Seq<char>>) {
        (self.name@, text_option(self.value))
    }
}

impl View for BoardItem {
    type V = BoardItemView;

    open spec fn view(&self) -> BoardItemView {
        BoardItemView {
            github_item_id: self.github_item_id@,
            number: self.number,
            title: self.title@,
            body: text_option(self.body),
            url: self.url@,
            state: self.state@,
            kind: self.kind,
            kind_label: self.kind_label@,
            labels: views(self.labels@),
            assignees: views(self.assignees@),
            fields: self.fields@.map_values(|f: FieldValue| f.pair()),
            linked_pr_item_id: text_option(self.linked_pr_item_id),
        }
    }
}

pub fn clone_texts(v: &Vec<String>) -> (r: Vec<String>)
    ensures
        r@ == v@,
{
    let mut r: Vec<String> = Vec::new();
    let mut i: usize = 0;
    while i < v.len()
        invariant
            i <= v@.len(),
            r@ == v@.take(i as int),
        decreases v@.len() - i,
    {
        assert(v@.take(i as int + 1) =~= v@.take(i as int).push(v@[i as int]));
        r.push(v[i].clone());
        i += 1;
    }
    assert(v@.take(i as int) =~= v@);
    r
}

impl Clone for BoardItem {
    fn clone(&self) -> (r: Self)
        ensures
            r@ == self@,
    {
        let mut fields: Vec<FieldValue> = Vec::new();
        let mut i: usize = 0;
        while i < self.fields.len()
            invariant
                i <= self.fields@.len(),
                fields@ == self.fields@.take(i as int),
            decreases self.fields@.len() - i,
        {
            assert(self.fields@.take(i as int + 1) =~= self.fields@.take(i as int).push(
                self.fields@[i as int],
            ));
            let f = &self.fields[i];
            fields.push(FieldValue { name: f.name.clone(), value: clone_text(&f.value) });
            i += 1;
        }
        assert(self.fields@.take(i as int) =~= self.fields@);
        BoardItem {
            github_item_id: self.github_item_id.clone(),
            number: self.number,
            title: self.title.clone(),
            body: clone_text(&self.body),
            url: self.url.clone(),
            state: self.state.clone(),
            kind: self.kind,
            kind_label: self.kind_label.clone(),
            labels: clone_texts(&self.labels),
            assignees: clone_texts(&self.assignees),
            fields,
            linked_pr_item_id: clone_text(&self.linked_pr_item_id),
        }
    }
}

pub open spec fn item_views(v: Seq<BoardItem>) -> Seq<BoardItemView> {
    v.map_values(|b: BoardItem| b@)
}

/// The items of each column.
pub open spec fn grid_views(v: Seq<Vec<BoardItem>>) -> Seq<Seq<BoardItemView>> {
    v.map_values(|c: Vec<BoardItem>| item_views(c@))
}

// ---------------------------------------------------------------------------
// Status and sprint of an item
// ---------------------------------------------------------------------------

/// The text of the first of these fields that satisfies the predicate on its name
/// and holds a text.
pub open spec fn first_field(
    fields: Seq<(Seq<char>, Option<Seq<char>>)>,
    wanted: spec_fn(Seq<char>) -> bool,
) -> Option<Seq<char>>
    decreases fields.len(),
{
    if fields.len() == 0 {
        None
    } else if wanted(fields[0].0) && fields[0].1 is Some {
        fields[0].1
    } else {
        first_field(fields.drop_first(), wanted)
    }
}

pub open spec fn is_status_name(name: Seq<char>) -> bool {
    same_ignoring_case(name, "status"@)
}

pub open spec fn is_sprint_name(name: Seq<char>) -> bool {
    same_ignoring_case(name, "iteration"@) || same_ignoring_case(name, "sprint"@)
        || same_ignoring_case(name, "milestone"@)
}

/// The value of the item's status field.
pub open spec fn status_of(item: BoardItemView) -> Option<Seq<char>> {
    first_field(item.fields, |n: Seq<char>| is_status_name(n))
}

/// The sprint that the item belongs to.
pub open spec fn sprint_of(item: BoardItemView) -> Option<Seq<char>> {
    first_field(item.fields, |n: Seq<char>| is_sprint_name(n))
}

fn status_value(item: &BoardItem) -> (r: Option<String>)
    ensures
        text_option(r) == status_of(item@),
{
    let mut i: usize = 0;
    assert(item@.fields.skip(0) =~= item@.fields);
    while i < item.fields.len()
        invariant
            i <= item.fields@.len(),
            status_of(item@) == first_field(
                item@.fields.skip(i as int),
                |n: Seq<char>| is_status_name(n),
            ),
        decreases item.fields@.len() - i,
    {
        assert(item@.fields.skip(i as int).drop_first() =~= item@.fields.skip(i as int + 1));
        assert(item@.fields[i as int] == item.fields@[i as int].pair());
        if eq_ignore_case(item.fields[i].name.as_str(), "status") && item.fields[i].value.is_some() {
            return clone_text(&item.fields[i].value);
        }
        i += 1;
    }
    None
}

/// The sprint that an item belongs to.
pub fn board_item_sprint(item: &BoardItem) -> (r: Option<String>)
    ensures
        text_option(r) == sprint_of(item@),
{
    let mut i: usize = 0;
    assert(item@.fields.skip(0) =~= item@.fields);
    while i < item.fields.len()
        invariant
            i <= item.fields@.len(),
            sprint_of(item@) == first_field(
                item@.fields.skip(i as int),
                |n: Seq<char>| is_sprint_name(n),
            ),
        decreases item.fields@.len() - i,
    {
        assert(item@.fields.skip(i as int).drop_first() =~= item@.fields.skip(i as int + 1));
        assert(item@.fields[i as int] == item.fields@[i as int].pair());
        let name = item.fields[i].name.as_str();
        if (eq_ignore_case(name, "iteration") || eq_ignore_case(name, "sprint") || eq_ignore_case(
            name,
            "milestone",
        )) && item.fields[i].value.is_some() {
            return clone_text(&item.fields[i].value);
        }
        i += 1;
    }
    None
}

// ---------------------------------------------------------------------------
// Columns
// ---------------------------------------------------------------------------

/// The name of a column for finished work.
pub open spec fn is_done_name(name: Seq<char>) -> bool {
    ||| same_ignoring_case(name, "done"@)
    ||| same_ignoring_case(name, "closed"@)
    ||| same_ignoring_case(name, "merged"@)
    ||| same_ignoring_case(name, "complete"@)
    ||| same_ignoring_case(name, "completed"@)
}

fn names_done(name: &str) -> (r: bool)
    ensures
        r == is_done_name(name@),
{
    eq_ignore_case(name, "done") || eq_ignore_case(name, "closed") || eq_ignore_case(name, "merged")
        || eq_ignore_case(name, "complete") || eq_ignore_case(name, "completed")
}

/// The place of the first column whose name satisfies the predicate.
pub open spec fn first_column(columns: Seq<Seq<char>>, wanted: spec_fn(Seq<char>) -> bool) -> Option<
    int,
>
    decreases columns.len(),
{
    if columns.len() == 0 {
        None
    } else if wanted(columns[0]) {
        Some(0)
    } else {
        match first_column(columns.drop_first(), wanted) {
            Some(i) => Some(i + 1),
            None => None,
        }
    }
}

/// An item that is closed or merged.
pub open spec fn is_closed(item: BoardItemView) -> bool {
    same_ignoring_case(item.state, "closed"@) || same_ignoring_case(item.state, "merged"@)
}

/// The column of an item: the first one named like its status. The first column is the
/// catch-all for other open items; the last one catches those that are closed or
/// merged.
pub open spec fn column_of(columns: Seq<Seq<char>>, item: BoardItemView) -> int {
    match first_column(columns, |c: Seq<char>| same_ignoring_case(c, status_or_empty(item))) {
        Some(i) => i,
        None => if is_closed(item) && columns.len() > 0 {
            columns.len() - 1
        } else {
            0
        },
    }
}

/// The status of an item, empty where it has none.
pub open spec fn status_or_empty(item: BoardItemView) -> Seq<char> {
    match status_of(item) {
        Some(s) => s,
        None => seq![],
    }
}

/// The column that an item belongs to.
pub fn board_item_column(columns: &Vec<String>, item: &BoardItem) -> (r: usize)
    ensures
        r == column_of(views(columns@), item@),
{
    let status = match status_value(item) {
        Some(s) => s,
        None => String::new(),
    };
    let ghost names = views(columns@);
    let ghost wanted = |c: Seq<char>| same_ignoring_case(c, status_or_empty(item@));
    proof {
        assert(status@ =~= status_or_empty(item@));
    }
    let mut i: usize = 0;
    assert(names.skip(0) =~= names);
    while i < columns.len()
        invariant
            i <= columns@.len(),
            names == views(columns@),
            status@ == status_or_empty(item@),
            wanted == (|c: Seq<char>| same_ignoring_case(c, status_or_empty(item@))),
            first_column(names, wanted) == match first_column(names.skip(i as int), wanted) {
                Some(k) => Some(k + i),
                None => None,
            },
        decreases columns@.len() - i,
    {
        assert(names.skip(i as int).drop_first() =~= names.skip(i as int + 1));
        assert(names.skip(i as int)[0] == columns@[i as int]@);
        if eq_ignore_case(columns[i].as_str(), status.as_str()) {
            return i;
        }
        i += 1;
    }
    let closed = eq_ignore_case(item.state.as_str(), "closed") || eq_ignore_case(
        item.state.as_str(),
        "merged",
    );
    if closed && columns.len() > 0 {
        columns.len() - 1
    } else {
        0
    }
}

/// An item whose status names no column stands at an end of the board: a closed or
/// merged one in the last column, any other in the first one.
pub proof fn law_other_items_stand_at_the_ends(columns: Seq<Seq<char>>, item: BoardItemView)
    requires
        columns.len() > 0,
        forall|i: int|
            0 <= i < columns.len() ==> !same_ignoring_case(
                #[trigger] columns[i],
                status_or_empty(item),
            ),
    ensures
        column_of(columns, item) == if is_closed(item) {
            columns.len() - 1
        } else {
            0
        },
{
    lemma_no_column(columns, |c: Seq<char>| same_ignoring_case(c, status_or_empty(item)));
}

proof fn lemma_no_column(columns: Seq<Seq<char>>, wanted: spec_fn(Seq<char>) -> bool)
    requires
        forall|i: int| 0 <= i < columns.len() ==> !wanted(#[trigger] columns[i]),
    ensures
        first_column(columns, wanted) is None,
    decreases columns.len(),
{
    if columns.len() > 0 {
        assert forall|i: int| 0 <= i < columns.drop_first().len() implies !wanted(
            #[trigger] columns.drop_first()[i],
        ) by {
            assert(columns.drop_first()[i] == columns[i + 1]);
        }
        lemma_no_column(columns.drop_first(), wanted);
    }
}

/// The distinct non-empty statuses of the items, in the order of their first
/// appearance.
pub open spec fn distinct_statuses(items: Seq<BoardItemView>) -> Seq<Seq<char>>
    decreases items.len(),
{
    if items.len() == 0 {
        seq![]
    } else {
        let rest = distinct_statuses(items.drop_last());
        match status_of(items.last()) {
            Some(s) => if s.len() > 0 && !rest.contains(s) {
                rest.push(s)
            } else {
                rest
            },
            None => rest,
        }
    }
}

/// The columns that the statuses of the items call for: those for finished work
/// stand behind the others.
pub open spec fn discovered_columns(items: Seq<BoardItemView>) -> Seq<Seq<char>> {
    let found = distinct_statuses(items);
    found.filter(|s: Seq<char>| !is_done_name(s)) + found.filter(|s: Seq<char>| is_done_name(s))
}

fn collect_statuses(items: &Vec<BoardItem>) -> (r: Vec<String>)
    ensures
        views(r@) == distinct_statuses(item_views(items@)),
{
    let mut r: Vec<String> = Vec::new();
    let mut i: usize = 0;
    let ghost all = item_views(items@);
    assert(views(r@) =~= Seq::<Seq<char>>::empty());
    assert(all.take(0) =~= Seq::<BoardItemView>::empty());
    while i < items.len()
        invariant
            i <= items@.len(),
            all == item_views(items@),
            views(r@) == distinct_statuses(all.take(i as int)),
        decreases items@.len() - i,
    {
        proof {
            assert(all.take(i as int + 1).drop_last() =~= all.take(i as int));
            assert(all.take(i as int + 1).last() == items@[i as int]@);
        }
        if let Some(s) = status_value(&items[i]) {
            if !s.as_str().is_empty() && !crate::tasks::list_contains(&r, s.as_str()) {
                proof {
                    lemma_views_push(r@, s);
                }
                r.push(s);
            }
        }
        i += 1;
    }
    assert(all.take(i as int) =~= all);
    r
}

/// The texts of the list whose being a done name is `done`.
fn select_done(names: &Vec<String>, done: bool) -> (r: Vec<String>)
    ensures
        views(r@) == views(names@).filter(|s: Seq<char>| is_done_name(s) == done),
{
    let mut r: Vec<String> = Vec::new();
    let mut i: usize = 0;
    let ghost p = |s: Seq<char>| is_done_name(s) == done;
    proof {
        reveal(Seq::filter);
        assert(views(names@).take(0) =~= Seq::<Seq<char>>::empty());
        assert(views(r@) =~= views(names@).take(0).filter(p));
    }
    while i < names.len()
        invariant
            i <= names@.len(),
            p == (|s: Seq<char>| is_done_name(s) == done),
            views(r@) == views(names@).take(i as int).filter(p),
        decreases names@.len() - i,
    {
        proof {
            reveal(Seq::filter);
            let next = views(names@).take(i as int + 1);
            assert(next.drop_last() =~= views(names@).take(i as int));
            assert(next.last() == names@[i as int]@);
            lemma_views_push(r@, names@[i as int]);
        }
        if names_done(names[i].as_str()) == done {
            r.push(names[i].clone());
        }
        i += 1;
    }
    assert(views(names@).take(i as int) =~= views(names@));
    r
}

proof fn lemma_filter_same<A>(s: Seq<A>, p: spec_fn(A) -> bool, q: spec_fn(A) -> bool)
    requires
        forall|x: A| #[trigger] p(x) == q(x),
    ensures
        s.filter(p) == s.filter(q),
    decreases s.len(),
{
    reveal(Seq::filter);
    if s.len() > 0 {
        lemma_filter_same(s.drop_last(), p, q);
        assert(p(s.last()) == q(s.last()));
    }
}

/// The columns that the statuses of the items call for; empty where no item has one.
pub fn discover_columns(items: &Vec<BoardItem>) -> (r: Vec<String>)
    ensures
        views(r@) == discovered_columns(item_views(items@)),
{
    let found = collect_statuses(items);
    let mut r = select_done(&found, false);
    let mut done = select_done(&found, true);
    let ghost open = views(r@);
    let ghost closed_part = views(done@);
    r.append(&mut done);
    proof {
        assert(views(r@) =~= open + closed_part);
        lemma_filter_same(
            views(found@),
            |s: Seq<char>| is_done_name(s) == false,
            |s: Seq<char>| !is_done_name(s),
        );
        lemma_filter_same(
            views(found@),
            |s: Seq<char>| is_done_name(s) == true,
            |s: Seq<char>| is_done_name(s),
        );
    }
    r
}

// ---------------------------------------------------------------------------
// What the board shows
// ---------------------------------------------------------------------------

/// The item is of the chosen sprint and in the chosen scope.
pub open spec fn in_scope(
    item: BoardItemView,
    sprint: Option<Seq<char>>,
    scope: BoardScope,
    login: Option<Seq<char>>,
) -> bool {
    &&& sprint matches Some(s) ==> sprint_of(item) == Some(s)
    &&& scope == BoardScope::AssignedToMe ==> (login matches Some(l) && names_login(
        item.assignees,
        l,
    ))
}

/// The items of column `c` before the search text narrows them.
pub open spec fn column_items(
    source: Seq<BoardItemView>,
    columns: Seq<Seq<char>>,
    sprint: Option<Seq<char>>,
    scope: BoardScope,
    login: Option<Seq<char>>,
    c: int,
) -> Seq<BoardItemView> {
    source.filter(
        |v: BoardItemView| in_scope(v, sprint, scope, login) && column_of(columns, v) == c,
    )
}

/// The search text stands in the title, the number, a label, an assignee or the kind
/// of the item; everything matches an empty search text.
pub open spec fn board_matches(item: BoardItemView, filter: Seq<char>) -> bool {
    let q = lowercase(filter);
    ||| filter.len() == 0
    ||| contains_text(lowercase(item.title), q)
    ||| contains_text(signed_decimal(item.number as int), q)
    ||| any_text_holds(item.labels, q)
    ||| any_text_holds(item.assignees, q)
    ||| contains_text(item.kind_label, q)
}

pub open spec fn column_visible(items: Seq<BoardItemView>, filter: Seq<char>) -> Seq<BoardItemView> {
    items.filter(|v: BoardItemView| board_matches(v, filter))
}

fn item_in_scope(
    item: &BoardItem,
    sprint: &Option<String>,
    scope: BoardScope,
    login: &Option<String>,
) -> (r: bool)
    ensures
        r == in_scope(item@, text_option(*sprint), scope, text_option(*login)),
{
    let sprint_matches = match sprint {
        Some(s) => match board_item_sprint(item) {
            Some(t) => same(t.as_str(), s.as_str()),
            None => false,
        },
        None => true,
    };
    let scope_matches = match scope {
        BoardScope::AllSprint => true,
        BoardScope::AssignedToMe => match login {
            Some(l) => any_login(&item.assignees, l.as_str()),
            None => false,
        },
    };
    sprint_matches && scope_matches
}

fn item_matches(item: &BoardItem, filter: &str) -> (r: bool)
    ensures
        r == board_matches(item@, filter@),
{
    if filter.is_empty() {
        return true;
    }
    let query = to_lowercase(filter);
    let q = query.as_str();
    contains(to_lowercase(item.title.as_str()).as_str(), q) || contains(
        format_signed(item.number).as_str(),
        q,
    ) || any_holds(&item.labels, q) || any_holds(&item.assignees, q) || contains(
        item.kind_label.as_str(),
        q,
    )
}

proof fn lemma_item_views_push(v: Seq<BoardItem>, b: BoardItem)
    ensures
        item_views(v.push(b)) == item_views(v).push(b@),
{
    assert(item_views(v.push(b)) =~= item_views(v).push(b@));
}

pub fn collect_column(
    source: &Vec<BoardItem>,
    columns: &Vec<String>,
    sprint: &Option<String>,
    scope: BoardScope,
    login: &Option<String>,
    c: usize,
) -> (r: Vec<BoardItem>)
    ensures
        item_views(r@) == column_items(
            item_views(source@),
            views(columns@),
            text_option(*sprint),
            scope,
            text_option(*login),
            c as int,
        ),
{
    let mut r: Vec<BoardItem> = Vec::new();
    let mut i: usize = 0;
    let ghost all = item_views(source@);
    let ghost p = |v: BoardItemView|
        in_scope(v, text_option(*sprint), scope, text_option(*login)) && column_of(
            views(columns@),
            v,
        ) == c as int;
    proof {
        reveal(Seq::filter);
        assert(all.take(0) =~= Seq::<BoardItemView>::empty());
        assert(item_views(r@) =~= all.take(0).filter(p));
    }
    while i < source.len()
        invariant
            i <= source@.len(),
            all == item_views(source@),
            p == (|v: BoardItemView|
                in_scope(v, text_option(*sprint), scope, text_option(*login)) && column_of(
                    views(columns@),
                    v,
                ) == c as int),
            item_views(r@) == all.take(i as int).filter(p),
        decreases source@.len() - i,
    {
        let item = &source[i];
        proof {
            reveal(Seq::filter);
            assert(all.take(i as int + 1).drop_last() =~= all.take(i as int));
            assert(all.take(i as int + 1).last() == item@);
        }
        if item_in_scope(item, sprint, scope, login) && board_item_column(columns, item) == c {
            let copy = item.clone();
            proof {
                lemma_item_views_push(r@, copy);
            }
            r.push(copy);
        }
        i += 1;
    }
    assert(all.take(i as int) =~= all);
    r
}

pub fn narrow_column(items: &Vec<BoardItem>, filter: &str) -> (r: Vec<BoardItem>)
    ensures
        item_views(r@) == column_visible(item_views(items@), filter@),
{
    let mut r: Vec<BoardItem> = Vec::new();
    let mut i: usize = 0;
    let ghost all = item_views(items@);
    let ghost p = |v: BoardItemView| board_matches(v, filter@);
    proof {
        reveal(Seq::filter);
        assert(all.take(0) =~= Seq::<BoardItemView>::empty());
        assert(item_views(r@) =~= all.take(0).filter(p));
    }
    while i < items.len()
        invariant
            i <= items@.len(),
            all == item_views(items@),
            p == (|v: BoardItemView| board_matches(v, filter@)),
            item_views(r@) == all.take(i as int).filter(p),
        decreases items@.len() - i,
    {
        let item = &items[i];
        proof {
            reveal(Seq::filter);
            assert(all.take(i as int + 1).drop_last() =~= all.take(i as int));
            assert(all.take(i as int + 1).last() == item@);
        }
        if item_matches(item, filter) {
            let copy = item.clone();
            proof {
                lemma_item_views_push(r@, copy);
            }
            r.push(copy);
        }
        i += 1;
    }
    assert(all.take(i as int) =~= all);
    r
}

// ---------------------------------------------------------------------------
// Sprints
// ---------------------------------------------------------------------------

/// How many of the items belong to a sprint.
pub open spec fn sprint_count(items: Seq<BoardItemView>, sprint: Seq<char>) -> nat {
    items.filter(|v: BoardItemView| sprint_of(v) == Some(sprint)).len()
}

pub open spec fn has_sprint(items: Seq<BoardItemView>, sprint: Seq<char>) -> bool {
    exists|i: int| 0 <= i < items.len() && sprint_of(#[trigger] items[i]) == Some(sprint)
}

/// `sprints` are the sprints of the items, each once and in alphabetical order.
pub open spec fn lists_sprints(sprints: Seq<Seq<char>>, items: Seq<BoardItemView>) -> bool {
    &&& forall|i: int, j: int|
        0 <= i < j < sprints.len() ==> text_less(#[trigger] sprints[i], #[trigger] sprints[j])
    &&& forall|s: Seq<char>| #[trigger] sprints.contains(s) <==> has_sprint(items, s)
}

/// The sprints of the items, each once and in alphabetical order.
pub fn collect_board_sprints(items: &Vec<BoardItem>) -> (r: Vec<String>)
    ensures
        lists_sprints(views(r@), item_views(items@)),
{
    let mut r: Vec<String> = Vec::new();
    let ghost all = item_views(items@);
    let mut i: usize = 0;
    while i < items.len()
        invariant
            i <= items@.len(),
            all == item_views(items@),
            lists_sprints(views(r@), all.take(i as int)),
        decreases items@.len() - i,
    {
        let ghost before = views(r@);
        let ghost prefix = all.take(i as int);
        let ghost longer = all.take(i as int + 1);
        proof {
            assert(longer =~= prefix.push(items@[i as int]@));
            assert forall|s: Seq<char>| has_sprint(longer, s) <==> (has_sprint(prefix, s)
                || sprint_of(items@[i as int]@) == Some(s)) by {
                if has_sprint(prefix, s) {
                    let k = choose|k: int|
                        0 <= k < prefix.len() && sprint_of(#[trigger] prefix[k]) == Some(s);
                    assert(longer[k] == prefix[k]);
                }
                if sprint_of(items@[i as int]@) == Some(s) {
                    assert(longer[i as int] == items@[i as int]@);
                }
                if has_sprint(longer, s) {
                    let k = choose|k: int|
                        0 <= k < longer.len() && sprint_of(#[trigger] longer[k]) == Some(s);
                    if k < i {
                        assert(prefix[k] == longer[k]);
                    }
                }
            }
        }
        if let Some(s) = board_item_sprint(&items[i]) {
            let mut p: usize = 0;
            while p < r.len() && text_is_less(r[p].as_str(), s.as_str())
                invariant
                    p <= r@.len(),
                    views(r@) == before,
                    forall|k: int| 0 <= k < p ==> text_less(#[trigger] before[k], s@),
                decreases r@.len() - p,
            {
                assert(before[p as int] == r@[p as int]@);
                p += 1;
            }
            if p < r.len() && same(r[p].as_str(), s.as_str()) {
                proof {
                    assert(before[p as int] == s@);
                    assert(before.contains(s@));
                }
            } else {
                proof {
                    lemma_sprint_insert(before, s@, p as int);
                    assert(views(r@.insert(p as int, s)) =~= before.insert(p as int, s@));
                }
                r.insert(p, s);
            }
        }
        i += 1;
    }
    assert(all.take(i as int) =~= all);
    r
}

proof fn lemma_sprint_insert(before: Seq<Seq<char>>, s: Seq<char>, p: int)
    requires
        0 <= p <= before.len(),
        forall|i: int, j: int|
            0 <= i < j < before.len() ==> text_less(#[trigger] before[i], #[trigger] before[j]),
        forall|k: int| 0 <= k < p ==> text_less(#[trigger] before[k], s),
        p < before.len() ==> !text_less(before[p], s) && before[p] != s,
    ensures
        forall|i: int, j: int|
            0 <= i < j < before.insert(p, s).len() ==> text_less(
                #[trigger] before.insert(p, s)[i],
                #[trigger] before.insert(p, s)[j],
            ),
        forall|t: Seq<char>| #[trigger]
            before.insert(p, s).contains(t) <==> (before.contains(t) || t == s),
{
    let after = before.insert(p, s);
    if p < before.len() {
        lemma_text_less_total(before[p], s);
    }
    assert forall|i: int, j: int| 0 <= i < j < after.len() implies text_less(
        #[trigger] after[i],
        #[trigger] after[j],
    ) by {
        let x = if i < p {
            i
        } else {
            i - 1
        };
        let y = if j < p {
            j
        } else {
            j - 1
        };
        if i == p {
            assert(after[j] == before[y]);
            if y > p {
                assert(text_less(before[p], before[y]));
                lemma_text_less_transitive(s, before[p], before[y]);
            }
        } else if j == p {
            assert(after[i] == before[x]);
        } else {
            assert(after[i] == before[x]);
            assert(after[j] == before[y]);
        }
    }
    assert forall|t: Seq<char>| #[trigger] after.contains(t) <==> (before.contains(t) || t == s) by {
        if before.contains(t) {
            let k = choose|k: int| 0 <= k < before.len() && before[k] == t;
            if k < p {
                assert(after[k] == t);
            } else {
                assert(after[k + 1] == t);
            }
        }
        if t == s {
            assert(after[p] == t);
        }
        if after.contains(t) {
            let k = choose|k: int| 0 <= k < after.len() && after[k] == t;
            if k < p {
                assert(before[k] == t);
            } else if k > p {
                assert(before[k - 1] == t);
            }
        }
    }
}

fn count_sprint(items: &Vec<BoardItem>, sprint: &str) -> (n: usize)
    ensures
        n == sprint_count(item_views(items@), sprint@),
{
    let mut n: usize = 0;
    let mut i: usize = 0;
    let ghost all = item_views(items@);
    let ghost p = |v: BoardItemView| sprint_of(v) == Some(sprint@);
    proof {
        reveal(Seq::filter);
        assert(all.take(0) =~= Seq::<BoardItemView>::empty());
    }
    while i < items.len()
        invariant
            i <= items@.len(),
            n <= i,
            all == item_views(items@),
            p == (|v: BoardItemView| sprint_of(v) == Some(sprint@)),
            n == all.take(i as int).filter(p).len(),
        decreases items@.len() - i,
    {
        proof {
            reveal(Seq::filter);
            assert(all.take(i as int + 1).drop_last() =~= all.take(i as int));
            assert(all.take(i as int + 1).last() == items@[i as int]@);
        }
        if let Some(s) = board_item_sprint(&items[i]) {
            if same(s.as_str(), sprint) {
                n += 1;
            }
        }
        i += 1;
    }
    assert(all.take(i as int) =~= all);
    n
}

/// `s` is the sprint with the most items, the alphabetically last one among equals.
pub open spec fn is_default_sprint(items: Seq<BoardItemView>, s: Seq<char>) -> bool {
    &&& has_sprint(items, s)
    &&& forall|t: Seq<char>| #[trigger]
        has_sprint(items, t) && t != s ==> sprint_count(items, t) < sprint_count(items, s) || (
        sprint_count(items, t) == sprint_count(items, s) && text_less(t, s))
}

/// The sprint that the board opens with: the one with the most items.
pub fn default_board_sprint(items: &Vec<BoardItem>) -> (r: Option<String>)
    ensures
        r is None <==> forall|s: Seq<char>| !has_sprint(item_views(items@), s),
        r matches Some(s) ==> is_default_sprint(item_views(items@), s@),
{
    let sprints = collect_board_sprints(items);
    let ghost all = item_views(items@);
    let ghost names = views(sprints@);
    if sprints.len() == 0 {
        proof {
            assert forall|s: Seq<char>| !has_sprint(all, s) by {
                assert(!names.contains(s));
            }
        }
        return None;
    }
    let mut best: usize = 0;
    let mut most: usize = count_sprint(items, sprints[0].as_str());
    let mut i: usize = 1;
    while i < sprints.len()
        invariant
            1 <= i <= sprints@.len(),
            best < i,
            all == item_views(items@),
            names == views(sprints@),
            lists_sprints(names, all),
            most == sprint_count(all, names[best as int]),
            forall|k: int|
                0 <= k < i && k != best ==> sprint_count(all, #[trigger] names[k]) < most || (
                sprint_count(all, names[k]) == most && text_less(names[k], names[best as int])),
        decreases sprints@.len() - i,
    {
        let n: usize = count_sprint(items, sprints[i].as_str());
        proof {
            assert(names[i as int] == sprints@[i as int]@);
            assert forall|k: int| 0 <= k < i implies text_less(
                #[trigger] names[k],
                names[i as int],
            ) by {}
        }
        if n >= most {
            best = i;
            most = n;
        }
        i += 1;
    }
    proof {
        let s = names[best as int];
        assert(s == sprints@[best as int]@);
        assert(names.contains(s));
        assert forall|t: Seq<char>| #[trigger] has_sprint(all, t) && t != s implies sprint_count(
            all,
            t,
        ) < sprint_count(all, s) || (sprint_count(all, t) == sprint_count(all, s) && text_less(
            t,
            s,
        )) by {
            assert(names.contains(t));
            let k = choose|k: int| 0 <= k < names.len() && names[k] == t;
            assert(k != best);
        }
    }
    Some(sprints[best].clone())
}

// ---------------------------------------------------------------------------
// Laws
// ---------------------------------------------------------------------------

proof fn lemma_first_field(
    fields: Seq<(Seq<char>, Option<Seq<char>>)>,
    wanted: spec_fn(Seq<char>) -> bool,
    k: int,
)
    requires
        0 <= k < fields.len(),
        wanted(fields[k].0),
        fields[k].1 is Some,
        forall|j: int| 0 <= j < k ==> !(wanted((#[trigger] fields[j]).0) && fields[j].1 is Some),
    ensures
        first_field(fields, wanted) == fields[k].1,
    decreases k,
{
    if k > 0 {
        let rest = fields.drop_first();
        assert(!(wanted(fields[0].0) && fields[0].1 is Some));
        assert forall|j: int| 0 <= j < k - 1 implies !(wanted((#[trigger] rest[j]).0)
            && rest[j].1 is Some) by {
            assert(rest[j] == fields[j + 1]);
        }
        lemma_first_field(rest, wanted, k - 1);
    }
}

proof fn lemma_no_field(
    fields: Seq<(Seq<char>, Option<Seq<char>>)>,
    wanted: spec_fn(Seq<char>) -> bool,
)
    requires
        forall|j: int|
            0 <= j < fields.len() ==> !(wanted((#[trigger] fields[j]).0) && fields[j].1 is Some),
    ensures
        first_field(fields, wanted) is None,
    decreases fields.len(),
{
    if fields.len() > 0 {
        let rest = fields.drop_first();
        assert(!(wanted(fields[0].0) && fields[0].1 is Some));
        assert forall|j: int| 0 <= j < rest.len() implies !(wanted((#[trigger] rest[j]).0)
            && rest[j].1 is Some) by {
            assert(rest[j] == fields[j + 1]);
        }
        lemma_no_field(rest, wanted);
    }
}

/// The status of an item is the value of its first field that is named `status`, in any
/// case, and has a value; an item without such a field has none.
pub proof fn law_the_status_field_is_the_status(item: BoardItemView, k: int)
    requires
        0 <= k <= item.fields.len(),
        forall|j: int|
            0 <= j < k ==> !(same_ignoring_case((#[trigger] item.fields[j]).0, "status"@)
                && item.fields[j].1 is Some),
    ensures
        k < item.fields.len() && same_ignoring_case(item.fields[k].0, "status"@)
            && item.fields[k].1 is Some ==> status_of(item) == item.fields[k].1,
        k == item.fields.len() ==> status_of(item) is None,
{
    let wanted = |n: Seq<char>| is_status_name(n);
    if k == item.fields.len() {
        lemma_no_field(item.fields, wanted);
    } else if same_ignoring_case(item.fields[k].0, "status"@) && item.fields[k].1 is Some {
        lemma_first_field(item.fields, wanted, k);
    }
}

/// The sprint of an item is the value of its first field that is named `iteration`,
/// `sprint` or `milestone`, in any case, and has a value; an item without such a field has
/// none.
pub proof fn law_the_sprint_fields_are_the_sprint(item: BoardItemView, k: int)
    requires
        0 <= k <= item.fields.len(),
        forall|j: int|
            0 <= j < k ==> item.fields[j].1 is None || (!same_ignoring_case(
                (#[trigger] item.fields[j]).0,
                "iteration"@,
            ) && !same_ignoring_case(item.fields[j].0, "sprint"@) && !same_ignoring_case(
                item.fields[j].0,
                "milestone"@,
            )),
    ensures
        k < item.fields.len() && same_ignoring_case(item.fields[k].0, "iteration"@)
            && item.fields[k].1 is Some ==> sprint_of(item) == item.fields[k].1,
        k < item.fields.len() && same_ignoring_case(item.fields[k].0, "sprint"@)
            && item.fields[k].1 is Some ==> sprint_of(item) == item.fields[k].1,
        k < item.fields.len() && same_ignoring_case(item.fields[k].0, "milestone"@)
            && item.fields[k].1 is Some ==> sprint_of(item) == item.fields[k].1,
        k == item.fields.len() ==> sprint_of(item) is None,
{
    let wanted = |n: Seq<char>| is_sprint_name(n);
    if k == item.fields.len() {
        lemma_no_field(item.fields, wanted);
    } else if wanted(item.fields[k].0) && item.fields[k].1 is Some {
        lemma_first_field(item.fields, wanted, k);
    }
}

proof fn lemma_first_column(columns: Seq<Seq<char>>, wanted: spec_fn(Seq<char>) -> bool, c: int)
    requires
        0 <= c < columns.len(),
        wanted(columns[c]),
        forall|j: int| 0 <= j < c ==> !wanted(#[trigger] columns[j]),
    ensures
        first_column(columns, wanted) == Some(c),
    decreases c,
{
    if c > 0 {
        let rest = columns.drop_first();
        assert(!wanted(columns[0]));
        assert forall|j: int| 0 <= j < c - 1 implies !wanted(#[trigger] rest[j]) by {
            assert(rest[j] == columns[j + 1]);
        }
        lemma_first_column(rest, wanted, c - 1);
    }
}

/// The first place that holds a wanted text is the first column found.
pub proof fn law_the_first_column_counts(
    columns: Seq<Seq<char>>,
    wanted: spec_fn(Seq<char>) -> bool,
    c: int,
)
    requires
        0 <= c <= columns.len(),
        forall|j: int| 0 <= j < c ==> !wanted(#[trigger] columns[j]),
    ensures
        c < columns.len() && wanted(columns[c]) ==> first_column(columns, wanted) == Some(c),
        c == columns.len() ==> first_column(columns, wanted) is None,
{
    if c == columns.len() {
        lemma_no_column(columns, wanted);
    } else if wanted(columns[c]) {
        lemma_first_column(columns, wanted, c);
    }
}

/// An item with a status stands in the first column of that name, in any case. One whose
/// status names no column stands in the last one if its state is `closed` or `merged`, and
/// in the first one otherwise.
pub proof fn law_items_stand_under_their_status(
    columns: Seq<Seq<char>>,
    item: BoardItemView,
    c: int,
)
    requires
        status_of(item) is Some,
        0 <= c <= columns.len(),
        forall|j: int|
            0 <= j < c ==> !same_ignoring_case(#[trigger] columns[j], status_of(item)->0),
    ensures
        c < columns.len() && same_ignoring_case(columns[c], status_of(item)->0) ==> column_of(
            columns,
            item,
        ) == c,
        c == columns.len() && c > 0 && same_ignoring_case(item.state, "closed"@) ==> column_of(
            columns,
            item,
        ) == c - 1,
        c == columns.len() && c > 0 && same_ignoring_case(item.state, "merged"@) ==> column_of(
            columns,
            item,
        ) == c - 1,
        c == columns.len() && !same_ignoring_case(item.state, "closed"@) && !same_ignoring_case(
            item.state,
            "merged"@,
        ) ==> column_of(columns, item) == 0,
{
    law_the_first_column_counts(
        columns,
        |n: Seq<char>| same_ignoring_case(n, status_or_empty(item)),
        c,
    );
}

proof fn lemma_filter_keeps(
    items: Seq<BoardItemView>,
    p: spec_fn(BoardItemView) -> bool,
    v: BoardItemView,
)
    ensures
        items.filter(p).contains(v) <==> items.contains(v) && p(v),
    decreases items.len(),
{
    reveal(Seq::filter);
    if items.len() > 0 {
        let rest = items.drop_last();
        let all = items.filter(p);
        let part = rest.filter(p);
        lemma_filter_keeps(rest, p, v);
        if items.contains(v) && p(v) {
            let k = choose|k: int| 0 <= k < items.len() && items[k] == v;
            if k < items.len() - 1 {
                assert(rest[k] == v);
                let m = choose|m: int| 0 <= m < part.len() && part[m] == v;
                assert(all[m] == v);
            } else {
                assert(all[all.len() - 1] == v);
            }
        }
        if all.contains(v) {
            let m = choose|m: int| 0 <= m < all.len() && all[m] == v;
            if m < part.len() {
                assert(part[m] == v);
                let k = choose|k: int| 0 <= k < rest.len() && rest[k] == v;
                assert(items[k] == v);
            } else {
                assert(items[items.len() - 1] == v);
            }
        }
    }
}

/// A search keeps every item of a column whose title, label, assignee, number or kind holds
/// the lowercased search text: titles, labels and assignees in lower case. Without a search
/// text it keeps every item.
pub proof fn law_a_search_keeps_what_holds_it(
    items: Seq<BoardItemView>,
    filter: Seq<char>,
    k: int,
    j: int,
)
    requires
        0 <= k < items.len(),
    ensures
        filter.len() == 0 ==> column_visible(items, filter).contains(items[k]),
        contains_text(lowercase(items[k].title), lowercase(filter)) ==> column_visible(
            items,
            filter,
        ).contains(items[k]),
        contains_text(signed_decimal(items[k].number as int), lowercase(filter)) ==> column_visible(
            items,
            filter,
        ).contains(items[k]),
        0 <= j < items[k].labels.len() && contains_text(
            lowercase(items[k].labels[j]),
            lowercase(filter),
        ) ==> column_visible(items, filter).contains(items[k]),
        0 <= j < items[k].assignees.len() && contains_text(
            lowercase(items[k].assignees[j]),
            lowercase(filter),
        ) ==> column_visible(items, filter).contains(items[k]),
        contains_text(items[k].kind_label, lowercase(filter)) ==> column_visible(
            items,
            filter,
        ).contains(items[k]),
{
    let p = |v: BoardItemView| board_matches(v, filter);
    assert(items.contains(items[k]));
    lemma_filter_keeps(items, p, items[k]);
}

/// What a search keeps was in the column, and the lowercased search text stands in its
/// title, its number, one of its labels or assignees, or its kind.
pub proof fn law_a_search_keeps_nothing_else(
    items: Seq<BoardItemView>,
    filter: Seq<char>,
    v: BoardItemView,
)
    requires
        column_visible(items, filter).contains(v),
        filter.len() > 0,
        !contains_text(lowercase(v.title), lowercase(filter)),
        !contains_text(signed_decimal(v.number as int), lowercase(filter)),
        !contains_text(v.kind_label, lowercase(filter)),
        forall|j: int|
            0 <= j < v.labels.len() ==> !contains_text(
                lowercase(#[trigger] v.labels[j]),
                lowercase(filter),
            ),
    ensures
        items.contains(v),
        exists|j: int|
            0 <= j < v.assignees.len() && contains_text(
                lowercase(#[trigger] v.assignees[j]),
                lowercase(filter),
            ),
{
    let p = |x: BoardItemView| board_matches(x, filter);
    lemma_filter_keeps(items, p, v);
}

/// A column shows its items in the order in which the project lists them, each as often.
pub proof fn law_a_column_keeps_the_order(
    a: Seq<BoardItemView>,
    b: Seq<BoardItemView>,
    filter: Seq<char>,
)
    ensures
        column_visible(a + b, filter) == column_visible(a, filter) + column_visible(b, filter),
        filter.len() == 0 ==> column_visible(a, filter) == a,
{
    let p = |x: BoardItemView| board_matches(x, filter);
    Seq::filter_distributes_over_add(a, b, p);
    if filter.len() == 0 {
        lemma_all_kept(a, p);
    }
}

proof fn lemma_all_kept(a: Seq<BoardItemView>, p: spec_fn(BoardItemView) -> bool)
    requires
        forall|v: BoardItemView| #[trigger] p(v),
    ensures
        a.filter(p) == a,
    decreases a.len(),
{
    reveal(Seq::filter);
    if a.len() > 0 {
        lemma_all_kept(a.drop_last(), p);
        assert(a.filter(p) =~= a);
    } else {
        assert(a.filter(p) =~= a);
    }
}

/// Every item of the project stands in its column, if it is of the chosen sprint and, in
/// the scope of the user's own items, the user is among its assignees.
pub proof fn law_chosen_items_stand_in_their_column(
    source: Seq<BoardItemView>,
    columns: Seq<Seq<char>>,
    sprint: Option<Seq<char>>,
    scope: BoardScope,
    login: Option<Seq<char>>,
    k: int,
    j: int,
)
    requires
        0 <= k < source.len(),
        sprint is None || sprint_of(source[k]) == sprint,
        scope == BoardScope::AssignedToMe ==> login is Some && 0 <= j < source[k].assignees.len()
            && same_ignoring_case(source[k].assignees[j], login->0),
    ensures
        column_items(source, columns, sprint, scope, login, column_of(columns, source[k])).contains(
            source[k],
        ),
{
    let c = column_of(columns, source[k]);
    let p = |v: BoardItemView| in_scope(v, sprint, scope, login) && column_of(columns, v) == c;
    assert(source.contains(source[k]));
    lemma_filter_keeps(source, p, source[k]);
}

/// A column holds items of the project alone: of the chosen sprint, under this column, and
/// in the scope of the user's own items with the user among the assignees.
pub proof fn law_columns_hold_chosen_items_only(
    source: Seq<BoardItemView>,
    columns: Seq<Seq<char>>,
    sprint: Option<Seq<char>>,
    scope: BoardScope,
    login: Option<Seq<char>>,
    c: int,
    v: BoardItemView,
)
    requires
        column_items(source, columns, sprint, scope, login, c).contains(v),
    ensures
        source.contains(v),
        column_of(columns, v) == c,
        sprint is Some ==> sprint_of(v) == sprint,
        scope == BoardScope::AssignedToMe ==> login is Some && exists|j: int|
            0 <= j < v.assignees.len() && same_ignoring_case(#[trigger] v.assignees[j], login->0),
{
    let p = |x: BoardItemView| in_scope(x, sprint, scope, login) && column_of(columns, x) == c;
    lemma_filter_keeps(source, p, v);
}

proof fn lemma_statuses(items: Seq<BoardItemView>)
    ensures
        distinct_statuses(items).no_duplicates(),
        forall|s: Seq<char>| #[trigger]
            distinct_statuses(items).contains(s) <==> s.len() > 0 && exists|k: int|
                0 <= k < items.len() && status_of(#[trigger] items[k]) == Some(s),
    decreases items.len(),
{
    if items.len() > 0 {
        let rest = items.drop_last();
        let before = distinct_statuses(rest);
        let all = distinct_statuses(items);
        lemma_statuses(rest);
        assert forall|s: Seq<char>| #[trigger] all.contains(s) <==> s.len() > 0 && exists|k: int|
            0 <= k < items.len() && status_of(#[trigger] items[k]) == Some(s) by {
            if all.contains(s) {
                let m = choose|m: int| 0 <= m < all.len() && all[m] == s;
                if m < before.len() {
                    assert(before[m] == s);
                    assert(before.contains(s));
                    let k = choose|k: int| 0 <= k < rest.len() && status_of(#[trigger] rest[k])
                        == Some(s);
                    assert(items[k] == rest[k]);
                } else {
                    assert(status_of(items[items.len() - 1]) == Some(s));
                }
            }
            if s.len() > 0 && exists|k: int|
                0 <= k < items.len() && status_of(#[trigger] items[k]) == Some(s) {
                let k = choose|k: int| 0 <= k < items.len() && status_of(#[trigger] items[k])
                    == Some(s);
                if k < rest.len() {
                    assert(rest[k] == items[k]);
                    assert(before.contains(s));
                    let m = choose|m: int| 0 <= m < before.len() && before[m] == s;
                    assert(all[m] == s);
                } else if before.contains(s) {
                    assert(all == before);
                } else {
                    assert(all[all.len() - 1] == s);
                }
            }
        }
    }
}

proof fn lemma_text_filter(s: Seq<Seq<char>>, p: spec_fn(Seq<char>) -> bool)
    ensures
        forall|t: Seq<char>| #[trigger] s.filter(p).contains(t) <==> s.contains(t) && p(t),
        s.no_duplicates() ==> s.filter(p).no_duplicates(),
    decreases s.len(),
{
    reveal(Seq::filter);
    if s.len() > 0 {
        let rest = s.drop_last();
        let part = rest.filter(p);
        let all = s.filter(p);
        lemma_text_filter(rest, p);
        assert forall|t: Seq<char>| #[trigger] all.contains(t) <==> s.contains(t) && p(t) by {
            assert(part.contains(t) <==> rest.contains(t) && p(t));
            if s.contains(t) && p(t) {
                let k = choose|k: int| 0 <= k < s.len() && s[k] == t;
                if k < rest.len() {
                    assert(rest[k] == t);
                    let m = choose|m: int| 0 <= m < part.len() && part[m] == t;
                    assert(all[m] == t);
                } else {
                    assert(all[all.len() - 1] == t);
                }
            }
            if all.contains(t) {
                let m = choose|m: int| 0 <= m < all.len() && all[m] == t;
                if m < part.len() {
                    assert(part[m] == t);
                    let k = choose|k: int| 0 <= k < rest.len() && rest[k] == t;
                    assert(s[k] == t);
                } else {
                    assert(s[s.len() - 1] == t);
                }
            }
        }
        if s.no_duplicates() {
            if p(s.last()) && part.contains(s.last()) {
                let k = choose|k: int| 0 <= k < rest.len() && rest[k] == s.last();
                assert(s[k] == s[s.len() - 1]);
            }
            assert(forall|i: int| 0 <= i < part.len() ==> #[trigger] part.contains(part[i]));
        }
    }
}

/// The columns of a project are the distinct statuses of its items, none empty and none
/// twice.
pub proof fn law_columns_are_the_statuses(items: Seq<BoardItemView>, s: Seq<char>, k: int)
    ensures
        discovered_columns(items).no_duplicates(),
        0 <= k < items.len() && s.len() > 0 && status_of(items[k]) == Some(s)
            ==> discovered_columns(items).contains(s),
        discovered_columns(items).contains(s) ==> s.len() > 0 && exists|n: int|
            0 <= n < items.len() && status_of(#[trigger] items[n]) == Some(s),
{
    let found = distinct_statuses(items);
    let open = |t: Seq<char>| !is_done_name(t);
    let done = |t: Seq<char>| is_done_name(t);
    let a = found.filter(open);
    let b = found.filter(done);
    lemma_statuses(items);
    lemma_text_filter(found, open);
    lemma_text_filter(found, done);
    let all = discovered_columns(items);
    assert(all == a + b);
    assert(found.contains(s) ==> all.contains(s)) by {
        if found.contains(s) {
            if is_done_name(s) {
                assert(done(s));
                assert(b.contains(s));
                let m = choose|m: int| 0 <= m < b.len() && b[m] == s;
                assert(all[a.len() + m] == s);
            } else {
                assert(open(s));
                assert(a.contains(s));
                let m = choose|m: int| 0 <= m < a.len() && a[m] == s;
                assert(all[m] == s);
            }
        }
    }
    if all.contains(s) {
        let m = choose|m: int| 0 <= m < all.len() && all[m] == s;
        if m < a.len() {
            assert(a.contains(a[m]));
        } else {
            assert(b.contains(b[m - a.len()]));
        }
        assert(found.contains(s));
    }
    assert forall|i: int, j: int| 0 <= i < j < all.len() implies all[i] != all[j] by {
        if j < a.len() {
        } else if i >= a.len() {
        } else {
            assert(a.contains(a[i]));
            assert(b.contains(b[j - a.len()]));
        }
    }
}

/// The columns for finished work stand behind the others: those named `done`, `closed`,
/// `merged`, `complete` or `completed`, in any case.
pub proof fn law_finished_columns_come_last(items: Seq<BoardItemView>, i: int, j: int)
    requires
        0 <= i < discovered_columns(items).len(),
        0 <= j < discovered_columns(items).len(),
        ({
            let s = discovered_columns(items)[i];
            ||| same_ignoring_case(s, "done"@)
            ||| same_ignoring_case(s, "closed"@)
            ||| same_ignoring_case(s, "merged"@)
            ||| same_ignoring_case(s, "complete"@)
            ||| same_ignoring_case(s, "completed"@)
        }),
        ({
            let s = discovered_columns(items)[j];
            &&& !same_ignoring_case(s, "done"@)
            &&& !same_ignoring_case(s, "closed"@)
            &&& !same_ignoring_case(s, "merged"@)
            &&& !same_ignoring_case(s, "complete"@)
            &&& !same_ignoring_case(s, "completed"@)
        }),
    ensures
        j < i,
{
    let found = distinct_statuses(items);
    let open = |t: Seq<char>| !is_done_name(t);
    let done = |t: Seq<char>| is_done_name(t);
    let a = found.filter(open);
    let b = found.filter(done);
    lemma_text_filter(found, open);
    lemma_text_filter(found, done);
    if i < a.len() {
        assert(a.contains(a[i]));
    }
    if j >= a.len() {
        assert(b.contains(b[j - a.len()]));
    }
}

/// The statuses stand in the order in which the items bring them.
pub proof fn law_columns_keep_their_order(items: Seq<BoardItemView>, next: BoardItemView)
    ensures
        ({
            let before = distinct_statuses(items);
            let after = distinct_statuses(items.push(next));
            &&& after.len() >= before.len()
            &&& after.take(before.len() as int) =~= before
            &&& status_of(next) matches Some(s) ==> (s.len() > 0 && !before.contains(s)
                ==> after.last() == s && after.len() == before.len() + 1)
        }),
{
    assert(items.push(next).drop_last() =~= items);
}

/// The sprint with the most items is the default; of equally many it is the last by name.
pub proof fn law_the_fullest_sprint_is_the_default(items: Seq<BoardItemView>, s: Seq<char>)
    requires
        has_sprint(items, s),
    ensures
        (forall|t: Seq<char>| #[trigger]
            has_sprint(items, t) && t != s ==> sprint_count(items, t) < sprint_count(items, s))
            ==> is_default_sprint(items, s),
        (forall|t: Seq<char>| #[trigger]
            has_sprint(items, t) && t != s ==> sprint_count(items, t) == sprint_count(items, s)
                && text_less(t, s)) ==> is_default_sprint(items, s),
{
}

/// A sprint counts the items that it has: one more for each, and none of the others.
pub proof fn law_sprints_count_their_items(
    items: Seq<BoardItemView>,
    item: BoardItemView,
    s: Seq<char>,
)
    ensures
        sprint_of(item) == Some(s) ==> sprint_count(items.push(item), s) == sprint_count(items, s)
            + 1,
        sprint_of(item) != Some(s) ==> sprint_count(items.push(item), s) == sprint_count(items, s),
        sprint_count(seq![], s) == 0,
{
    reveal(Seq::filter);
    assert(items.push(item).drop_last() =~= items);
}

} // verus!
