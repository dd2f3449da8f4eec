//! The GitHub queues of the signed-in user: pull requests that they wrote, pull
//! requests that wait for their review, and items that are assigned to them.

use vstd::prelude::*;
use vstd::string::*;

use crate::json::{array_len_at, json_array_at, json_string_at, string_at};
use crate::ranking::{
    is_ranking, lemma_option_less, option_is_less, option_less, precedes, rank, text_less, Ranking,
};
use crate::settings::{clone_text, text_option};
use crate::store::{
    GitHubIssueCache, GitHubItem, GitHubItemKind, GitHubPrCache, GitHubRepo, Thread,
};
use crate::text::{
    contains, contains_text, decimal, eq_ignore_case, format_number, format_signed,
    lemma_views_push, lowercase, same_ignoring_case, signed_decimal, to_lowercase, views,
};

verus! {

/// A pull request of the review view.
pub struct ReviewQueueItem {
    pub github_item: GitHubItem,
    pub pr_cache: GitHubPrCache,
    pub issue_cache: Option<GitHubIssueCache>,
    pub author_login: Option<String>,
    pub requested_reviewer_logins: Vec<String>,
    pub comment_count: usize,
    pub review_count: usize,
    pub review_comment_count: usize,
}

/// An item that is assigned to the user.
pub struct MyTaskItem {
    pub repo: GitHubRepo,
    pub github_item: GitHubItem,
    pub issue_cache: Option<GitHubIssueCache>,
    pub pr_cache: Option<GitHubPrCache>,
    pub linked_thread: Option<Thread>,
    pub linked_pr: Option<GitHubItem>,
}

/// The number and title of an item, as lists show them.
pub open spec fn item_title_line(item: GitHubItem) -> Seq<char> {
    "#"@ + signed_decimal(item.number as int) + " "@ + item.title@
}

pub fn github_title_line(item: &GitHubItem) -> (r: String)
    ensures
        r@ == item_title_line(*item),
{
    let mut r = "#".to_owned();
    r.append(format_signed(item.number).as_str());
    r.append(" ");
    r.append(item.title.as_str());
    r
}

impl ReviewQueueItem {
    pub fn title_line(&self) -> (r: String)
        ensures
            r@ == item_title_line(self.github_item),
    {
        github_title_line(&self.github_item)
    }
}

impl MyTaskItem {
    pub fn title_line(&self) -> (r: String)
        ensures
            r@ == item_title_line(self.github_item),
    {
        github_title_line(&self.github_item)
    }
}

// ---------------------------------------------------------------------------
// Payloads of the GitHub API
// ---------------------------------------------------------------------------

/// The login of the author that a payload names, in either of the two forms in
/// which GitHub's APIs write it.
pub open spec fn payload_author(payload: Seq<char>) -> Option<Seq<char>> {
    match json_string_at(payload, "/author/login"@) {
        Some(login) => Some(login),
        None => json_string_at(payload, "/user/login"@),
    }
}

/// The author in either of the two forms in which GitHub's APIs name one; the first form
/// wins where both are there.
pub fn author_among(author: Option<String>, user: Option<String>) -> (r: Option<String>)
    ensures
        r == if author is Some {
            author
        } else {
            user
        },
        author is Some ==> r == author,
        author is None ==> r == user,
{
    match author {
        Some(login) => Some(login),
        None => user,
    }
}

pub fn parse_author_login(json_payload: &Option<String>) -> (r: Option<String>)
    ensures
        text_option(r) == match *json_payload {
            Some(p) => payload_author(p@),
            None => None,
        },
{
    match json_payload {
        Some(p) => author_among(
            string_at(p.as_str(), "/author/login"),
            string_at(p.as_str(), "/user/login"),
        ),
        None => None,
    }
}

/// The pointer of a member in element `i` of an array.
pub open spec fn element_pointer(array: Seq<char>, i: nat, member: Seq<char>) -> Seq<char> {
    array + "/"@ + decimal(i) + member
}

pub fn pointer_to(array: &str, i: usize, member: &str) -> (r: String)
    ensures
        r@ == element_pointer(array@, i as nat, member@),
{
    let mut pointer = array.to_owned();
    pointer.append("/");
    pointer.append(format_number(i as u64).as_str());
    pointer.append(member);
    pointer
}

/// What the elements of an array hold at a member.
pub open spec fn members_of(
    payload: Seq<char>,
    array: Seq<char>,
    member: Seq<char>,
    n: nat,
) -> Seq<Option<Seq<char>>> {
    Seq::new(n, |i: int| json_string_at(payload, element_pointer(array, i as nat, member)))
}

/// What the elements of an array hold at a member; `None` without the array.
pub open spec fn members_at(payload: Seq<char>, array: Seq<char>, member: Seq<char>) -> Option<
    Seq<Option<Seq<char>>>,
> {
    match json_array_at(payload, array) {
        Some(n) => Some(members_of(payload, array, member, n as nat)),
        None => None,
    }
}

/// The texts of a list, the gaps left out.
pub open spec fn present(found: Seq<Option<Seq<char>>>) -> Seq<Seq<char>>
    decreases found.len(),
{
    if found.len() == 0 {
        seq![]
    } else {
        match found.last() {
            Some(text) => present(found.drop_last()).push(text),
            None => present(found.drop_last()),
        }
    }
}

/// The logins of the first list that is there.
pub open spec fn reviewers_from(
    plain: Option<Seq<Option<Seq<char>>>>,
    nodes: Option<Seq<Option<Seq<char>>>>,
) -> Seq<Seq<char>> {
    match plain {
        Some(found) => present(found),
        None => match nodes {
            Some(found) => present(found),
            None => seq![],
        },
    }
}

/// The logins that a payload requests a look from, in either of the two forms
/// in which GitHub's APIs write them; the first form wins where both are there.
pub open spec fn payload_reviewers(payload: Seq<char>) -> Seq<Seq<char>> {
    reviewers_from(
        members_at(payload, "/requested_reviewers"@, "/login"@),
        members_at(payload, "/reviewRequests/nodes"@, "/requestedReviewer/login"@),
    )
}

pub open spec fn found_views(found: Seq<Option<String>>) -> Seq<Option<Seq<char>>> {
    found.map_values(|o: Option<String>| text_option(o))
}

pub open spec fn found_option(found: Option<Vec<Option<String>>>) -> Option<Seq<Option<Seq<char>>>> {
    match found {
        Some(v) => Some(found_views(v@)),
        None => None,
    }
}

fn read_members(payload: &str, array: &str, member: &str) -> (r: Option<Vec<Option<String>>>)
    ensures
        found_option(r) == members_at(payload@, array@, member@),
{
    let n: usize = match array_len_at(payload, array) {
        Some(n) => n,
        None => {
            return None;
        },
    };
    let mut r: Vec<Option<String>> = Vec::new();
    let ghost all = members_of(payload@, array@, member@, n as nat);
    let mut i: usize = 0;
    assert(found_views(r@) =~= all.take(0));
    while i < n
        invariant
            i <= n,
            all == members_of(payload@, array@, member@, n as nat),
            found_views(r@) == all.take(i as int),
        decreases n - i,
    {
        let pointer = pointer_to(array, i, member);
        let found = string_at(payload, pointer.as_str());
        let ghost before = r@;
        r.push(found);
        assert(found_views(r@) =~= found_views(before).push(text_option(found)));
        assert(all.take(i + 1) =~= all.take(i as int).push(all[i as int]));
        i += 1;
    }
    assert(all.take(n as int) =~= all);
    Some(r)
}

fn keep_present(found: Vec<Option<String>>) -> (r: Vec<String>)
    ensures
        views(r@) == present(found_views(found@)),
{
    let mut r: Vec<String> = Vec::new();
    let ghost all = found_views(found@);
    let mut i: usize = 0;
    assert(views(r@) =~= Seq::<Seq<char>>::empty());
    while i < found.len()
        invariant
            i <= found@.len(),
            all == found_views(found@),
            views(r@) == present(all.take(i as int)),
        decreases found@.len() - i,
    {
        assert(all.take(i + 1).drop_last() =~= all.take(i as int));
        assert(all.take(i + 1).last() == text_option(found@[i as int]));
        if let Some(login) = clone_text(&found[i]) {
            proof {
                lemma_views_push(r@, login);
            }
            r.push(login);
        }
        i += 1;
    }
    assert(all.take(i as int) =~= all);
    r
}

/// The logins that are asked for a look, from what either form of a payload holds.
pub fn reviewers_among(
    plain: Option<Vec<Option<String>>>,
    nodes: Option<Vec<Option<String>>>,
) -> (r: Vec<String>)
    ensures
        views(r@) == reviewers_from(found_option(plain), found_option(nodes)),
{
    match plain {
        Some(found) => keep_present(found),
        None => match nodes {
            Some(found) => keep_present(found),
            None => {
                let r: Vec<String> = Vec::new();
                assert(views(r@) =~= Seq::<Seq<char>>::empty());
                r
            },
        },
    }
}

pub fn parse_requested_reviewer_logins(json_payload: &Option<String>) -> (r: Vec<String>)
    ensures
        views(r@) == match *json_payload {
            Some(p) => payload_reviewers(p@),
            None => seq![],
        },
{
    match json_payload {
        Some(p) => {
            let payload = p.as_str();
            reviewers_among(
                read_members(payload, "/requested_reviewers", "/login"),
                read_members(payload, "/reviewRequests/nodes", "/requestedReviewer/login"),
            )
        },
        None => {
            let r: Vec<String> = Vec::new();
            assert(views(r@) =~= Seq::<Seq<char>>::empty());
            r
        },
    }
}

/// Who wrote a pull request: what the issue cache says, else what the payload says.
pub open spec fn resolved_author(
    issue: Option<GitHubIssueCache>,
    payload: Option<String>,
) -> Option<Seq<char>> {
    match issue {
        Some(cache) => match cache.author_login {
            Some(login) => Some(login@),
            None => match payload {
                Some(p) => payload_author(p@),
                None => None,
            },
        },
        None => match payload {
            Some(p) => payload_author(p@),
            None => None,
        },
    }
}

/// Put together what the review view knows of a pull request.
pub fn review_queue_item(
    github_item: GitHubItem,
    pr_cache: GitHubPrCache,
    issue_cache: Option<GitHubIssueCache>,
    comment_count: usize,
    review_count: usize,
    review_comment_count: usize,
) -> (r: ReviewQueueItem)
    ensures
        r.github_item == github_item,
        r.pr_cache == pr_cache,
        r.issue_cache == issue_cache,
        r.comment_count == comment_count,
        r.review_count == review_count,
        r.review_comment_count == review_comment_count,
        text_option(r.author_login) == resolved_author(issue_cache, pr_cache.json_payload),
        views(r.requested_reviewer_logins@) == match pr_cache.json_payload {
            Some(p) => payload_reviewers(p@),
            None => seq![],
        },
{
    let known: Option<String> = match &issue_cache {
        Some(cache) => clone_text(&cache.author_login),
        None => None,
    };
    let author_login = match known {
        Some(login) => Some(login),
        None => parse_author_login(&pr_cache.json_payload),
    };
    let requested_reviewer_logins = parse_requested_reviewer_logins(&pr_cache.json_payload);
    ReviewQueueItem {
        github_item,
        pr_cache,
        issue_cache,
        author_login,
        requested_reviewer_logins,
        comment_count,
        review_count,
        review_comment_count,
    }
}

// ---------------------------------------------------------------------------
// The queues
// ---------------------------------------------------------------------------

/// A login of the list is the given one, whatever its case.
pub open spec fn names_login(logins: Seq<Seq<char>>, login: Seq<char>) -> bool {
    exists|i: int| 0 <= i < logins.len() && same_ignoring_case(#[trigger] logins[i], login)
}

pub fn any_login(logins: &Vec<String>, login: &str) -> (r: bool)
    ensures
        r == names_login(views(logins@), login@),
{
    let mut i: usize = 0;
    while i < logins.len()
        invariant
            i <= logins@.len(),
            forall|k: int| 0 <= k < i ==> !same_ignoring_case(#[trigger] views(logins@)[k], login@),
        decreases logins@.len() - i,
    {
        if eq_ignore_case(logins[i].as_str(), login) {
            assert(same_ignoring_case(views(logins@)[i as int], login@));
            return true;
        }
        i += 1;
    }
    false
}

/// A text that may be absent is the given one, whatever its case.
pub open spec fn option_names(o: Option<String>, s: Seq<char>) -> bool {
    o matches Some(t) && same_ignoring_case(t@, s)
}

pub fn text_names(o: &Option<String>, s: &str) -> (r: bool)
    ensures
        r == option_names(*o, s@),
{
    match o {
        Some(t) => eq_ignore_case(t.as_str(), s),
        None => false,
    }
}

/// The user was asked for a review, or is assigned to a pull request that needs one.
pub open spec fn needs_my_review(item: ReviewQueueItem, login: Seq<char>) -> bool {
    names_login(views(item.requested_reviewer_logins@), login) || (names_login(
        views(item.github_item.assignee_logins@),
        login,
    ) && option_names(item.pr_cache.review_decision, "review_required"@))
}

pub fn review_item_needs_my_review(item: &ReviewQueueItem, current_login: &str) -> (r: bool)
    ensures
        r == needs_my_review(*item, current_login@),
{
    let requested = any_login(&item.requested_reviewer_logins, current_login);
    let assigned = any_login(&item.github_item.assignee_logins, current_login);
    let required = text_names(&item.pr_cache.review_decision, "review_required");
    requested || (assigned && required)
}

/// How urgent a review is: changes that were asked for first, then what nobody has
/// reviewed, approvals last.
pub open spec fn decision_priority(decision: Option<String>) -> u8 {
    if option_names(decision, "changes_requested"@) {
        0
    } else if option_names(decision, "review_required"@) {
        1
    } else if option_names(decision, "approved"@) {
        3
    } else {
        2
    }
}

pub fn review_priority(review_decision: &Option<String>) -> (r: u8)
    ensures
        r == decision_priority(*review_decision),
{
    if text_names(review_decision, "changes_requested") {
        0
    } else if text_names(review_decision, "review_required") {
        1
    } else if text_names(review_decision, "approved") {
        3
    } else {
        2
    }
}

pub open spec fn is_open(item: GitHubItem) -> bool {
    same_ignoring_case(item.state@, "open"@)
}

pub open spec fn is_open_pr(item: ReviewQueueItem) -> bool {
    item.github_item.kind == GitHubItemKind::PullRequest && is_open(item.github_item)
}

/// The user wrote the open pull request.
pub open spec fn in_authored_queue(item: ReviewQueueItem, login: Seq<char>) -> bool {
    is_open_pr(item) && option_names(item.author_login, login)
}

/// Somebody else wrote the open pull request, and it waits for the user.
pub open spec fn in_requested_queue(item: ReviewQueueItem, login: Seq<char>) -> bool {
    is_open_pr(item) && !option_names(item.author_login, login) && needs_my_review(item, login)
}

/// The item changed later, or has the higher number among those that changed at the
/// same time.
pub open spec fn newer(a: GitHubItem, b: GitHubItem) -> bool {
    option_less(b.github_updated_at, a.github_updated_at) || (!option_less(
        a.github_updated_at,
        b.github_updated_at,
    ) && !option_less(b.github_updated_at, a.github_updated_at) && b.number < a.number)
}

fn is_newer(a: &GitHubItem, b: &GitHubItem) -> (r: bool)
    ensures
        r == newer(*a, *b),
{
    let later = option_is_less(&b.github_updated_at, &a.github_updated_at);
    let earlier = option_is_less(&a.github_updated_at, &b.github_updated_at);
    later || (!earlier && b.number < a.number)
}

/// The more urgent review first, then the newer one.
pub open spec fn review_ahead(a: ReviewQueueItem, b: ReviewQueueItem) -> bool {
    let p = decision_priority(a.pr_cache.review_decision);
    let q = decision_priority(b.pr_cache.review_decision);
    p < q || (p == q && newer(a.github_item, b.github_item))
}

proof fn lemma_newer(a: GitHubItem, b: GitHubItem, c: GitHubItem)
    ensures
        !newer(a, a),
        newer(a, b) && newer(b, c) ==> newer(a, c),
        !newer(a, b) && !newer(b, c) ==> !newer(a, c),
{
    lemma_option_less(a.github_updated_at, b.github_updated_at, c.github_updated_at);
    lemma_option_less(c.github_updated_at, b.github_updated_at, a.github_updated_at);
    lemma_option_less(a.github_updated_at, c.github_updated_at, b.github_updated_at);
    lemma_option_less(b.github_updated_at, a.github_updated_at, c.github_updated_at);
    lemma_option_less(b.github_updated_at, c.github_updated_at, a.github_updated_at);
    lemma_option_less(c.github_updated_at, a.github_updated_at, b.github_updated_at);
}

struct QueueOrder<'a> {
    items: &'a Vec<ReviewQueueItem>,
    login: &'a str,
    authored: bool,
}

impl<'a> Ranking for QueueOrder<'a> {
    closed spec fn size(&self) -> nat {
        self.items@.len()
    }

    closed spec fn keeps(&self, i: int) -> bool {
        if self.authored {
            in_authored_queue(self.items@[i], self.login@)
        } else {
            in_requested_queue(self.items@[i], self.login@)
        }
    }

    closed spec fn ahead(&self, a: int, b: int) -> bool {
        if self.authored {
            newer(self.items@[a].github_item, self.items@[b].github_item)
        } else {
            review_ahead(self.items@[a], self.items@[b])
        }
    }

    proof fn ahead_is_weak_order(&self) {
        let s = self.items@;
        assert forall|a: int, b: int, c: int| true implies {
            &&& !newer(#[trigger] s[a].github_item, s[a].github_item)
            &&& newer(s[a].github_item, #[trigger] s[b].github_item) && newer(
                s[b].github_item,
                #[trigger] s[c].github_item,
            ) ==> newer(s[a].github_item, s[c].github_item)
            &&& !newer(s[a].github_item, s[b].github_item) && !newer(
                s[b].github_item,
                s[c].github_item,
            ) ==> !newer(s[a].github_item, s[c].github_item)
        } by {
            lemma_newer(s[a].github_item, s[b].github_item, s[c].github_item);
        }
    }

    fn count(&self) -> (r: usize) {
        self.items.len()
    }

    fn keep(&self, i: usize) -> (r: bool) {
        let item = &self.items[i];
        if item.github_item.kind != GitHubItemKind::PullRequest || !eq_ignore_case(
            item.github_item.state.as_str(),
            "open",
        ) {
            return false;
        }
        let mine = text_names(&item.author_login, self.login);
        if self.authored {
            mine
        } else {
            !mine && review_item_needs_my_review(item, self.login)
        }
    }

    fn leads(&self, a: usize, b: usize) -> (r: bool) {
        let x = &self.items[a];
        let y = &self.items[b];
        if self.authored {
            is_newer(&x.github_item, &y.github_item)
        } else {
            let p: u8 = review_priority(&x.pr_cache.review_decision);
            let q: u8 = review_priority(&y.pr_cache.review_decision);
            p < q || (p == q && is_newer(&x.github_item, &y.github_item))
        }
    }
}

/// `v` lists the places of the open pull requests that the user wrote, newest first.
pub open spec fn lists_authored(
    v: Seq<usize>,
    items: Seq<ReviewQueueItem>,
    login: Seq<char>,
) -> bool {
    is_ranking(
        v,
        items.len(),
        |i: int| in_authored_queue(items[i], login),
        |a: int, b: int| newer(items[a].github_item, items[b].github_item),
    )
}

/// `v` lists the places of the open pull requests that wait for the user, the most
/// urgent first and the newest first among those.
pub open spec fn lists_requested(
    v: Seq<usize>,
    items: Seq<ReviewQueueItem>,
    login: Seq<char>,
) -> bool {
    is_ranking(
        v,
        items.len(),
        |i: int| in_requested_queue(items[i], login),
        |a: int, b: int| review_ahead(items[a], items[b]),
    )
}

proof fn lemma_same_ranking(
    v: Seq<usize>,
    n: nat,
    keeps: spec_fn(int) -> bool,
    ahead: spec_fn(int, int) -> bool,
    keeps2: spec_fn(int) -> bool,
    ahead2: spec_fn(int, int) -> bool,
)
    requires
        is_ranking(v, n, keeps, ahead),
        forall|i: int| 0 <= i < n ==> #[trigger] keeps(i) == #[trigger] keeps2(i),
        forall|a: int, b: int|
            0 <= a < n && 0 <= b < n ==> #[trigger] ahead(a, b) == #[trigger] ahead2(a, b),
    ensures
        is_ranking(v, n, keeps2, ahead2),
{
    assert forall|i: int, j: int| 0 <= i < j < v.len() implies precedes(
        ahead2,
        #[trigger] v[i] as int,
        #[trigger] v[j] as int,
    ) by {
        assert(precedes(ahead, v[i] as int, v[j] as int));
    }
    assert forall|i: int| 0 <= i < v.len() implies (#[trigger] v[i]) < n && keeps2(v[i] as int) by {
        assert(keeps(v[i] as int));
    }
}

/// The queue of pull requests that the user wrote.
pub fn authored_queue(items: &Vec<ReviewQueueItem>, login: &str) -> (v: Vec<usize>)
    ensures
        lists_authored(v@, items@, login@),
{
    let by = QueueOrder { items, login, authored: true };
    let v = rank(&by);
    proof {
        lemma_same_ranking(
            v@,
            items@.len(),
            |i: int| by.keeps(i),
            |a: int, b: int| by.ahead(a, b),
            |i: int| in_authored_queue(items@[i], login@),
            |a: int, b: int| newer(items@[a].github_item, items@[b].github_item),
        );
    }
    v
}

/// The queue of pull requests that wait for the user's review.
pub fn requested_queue(items: &Vec<ReviewQueueItem>, login: &str) -> (v: Vec<usize>)
    ensures
        lists_requested(v@, items@, login@),
{
    let by = QueueOrder { items, login, authored: false };
    let v = rank(&by);
    proof {
        lemma_same_ranking(
            v@,
            items@.len(),
            |i: int| by.keeps(i),
            |a: int, b: int| by.ahead(a, b),
            |i: int| in_requested_queue(items@[i], login@),
            |a: int, b: int| review_ahead(items@[a], items@[b]),
        );
    }
    v
}

/// No pull request is in both queues.
pub proof fn law_queues_are_disjoint(
    authored: Seq<usize>,
    requested: Seq<usize>,
    items: Seq<ReviewQueueItem>,
    login: Seq<char>,
    i: int,
    j: int,
)
    requires
        lists_authored(authored, items, login),
        lists_requested(requested, items, login),
        0 <= i < authored.len(),
        0 <= j < requested.len(),
    ensures
        authored[i] != requested[j],
{
    assert(in_authored_queue(items[authored[i] as int], login));
    assert(in_requested_queue(items[requested[j] as int], login));
}

// ---------------------------------------------------------------------------
// Items assigned to the user
// ---------------------------------------------------------------------------

/// The open item is assigned to the user.
pub open spec fn is_my_task(item: MyTaskItem, login: Seq<char>) -> bool {
    is_open(item.github_item) && names_login(views(item.github_item.assignee_logins@), login)
}

/// The query stands in a text of the list, whatever the case of the text.
pub open spec fn any_text_holds(texts: Seq<Seq<char>>, query: Seq<char>) -> bool {
    exists|i: int| 0 <= i < texts.len() && contains_text(lowercase(#[trigger] texts[i]), query)
}

pub fn any_holds(texts: &Vec<String>, query: &str) -> (r: bool)
    ensures
        r == any_text_holds(views(texts@), query@),
{
    let mut i: usize = 0;
    while i < texts.len()
        invariant
            i <= texts@.len(),
            forall|k: int|
                0 <= k < i ==> !contains_text(lowercase(#[trigger] views(texts@)[k]), query@),
        decreases texts@.len() - i,
    {
        if contains(to_lowercase(texts[i].as_str()).as_str(), query) {
            assert(contains_text(lowercase(views(texts@)[i as int]), query@));
            return true;
        }
        i += 1;
    }
    false
}

/// The plain body, else the body as written.
pub open spec fn plain_body(body_text: Option<String>, body: Option<String>) -> Option<Seq<char>> {
    match body_text {
        Some(t) => Some(t@),
        None => text_option(body),
    }
}

/// The query stands in the body.
pub open spec fn body_holds(
    body_text: Option<String>,
    body: Option<String>,
    query: Seq<char>,
) -> bool {
    plain_body(body_text, body) matches Some(t) && contains_text(lowercase(t), query)
}

fn body_contains(body_text: &Option<String>, body: &Option<String>, query: &str) -> (r: bool)
    ensures
        r == body_holds(*body_text, *body, query@),
{
    match body_text {
        Some(t) => contains(to_lowercase(t.as_str()).as_str(), query),
        None => match body {
            Some(t) => contains(to_lowercase(t.as_str()).as_str(), query),
            None => false,
        },
    }
}

/// The search text stands in the title, the number, a body, a label or an assignee
/// of the item; everything matches an empty search text.
pub open spec fn my_task_matches(item: MyTaskItem, filter: Seq<char>) -> bool {
    let q = lowercase(filter);
    ||| q.len() == 0
    ||| contains_text(lowercase(item.github_item.title@), q)
    ||| contains_text(signed_decimal(item.github_item.number as int), q)
    ||| (item.issue_cache matches Some(c) && body_holds(c.body_text, c.body, q))
    ||| (item.pr_cache matches Some(c) && body_holds(c.body_text, c.body, q))
    ||| any_text_holds(views(item.github_item.label_names@), q)
    ||| any_text_holds(views(item.github_item.assignee_logins@), q)
}

fn matches_query(item: &MyTaskItem, query: &str) -> (r: bool)
    requires
        query@.len() > 0,
    ensures
        forall|filter: Seq<char>| lowercase(filter) == query@ ==> r == #[trigger] my_task_matches(
            *item,
            filter,
        ),
{
    if contains(to_lowercase(item.github_item.title.as_str()).as_str(), query) {
        return true;
    }
    if contains(format_signed(item.github_item.number).as_str(), query) {
        return true;
    }
    if let Some(c) = &item.issue_cache {
        if body_contains(&c.body_text, &c.body, query) {
            return true;
        }
    }
    if let Some(c) = &item.pr_cache {
        if body_contains(&c.body_text, &c.body, query) {
            return true;
        }
    }
    any_holds(&item.github_item.label_names, query) || any_holds(
        &item.github_item.assignee_logins,
        query,
    )
}

struct MyTaskOrder<'a> {
    items: &'a Vec<MyTaskItem>,
    login: &'a str,
    filter: &'a str,
}

impl<'a> Ranking for MyTaskOrder<'a> {
    closed spec fn size(&self) -> nat {
        self.items@.len()
    }

    closed spec fn keeps(&self, i: int) -> bool {
        is_my_task(self.items@[i], self.login@) && my_task_matches(self.items@[i], self.filter@)
    }

    closed spec fn ahead(&self, a: int, b: int) -> bool {
        newer(self.items@[a].github_item, self.items@[b].github_item)
    }

    proof fn ahead_is_weak_order(&self) {
        let s = self.items@;
        assert forall|a: int, b: int, c: int| true implies {
            &&& !newer(#[trigger] s[a].github_item, s[a].github_item)
            &&& newer(s[a].github_item, #[trigger] s[b].github_item) && newer(
                s[b].github_item,
                #[trigger] s[c].github_item,
            ) ==> newer(s[a].github_item, s[c].github_item)
            &&& !newer(s[a].github_item, s[b].github_item) && !newer(
                s[b].github_item,
                s[c].github_item,
            ) ==> !newer(s[a].github_item, s[c].github_item)
        } by {
            lemma_newer(s[a].github_item, s[b].github_item, s[c].github_item);
        }
    }

    fn count(&self) -> (r: usize) {
        self.items.len()
    }

    fn keep(&self, i: usize) -> (r: bool) {
        let item = &self.items[i];
        if !eq_ignore_case(item.github_item.state.as_str(), "open") || !any_login(
            &item.github_item.assignee_logins,
            self.login,
        ) {
            return false;
        }
        let query = to_lowercase(self.filter);
        query.as_str().is_empty() || matches_query(item, query.as_str())
    }

    fn leads(&self, a: usize, b: usize) -> (r: bool) {
        is_newer(&self.items[a].github_item, &self.items[b].github_item)
    }
}

/// `v` lists the places of the user's items that match the search text, newest first.
pub open spec fn lists_my_tasks(
    v: Seq<usize>,
    items: Seq<MyTaskItem>,
    login: Seq<char>,
    filter: Seq<char>,
) -> bool {
    is_ranking(
        v,
        items.len(),
        |i: int| is_my_task(items[i], login) && my_task_matches(items[i], filter),
        |a: int, b: int| newer(items[a].github_item, items[b].github_item),
    )
}

/// The user's items that match the search text, newest first.
pub fn my_task_indices(items: &Vec<MyTaskItem>, login: &str, filter: &str) -> (v: Vec<usize>)
    ensures
        lists_my_tasks(v@, items@, login@, filter@),
{
    let by = MyTaskOrder { items, login, filter };
    let v = rank(&by);
    proof {
        lemma_same_ranking(
            v@,
            items@.len(),
            |i: int| by.keeps(i),
            |a: int, b: int| by.ahead(a, b),
            |i: int| is_my_task(items@[i], login@) && my_task_matches(items@[i], filter@),
            |a: int, b: int| newer(items@[a].github_item, items@[b].github_item),
        );
    }
    v
}

/// Some item is assigned to the user.
pub fn has_my_tasks(items: &Vec<MyTaskItem>, login: &str) -> (r: bool)
    ensures
        r <==> exists|i: int| 0 <= i < items@.len() && is_my_task(#[trigger] items@[i], login@),
{
    let mut i: usize = 0;
    while i < items.len()
        invariant
            i <= items@.len(),
            forall|k: int| 0 <= k < i ==> !is_my_task(#[trigger] items@[k], login@),
        decreases items@.len() - i,
    {
        let item = &items[i].github_item;
        if eq_ignore_case(item.state.as_str(), "open") && any_login(&item.assignee_logins, login) {
            return true;
        }
        i += 1;
    }
    false
}

/// The author of a pull request: the one that its issue names, else the one that the
/// payload names, as author or else as user.
pub proof fn law_the_author_is_found(
    issue: Option<GitHubIssueCache>,
    payload: Option<String>,
)
    ensures
        issue matches Some(c) ==> (c.author_login matches Some(l) ==> resolved_author(
            issue,
            payload,
        ) == Some(l@)),
        issue is None || issue->0.author_login is None ==> (payload matches Some(p) ==> {
            &&& json_string_at(p@, "/author/login"@) is Some ==> resolved_author(issue, payload)
                == json_string_at(p@, "/author/login"@)
            &&& json_string_at(p@, "/author/login"@) is None ==> resolved_author(issue, payload)
                == json_string_at(p@, "/user/login"@)
        }),
        (issue is None || issue->0.author_login is None) && payload is None ==> resolved_author(
            issue,
            payload,
        ) is None,
{
}

proof fn lemma_present(found: Seq<Option<Seq<char>>>, i: int, login: Seq<char>)
    ensures
        0 <= i < found.len() && found[i] == Some(login) ==> present(found).contains(login),
        present(found).contains(login) ==> found.contains(Some(login)),
        present(found).len() <= found.len(),
    decreases found.len(),
{
    if found.len() > 0 {
        let rest = found.drop_last();
        let all = present(found);
        lemma_present(rest, i, login);
        if 0 <= i < found.len() && found[i] == Some(login) {
            if i < rest.len() {
                assert(rest[i] == found[i]);
                let m = choose|m: int| 0 <= m < present(rest).len() && present(rest)[m] == login;
                assert(all[m] == login);
            } else {
                assert(all[all.len() - 1] == login);
            }
        }
        if all.contains(login) {
            let m = choose|m: int| 0 <= m < all.len() && all[m] == login;
            if m < present(rest).len() {
                assert(present(rest)[m] == login);
                let k = choose|k: int| 0 <= k < rest.len() && rest[k] == Some(login);
                assert(found[k] == Some(login));
            } else {
                assert(found[found.len() - 1] == Some(login));
            }
        }
    }
}

/// Every login in the plain list of requests counts, and where there is such a list no
/// other; without it every login in the list of nodes counts.
pub proof fn law_every_request_counts(
    plain: Option<Seq<Option<Seq<char>>>>,
    nodes: Option<Seq<Option<Seq<char>>>>,
    i: int,
    login: Seq<char>,
)
    ensures
        plain matches Some(found) ==> {
            &&& 0 <= i < found.len() && found[i] == Some(login) ==> reviewers_from(
                plain,
                nodes,
            ).contains(login)
            &&& reviewers_from(plain, nodes).contains(login) ==> found.contains(Some(login))
        },
        plain is None ==> (nodes matches Some(found) ==> {
            &&& 0 <= i < found.len() && found[i] == Some(login) ==> reviewers_from(
                plain,
                nodes,
            ).contains(login)
            &&& reviewers_from(plain, nodes).contains(login) ==> found.contains(Some(login))
        }),
        plain is None && nodes is None ==> reviewers_from(plain, nodes).len() == 0,
{
    if let Some(found) = plain {
        lemma_present(found, i, login);
    } else if let Some(found) = nodes {
        lemma_present(found, i, login);
    }
}

/// The queue of one's own pull requests holds the open pull requests that the login is the
/// author of, and no others.
pub proof fn law_the_authored_queue(
    v: Seq<usize>,
    items: Seq<ReviewQueueItem>,
    login: Seq<char>,
    i: int,
)
    requires
        lists_authored(v, items, login),
        0 <= i < items.len() <= usize::MAX,
    ensures
        v.contains(i as usize) <==> items[i].github_item.kind == GitHubItemKind::PullRequest
            && same_ignoring_case(items[i].github_item.state@, "open"@) && items[i].author_login
            is Some && same_ignoring_case(items[i].author_login->0@, login),
{
    if v.contains(i as usize) {
        let k = choose|k: int| 0 <= k < v.len() && v[k] == i as usize;
        assert(in_authored_queue(items[v[k] as int], login));
    }
    if in_authored_queue(items[i], login) {
        assert(v.contains(i as usize));
    }
}

/// The queue of requested reviews holds an open pull request of another author that asks
/// the login for a review: by name, or by assigning it while a review is required.
pub proof fn law_the_requested_queue(
    v: Seq<usize>,
    items: Seq<ReviewQueueItem>,
    login: Seq<char>,
    i: int,
    j: int,
)
    requires
        lists_requested(v, items, login),
        0 <= i < items.len() <= usize::MAX,
        items[i].github_item.kind == GitHubItemKind::PullRequest,
        same_ignoring_case(items[i].github_item.state@, "open"@),
        items[i].author_login is None || !same_ignoring_case(items[i].author_login->0@, login),
    ensures
        0 <= j < items[i].requested_reviewer_logins@.len() && same_ignoring_case(
            items[i].requested_reviewer_logins@[j]@,
            login,
        ) ==> v.contains(i as usize),
        0 <= j < items[i].github_item.assignee_logins@.len() && same_ignoring_case(
            items[i].github_item.assignee_logins@[j]@,
            login,
        ) && items[i].pr_cache.review_decision is Some && same_ignoring_case(
            items[i].pr_cache.review_decision->0@,
            "review_required"@,
        ) ==> v.contains(i as usize),
{
    let asked = views(items[i].requested_reviewer_logins@);
    let given = views(items[i].github_item.assignee_logins@);
    if 0 <= j < asked.len() {
        assert(asked[j] == items[i].requested_reviewer_logins@[j]@);
    }
    if 0 <= j < given.len() {
        assert(given[j] == items[i].github_item.assignee_logins@[j]@);
    }
    if in_requested_queue(items[i], login) {
        assert(v.contains(i as usize));
    }
}

/// What stands in the queue of requested reviews is an open pull request of another author,
/// and the login is asked or assigned.
pub proof fn law_only_requests_are_queued(
    v: Seq<usize>,
    items: Seq<ReviewQueueItem>,
    login: Seq<char>,
    k: int,
)
    requires
        lists_requested(v, items, login),
        0 <= k < v.len(),
    ensures
        ({
            let item = items[v[k] as int];
            &&& item.github_item.kind == GitHubItemKind::PullRequest
            &&& same_ignoring_case(item.github_item.state@, "open"@)
            &&& item.author_login matches Some(l) ==> !same_ignoring_case(l@, login)
            &&& {
                ||| exists|j: int|
                    0 <= j < item.requested_reviewer_logins@.len() && same_ignoring_case(
                        (#[trigger] item.requested_reviewer_logins@[j])@,
                        login,
                    )
                ||| (exists|j: int|
                    0 <= j < item.github_item.assignee_logins@.len() && same_ignoring_case(
                        (#[trigger] item.github_item.assignee_logins@[j])@,
                        login,
                    )) && item.pr_cache.review_decision is Some && same_ignoring_case(
                    item.pr_cache.review_decision->0@,
                    "review_required"@,
                )
            }
        }),
{
    let item = items[v[k] as int];
    assert(in_requested_queue(item, login));
    let asked = views(item.requested_reviewer_logins@);
    let given = views(item.github_item.assignee_logins@);
    if names_login(asked, login) {
        let j = choose|j: int| 0 <= j < asked.len() && same_ignoring_case(#[trigger] asked[j], login);
        assert(same_ignoring_case(item.requested_reviewer_logins@[j]@, login));
    } else {
        let j = choose|j: int| 0 <= j < given.len() && same_ignoring_case(#[trigger] given[j], login);
        assert(same_ignoring_case(item.github_item.assignee_logins@[j]@, login));
    }
}

/// How pressing a decision is: requested changes come before a required review, that before
/// an open decision, and an approval comes last.
pub proof fn law_requested_changes_press_most(
    v: Seq<usize>,
    items: Seq<ReviewQueueItem>,
    login: Seq<char>,
    i: int,
    j: int,
)
    requires
        lists_requested(v, items, login),
        0 <= i < v.len(),
        0 <= j < v.len(),
        items.len() <= usize::MAX,
        items[v[i] as int].pr_cache.review_decision is Some,
        items[v[j] as int].pr_cache.review_decision is Some,
    ensures
        ({
            let a = items[v[i] as int].pr_cache.review_decision->0@;
            let b = items[v[j] as int].pr_cache.review_decision->0@;
            &&& same_ignoring_case(a, "changes_requested"@) && same_ignoring_case(
                b,
                "review_required"@,
            ) ==> i < j
            &&& same_ignoring_case(a, "changes_requested"@) && same_ignoring_case(b, "approved"@)
                ==> i < j
            &&& same_ignoring_case(a, "review_required"@) && same_ignoring_case(b, "approved"@)
                ==> i < j
        }),
{
    let x = v[i] as int;
    let y = v[j] as int;
    let a = items[x].pr_cache.review_decision->0@;
    let b = items[y].pr_cache.review_decision->0@;
    reveal_strlit("changes_requested");
    reveal_strlit("review_required");
    reveal_strlit("approved");
    if j < i {
        assert(crate::ranking::precedes(|p: int, q: int| review_ahead(items[p], items[q]), y, x));
    }
}

/// A pull request without a decision, or with another one, comes behind those that a review
/// is required of and before the approved ones.
pub proof fn law_open_decisions_stand_between(
    v: Seq<usize>,
    items: Seq<ReviewQueueItem>,
    login: Seq<char>,
    i: int,
    j: int,
)
    requires
        lists_requested(v, items, login),
        0 <= i < v.len(),
        0 <= j < v.len(),
        items[v[i] as int].pr_cache.review_decision is None,
        items[v[j] as int].pr_cache.review_decision is Some,
    ensures
        ({
            let b = items[v[j] as int].pr_cache.review_decision->0@;
            &&& same_ignoring_case(b, "changes_requested"@) ==> j < i
            &&& same_ignoring_case(b, "review_required"@) ==> j < i
            &&& same_ignoring_case(b, "approved"@) ==> i < j
        }),
{
    let x = v[i] as int;
    let y = v[j] as int;
    reveal_strlit("changes_requested");
    reveal_strlit("review_required");
    reveal_strlit("approved");
    let order = |p: int, q: int| review_ahead(items[p], items[q]);
    if j < i {
        assert(crate::ranking::precedes(order, y, x));
    } else if i < j {
        assert(crate::ranking::precedes(order, x, y));
    }
}

/// Items stand the latest change first; of equally late ones the greater number is first,
/// and an item without a change comes last.
pub proof fn law_the_latest_comes_first(a: GitHubItem, b: GitHubItem)
    ensures
        a.github_updated_at matches Some(x) ==> (b.github_updated_at matches Some(y) ==> (text_less(
            y@,
            x@,
        ) ==> newer(a, b) && !newer(b, a))),
        a.github_updated_at is Some && b.github_updated_at is None ==> newer(a, b) && !newer(b, a),
        a.github_updated_at is None && b.github_updated_at is None ==> (newer(a, b) <==> a.number
            > b.number),
        a.github_updated_at matches Some(x) ==> (b.github_updated_at matches Some(y) ==> (x@ == y@
            ==> (newer(a, b) <==> a.number > b.number))),
{
    if let (Some(x), Some(y)) = (a.github_updated_at, b.github_updated_at) {
        crate::ranking::lemma_text_less_irreflexive(x@);
        if text_less(y@, x@) && text_less(x@, y@) {
            crate::ranking::lemma_text_less_transitive(x@, y@, x@);
        }
    }
}

/// The list of one's own tasks holds every open item that is assigned to the login and
/// holds the lowercased search text: in its title, its number, a label or an assignee.
pub proof fn law_own_tasks_are_listed(
    v: Seq<usize>,
    items: Seq<MyTaskItem>,
    login: Seq<char>,
    filter: Seq<char>,
    i: int,
    mine: int,
    j: int,
)
    requires
        lists_my_tasks(v, items, login, filter),
        0 <= i < items.len() <= usize::MAX,
        same_ignoring_case(items[i].github_item.state@, "open"@),
        0 <= mine < items[i].github_item.assignee_logins@.len(),
        same_ignoring_case(items[i].github_item.assignee_logins@[mine]@, login),
    ensures
        ({
            let q = lowercase(filter);
            let item = items[i].github_item;
            &&& q.len() == 0 ==> v.contains(i as usize)
            &&& contains_text(lowercase(item.title@), q) ==> v.contains(i as usize)
            &&& contains_text(signed_decimal(item.number as int), q) ==> v.contains(i as usize)
            &&& 0 <= j < item.label_names@.len() && contains_text(
                lowercase(item.label_names@[j]@),
                q,
            ) ==> v.contains(i as usize)
            &&& 0 <= j < item.assignee_logins@.len() && contains_text(
                lowercase(item.assignee_logins@[j]@),
                q,
            ) ==> v.contains(i as usize)
        }),
{
    let item = items[i].github_item;
    let given = views(item.assignee_logins@);
    assert(given[mine] == item.assignee_logins@[mine]@);
    assert(is_my_task(items[i], login));
    if 0 <= j < given.len() {
        assert(given[j] == item.assignee_logins@[j]@);
    }
    let labels = views(item.label_names@);
    if 0 <= j < labels.len() {
        assert(labels[j] == item.label_names@[j]@);
    }
    if my_task_matches(items[i], filter) {
        assert(v.contains(i as usize));
    }
}

/// The list of one's own tasks also holds the items whose text holds the search text: the
/// plain text of the issue or of the pull request, or the text as it was written where
/// there is no plain one.
pub proof fn law_own_tasks_are_found_by_their_text(
    v: Seq<usize>,
    items: Seq<MyTaskItem>,
    login: Seq<char>,
    filter: Seq<char>,
    i: int,
    text: Seq<char>,
)
    requires
        lists_my_tasks(v, items, login, filter),
        0 <= i < items.len() <= usize::MAX,
        is_my_task(items[i], login),
        contains_text(lowercase(text), lowercase(filter)),
        (items[i].issue_cache matches Some(c) && (text_option(c.body_text) == Some(text) || (
        c.body_text is None && text_option(c.body) == Some(text)))) || (
        items[i].pr_cache matches Some(c) && (text_option(c.body_text) == Some(text) || (
        c.body_text is None && text_option(c.body) == Some(text)))),
    ensures
        v.contains(i as usize),
{
    assert(my_task_matches(items[i], filter));
}

/// What is listed as one's own task is open and assigned to the login.
pub proof fn law_only_own_tasks_are_listed(
    v: Seq<usize>,
    items: Seq<MyTaskItem>,
    login: Seq<char>,
    filter: Seq<char>,
    k: int,
)
    requires
        lists_my_tasks(v, items, login, filter),
        0 <= k < v.len(),
    ensures
        ({
            let item = items[v[k] as int].github_item;
            &&& same_ignoring_case(item.state@, "open"@)
            &&& exists|j: int|
                0 <= j < item.assignee_logins@.len() && same_ignoring_case(
                    (#[trigger] item.assignee_logins@[j])@,
                    login,
                )
        }),
{
    let item = items[v[k] as int].github_item;
    assert(is_my_task(items[v[k] as int], login));
    let given = views(item.assignee_logins@);
    let j = choose|j: int| 0 <= j < given.len() && same_ignoring_case(#[trigger] given[j], login);
    assert(same_ignoring_case(item.assignee_logins@[j]@, login));
}

/// The requested logins are read from the plain list of the payload where it has one, else
/// from its nodes, one by one.
pub proof fn law_requests_are_read_from_the_payload(payload: Seq<char>, i: int, login: Seq<char>)
    requires
        0 <= i,
    ensures
        json_array_at(payload, "/requested_reviewers"@) matches Some(n) ==> (i < n && json_string_at(
            payload,
            "/requested_reviewers"@ + "/"@ + decimal(i as nat) + "/login"@,
        ) == Some(login) ==> payload_reviewers(payload).contains(login)),
        json_array_at(payload, "/requested_reviewers"@) is None ==> (json_array_at(
            payload,
            "/reviewRequests/nodes"@,
        ) matches Some(n) ==> (i < n && json_string_at(
            payload,
            "/reviewRequests/nodes"@ + "/"@ + decimal(i as nat) + "/requestedReviewer/login"@,
        ) == Some(login) ==> payload_reviewers(payload).contains(login))),
        json_array_at(payload, "/requested_reviewers"@) is None && json_array_at(
            payload,
            "/reviewRequests/nodes"@,
        ) is None ==> payload_reviewers(payload).len() == 0,
{
    let plain = members_at(payload, "/requested_reviewers"@, "/login"@);
    let nodes = members_at(payload, "/reviewRequests/nodes"@, "/requestedReviewer/login"@);
    law_every_request_counts(plain, nodes, i, login);
}

} // verus!
