//! The task list of a project: which tasks show, in which order, and which of them
//! has just become ready for review.

use vstd::prelude::*;
use vstd::string::*;

use crate::ranking::{is_ranking, rank, Ranking};
use crate::store::{Task, TaskStatus};
use crate::text::{
    contains, contains_text, lemma_views_push, lowercase, same, to_lowercase, views,
};

verus! {

/// The search text stands in the title, whatever the case of either; everything
/// matches an empty search text.
pub open spec fn title_matches(title: Seq<char>, filter: Seq<char>) -> bool {
    lowercase(filter).len() == 0 || contains_text(lowercase(title), lowercase(filter))
}

/// Task `a` belongs in front of task `b`: by the group of the status, then by the
/// order within the group.
pub open spec fn task_ahead(tasks: Seq<Task>, a: int, b: int) -> bool {
    let p = tasks[a].status.sort_priority();
    let q = tasks[b].status.sort_priority();
    p < q || (p == q && tasks[a].sort_order < tasks[b].sort_order)
}

/// `v` lists the places of the tasks that match the search text, in display order.
pub open spec fn lists_visible_tasks(v: Seq<usize>, tasks: Seq<Task>, filter: Seq<char>) -> bool {
    is_ranking(
        v,
        tasks.len(),
        |i: int| title_matches(tasks[i].title@, filter),
        |a: int, b: int| task_ahead(tasks, a, b),
    )
}

struct TaskOrder<'a> {
    tasks: &'a Vec<Task>,
    query: String,
}

impl<'a> Ranking for TaskOrder<'a> {
    closed spec fn size(&self) -> nat {
        self.tasks@.len()
    }

    closed spec fn keeps(&self, i: int) -> bool {
        self.query@.len() == 0 || contains_text(lowercase(self.tasks@[i].title@), self.query@)
    }

    closed spec fn ahead(&self, a: int, b: int) -> bool {
        task_ahead(self.tasks@, a, b)
    }

    proof fn ahead_is_weak_order(&self) {
    }

    fn count(&self) -> (r: usize) {
        self.tasks.len()
    }

    fn keep(&self, i: usize) -> (r: bool) {
        self.query.as_str().is_empty() || contains(
            to_lowercase(self.tasks[i].title.as_str()).as_str(),
            self.query.as_str(),
        )
    }

    fn leads(&self, a: usize, b: usize) -> (r: bool) {
        let p: u8 = self.tasks[a].status.sort_priority();
        let q: u8 = self.tasks[b].status.sort_priority();
        p < q || (p == q && self.tasks[a].sort_order < self.tasks[b].sort_order)
    }
}

/// The places of the tasks that match the search text, in display order: by status
/// group, then by the order within the group, then as listed.
pub fn visible_task_indices(tasks: &Vec<Task>, filter: &str) -> (v: Vec<usize>)
    ensures
        lists_visible_tasks(v@, tasks@, filter@),
{
    let by = TaskOrder { tasks, query: to_lowercase(filter) };
    let v = rank(&by);
    proof {
        assert forall|k: int| 0 <= k < tasks@.len() && title_matches(
            tasks@[k].title@,
            filter@,
        ) implies #[trigger] v@.contains(k as usize) by {
            assert(by.keeps(k));
        }
        assert forall|i: int, j: int| 0 <= i < j < v@.len() implies crate::ranking::precedes(
            |a: int, b: int| task_ahead(tasks@, a, b),
            #[trigger] v@[i] as int,
            #[trigger] v@[j] as int,
        ) by {
            assert(crate::ranking::precedes(
                |a: int, b: int| by.ahead(a, b),
                v@[i] as int,
                v@[j] as int,
            ));
        }
        assert forall|i: int| 0 <= i < v@.len() implies (#[trigger] v@[i]) < tasks@.len()
            && title_matches(tasks@[v@[i] as int].title@, filter@) by {
            assert(by.keeps(v@[i] as int));
        }
    }
    v
}

/// Tasks that are done come after all others.
pub proof fn law_done_tasks_come_last(
    v: Seq<usize>,
    tasks: Seq<Task>,
    filter: Seq<char>,
    i: int,
    j: int,
)
    requires
        lists_visible_tasks(v, tasks, filter),
        0 <= i < j < v.len(),
        tasks[v[i] as int].status == TaskStatus::Done,
    ensures
        tasks[v[j] as int].status == TaskStatus::Done,
{
    assert(crate::ranking::precedes(
        |a: int, b: int| task_ahead(tasks, a, b),
        v[i] as int,
        v[j] as int,
    ));
}

/// Without a search text every task shows, whatever its status.
pub proof fn law_every_task_shows_without_filter(
    v: Seq<usize>,
    tasks: Seq<Task>,
    filter: Seq<char>,
    k: int,
)
    requires
        lists_visible_tasks(v, tasks, filter),
        lowercase(filter).len() == 0,
        0 <= k < tasks.len(),
    ensures
        v.contains(k as usize),
{
    assert(title_matches(tasks[k].title@, filter));
}

// ---------------------------------------------------------------------------
// Tasks that become ready for review
// ---------------------------------------------------------------------------

/// A task of the list has this id and is in review.
pub open spec fn is_in_review(tasks: Seq<Task>, id: Seq<char>) -> bool {
    exists|i: int|
        0 <= i < tasks.len() && (#[trigger] tasks[i]).id@ == id && tasks[i].status
            == TaskStatus::InReview
}

/// The status that was last recorded for a task.
pub open spec fn recorded_status(seen: Seq<(String, TaskStatus)>, id: Seq<char>) -> Option<
    TaskStatus,
>
    decreases seen.len(),
{
    if seen.len() == 0 {
        None
    } else if seen.last().0@ == id {
        Some(seen.last().1)
    } else {
        recorded_status(seen.drop_last(), id)
    }
}

/// What was seen of the tasks at the last look.
pub struct ReviewWatch {
    /// The status of each task.
    pub seen: Vec<(String, TaskStatus)>,
    /// The tasks in review that were already announced.
    pub notified: Vec<String>,
    /// The tasks in review that already have a review loop.
    pub loop_spawned: Vec<String>,
}

/// The task was working at the last look, is in review now, and was not announced.
pub open spec fn newly_in_review(watch: ReviewWatch, task: Task) -> bool {
    &&& task.status == TaskStatus::InReview
    &&& recorded_status(watch.seen@, task.id@) == Some(TaskStatus::Working)
    &&& !views(watch.notified@).contains(task.id@)
}

/// `seen` is the status of each task of the list.
pub open spec fn records_tasks(seen: Seq<(String, TaskStatus)>, tasks: Seq<Task>) -> bool {
    seen.len() == tasks.len() && forall|i: int|
        0 <= i < tasks.len() ==> (#[trigger] seen[i]).0@ == tasks[i].id@ && seen[i].1
            == tasks[i].status
}

/// The ids that belong to tasks in review.
pub open spec fn still_in_review(ids: Seq<Seq<char>>, tasks: Seq<Task>) -> Seq<Seq<char>> {
    ids.filter(|id: Seq<char>| is_in_review(tasks, id))
}

fn id_in_review(tasks: &Vec<Task>, id: &str) -> (r: bool)
    ensures
        r == is_in_review(tasks@, id@),
{
    let mut i: usize = 0;
    while i < tasks.len()
        invariant
            i <= tasks@.len(),
            forall|k: int|
                0 <= k < i ==> !((#[trigger] tasks@[k]).id@ == id@ && tasks@[k].status
                    == TaskStatus::InReview),
        decreases tasks@.len() - i,
    {
        if tasks[i].status == TaskStatus::InReview && same(tasks[i].id.as_str(), id) {
            return true;
        }
        i += 1;
    }
    false
}

/// Keep the ids of tasks that are in review.
fn retain_in_review(ids: &Vec<String>, tasks: &Vec<Task>) -> (r: Vec<String>)
    ensures
        views(r@) == still_in_review(views(ids@), tasks@),
{
    let mut r: Vec<String> = Vec::new();
    let mut i: usize = 0;
    let ghost p = |id: Seq<char>| is_in_review(tasks@, id);
    proof {
        reveal(Seq::filter);
        assert(views(ids@).take(0) =~= Seq::<Seq<char>>::empty());
        assert(views(r@) =~= views(ids@).take(0).filter(p));
    }
    while i < ids.len()
        invariant
            i <= ids@.len(),
            p == (|id: Seq<char>| is_in_review(tasks@, id)),
            views(r@) == views(ids@).take(i as int).filter(p),
        decreases ids@.len() - i,
    {
        proof {
            reveal(Seq::filter);
            let next = views(ids@).take(i as int + 1);
            assert(next.drop_last() =~= views(ids@).take(i as int));
            assert(next.last() == ids@[i as int]@);
            lemma_views_push(r@, ids@[i as int]);
        }
        if id_in_review(tasks, ids[i].as_str()) {
            r.push(ids[i].clone());
        }
        i += 1;
    }
    assert(views(ids@).take(i as int) =~= views(ids@));
    r
}

fn lookup_status(seen: &Vec<(String, TaskStatus)>, id: &str) -> (r: Option<TaskStatus>)
    ensures
        r == recorded_status(seen@, id@),
{
    let mut i: usize = seen.len();
    assert(seen@.take(i as int) =~= seen@);
    while i > 0
        invariant
            i <= seen@.len(),
            recorded_status(seen@.take(i as int), id@) == recorded_status(seen@, id@),
        decreases i,
    {
        assert(seen@.take(i as int).drop_last() =~= seen@.take(i as int - 1));
        if same(seen[i - 1].0.as_str(), id) {
            return Some(seen[i - 1].1);
        }
        i -= 1;
    }
    None
}

/// A text of the list is the given one.
pub fn list_contains(ids: &Vec<String>, id: &str) -> (r: bool)
    ensures
        r == views(ids@).contains(id@),
{
    let mut i: usize = 0;
    while i < ids.len()
        invariant
            i <= ids@.len(),
            forall|k: int| 0 <= k < i ==> (#[trigger] views(ids@)[k]) != id@,
        decreases ids@.len() - i,
    {
        if same(ids[i].as_str(), id) {
            assert(views(ids@)[i as int] == id@);
            return true;
        }
        i += 1;
    }
    false
}

/// The tasks were looked at; `r` is the place of the first one to announce.
pub open spec fn observed(
    pre: ReviewWatch,
    tasks: Seq<Task>,
    post: ReviewWatch,
    r: Option<usize>,
) -> bool {
    let kept = still_in_review(views(pre.notified@), tasks);
    &&& match r {
        None => forall|i: int|
            0 <= i < tasks.len() ==> !newly_in_review(pre, #[trigger] tasks[i]),
        Some(p) => p < tasks.len() && newly_in_review(pre, tasks[p as int]) && forall|i: int|
            0 <= i < p ==> !newly_in_review(pre, #[trigger] tasks[i]),
    }
    &&& records_tasks(post.seen@, tasks)
    &&& views(post.notified@) == match r {
        Some(p) => kept.push(tasks[p as int].id@),
        None => kept,
    }
    &&& views(post.loop_spawned@) == still_in_review(views(pre.loop_spawned@), tasks)
}

impl ReviewWatch {
    /// Look at the tasks again. The result is the place of the first task that has
    /// gone from working to in review and was not announced during this stay.
    pub fn observe(&mut self, tasks: &Vec<Task>) -> (r: Option<usize>)
        ensures
            observed(*old(self), tasks@, *final(self), r),
            r matches Some(p) ==> p < tasks@.len(),
    {
        let mut found: Option<usize> = None;
        let mut i: usize = 0;
        while i < tasks.len() && found.is_none()
            invariant
                i <= tasks@.len(),
                *self == *old(self),
                found is None ==> forall|k: int|
                    0 <= k < i ==> !newly_in_review(*old(self), #[trigger] tasks@[k]),
                found matches Some(p) ==> p < tasks@.len() && newly_in_review(
                    *old(self),
                    tasks@[p as int],
                ) && forall|k: int|
                    0 <= k < p ==> !newly_in_review(*old(self), #[trigger] tasks@[k]),
            decreases tasks@.len() - i,
        {
            let task = &tasks[i];
            if task.status == TaskStatus::InReview && lookup_status(&self.seen, task.id.as_str())
                == Some(TaskStatus::Working) && !list_contains(&self.notified, task.id.as_str()) {
                found = Some(i);
            }
            i += 1;
        }
        let mut notified = retain_in_review(&self.notified, tasks);
        let mut seen: Vec<(String, TaskStatus)> = Vec::new();
        let mut j: usize = 0;
        while j < tasks.len()
            invariant
                j <= tasks@.len(),
                seen@.len() == j,
                forall|k: int|
                    0 <= k < j ==> (#[trigger] seen@[k]).0@ == tasks@[k].id@ && seen@[k].1
                        == tasks@[k].status,
            decreases tasks@.len() - j,
        {
            seen.push((tasks[j].id.clone(), tasks[j].status));
            j += 1;
        }
        if let Some(p) = found {
            proof {
                lemma_views_push(notified@, tasks@[p as int].id);
            }
            notified.push(tasks[p].id.clone());
        }
        self.loop_spawned = retain_in_review(&self.loop_spawned, tasks);
        self.seen = seen;
        self.notified = notified;
        found
    }
}

/// A task that was announced is not announced again while it stays in review, even
/// if the status recorded for it wavers between looks: `watch` is the state before
/// a look at `tasks` that announced the one at `announced`, `later` the state after
/// it.
pub proof fn law_review_announced_once(
    watch: ReviewWatch,
    tasks: Seq<Task>,
    announced: Option<usize>,
    later: ReviewWatch,
    task: Task,
)
    requires
        observed(watch, tasks, later, announced),
        (announced matches Some(p) && tasks[p as int].id@ == task.id@) || (views(
            watch.notified@,
        ).contains(task.id@) && is_in_review(tasks, task.id@)),
    ensures
        views(later.notified@).contains(task.id@),
        !newly_in_review(later, task),
{
    let ids = views(watch.notified@);
    let kept = still_in_review(ids, tasks);
    if announced is Some && tasks[announced->0 as int].id@ == task.id@ {
        assert(views(later.notified@)[kept.len() as int] == task.id@);
    } else {
        let i = choose|i: int| 0 <= i < ids.len() && ids[i] == task.id@;
        ids.lemma_filter_contains(|id: Seq<char>| is_in_review(tasks, id), i);
        let j = choose|j: int| 0 <= j < kept.len() && kept[j] == task.id@;
        assert(views(later.notified@)[j] == task.id@);
    }
}

/// The list shows every task whose lowercased title holds the lowercased search text, and
/// every task without one.
pub proof fn law_the_list_shows_every_match(
    v: Seq<usize>,
    tasks: Seq<Task>,
    filter: Seq<char>,
    i: int,
)
    requires
        lists_visible_tasks(v, tasks, filter),
        0 <= i < tasks.len() <= usize::MAX,
        contains_text(lowercase(tasks[i].title@), lowercase(filter)) || lowercase(filter).len()
            == 0,
    ensures
        v.contains(i as usize),
{
    assert(title_matches(tasks[i].title@, filter));
}

/// The list shows no task whose lowercased title does not hold the search text.
pub proof fn law_the_list_shows_nothing_else(
    v: Seq<usize>,
    tasks: Seq<Task>,
    filter: Seq<char>,
    k: int,
)
    requires
        lists_visible_tasks(v, tasks, filter),
        0 <= k < v.len(),
        lowercase(filter).len() > 0,
    ensures
        contains_text(lowercase(tasks[v[k] as int].title@), lowercase(filter)),
{
    assert(title_matches(tasks[v[k] as int].title@, filter));
}

/// Where a status puts its task: tasks in review come first, then those in conflict, with a
/// failed check, in error, interrupted, waiting, drafted and at work; done ones come last.
pub open spec fn status_order() -> Seq<TaskStatus> {
    seq![
        TaskStatus::InReview,
        TaskStatus::Conflict,
        TaskStatus::CiFailed,
        TaskStatus::Error,
        TaskStatus::Interrupted,
        TaskStatus::Pending,
        TaskStatus::Draft,
        TaskStatus::Working,
        TaskStatus::Done,
    ]
}

/// The list stands in the order of the statuses; tasks of one status stand by their own
/// order number.
pub proof fn law_the_list_is_in_order(
    v: Seq<usize>,
    tasks: Seq<Task>,
    filter: Seq<char>,
    i: int,
    j: int,
    p: int,
    q: int,
)
    requires
        lists_visible_tasks(v, tasks, filter),
        0 <= i < v.len(),
        0 <= j < v.len(),
        0 <= p < status_order().len(),
        0 <= q < status_order().len(),
        tasks[v[i] as int].status == status_order()[p],
        tasks[v[j] as int].status == status_order()[q],
    ensures
        p < q ==> i < j,
        p == q && tasks[v[i] as int].sort_order < tasks[v[j] as int].sort_order ==> i < j,
{
    let (a, b) = (v[i] as int, v[j] as int);
    assert(status_order()[p].sort_priority() == p);
    assert(status_order()[q].sort_priority() == q);
    if p < q || (p == q && tasks[a].sort_order < tasks[b].sort_order) {
        assert(task_ahead(tasks, a, b));
        assert(!task_ahead(tasks, b, a));
        if j < i {
            assert(crate::ranking::precedes(|x: int, y: int| task_ahead(tasks, x, y), b, a));
        }
    }
}

/// A task that is in review now, was recorded at work by its last record, and was not
/// announced yet, is announced unless an earlier one is; no other task is.
pub proof fn law_reviews_are_announced(
    pre: ReviewWatch,
    tasks: Seq<Task>,
    post: ReviewWatch,
    r: Option<usize>,
    i: int,
    k: int,
)
    requires
        observed(pre, tasks, post, r),
        0 <= i < tasks.len() <= usize::MAX,
        0 <= k < pre.seen@.len(),
        pre.seen@[k].0@ == tasks[i].id@,
        forall|m: int| k < m < pre.seen@.len() ==> (#[trigger] pre.seen@[m]).0@ != tasks[i].id@,
    ensures
        tasks[i].status == TaskStatus::InReview && pre.seen@[k].1 == TaskStatus::Working && !views(
            pre.notified@,
        ).contains(tasks[i].id@) ==> (r matches Some(p) && p <= i),
        tasks[i].status != TaskStatus::InReview || pre.seen@[k].1 != TaskStatus::Working ==> r
            != Some(i as usize),
{
    lemma_last_record(pre.seen@, tasks[i].id@, k);
}

proof fn lemma_last_record(seen: Seq<(String, TaskStatus)>, id: Seq<char>, k: int)
    requires
        0 <= k < seen.len(),
        seen[k].0@ == id,
        forall|m: int| k < m < seen.len() ==> (#[trigger] seen[m]).0@ != id,
    ensures
        recorded_status(seen, id) == Some(seen[k].1),
    decreases seen.len(),
{
    if k < seen.len() - 1 {
        assert(seen[seen.len() - 1].0@ != id);
        assert forall|m: int| k < m < seen.drop_last().len() implies (
        #[trigger] seen.drop_last()[m]).0@ != id by {
            assert(seen.drop_last()[m] == seen[m]);
        }
        lemma_last_record(seen.drop_last(), id, k);
    }
}

/// What was announced, or has a review loop, stays noted while its task is in review, and
/// only then; an announced task is noted from then on.
pub proof fn law_notes_last_as_long_as_the_review(
    pre: ReviewWatch,
    tasks: Seq<Task>,
    post: ReviewWatch,
    r: Option<usize>,
    i: int,
)
    requires
        observed(pre, tasks, post, r),
        0 <= i < tasks.len() <= usize::MAX,
        tasks[i].status == TaskStatus::InReview,
    ensures
        views(pre.notified@).contains(tasks[i].id@) ==> views(post.notified@).contains(tasks[i].id@),
        views(pre.loop_spawned@).contains(tasks[i].id@) ==> views(post.loop_spawned@).contains(
            tasks[i].id@,
        ),
        r == Some(i as usize) ==> views(post.notified@).contains(tasks[i].id@),
{
    let id = tasks[i].id@;
    let p = |x: Seq<char>| is_in_review(tasks, x);
    assert(is_in_review(tasks, id));
    assert(p(id));
    let kept = still_in_review(views(pre.notified@), tasks);
    let after = views(post.notified@);
    if views(pre.notified@).contains(id) {
        lemma_kept_id(views(pre.notified@), p, id);
        let m = choose|m: int| 0 <= m < kept.len() && kept[m] == id;
        assert(after[m] == id);
    }
    if views(pre.loop_spawned@).contains(id) {
        lemma_kept_id(views(pre.loop_spawned@), p, id);
    }
    if r == Some(i as usize) {
        assert(after[after.len() - 1] == id);
    }
}

proof fn lemma_kept_id(ids: Seq<Seq<char>>, p: spec_fn(Seq<char>) -> bool, id: Seq<char>)
    requires
        ids.contains(id),
        p(id),
    ensures
        ids.filter(p).contains(id),
    decreases ids.len(),
{
    reveal(Seq::filter);
    let k = choose|k: int| 0 <= k < ids.len() && ids[k] == id;
    let rest = ids.drop_last();
    if k < ids.len() - 1 {
        assert(rest[k] == id);
        lemma_kept_id(rest, p, id);
        let m = choose|m: int| 0 <= m < rest.filter(p).len() && rest.filter(p)[m] == id;
        assert(ids.filter(p)[m] == id);
    } else {
        assert(ids.filter(p)[ids.filter(p).len() - 1] == id);
    }
}

} // verus!
