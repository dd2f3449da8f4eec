//! Stable ranking: the members of a list that are kept, in order, where members of
//! equal rank stay in the order of the list.

use vstd::prelude::*;

use crate::text::chars_of;

verus! {

/// Place `a` comes before place `b`: it is ahead, or neither is and it stands first
/// in the list.
pub open spec fn precedes(ahead: spec_fn(int, int) -> bool, a: int, b: int) -> bool {
    ahead(a, b) || (!ahead(b, a) && a < b)
}

/// `v` holds exactly the places below `n` that are kept, each once and in order.
pub open spec fn is_ranking(
    v: Seq<usize>,
    n: nat,
    keeps: spec_fn(int) -> bool,
    ahead: spec_fn(int, int) -> bool,
) -> bool {
    &&& forall|i: int| 0 <= i < v.len() ==> (#[trigger] v[i]) < n && keeps(v[i] as int)
    &&& forall|k: int| 0 <= k < n && keeps(k) ==> #[trigger] v.contains(k as usize)
    &&& forall|i: int, j: int|
        0 <= i < j < v.len() ==> precedes(ahead, #[trigger] v[i] as int, #[trigger] v[j] as int)
}

/// A strict order in which being neither ahead nor behind is transitive.
pub open spec fn is_weak_order(n: nat, ahead: spec_fn(int, int) -> bool) -> bool {
    &&& forall|a: int| 0 <= a < n ==> !#[trigger] ahead(a, a)
    &&& forall|a: int, b: int, c: int|
        0 <= a < n && 0 <= b < n && 0 <= c < n && #[trigger] ahead(a, b) && #[trigger] ahead(b, c)
            ==> ahead(a, c)
    &&& forall|a: int, b: int, c: int|
        0 <= a < n && 0 <= b < n && 0 <= c < n && !#[trigger] ahead(a, b) && !#[trigger] ahead(b, c)
            ==> !ahead(a, c)
}

/// What a list is ranked by.
pub trait Ranking: Sized {
    spec fn size(&self) -> nat;

    spec fn keeps(&self, i: int) -> bool;

    spec fn ahead(&self, a: int, b: int) -> bool;

    proof fn ahead_is_weak_order(&self)
        ensures
            is_weak_order(self.size(), |a: int, b: int| self.ahead(a, b)),
    ;

    fn count(&self) -> (r: usize)
        ensures
            r == self.size(),
    ;

    fn keep(&self, i: usize) -> (r: bool)
        requires
            i < self.size(),
        ensures
            r == self.keeps(i as int),
    ;

    fn leads(&self, a: usize, b: usize) -> (r: bool)
        requires
            a < self.size(),
            b < self.size(),
        ensures
            r == self.ahead(a as int, b as int),
    ;
}

/// Rank a list.
pub fn rank<R: Ranking>(by: &R) -> (v: Vec<usize>)
    ensures
        is_ranking(
            v@,
            by.size(),
            |i: int| by.keeps(i),
            |a: int, b: int| by.ahead(a, b),
        ),
{
    let n: usize = by.count();
    let mut v: Vec<usize> = Vec::new();
    let ghost ahead = |a: int, b: int| by.ahead(a, b);
    proof {
        by.ahead_is_weak_order();
    }
    let mut i: usize = 0;
    while i < n
        invariant
            i <= n,
            n == by.size(),
            ahead == (|a: int, b: int| by.ahead(a, b)),
            is_weak_order(n as nat, ahead),
            is_ranking(v@, i as nat, |k: int| by.keeps(k), ahead),
        decreases n - i,
    {
        if by.keep(i) {
            let mut p: usize = v.len();
            while p > 0 && by.leads(i, v[p - 1])
                invariant
                    i < n,
                    n == by.size(),
                    p <= v@.len(),
                    ahead == (|a: int, b: int| by.ahead(a, b)),
                    is_ranking(v@, i as nat, |k: int| by.keeps(k), ahead),
                    forall|q: int| p <= q < v@.len() ==> ahead(i as int, #[trigger] v@[q] as int),
                decreases p,
            {
                assert(v@[p - 1] < i);
                assert(ahead(i as int, v@[p - 1] as int));
                p -= 1;
            }
            let ghost before = v@;
            v.insert(p, i);
            proof {
                lemma_insert_ranked(before, i as int, p as int, n as nat, |k: int| by.keeps(k), ahead);
            }
        } else {
            proof {
                assert forall|k: int| 0 <= k < i + 1 && by.keeps(k) implies #[trigger] v@.contains(
                    k as usize,
                ) by {
                    assert(k < i);
                }
            }
        }
        i += 1;
    }
    v
}

proof fn lemma_insert_ranked(
    v: Seq<usize>,
    i: int,
    p: int,
    n: nat,
    keeps: spec_fn(int) -> bool,
    ahead: spec_fn(int, int) -> bool,
)
    requires
        0 <= i < n <= usize::MAX,
        0 <= p <= v.len(),
        is_weak_order(n, ahead),
        is_ranking(v, i as nat, keeps, ahead),
        keeps(i),
        p > 0 ==> !ahead(i, v[p - 1] as int),
        forall|q: int| p <= q < v.len() ==> ahead(i, #[trigger] v[q] as int),
    ensures
        is_ranking(v.insert(p, i as usize), (i + 1) as nat, keeps, ahead),
{
    let w = v.insert(p, i as usize);
    assert forall|k: int| 0 <= k < w.len() implies (#[trigger] w[k]) < i + 1 && keeps(
        w[k] as int,
    ) by {
        if k < p {
            assert(w[k] == v[k]);
        } else if k > p {
            assert(w[k] == v[k - 1]);
        }
    }
    assert forall|k: int| 0 <= k < i + 1 && keeps(k) implies #[trigger] w.contains(k as usize) by {
        if k < i {
            assert(v.contains(k as usize));
            let j = choose|j: int| 0 <= j < v.len() && v[j] == k as usize;
            if j < p {
                assert(w[j] == k as usize);
            } else {
                assert(w[j + 1] == k as usize);
            }
        } else {
            assert(w[p] == k as usize);
        }
    }
    assert forall|a: int, b: int| 0 <= a < b < w.len() implies precedes(
        ahead,
        #[trigger] w[a] as int,
        #[trigger] w[b] as int,
    ) by {
        if a == p {
            assert(w[b] == v[b - 1]);
            assert(ahead(i, v[b - 1] as int));
        } else if b == p {
            assert(w[a] == v[a]);
            assert(v[a] < i);
            // Nothing in front of the new member has to make way for it.
            if ahead(i, v[a] as int) {
                if a < p - 1 {
                    assert(precedes(ahead, v[a] as int, v[p - 1] as int));
                    assert(!ahead(v[p - 1] as int, v[a] as int));
                    assert(!ahead(i, v[p - 1] as int));
                    assert(!ahead(i, v[a] as int));
                }
            }
        } else {
            let x = if a < p {
                a
            } else {
                a - 1
            };
            let y = if b < p {
                b
            } else {
                b - 1
            };
            assert(w[a] == v[x]);
            assert(w[b] == v[y]);
            assert(precedes(ahead, v[x] as int, v[y] as int));
        }
    }
}

/// A ranking holds no place twice.
pub proof fn law_ranking_has_no_duplicates(
    v: Seq<usize>,
    n: nat,
    keeps: spec_fn(int) -> bool,
    ahead: spec_fn(int, int) -> bool,
)
    requires
        is_ranking(v, n, keeps, ahead),
        is_weak_order(n, ahead),
    ensures
        v.no_duplicates(),
{
    assert forall|i: int, j: int| 0 <= i < v.len() && 0 <= j < v.len() && i != j implies v[i]
        != v[j] by {
        if i < j {
            assert(precedes(ahead, v[i] as int, v[j] as int));
        } else {
            assert(precedes(ahead, v[j] as int, v[i] as int));
        }
    }
}

/// At most one list is a ranking: what is kept and what is ahead fix it.
pub proof fn law_ranking_is_unique(
    v: Seq<usize>,
    w: Seq<usize>,
    n: nat,
    keeps: spec_fn(int) -> bool,
    ahead: spec_fn(int, int) -> bool,
)
    requires
        n <= usize::MAX,
        is_ranking(v, n, keeps, ahead),
        is_ranking(w, n, keeps, ahead),
        is_weak_order(n, ahead),
    ensures
        v == w,
    decreases v.len() + w.len(),
{
    lemma_ranking_prefix(v, w, n, keeps, ahead, v.len() as int);
    lemma_ranking_prefix(w, v, n, keeps, ahead, w.len() as int);
    assert(v =~= w);
}

/// The first `m` members of a ranking are those of any other.
proof fn lemma_ranking_prefix(
    v: Seq<usize>,
    w: Seq<usize>,
    n: nat,
    keeps: spec_fn(int) -> bool,
    ahead: spec_fn(int, int) -> bool,
    m: int,
)
    requires
        n <= usize::MAX,
        0 <= m <= v.len(),
        is_ranking(v, n, keeps, ahead),
        is_ranking(w, n, keeps, ahead),
        is_weak_order(n, ahead),
    ensures
        m <= w.len(),
        forall|i: int| 0 <= i < m ==> v[i] == w[i],
    decreases m,
{
    if m > 0 {
        lemma_ranking_prefix(v, w, n, keeps, ahead, m - 1);
        let x = v[m - 1];
        assert(w.contains(x as int as usize));
        let j = choose|j: int| 0 <= j < w.len() && w[j] == x;
        assert(j >= m - 1) by {
            if j < m - 1 {
                assert(v[j] == w[j]);
                assert(precedes(ahead, v[j] as int, v[m - 1] as int));
            }
        }
        if j > m - 1 {
            let y = w[m - 1];
            assert(v.contains(y as int as usize));
            let k = choose|k: int| 0 <= k < v.len() && v[k] == y;
            assert(precedes(ahead, w[m - 1] as int, w[j] as int));
            if k < m - 1 {
                assert(v[k] == w[k]);
                assert(precedes(ahead, w[k] as int, w[m - 1] as int));
                assert(false);
            } else if k > m - 1 {
                assert(precedes(ahead, v[m - 1] as int, v[k] as int));
                assert(false);
            }
        }
    }
}

// ---------------------------------------------------------------------------
// Order of texts
// ---------------------------------------------------------------------------

/// `a` comes before `b` in the order of code points.
pub open spec fn text_less(a: Seq<char>, b: Seq<char>) -> bool
    decreases a.len(),
{
    b.len() > 0 && (a.len() == 0 || a[0] < b[0] || (a[0] == b[0] && text_less(
        a.drop_first(),
        b.drop_first(),
    )))
}

/// An absent text comes before every text.
pub open spec fn option_less(a: Option<String>, b: Option<String>) -> bool {
    match (a, b) {
        (None, Some(_)) => true,
        (Some(x), Some(y)) => text_less(x@, y@),
        _ => false,
    }
}

pub proof fn lemma_text_less_irreflexive(a: Seq<char>)
    ensures
        !text_less(a, a),
    decreases a.len(),
{
    if a.len() > 0 {
        lemma_text_less_irreflexive(a.drop_first());
    }
}

pub proof fn lemma_text_less_transitive(a: Seq<char>, b: Seq<char>, c: Seq<char>)
    ensures
        text_less(a, b) && text_less(b, c) ==> text_less(a, c),
    decreases a.len(),
{
    if a.len() > 0 && b.len() > 0 && c.len() > 0 {
        lemma_text_less_transitive(a.drop_first(), b.drop_first(), c.drop_first());
    }
}

pub proof fn lemma_text_less_total(a: Seq<char>, b: Seq<char>)
    ensures
        text_less(a, b) || text_less(b, a) || a == b,
    decreases a.len(),
{
    if a.len() > 0 && b.len() > 0 {
        lemma_text_less_total(a.drop_first(), b.drop_first());
        if a[0] == b[0] && a.drop_first() == b.drop_first() {
            assert(a =~= seq![a[0]] + a.drop_first());
            assert(b =~= seq![b[0]] + b.drop_first());
        }
    } else if a.len() == 0 && b.len() == 0 {
        assert(a =~= b);
    }
}

pub proof fn lemma_option_less(a: Option<String>, b: Option<String>, c: Option<String>)
    ensures
        !option_less(a, a),
        option_less(a, b) && option_less(b, c) ==> option_less(a, c),
        !option_less(a, b) && !option_less(b, c) ==> !option_less(a, c),
{
    if let Some(x) = a {
        lemma_text_less_irreflexive(x@);
        if let Some(y) = b {
            if let Some(z) = c {
                lemma_text_less_transitive(x@, y@, z@);
                lemma_text_less_transitive(x@, z@, y@);
                lemma_text_less_transitive(y@, x@, z@);
                lemma_text_less_total(x@, y@);
                lemma_text_less_total(y@, z@);
                lemma_text_less_irreflexive(y@);
            }
        }
    }
}

pub fn text_is_less(a: &str, b: &str) -> (r: bool)
    ensures
        r == text_less(a@, b@),
{
    let x = chars_of(a);
    let y = chars_of(b);
    let mut i: usize = 0;
    assert(x@.skip(0) =~= x@);
    assert(y@.skip(0) =~= y@);
    while i < x.len() && i < y.len() && x[i] == y[i]
        invariant
            i <= x@.len(),
            i <= y@.len(),
            text_less(a@, b@) == text_less(x@.skip(i as int), y@.skip(i as int)),
        decreases x@.len() - i,
    {
        assert(x@.skip(i as int).drop_first() =~= x@.skip(i as int + 1));
        assert(y@.skip(i as int).drop_first() =~= y@.skip(i as int + 1));
        i += 1;
    }
    if i == y.len() {
        false
    } else if i == x.len() {
        true
    } else {
        x[i] < y[i]
    }
}

pub fn option_is_less(a: &Option<String>, b: &Option<String>) -> (r: bool)
    ensures
        r == option_less(*a, *b),
{
    match (a, b) {
        (None, Some(_)) => true,
        (Some(x), Some(y)) => text_is_less(x.as_str(), y.as_str()),
        _ => false,
    }
}

/// Texts are ordered by their first difference; a text stands before its continuations.
pub proof fn law_the_first_difference_orders(p: Seq<char>, a: Seq<char>, b: Seq<char>)
    ensures
        a.len() > 0 && b.len() > 0 && a[0] < b[0] ==> text_less(p + a, p + b) && !text_less(
            p + b,
            p + a,
        ),
        a.len() > 0 ==> text_less(p, p + a) && !text_less(p + a, p),
        !text_less(p, p),
    decreases p.len(),
{
    lemma_text_less_irreflexive(p);
    if p.len() == 0 {
        assert(p + a =~= a);
        assert(p + b =~= b);
    } else {
        let q = p.drop_first();
        law_the_first_difference_orders(q, a, b);
        assert((p + a).drop_first() =~= q + a);
        assert((p + b).drop_first() =~= q + b);
    }
}

} // verus!
