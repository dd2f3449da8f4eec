//! The command palette.

use vstd::prelude::*;
use vstd::string::*;

use crate::ranking::{is_ranking, rank, Ranking};
use crate::text::{contains, contains_text, lowercase, to_lowercase};
use crate::views::PaletteAction;

verus! {

pub struct PaletteItem {
    pub label: String,
    pub action: PaletteAction,
}

pub struct Palette {
    pub items: Vec<PaletteItem>,
    /// The places of the items that match what was typed.
    pub filtered: Vec<usize>,
    pub index: usize,
}

/// The query stands in the label, whatever the case of either.
pub open spec fn label_matches(label: Seq<char>, query: Seq<char>) -> bool {
    lowercase(query).len() == 0 || contains_text(lowercase(label), lowercase(query))
}

/// `v` lists the places of the items that match, in their order.
pub open spec fn lists_matches(v: Seq<usize>, items: Seq<PaletteItem>, query: Seq<char>) -> bool {
    is_ranking(
        v,
        items.len(),
        |i: int| label_matches(items[i].label@, query),
        |a: int, b: int| false,
    )
}

struct PaletteOrder<'a> {
    items: &'a Vec<PaletteItem>,
    query: &'a str,
}

impl<'a> Ranking for PaletteOrder<'a> {
    closed spec fn size(&self) -> nat {
        self.items@.len()
    }

    closed spec fn keeps(&self, i: int) -> bool {
        label_matches(self.items@[i].label@, self.query@)
    }

    closed spec fn ahead(&self, a: int, b: int) -> bool {
        false
    }

    proof fn ahead_is_weak_order(&self) {
    }

    fn count(&self) -> (r: usize) {
        self.items.len()
    }

    fn keep(&self, i: usize) -> (r: bool) {
        let query = to_lowercase(self.query);
        query.as_str().is_empty() || contains(
            to_lowercase(self.items[i].label.as_str()).as_str(),
            query.as_str(),
        )
    }

    fn leads(&self, a: usize, b: usize) -> (r: bool) {
        false
    }
}

impl Palette {
    /// Narrow the palette to the items that match what was typed.
    pub fn filter_palette(&mut self, query: &str)
        ensures
            lists_matches(final(self).filtered@, old(self).items@, query@),
            *final(self) == (Palette { filtered: final(self).filtered, ..*old(self) }),
    {
        let by = PaletteOrder { items: &self.items, query };
        let v = rank(&by);
        proof {
            assert forall|k: int| 0 <= k < self.items@.len() && label_matches(
                self.items@[k].label@,
                query@,
            ) implies #[trigger] v@.contains(k as usize) by {
                assert(by.keeps(k));
            }
            assert forall|i: int| 0 <= i < v@.len() implies (#[trigger] v@[i]) < self.items@.len()
                && label_matches(self.items@[v@[i] as int].label@, query@) by {
                assert(by.keeps(v@[i] as int));
            }
            assert forall|i: int, j: int| 0 <= i < j < v@.len() implies crate::ranking::precedes(
                |a: int, b: int| false,
                #[trigger] v@[i] as int,
                #[trigger] v@[j] as int,
            ) by {
                assert(crate::ranking::precedes(
                    |a: int, b: int| by.ahead(a, b),
                    v@[i] as int,
                    v@[j] as int,
                ));
            }
        }
        self.filtered = v;
    }

    /// What the selected entry does.
    pub fn selected_action(&self) -> (r: Option<PaletteAction>)
        ensures
            r == if self.index < self.filtered@.len() && self.filtered@[self.index as int]
                < self.items@.len() {
                Some(self.items@[self.filtered@[self.index as int] as int].action)
            } else {
                None
            },
            self.index >= self.filtered@.len() ==> r is None,
    {
        if self.index < self.filtered.len() {
            let i: usize = self.filtered[self.index];
            if i < self.items.len() {
                return Some(self.items[i].action);
            }
        }
        None
    }
}

/// With nothing typed the palette lists every entry.
pub proof fn law_empty_query_lists_everything(
    v: Seq<usize>,
    items: Seq<PaletteItem>,
    query: Seq<char>,
    k: int,
)
    requires
        lists_matches(v, items, query),
        lowercase(query).len() == 0,
        0 <= k < items.len(),
    ensures
        v.contains(k as usize),
{
    assert(label_matches(items[k].label@, query));
}

/// The palette lists every command whose lowercased label holds what was typed in lower
/// case, and no other; in the order of the commands.
pub proof fn law_the_palette_lists_the_matches(
    v: Seq<usize>,
    items: Seq<PaletteItem>,
    query: Seq<char>,
    k: int,
    i: int,
    j: int,
)
    requires
        lists_matches(v, items, query),
        0 <= k < items.len() <= usize::MAX,
    ensures
        contains_text(lowercase(items[k].label@), lowercase(query)) ==> v.contains(k as usize),
        lowercase(query).len() > 0 && !contains_text(lowercase(items[k].label@), lowercase(query))
            ==> !v.contains(k as usize),
        0 <= i < j < v.len() ==> v[i] < v[j],
{
    if label_matches(items[k].label@, query) {
        assert(v.contains(k as usize));
    }
    if v.contains(k as usize) {
        let m = choose|m: int| 0 <= m < v.len() && v[m] == k as usize;
        assert(label_matches(items[v[m] as int].label@, query));
    }
    if 0 <= i < j < v.len() {
        assert(crate::ranking::precedes(|a: int, b: int| false, v[i] as int, v[j] as int));
    }
}

} // verus!
