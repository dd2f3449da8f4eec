//! The skills of the agent: those that are installed, and those that a search found.

use vstd::prelude::*;
use vstd::string::*;

use crate::text::{decimal, format_number, join, joined, lemma_views_push, views};

verus! {

/// Where a skill is installed: for the user, or in the project at a path.
pub enum SkillScope {
    Global,
    Project(String),
}

pub struct InstalledSkill {
    pub name: String,
    pub path: String,
    pub scope: SkillScope,
}

/// A skill that a search found, by the package that holds it.
pub struct SearchResult {
    pub package: String,
}

pub struct Skills {
    pub installed: Vec<InstalledSkill>,
    pub results: Vec<SearchResult>,
    pub index: usize,
    pub scope_global: bool,
    pub detail: String,
    pub status: String,
    /// The places of the results that are marked, none twice.
    pub selected: Vec<usize>,
}

pub open spec fn skill_names(skills: Seq<InstalledSkill>) -> Seq<Seq<char>> {
    skills.map_values(|s: InstalledSkill| s.name@)
}

/// The packages of the first `n` results that are marked, in the order of the results.
pub open spec fn marked_packages(
    results: Seq<SearchResult>,
    selected: Seq<usize>,
    n: nat,
) -> Seq<Seq<char>>
    decreases n,
{
    if n == 0 {
        Seq::empty()
    } else {
        let rest = marked_packages(results, selected, (n - 1) as nat);
        if selected.contains((n - 1) as usize) {
            rest.push(results[n - 1].package@)
        } else {
            rest
        }
    }
}

/// The packages to install: those that are marked, else the one under the cursor.
pub open spec fn chosen_packages(s: Skills) -> Seq<Seq<char>> {
    if s.selected@.len() > 0 {
        marked_packages(s.results@, s.selected@, s.results@.len())
    } else if s.index < s.results@.len() {
        seq![s.results@[s.index as int].package@]
    } else {
        Seq::empty()
    }
}

/// What is reported of an installation: the packages that were installed, and a line
/// for each that failed.
pub open spec fn install_report(installed: Seq<Seq<char>>, failed: Seq<Seq<char>>) -> Seq<char> {
    if failed.len() == 0 {
        if installed.len() == 1 {
            "Installed "@ + installed[0]
        } else {
            "Installed "@ + decimal(installed.len()) + " skills"@
        }
    } else if installed.len() == 0 {
        "Install failed: "@ + joined(failed, "; "@)
    } else {
        "Installed "@ + decimal(installed.len()) + "; failed: "@ + joined(failed, "; "@)
    }
}

pub open spec fn other_than(i: usize) -> spec_fn(usize) -> bool {
    |k: usize| k != i
}

/// The marks after the one at a place is turned over.
pub open spec fn turned_mark(selected: Seq<usize>, i: usize) -> Seq<usize> {
    if selected.contains(i) {
        selected.filter(other_than(i))
    } else {
        selected.push(i)
    }
}

fn is_marked(selected: &Vec<usize>, i: usize) -> (r: bool)
    ensures
        r == selected@.contains(i),
{
    let mut k: usize = 0;
    while k < selected.len()
        invariant
            k <= selected@.len(),
            forall|j: int| 0 <= j < k ==> selected@[j] != i,
        decreases selected@.len() - k,
    {
        if selected[k] == i {
            return true;
        }
        k += 1;
    }
    false
}

impl Skills {
    /// The packages that Enter installs.
    pub fn packages_to_install(&self) -> (r: Vec<String>)
        ensures
            views(r@) == chosen_packages(*self),
    {
        let mut r: Vec<String> = Vec::new();
        assert(views(r@) =~= Seq::<Seq<char>>::empty());
        if self.selected.len() == 0 {
            if self.index < self.results.len() {
                let package = self.results[self.index].package.clone();
                proof {
                    lemma_views_push(r@, package);
                    assert(Seq::<Seq<char>>::empty().push(package@) =~= seq![package@]);
                }
                r.push(package);
            }
            return r;
        }
        let mut i: usize = 0;
        while i < self.results.len()
            invariant
                i <= self.results@.len(),
                views(r@) == marked_packages(self.results@, self.selected@, i as nat),
            decreases self.results@.len() - i,
        {
            if is_marked(&self.selected, i) {
                let package = self.results[i].package.clone();
                proof {
                    lemma_views_push(r@, package);
                }
                r.push(package);
            }
            i += 1;
        }
        r
    }

    /// Mark the result under the cursor, or take its mark away, and go on to the next.
    pub fn toggle_result(&mut self)
        ensures
            final(self).selected@ == turned_mark(old(self).selected@, old(self).index),
            *final(self) == (Skills {
                selected: final(self).selected,
                index: if old(self).index + 1 < old(self).results@.len() {
                    (old(self).index + 1) as usize
                } else {
                    old(self).index
                },
                ..*old(self)
            }),
    {
        let place: usize = self.index;
        if is_marked(&self.selected, place) {
            let mut kept: Vec<usize> = Vec::new();
            let mut i: usize = 0;
            proof {
                reveal(Seq::filter);
                assert(self.selected@.take(0) =~= Seq::<usize>::empty());
            }
            while i < self.selected.len()
                invariant
                    i <= self.selected@.len(),
                    kept@ == self.selected@.take(i as int).filter(other_than(place)),
                decreases self.selected@.len() - i,
            {
                proof {
                    reveal(Seq::filter);
                    assert(self.selected@.take(i + 1).drop_last() =~= self.selected@.take(
                        i as int,
                    ));
                    assert(self.selected@.take(i + 1).last() == self.selected@[i as int]);
                }
                if self.selected[i] != place {
                    kept.push(self.selected[i]);
                }
                i += 1;
            }
            assert(self.selected@.take(i as int) =~= self.selected@);
            self.selected = kept;
        } else {
            self.selected.push(place);
        }
        let count: usize = self.results.len();
        if place < count && place + 1 < count {
            self.index = place + 1;
        }
    }
}

/// The report of an installation.
pub fn report_install(installed: &Vec<String>, failed: &Vec<String>) -> (r: String)
    ensures
        r@ == install_report(views(installed@), views(failed@)),
{
    assert(views(installed@).len() == installed@.len());
    assert(views(failed@).len() == failed@.len());
    if failed.len() == 0 {
        if installed.len() == 1 {
            "Installed ".to_owned().concat(installed[0].as_str())
        } else {
            let mut r = "Installed ".to_owned();
            r.append(format_number(installed.len() as u64).as_str());
            r.append(" skills");
            r
        }
    } else if installed.len() == 0 {
        "Install failed: ".to_owned().concat(join(failed, "; ").as_str())
    } else {
        let mut r = "Installed ".to_owned();
        r.append(format_number(installed.len() as u64).as_str());
        r.append("; failed: ");
        r.append(join(failed, "; ").as_str());
        r
    }
}

/// Turning a mark over twice restores the marks, as a set.
pub proof fn law_marks_turn_back(selected: Seq<usize>, i: usize, k: usize)
    requires
        selected.no_duplicates(),
    ensures
        turned_mark(turned_mark(selected, i), i).contains(k) == selected.contains(k),
        turned_mark(selected, i).no_duplicates(),
{
    let p = other_than(i);
    if selected.contains(i) {
        let kept = selected.filter(p);
        lemma_filter_keeps(selected, p);
        assert(!kept.contains(i)) by {
            if kept.contains(i) {
                let j = choose|j: int| 0 <= j < kept.len() && kept[j] == i;
                assert(p(kept[j]));
            }
        }
        if k == i {
            assert(kept.push(i).last() == i);
        } else {
            if selected.contains(k) {
                let j = choose|j: int| 0 <= j < selected.len() && selected[j] == k;
                assert(p(selected[j]));
                assert(kept.contains(k));
                let m = choose|m: int| 0 <= m < kept.len() && kept[m] == k;
                assert(kept.push(i)[m] == k);
            }
            if kept.push(i).contains(k) {
                let m = choose|m: int| 0 <= m < kept.push(i).len() && kept.push(i)[m] == k;
                assert(kept[m] == k);
            }
        }
    } else {
        let more = selected.push(i);
        lemma_filter_keeps(more, p);
        assert(more.last() == i);
        if selected.contains(k) {
            let j = choose|j: int| 0 <= j < selected.len() && selected[j] == k;
            assert(more[j] == k);
            assert(p(k));
            assert(more.filter(p).contains(k));
        }
        if more.filter(p).contains(k) {
            assert(more.contains(k) && p(k));
            let j = choose|j: int| 0 <= j < more.len() && more[j] == k;
            assert(selected[j] == k);
        }
    }
}

/// What a filter keeps: exactly the elements with the property, none twice.
proof fn lemma_filter_keeps(s: Seq<usize>, p: spec_fn(usize) -> bool)
    ensures
        forall|x: usize| s.filter(p).contains(x) <==> s.contains(x) && p(x),
        s.no_duplicates() ==> s.filter(p).no_duplicates(),
    decreases s.len(),
{
    reveal(Seq::filter);
    if s.len() > 0 {
        let front = s.drop_last();
        lemma_filter_keeps(front, p);
        assert(s =~= front.push(s.last()));
        assert forall|x: usize| s.filter(p).contains(x) <==> s.contains(x) && p(x) by {
            if s.contains(x) && p(x) {
                let j = choose|j: int| 0 <= j < s.len() && s[j] == x;
                if j < front.len() {
                    assert(front[j] == x);
                    assert(front.filter(p).contains(x));
                    let m = choose|m: int| 0 <= m < front.filter(p).len() && front.filter(p)[m] == x;
                    assert(s.filter(p)[m] == x);
                } else {
                    assert(s.filter(p).last() == x);
                }
            }
            if s.filter(p).contains(x) {
                let m = choose|m: int| 0 <= m < s.filter(p).len() && s.filter(p)[m] == x;
                if m < front.filter(p).len() {
                    assert(front.filter(p)[m] == x);
                    assert(front.contains(x));
                    let j = choose|j: int| 0 <= j < front.len() && front[j] == x;
                    assert(s[j] == x);
                } else {
                    assert(x == s.last());
                }
            }
        }
        if s.no_duplicates() {
            assert(front.no_duplicates());
            if p(s.last()) {
                assert(!front.filter(p).contains(s.last())) by {
                    if front.contains(s.last()) {
                        let j = choose|j: int| 0 <= j < front.len() && front[j] == s.last();
                        assert(s[j] == s[s.len() - 1]);
                    }
                }
            }
        }
    }
}

/// What is installed are the marked results, in their order, each once; without a mark the
/// one under the cursor.
pub proof fn law_marked_skills_are_installed(s: Skills, k: int)
    requires
        0 <= k < s.results@.len() <= usize::MAX,
    ensures
        s.selected@.contains(k as usize) ==> chosen_packages(s).contains(s.results@[k].package@),
        s.selected@.len() == 0 && s.index == k ==> chosen_packages(s) =~= seq![
            s.results@[k].package@,
        ],
        s.selected@.len() == 0 && s.index >= s.results@.len() ==> chosen_packages(s).len() == 0,
        chosen_packages(s).len() <= s.results@.len(),
{
    lemma_marked(s.results@, s.selected@, s.results@.len(), k);
}

proof fn lemma_marked(results: Seq<SearchResult>, selected: Seq<usize>, n: nat, k: int)
    requires
        n <= results.len() <= usize::MAX,
    ensures
        0 <= k < n && selected.contains(k as usize) ==> marked_packages(
            results,
            selected,
            n,
        ).contains(results[k].package@),
        marked_packages(results, selected, n).len() <= n,
    decreases n,
{
    if n > 0 {
        let rest = marked_packages(results, selected, (n - 1) as nat);
        let all = marked_packages(results, selected, n);
        lemma_marked(results, selected, (n - 1) as nat, k);
        if 0 <= k < n && selected.contains(k as usize) {
            if k < n - 1 {
                let m = choose|m: int| 0 <= m < rest.len() && rest[m] == results[k].package@;
                assert(all[m] == results[k].package@);
            } else {
                assert(all[all.len() - 1] == results[k].package@);
            }
        }
    }
}

/// What is not marked is not installed while anything is marked.
pub proof fn law_unmarked_skills_are_left(s: Skills, package: Seq<char>)
    requires
        s.selected@.len() > 0,
        s.results@.len() <= usize::MAX,
        forall|k: int|
            0 <= k < s.results@.len() && (#[trigger] s.results@[k]).package@ == package
                ==> !s.selected@.contains(k as usize),
    ensures
        !chosen_packages(s).contains(package),
{
    lemma_unmarked(s.results@, s.selected@, s.results@.len(), package);
}

proof fn lemma_unmarked(
    results: Seq<SearchResult>,
    selected: Seq<usize>,
    n: nat,
    package: Seq<char>,
)
    requires
        n <= results.len() <= usize::MAX,
        forall|k: int|
            0 <= k < results.len() && (#[trigger] results[k]).package@ == package
                ==> !selected.contains(k as usize),
    ensures
        !marked_packages(results, selected, n).contains(package),
    decreases n,
{
    if n > 0 {
        lemma_unmarked(results, selected, (n - 1) as nat, package);
        let rest = marked_packages(results, selected, (n - 1) as nat);
        let all = marked_packages(results, selected, n);
        if all.contains(package) {
            let m = choose|m: int| 0 <= m < all.len() && all[m] == package;
            if m < rest.len() {
                assert(rest[m] == package);
            } else {
                assert(results[n - 1].package@ == package);
            }
        }
    }
}

/// A mark is set where there was none and taken away where there was one; the others stay.
pub proof fn law_marks_are_turned_one_by_one(selected: Seq<usize>, i: usize, k: usize)
    ensures
        turned_mark(selected, i).contains(i) <==> !selected.contains(i),
        k != i ==> (turned_mark(selected, i).contains(k) <==> selected.contains(k)),
{
    lemma_other_marks(selected, i, k);
    lemma_other_marks(selected, i, i);
    if !selected.contains(i) {
        let all = selected.push(i);
        assert(all[selected.len() as int] == i);
        if selected.contains(k) {
            let m = choose|m: int| 0 <= m < selected.len() && selected[m] == k;
            assert(all[m] == k);
        }
    }
}

proof fn lemma_other_marks(selected: Seq<usize>, i: usize, k: usize)
    ensures
        selected.filter(other_than(i)).contains(k) <==> selected.contains(k) && k != i,
    decreases selected.len(),
{
    reveal(Seq::filter);
    if selected.len() > 0 {
        let rest = selected.drop_last();
        let p = other_than(i);
        let part = rest.filter(p);
        let all = selected.filter(p);
        lemma_other_marks(rest, i, k);
        if selected.contains(k) && k != i {
            let m = choose|m: int| 0 <= m < selected.len() && selected[m] == k;
            if m < rest.len() {
                assert(rest[m] == k);
                let q = choose|q: int| 0 <= q < part.len() && part[q] == k;
                assert(all[q] == k);
            } else {
                assert(all[all.len() - 1] == k);
            }
        }
        if all.contains(k) {
            let q = choose|q: int| 0 <= q < all.len() && all[q] == k;
            if q < part.len() {
                assert(part[q] == k);
                let m = choose|m: int| 0 <= m < rest.len() && rest[m] == k;
                assert(selected[m] == k);
            } else {
                assert(selected[selected.len() - 1] == k);
            }
        }
    }
}

/// The report names the one skill that was installed and counts several; it tells every
/// failure.
pub proof fn law_reports_tell_every_failure(
    installed: Seq<Seq<char>>,
    failed: Seq<Seq<char>>,
    k: int,
)
    ensures
        0 <= k < failed.len() ==> crate::text::contains_text(
            install_report(installed, failed),
            failed[k],
        ),
        failed.len() == 0 && installed.len() == 1 ==> install_report(installed, failed)
            == "Installed "@ + installed[0],
        failed.len() == 0 && installed.len() != 1 ==> crate::text::contains_text(
            install_report(installed, failed),
            decimal(installed.len()),
        ),
        failed.len() > 0 && installed.len() > 0 ==> crate::text::contains_text(
            install_report(installed, failed),
            decimal(installed.len()),
        ),
{
    let n = decimal(installed.len());
    crate::text::lemma_found_beside("Installed "@, n);
    crate::text::lemma_found_beside("Installed "@ + n, " skills"@);
    crate::text::lemma_found_beside("Installed "@ + n, "; failed: "@);
    let all = joined(failed, "; "@);
    crate::text::lemma_found_beside("Installed "@ + n + "; failed: "@, all);
    crate::text::lemma_found_beside("Install failed: "@, all);
    if 0 <= k < failed.len() {
        crate::text::law_joining_keeps_every_part(failed, "; "@, k);
    }
}

} // verus!
