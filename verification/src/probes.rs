//! Reading what other programs report: the change statistics of git, the state of a
//! pull request, and when a usage limit is reset.

use vstd::prelude::*;
use vstd::string::*;

use crate::json::{array_len_at, json_array_at, json_string_at, string_at};
use crate::refresh::keep_known;
use crate::review::{element_pointer, pointer_to};
use crate::settings::text_option;
use crate::text::{
    contains, contains_text, decimal, eq_ignore_case, first_word, format_number, leading_word,
    lemma_views_push, lines, lines_of, parse_i64, parsed_i64, same_ignoring_case, split, split_on,
    trim, trimmed, views,
};

verus! {

// ---------------------------------------------------------------------------
// Change statistics
// ---------------------------------------------------------------------------

/// Files changed, lines added and lines removed.
#[derive(Clone, Copy, Debug, PartialEq, Eq, Structural)]
pub struct DiffStat {
    pub files: i64,
    pub added: i64,
    pub removed: i64,
}

/// The number that a part of the summary begins with; zero where it begins with none.
pub open spec fn leading_count(part: Seq<char>) -> i64 {
    match parsed_i64(first_word(part)) {
        Some(n) => n,
        None => 0,
    }
}

/// The statistics after one more part of the summary.
pub open spec fn with_part(s: DiffStat, part: Seq<char>) -> DiffStat {
    let t = trimmed(part);
    if contains_text(t, "file"@) {
        DiffStat { files: leading_count(t), ..s }
    } else if contains_text(t, "insertion"@) {
        DiffStat { added: leading_count(t), ..s }
    } else if contains_text(t, "deletion"@) {
        DiffStat { removed: leading_count(t), ..s }
    } else {
        s
    }
}

pub open spec fn no_changes() -> DiffStat {
    DiffStat { files: 0, added: 0, removed: 0 }
}

pub open spec fn stat_of_parts(parts: Seq<Seq<char>>) -> DiffStat
    decreases parts.len(),
{
    if parts.len() == 0 {
        no_changes()
    } else {
        with_part(stat_of_parts(parts.drop_last()), parts.last())
    }
}

/// The statistics in the output of `git diff --stat`: its last line, such as
/// `3 files changed, 10 insertions(+), 2 deletions(-)`. Another last line tells of no
/// changes; no line at all of nothing.
pub open spec fn diff_stat(output: Seq<char>) -> Option<DiffStat> {
    let ls = lines_of(output);
    if ls.len() == 0 {
        None
    } else if contains_text(ls.last(), "changed"@) {
        Some(stat_of_parts(split_on(ls.last(), ',')))
    } else {
        Some(no_changes())
    }
}

fn count_at(part: &str) -> (r: i64)
    ensures
        r == leading_count(part@),
{
    let word = leading_word(part);
    match parse_i64(word.as_str()) {
        Some(n) => n,
        None => 0,
    }
}

/// The statistics that git reports; none where git failed.
pub fn parse_git_diff_stat(output: &Option<String>) -> (r: Option<DiffStat>)
    ensures
        r == match *output {
            Some(text) => diff_stat(text@),
            None => None,
        },
{
    let text = match output {
        Some(text) => text,
        None => {
            return None;
        },
    };
    let ls = lines(text.as_str());
    if ls.len() == 0 {
        assert(views(ls@).len() == 0);
        return None;
    }
    let mut s = DiffStat { files: 0, added: 0, removed: 0 };
    let last = &ls[ls.len() - 1];
    assert(views(ls@).last() == last@);
    if !contains(last.as_str(), "changed") {
        return Some(s);
    }
    let parts = split(last.as_str(), ',');
    let mut i: usize = 0;
    assert(views(parts@).take(0) =~= Seq::<Seq<char>>::empty());
    while i < parts.len()
        invariant
            i <= parts@.len(),
            s == stat_of_parts(views(parts@).take(i as int)),
        decreases parts@.len() - i,
    {
        let part = trim(parts[i].as_str());
        proof {
            let upto = views(parts@).take(i as int + 1);
            assert(upto.drop_last() =~= views(parts@).take(i as int));
            assert(upto.last() == parts@[i as int]@);
        }
        if contains(part.as_str(), "file") {
            s.files = count_at(part.as_str());
        } else if contains(part.as_str(), "insertion") {
            s.added = count_at(part.as_str());
        } else if contains(part.as_str(), "deletion") {
            s.removed = count_at(part.as_str());
        }
        i += 1;
    }
    assert(views(parts@).take(i as int) =~= views(parts@));
    Some(s)
}

// ---------------------------------------------------------------------------
// Pull requests
// ---------------------------------------------------------------------------

/// What GitHub reports of a pull request.
#[derive(Clone, Copy, Debug, PartialEq, Eq, Structural)]
pub enum PrStatus {
    Merged,
    Conflicting,
    CiFailed,
    CiRunning,
    CiPassed,
    Open,
}

/// The string at a pointer, empty where there is none.
pub open spec fn member(text: Seq<char>, pointer: Seq<char>) -> Seq<char> {
    match json_string_at(text, pointer) {
        Some(s) => s,
        None => Seq::empty(),
    }
}

/// The conclusion of a check, empty while it runs.
pub open spec fn conclusion(text: Seq<char>, i: nat) -> Seq<char> {
    member(text, element_pointer("/statusCheckRollup"@, i, "/conclusion"@))
}

pub open spec fn is_failure(conclusion: Seq<char>) -> bool {
    same_ignoring_case(conclusion, "FAILURE"@) || same_ignoring_case(conclusion, "ERROR"@)
}

/// The state of a pull request from its own state, whether it can be merged, and what
/// its checks concluded. A merge counts before a conflict, a conflict before the checks,
/// and one failed check before those that still run.
pub open spec fn status_from(
    state: Seq<char>,
    mergeable: Seq<char>,
    conclusions: Seq<Seq<char>>,
) -> PrStatus {
    if same_ignoring_case(state, "MERGED"@) {
        PrStatus::Merged
    } else if same_ignoring_case(mergeable, "CONFLICTING"@) {
        PrStatus::Conflicting
    } else if conclusions.len() == 0 {
        PrStatus::Open
    } else if exists|i: int| 0 <= i < conclusions.len() && is_failure(#[trigger] conclusions[i]) {
        PrStatus::CiFailed
    } else if forall|i: int|
        0 <= i < conclusions.len() ==> (#[trigger] conclusions[i]).len() > 0 {
        PrStatus::CiPassed
    } else {
        PrStatus::CiRunning
    }
}

/// What the checks of an answer concluded.
pub open spec fn conclusions_in(text: Seq<char>) -> Seq<Seq<char>> {
    match json_array_at(text, "/statusCheckRollup"@) {
        Some(n) => Seq::new(n as nat, |i: int| conclusion(text, i as nat)),
        None => Seq::empty(),
    }
}

/// The state in the answer of `gh pr view`.
pub open spec fn reported_status(answer: Seq<char>) -> PrStatus {
    let text = trimmed(answer);
    status_from(member(text, "/state"@), member(text, "/mergeable"@), conclusions_in(text))
}

fn member_at(text: &str, pointer: &str) -> (r: String)
    ensures
        r@ == member(text@, pointer@),
{
    match string_at(text, pointer) {
        Some(s) => s,
        None => String::new(),
    }
}

fn conclusions_of(text: &str) -> (r: Vec<String>)
    ensures
        views(r@) == conclusions_in(text@),
{
    let n: usize = match array_len_at(text, "/statusCheckRollup") {
        Some(n) => n,
        None => 0,
    };
    let mut r: Vec<String> = Vec::new();
    assert(views(r@) =~= conclusions_in(text@).take(0));
    let mut i: usize = 0;
    while i < n
        invariant
            i <= n,
            n == conclusions_in(text@).len(),
            n > 0 ==> json_array_at(text@, "/statusCheckRollup"@) is Some,
            views(r@) == conclusions_in(text@).take(i as int),
        decreases n - i,
    {
        let c = member_at(text, pointer_to("/statusCheckRollup", i, "/conclusion").as_str());
        proof {
            lemma_views_push(r@, c);
            assert(conclusions_in(text@).take(i + 1) =~= conclusions_in(text@).take(
                i as int,
            ).push(conclusions_in(text@)[i as int]));
        }
        r.push(c);
        i += 1;
    }
    assert(conclusions_in(text@).take(n as int) =~= conclusions_in(text@));
    r
}

fn any_failed(conclusions: &Vec<String>) -> (r: bool)
    ensures
        r == exists|i: int|
            0 <= i < views(conclusions@).len() && is_failure(#[trigger] views(conclusions@)[i]),
{
    let mut i: usize = 0;
    while i < conclusions.len()
        invariant
            i <= conclusions@.len(),
            forall|k: int| 0 <= k < i ==> !is_failure(#[trigger] views(conclusions@)[k]),
        decreases conclusions@.len() - i,
    {
        let c = conclusions[i].as_str();
        assert(views(conclusions@)[i as int] == c@);
        if eq_ignore_case(c, "FAILURE") || eq_ignore_case(c, "ERROR") {
            return true;
        }
        i += 1;
    }
    false
}

fn all_concluded(conclusions: &Vec<String>) -> (r: bool)
    ensures
        r == forall|i: int|
            0 <= i < views(conclusions@).len() ==> (#[trigger] views(conclusions@)[i]).len() > 0,
{
    let mut i: usize = 0;
    while i < conclusions.len()
        invariant
            i <= conclusions@.len(),
            forall|k: int| 0 <= k < i ==> (#[trigger] views(conclusions@)[k]).len() > 0,
        decreases conclusions@.len() - i,
    {
        assert(views(conclusions@)[i as int] == conclusions@[i as int]@);
        if conclusions[i].as_str().is_empty() {
            return false;
        }
        i += 1;
    }
    true
}

/// The state of a pull request from its own state, whether it can be merged, and what
/// its checks concluded; a check that still runs has an empty conclusion.
pub fn pr_status(state: &str, mergeable: &str, conclusions: &Vec<String>) -> (r: PrStatus)
    ensures
        r == status_from(state@, mergeable@, views(conclusions@)),
{
    if eq_ignore_case(state, "MERGED") {
        return PrStatus::Merged;
    }
    if eq_ignore_case(mergeable, "CONFLICTING") {
        return PrStatus::Conflicting;
    }
    if conclusions.len() == 0 {
        PrStatus::Open
    } else if any_failed(conclusions) {
        PrStatus::CiFailed
    } else if all_concluded(conclusions) {
        PrStatus::CiPassed
    } else {
        PrStatus::CiRunning
    }
}

/// The state of a pull request; open where GitHub gave no answer.
pub fn check_pr_status(answer: &Option<String>) -> (r: PrStatus)
    ensures
        r == match *answer {
            Some(text) => reported_status(text@),
            None => PrStatus::Open,
        },
{
    match answer {
        Some(answer) => {
            let text = trim(answer.as_str());
            let text = text.as_str();
            let state = member_at(text, "/state");
            let mergeable = member_at(text, "/mergeable");
            pr_status(state.as_str(), mergeable.as_str(), &conclusions_of(text))
        },
        None => PrStatus::Open,
    }
}

// ---------------------------------------------------------------------------
// Usage limits
// ---------------------------------------------------------------------------

/// A moment: seconds since the epoch and the nanoseconds within the second.
#[derive(Clone, Copy, Debug, PartialEq, Eq, Structural)]
pub struct Moment {
    pub secs: i64,
    pub nanos: u32,
}

/// The moment that a text in the format of RFC 3339 names; `None` for another text.
pub uninterp spec fn rfc3339_moment(text: Seq<char>) -> Option<Moment>;

/// Calls `chrono::DateTime::parse_from_rfc3339` and takes `timestamp` and
/// `timestamp_subsec_nanos` of what it returns. The result is a function of the text;
/// the grammar of the format is not restated here.
#[verifier::external_body]
pub(crate) fn parse_moment(text: &str) -> (r: Option<Moment>)
    ensures
        r == rfc3339_moment(text@),
{
    let t = chrono::DateTime::parse_from_rfc3339(text).ok()?;
    Some(Moment { secs: t.timestamp(), nanos: t.timestamp_subsec_nanos() })
}

pub open spec fn millis_of(m: Moment) -> int {
    m.secs * 1000 + m.nanos as int / 1_000_000
}

pub open spec fn is_after(a: Moment, b: Moment) -> bool {
    a.secs > b.secs || (a.secs == b.secs && a.nanos > b.nanos)
}

/// A time span in milliseconds, in its two largest units of days, hours and minutes.
pub open spec fn span_text(millis: nat) -> Seq<char> {
    let hours = millis / 3_600_000;
    let minutes = (millis % 3_600_000) / 60_000;
    if hours >= 24 {
        decimal(hours / 24) + "d"@ + decimal(hours % 24) + "h"@
    } else if hours > 0 {
        decimal(hours) + "h"@ + decimal(minutes) + "m"@
    } else {
        decimal(minutes) + "m"@
    }
}

/// How long it is until a moment; none once it has passed.
pub open spec fn left_until(moment: Moment, now_millis: i64) -> Option<Seq<char>> {
    let left = millis_of(moment) - now_millis;
    if left <= 0 {
        None
    } else {
        Some(span_text(left as nat))
    }
}

/// How long it is until a moment.
pub fn time_left(moment: Moment, now_millis: i64) -> (r: Option<String>)
    ensures
        (match r {
            Some(s) => Some(s@),
            None => None,
        }) == left_until(moment, now_millis),
{
    let left: i128 = moment.secs as i128 * 1000 + (moment.nanos / 1_000_000) as i128
        - now_millis as i128;
    if left <= 0 {
        return None;
    }
    let left: u128 = left as u128;
    let hours: u64 = (left / 3_600_000) as u64;
    let minutes: u64 = ((left % 3_600_000) / 60_000) as u64;
    let mut r: String;
    if hours >= 24 {
        r = format_number(hours / 24);
        r.append("d");
        r.append(format_number(hours % 24).as_str());
        r.append("h");
    } else if hours > 0 {
        r = format_number(hours);
        r.append("h");
        r.append(format_number(minutes).as_str());
        r.append("m");
    } else {
        r = format_number(minutes);
        r.append("m");
    }
    Some(r)
}

/// How long it is until a limit is reset, from the text that names the moment.
pub fn format_time_left(reset_at: &str, now_millis: i64) -> (r: Option<String>)
    ensures
        (match r {
            Some(s) => Some(s@),
            None => None,
        }) == match rfc3339_moment(reset_at@) {
            Some(moment) => left_until(moment, now_millis),
            None => None,
        },
{
    match parse_moment(reset_at) {
        Some(moment) => time_left(moment, now_millis),
        None => None,
    }
}

/// A limit with a known end is over.
pub fn limit_is_over(limited: bool, end: Option<Moment>, now: Moment) -> (r: bool)
    ensures
        r == (limited && (end matches Some(m) && is_after(now, m))),
        !limited ==> !r,
        end is None ==> !r,
        end matches Some(m) ==> (limited && now.secs > m.secs ==> r),
        end matches Some(m) ==> (now.secs < m.secs ==> !r),
{
    match end {
        Some(m) => limited && (now.secs > m.secs || (now.secs == m.secs && now.nanos > m.nanos)),
        None => false,
    }
}

/// A recorded limit is over; one without an end, or with an end that cannot be read,
/// is not.
pub fn rate_limit_expired(limited: bool, reset_at: &Option<String>, now: Moment) -> (r: bool)
    ensures
        r == (limited && (reset_at matches Some(text) && (rfc3339_moment(text@) matches Some(m)
            && is_after(now, m)))),
        !limited ==> !r,
        *reset_at is None ==> !r,
{
    match reset_at {
        Some(text) => limit_is_over(limited, parse_moment(text.as_str()), now),
        None => false,
    }
}

/// Whether the usage has to be fetched: the cached figures are old or have no
/// percentages, and no fetch is under way.
pub fn needs_usage_fetch(fresh: bool, has_percentages: bool, in_progress: bool) -> (r: bool)
    ensures
        r == ((!fresh || !has_percentages) && !in_progress),
        in_progress ==> !r,
        fresh && has_percentages ==> !r,
        !in_progress && !fresh ==> r,
        !in_progress && !has_percentages ==> r,
{
    (!fresh || !has_percentages) && !in_progress
}

/// The text at a pointer of the cached figures; where they hold none, the text that was
/// known.
pub fn cached_reset(cache: &str, pointer: &str, known: Option<String>) -> (r: Option<String>)
    ensures
        text_option(r) == match json_string_at(cache@, pointer@) {
            Some(found) => Some(found),
            None => text_option(known),
        },
{
    keep_known(string_at(cache, pointer), &known)
}

/// Where the credentials hold the token of the agent's service.
pub open spec fn token_pointer(agent_id: Seq<char>) -> Seq<char> {
    "/"@ + agent_id + "AiOauth/accessToken"@
}

/// The token in the credentials of the agent's service.
pub fn access_token(credentials: &str, agent_id: &str) -> (r: Option<String>)
    ensures
        text_option(r) == json_string_at(trimmed(credentials@), token_pointer(agent_id@)),
{
    let mut pointer = "/".to_owned();
    pointer.append(agent_id);
    pointer.append("AiOauth/accessToken");
    string_at(trim(credentials).as_str(), pointer.as_str())
}

/// How long it is until a limit is reset, where an answer names the moment at a pointer.
pub fn reset_in(answer: &str, pointer: &str, now_millis: i64) -> (r: Option<String>)
    ensures
        text_option(r) == match json_string_at(answer@, pointer@) {
            Some(at) => match rfc3339_moment(at) {
                Some(moment) => left_until(moment, now_millis),
                None => None,
            },
            None => None,
        },
{
    match string_at(answer, pointer) {
        Some(at) => format_time_left(at.as_str(), now_millis),
        None => None,
    }
}

/// A part of the summary line of a diff, such as ` 3 files changed`, is counted by what it
/// names; the other counts stay.
pub proof fn law_each_part_sets_its_count(s: DiffStat, part: Seq<char>)
    ensures
        ({
            let t = trimmed(part);
            let n = match parsed_i64(first_word(t)) {
                Some(n) => n,
                None => 0,
            };
            let r = with_part(s, part);
            &&& contains_text(t, "file"@) ==> r.files == n && r.added == s.added && r.removed
                == s.removed
            &&& !contains_text(t, "file"@) && contains_text(t, "insertion"@) ==> r.added == n
                && r.files == s.files && r.removed == s.removed
            &&& !contains_text(t, "file"@) && !contains_text(t, "insertion"@) && contains_text(
                t,
                "deletion"@,
            ) ==> r.removed == n && r.files == s.files && r.added == s.added
            &&& !contains_text(t, "file"@) && !contains_text(t, "insertion"@) && !contains_text(
                t,
                "deletion"@,
            ) ==> r == s
        }),
{
}

/// A written number in front of a word is counted.
pub proof fn law_the_number_in_front_counts(n: i64, rest: Seq<char>)
    requires
        n >= 0,
        rest.len() > 0 ==> crate::text::is_space(rest[0]),
    ensures
        leading_count(crate::text::signed_decimal(n as int) + rest) == n,
{
    let digits = crate::text::signed_decimal(n as int);
    crate::text::law_numbers_read_back(n, n as u64);
    crate::text::lemma_decimal_value(n as nat);
    assert forall|i: int| 0 <= i < digits.len() implies !crate::text::is_space(
        #[trigger] digits[i],
    ) by {
        assert(crate::text::is_digit(digits[i]));
    }
    let none = Seq::<char>::empty();
    assert(none + digits + rest =~= digits + rest);
    crate::text::law_the_first_word(none, digits, rest);
}

/// The counts of a summary line: of three parts that name files, insertions and deletions,
/// each is counted; without the last or the last two there is nothing of that kind.
pub proof fn law_the_summary_line_counts(files: Seq<char>, added: Seq<char>, removed: Seq<char>)
    requires
        contains_text(trimmed(files), "file"@),
        !contains_text(trimmed(added), "file"@),
        contains_text(trimmed(added), "insertion"@),
        !contains_text(trimmed(removed), "file"@),
        !contains_text(trimmed(removed), "insertion"@),
        contains_text(trimmed(removed), "deletion"@),
    ensures
        ({
            let f = leading_count(trimmed(files));
            let a = leading_count(trimmed(added));
            let d = leading_count(trimmed(removed));
            &&& stat_of_parts(seq![files, added, removed]) == (DiffStat {
                files: f,
                added: a,
                removed: d,
            })
            &&& stat_of_parts(seq![files, added]) == (DiffStat { files: f, added: a, removed: 0 })
            &&& stat_of_parts(seq![files, removed]) == (DiffStat { files: f, added: 0, removed: d })
            &&& stat_of_parts(seq![files]) == (DiffStat { files: f, added: 0, removed: 0 })
            &&& stat_of_parts(seq![]) == (DiffStat { files: 0, added: 0, removed: 0 })
        }),
{
    reveal_with_fuel(stat_of_parts, 4);
    assert(seq![files, added, removed].drop_last() =~= seq![files, added]);
    assert(seq![files, added].drop_last() =~= seq![files]);
    assert(seq![files, removed].drop_last() =~= seq![files]);
    assert(seq![files].drop_last() =~= Seq::<Seq<char>>::empty());
}

/// The last line of the output is the summary line. An empty output says nothing, one
/// without a summary line that there are no changes.
pub proof fn law_the_last_line_is_the_summary(output: Seq<char>)
    ensures
        lines_of(output).len() == 0 ==> diff_stat(output) is None,
        lines_of(output).len() > 0 && !contains_text(lines_of(output).last(), "changed"@)
            ==> diff_stat(output) == Some(DiffStat { files: 0, added: 0, removed: 0 }),
        lines_of(output).len() > 0 && contains_text(lines_of(output).last(), "changed"@)
            ==> diff_stat(output) == Some(stat_of_parts(split_on(lines_of(output).last(), ','))),
{
}

/// What the state of a pull request says: a merge counts before a conflict, that before the
/// checks. Of the checks one failure is a failure; with all concluded they have passed, and
/// otherwise they run. Without checks the pull request is open.
pub proof fn law_the_state_of_a_pr(
    state: Seq<char>,
    mergeable: Seq<char>,
    conclusions: Seq<Seq<char>>,
    i: int,
)
    ensures
        same_ignoring_case(state, "MERGED"@) ==> status_from(state, mergeable, conclusions)
            == PrStatus::Merged,
        !same_ignoring_case(state, "MERGED"@) && same_ignoring_case(mergeable, "CONFLICTING"@)
            ==> status_from(state, mergeable, conclusions) == PrStatus::Conflicting,
        !same_ignoring_case(state, "MERGED"@) && !same_ignoring_case(mergeable, "CONFLICTING"@)
            ==> {
            let r = status_from(state, mergeable, conclusions);
            &&& conclusions.len() == 0 ==> r == PrStatus::Open
            &&& 0 <= i < conclusions.len() && same_ignoring_case(conclusions[i], "FAILURE"@) ==> r
                == PrStatus::CiFailed
            &&& 0 <= i < conclusions.len() && same_ignoring_case(conclusions[i], "ERROR"@) ==> r
                == PrStatus::CiFailed
            &&& 0 <= i < conclusions.len() && conclusions[i].len() == 0 ==> r != PrStatus::CiPassed
            &&& (conclusions.len() > 0 && forall|k: int|
                0 <= k < conclusions.len() ==> (#[trigger] conclusions[k]).len() > 0
                    && !same_ignoring_case(conclusions[k], "FAILURE"@) && !same_ignoring_case(
                    conclusions[k],
                    "ERROR"@,
                )) ==> r == PrStatus::CiPassed
            &&& (0 <= i < conclusions.len() && conclusions[i].len() == 0 && forall|k: int|
                0 <= k < conclusions.len() ==> !same_ignoring_case(
                    #[trigger] conclusions[k],
                    "FAILURE"@,
                ) && !same_ignoring_case(conclusions[k], "ERROR"@)) ==> r == PrStatus::CiRunning
        },
{
    if 0 <= i < conclusions.len() && is_failure(conclusions[i]) {
        assert(exists|k: int| 0 <= k < conclusions.len() && is_failure(#[trigger] conclusions[k]));
    }
    if forall|k: int|
        0 <= k < conclusions.len() ==> !same_ignoring_case(#[trigger] conclusions[k], "FAILURE"@)
            && !same_ignoring_case(conclusions[k], "ERROR"@) {
        assert forall|k: int| 0 <= k < conclusions.len() implies !is_failure(
            #[trigger] conclusions[k],
        ) by {}
    }
    if (conclusions.len() > 0 && forall|k: int|
        0 <= k < conclusions.len() ==> (#[trigger] conclusions[k]).len() > 0 && !same_ignoring_case(
            conclusions[k],
            "FAILURE"@,
        ) && !same_ignoring_case(conclusions[k], "ERROR"@)) {
        assert forall|k: int| 0 <= k < conclusions.len() implies !is_failure(
            #[trigger] conclusions[k],
        ) by {}
    }
}

/// The time left is given in whole minutes, rounded down: under an hour in minutes, under a
/// day in hours and minutes, from there in days and hours.
pub proof fn law_spans_in_minutes(days: nat, hours: nat, minutes: nat, rest: nat)
    requires
        hours < 24,
        minutes < 60,
        rest < 60_000,
    ensures
        ({
            let millis = ((days * 24 + hours) * 60 + minutes) * 60_000 + rest;
            &&& days == 0 && hours == 0 ==> span_text(millis) == decimal(minutes) + "m"@
            &&& days == 0 && hours > 0 ==> span_text(millis) == decimal(hours) + "h"@ + decimal(
                minutes,
            ) + "m"@
            &&& days > 0 ==> span_text(millis) == decimal(days) + "d"@ + decimal(hours) + "h"@
        }),
{
    let total = days * 24 + hours;
    let millis = (total * 60 + minutes) * 60_000 + rest;
    let below = minutes * 60_000 + rest;
    assert(millis == total * 3_600_000 + below) by (nonlinear_arith)
        requires
            millis == (total * 60 + minutes) * 60_000 + rest,
            below == minutes * 60_000 + rest,
    ;
    assert(below < 3_600_000);
    assert(millis / 3_600_000 == total);
    assert(millis % 3_600_000 == below);
    assert(below / 60_000 == minutes);
}

/// A limit is over when its end lies in the past; until then the time left is told, and
/// never both.
pub proof fn law_the_past_has_no_time_left(end: Moment, now: Moment, now_millis: i64)
    requires
        end.nanos < 1_000_000_000,
        now.nanos < 1_000_000_000,
        now_millis == millis_of(now),
    ensures
        is_after(now, end) ==> left_until(end, now_millis) is None,
        left_until(end, now_millis) is Some ==> !is_after(now, end),
        end.secs > now.secs + 1 ==> left_until(end, now_millis) is Some,
        now.secs > end.secs ==> is_after(now, end),
        now == end ==> !is_after(now, end),
{
}

/// The state that an answer reports is that of its members `state`, `mergeable` and the
/// conclusions of its checks.
pub proof fn law_reported_states(answer: Seq<char>)
    ensures
        ({
            let text = trimmed(answer);
            &&& json_string_at(text, "/state"@) matches Some(s) ==> (same_ignoring_case(
                s,
                "MERGED"@,
            ) ==> reported_status(answer) == PrStatus::Merged)
            &&& json_string_at(text, "/state"@) is None ==> (json_string_at(
                text,
                "/mergeable"@,
            ) matches Some(m) ==> (same_ignoring_case(m, "CONFLICTING"@) ==> reported_status(answer)
                == PrStatus::Conflicting))
            &&& json_array_at(text, "/statusCheckRollup"@) matches Some(n) ==> conclusions_in(
                text,
            ).len() == n
            &&& json_array_at(text, "/statusCheckRollup"@) is None ==> conclusions_in(text).len()
                == 0
        }),
{
    reveal_strlit("MERGED");
}

/// Where the conclusion of a check is read.
pub proof fn law_conclusions_are_read_in_order(text: Seq<char>, i: int)
    requires
        0 <= i < conclusions_in(text).len(),
    ensures
        json_string_at(
            text,
            "/statusCheckRollup"@ + "/"@ + decimal(i as nat) + "/conclusion"@,
        ) matches Some(c) ==> conclusions_in(text)[i] == c,
        json_string_at(
            text,
            "/statusCheckRollup"@ + "/"@ + decimal(i as nat) + "/conclusion"@,
        ) is None ==> conclusions_in(text)[i].len() == 0,
        token_pointer(text) == "/"@ + text + "AiOauth/accessToken"@,
{
}

/// There is time left exactly until the moment comes.
pub proof fn law_time_is_left_until_the_moment(m: Moment, now_millis: i64)
    ensures
        left_until(m, now_millis) is Some <==> m.secs * 1000 + m.nanos as int / 1_000_000
            > now_millis,
        left_until(m, now_millis) matches Some(t) ==> t == span_text(
            (m.secs * 1000 + m.nanos as int / 1_000_000 - now_millis) as nat,
        ),
{
}

} // verus!
