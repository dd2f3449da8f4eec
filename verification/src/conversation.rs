//! The conversation of a session: what is kept of its log, and the choices that the
//! agent offers at the end of its last message.

use vstd::prelude::*;
use vstd::string::*;

use crate::store::ConversationEntry;
use crate::text::{
    chars_of, contains_text, is_blank, is_digit, join, joined, lemma_views_push, lines, lines_of,
    same, text_between, trim, trimmed, views,
};

verus! {

// ---------------------------------------------------------------------------
// Quick replies
// ---------------------------------------------------------------------------

pub open spec fn is_answer(e: ConversationEntry) -> bool {
    e is AssistantText
}

/// The place of the last message of the agent.
pub open spec fn last_answer(entries: Seq<ConversationEntry>) -> Option<int>
    decreases entries.len(),
{
    if entries.len() == 0 {
        None
    } else if is_answer(entries.last()) {
        Some(entries.len() - 1)
    } else {
        last_answer(entries.drop_last())
    }
}

/// The user has written since the last message of the agent.
pub open spec fn is_replied(entries: Seq<ConversationEntry>, answer: int) -> bool {
    exists|i: int| answer < i < entries.len() && (#[trigger] entries[i]) is UserMessage
}

/// What follows the number on a line such as `2. Add tests`; none for another line.
pub open spec fn choice_on(line: Seq<char>) -> Option<Seq<char>> {
    let t = trimmed(line);
    if t.len() >= 3 && is_digit(t[0]) && t[1] == '.' && t[2] == ' ' {
        Some(t.skip(3))
    } else {
        None
    }
}

/// The choices at the end of a list of lines. Lines without a number below the last
/// choice are passed over, the first one above a choice ends the list, and a number
/// without a text counts for nothing.
pub open spec fn trailing_choices(lines: Seq<Seq<char>>, found: bool) -> Seq<Seq<char>>
    decreases lines.len(),
{
    if lines.len() == 0 {
        Seq::empty()
    } else {
        match choice_on(lines.last()) {
            Some(text) => if text.len() > 0 {
                trailing_choices(lines.drop_last(), true).push(text)
            } else {
                trailing_choices(lines.drop_last(), found)
            },
            None => if found {
                Seq::empty()
            } else {
                trailing_choices(lines.drop_last(), false)
            },
        }
    }
}

/// The choices that a conversation offers: at least two, or none.
pub open spec fn offered_choices(entries: Seq<ConversationEntry>) -> Seq<Seq<char>> {
    match last_answer(entries) {
        None => Seq::empty(),
        Some(i) => {
            let choices = trailing_choices(lines_of(entries[i]->AssistantText_text@), false);
            if is_replied(entries, i) || choices.len() < 2 {
                Seq::empty()
            } else {
                choices
            }
        },
    }
}

fn numbered_choice(line: &str) -> (r: Option<String>)
    ensures
        (match r {
            Some(s) => Some(s@),
            None => None,
        }) == choice_on(line@),
{
    let t = trim(line);
    let cs = chars_of(t.as_str());
    if cs.len() >= 3 && '0' <= cs[0] && cs[0] <= '9' && cs[1] == '.' && cs[2] == ' ' {
        let rest = text_between(&cs, 3, cs.len());
        assert(rest@ =~= t@.skip(3));
        Some(rest)
    } else {
        None
    }
}

fn reversed(v: Vec<String>) -> (r: Vec<String>)
    ensures
        views(r@) == views(v@).reverse(),
{
    let mut r: Vec<String> = Vec::new();
    let mut i: usize = v.len();
    while i > 0
        invariant
            i <= v@.len(),
            r@.len() == v@.len() - i,
            forall|k: int| 0 <= k < r@.len() ==> (#[trigger] r@[k])@ == v@[v@.len() - 1 - k]@,
        decreases i,
    {
        i -= 1;
        r.push(v[i].clone());
    }
    assert(views(r@) =~= views(v@).reverse());
    r
}

fn choices_at_end(text: &str) -> (r: Vec<String>)
    ensures
        views(r@) == trailing_choices(lines_of(text@), false),
{
    let all = lines(text);
    let ghost ls = views(all@);
    let mut bottom_up: Vec<String> = Vec::new();
    let mut i: usize = all.len();
    let mut open = true;
    proof {
        assert(ls.take(i as int) =~= ls);
        assert(views(bottom_up@).reverse() =~= Seq::<Seq<char>>::empty());
        assert(trailing_choices(ls, false) + Seq::<Seq<char>>::empty() =~= trailing_choices(
            ls,
            false,
        ));
    }
    while i > 0 && open
        invariant
            i <= all@.len(),
            ls == views(all@),
            open ==> trailing_choices(ls, false) == trailing_choices(
                ls.take(i as int),
                bottom_up@.len() > 0,
            ) + views(bottom_up@).reverse(),
            !open ==> trailing_choices(ls, false) == views(bottom_up@).reverse(),
        decreases (if open {
            i as int
        } else {
            0
        }),
    {
        let ghost before = views(bottom_up@);
        let ghost above = ls.take(i - 1);
        proof {
            assert(ls.take(i as int).drop_last() =~= above);
            assert(ls.take(i as int).last() == ls[i - 1]);
        }
        i -= 1;
        match numbered_choice(all[i].as_str()) {
            Some(text) => {
                if !text.as_str().is_empty() {
                    proof {
                        lemma_views_push(bottom_up@, text);
                        assert(before.push(text@).reverse() =~= seq![text@] + before.reverse());
                        assert(trailing_choices(above, true).push(text@) + before.reverse()
                            =~= trailing_choices(above, true) + (seq![text@] + before.reverse()));
                    }
                    bottom_up.push(text);
                }
            },
            None => {
                if bottom_up.len() > 0 {
                    open = false;
                    assert(Seq::<Seq<char>>::empty() + before.reverse() =~= before.reverse());
                }
            },
        }
    }
    proof {
        if open {
            assert(ls.take(0) =~= Seq::<Seq<char>>::empty());
            assert(Seq::<Seq<char>>::empty() + views(bottom_up@).reverse() =~= views(
                bottom_up@,
            ).reverse());
        }
    }
    reversed(bottom_up)
}

/// The numbered choices at the end of the agent's last message, unless the user has
/// answered it.
pub fn detect_quick_reply_choices(entries: &Vec<ConversationEntry>) -> (r: Vec<String>)
    ensures
        views(r@) == offered_choices(entries@),
        r@.len() != 1,
{
    let none: Vec<String> = Vec::new();
    proof {
        assert(views(none@) =~= Seq::<Seq<char>>::empty());
    }
    let mut i: usize = entries.len();
    let mut replied = false;
    proof {
        assert(entries@.take(i as int) =~= entries@);
    }
    while i > 0
        invariant
            i <= entries@.len(),
            last_answer(entries@) == last_answer(entries@.take(i as int)),
            replied == is_replied(entries@, i - 1),
            views(none@) == Seq::<Seq<char>>::empty(),
            none@.len() == 0,
        decreases i,
    {
        proof {
            assert(entries@.take(i as int).drop_last() =~= entries@.take(i - 1));
            assert(entries@.take(i as int).last() == entries@[i - 1]);
        }
        match &entries[i - 1] {
            ConversationEntry::AssistantText { text } => {
                if replied {
                    return none;
                }
                let choices = choices_at_end(text.as_str());
                proof {
                    assert(views(choices@).len() == choices@.len());
                }
                if choices.len() >= 2 {
                    return choices;
                }
                return none;
            },
            ConversationEntry::UserMessage { .. } => {
                replied = true;
                assert(is_replied(entries@, i - 2)) by {
                    assert(entries@[i - 1] is UserMessage);
                }
            },
            _ => {
                assert(is_replied(entries@, i - 2) ==> is_replied(entries@, i - 1)) by {
                    if is_replied(entries@, i - 2) {
                        let k = choose|k: int|
                            i - 2 < k < entries@.len() && (#[trigger] entries@[k]) is UserMessage;
                        assert(k != i - 1);
                    }
                }
            },
        }
        i -= 1;
    }
    proof {
        assert(entries@.take(0) =~= Seq::<ConversationEntry>::empty());
    }
    none
}

/// Quick replies come at least in pairs, and none is empty.
pub proof fn law_quick_replies_come_in_pairs(entries: Seq<ConversationEntry>)
    ensures
        offered_choices(entries).len() != 1,
        forall|i: int|
            0 <= i < offered_choices(entries).len() ==> (#[trigger] offered_choices(
                entries,
            )[i]).len() > 0,
{
    match last_answer(entries) {
        None => {},
        Some(i) => {
            lemma_choices_hold_text(lines_of(entries[i]->AssistantText_text@), false);
        },
    }
}

proof fn lemma_choices_hold_text(lines: Seq<Seq<char>>, found: bool)
    ensures
        forall|i: int|
            0 <= i < trailing_choices(lines, found).len() ==> (#[trigger] trailing_choices(
                lines,
                found,
            )[i]).len() > 0,
    decreases lines.len(),
{
    if lines.len() > 0 {
        lemma_choices_hold_text(lines.drop_last(), true);
        lemma_choices_hold_text(lines.drop_last(), false);
        lemma_choices_hold_text(lines.drop_last(), found);
        let above = trailing_choices(lines.drop_last(), true);
        match choice_on(lines.last()) {
            Some(text) => {
                assert forall|i: int| 0 <= i < above.push(text).len() && text.len()
                    > 0 implies (#[trigger] above.push(text)[i]).len() > 0 by {
                    if i < above.len() {
                        assert(above.push(text)[i] == above[i]);
                    }
                }
            },
            None => {},
        }
    }
}

/// An answer of the user silences the quick replies.
pub proof fn law_reply_silences_choices(entries: Seq<ConversationEntry>, reply: ConversationEntry)
    requires
        reply is UserMessage,
    ensures
        offered_choices(entries.push(reply)) == Seq::<Seq<char>>::empty(),
{
    let all = entries.push(reply);
    assert(all.drop_last() =~= entries);
    assert(all.last() == reply);
    lemma_last_answer_in_range(entries);
    match last_answer(all) {
        None => {},
        Some(i) => {
            assert(all[entries.len() as int] is UserMessage);
            assert(is_replied(all, i));
        },
    }
}

proof fn lemma_last_answer_in_range(entries: Seq<ConversationEntry>)
    ensures
        last_answer(entries) matches Some(i) ==> 0 <= i < entries.len(),
    decreases entries.len(),
{
    if entries.len() > 0 {
        lemma_last_answer_in_range(entries.drop_last());
    }
}

// ---------------------------------------------------------------------------
// The log
// ---------------------------------------------------------------------------

/// What has been read of a session's log.
pub struct ConversationCache {
    pub session_id: String,
    pub entries: Vec<ConversationEntry>,
    /// How far the file has been read.
    pub file_offset: u64,
    /// The file; `None` while none has been found.
    pub path: Option<String>,
}

/// The cache belongs to a session and a file.
pub open spec fn is_for(c: ConversationCache, session: Seq<char>, path: Seq<char>) -> bool {
    c.session_id@ == session && (c.path matches Some(p) && p@ == path)
}

pub open spec fn cache_is_for(
    c: Option<ConversationCache>,
    session: Seq<char>,
    path: Seq<char>,
) -> bool {
    c matches Some(cache) && is_for(cache, session, path)
}

fn belongs(c: &ConversationCache, session: &str, path: &str) -> (r: bool)
    ensures
        r == is_for(*c, session@, path@),
{
    match &c.path {
        Some(p) => same(c.session_id.as_str(), session) && same(p.as_str(), path),
        None => false,
    }
}

/// The log has not grown since it was read.
pub fn is_current(cache: &Option<ConversationCache>, session: &str, size: Option<u64>) -> (r: bool)
    ensures
        r == (cache matches Some(c) && c.session_id@ == session@ && c.path is Some && size == Some(
            c.file_offset,
        )),
        cache is None || size is None ==> !r,
        *cache matches Some(c) ==> (r ==> c.session_id@ == session@ && size == Some(c.file_offset)),
{
    match cache {
        Some(c) => same(c.session_id.as_str(), session) && c.path.is_some() && (match size {
            Some(n) => n == c.file_offset,
            None => false,
        }),
        None => false,
    }
}

/// Where to go on reading: behind what has been read of this file, else at its start.
pub fn resume_offset(cache: &Option<ConversationCache>, session: &str, path: &str) -> (r: u64)
    ensures
        r == if cache_is_for(*cache, session@, path@) {
            cache->0.file_offset
        } else {
            0
        },
{
    match cache {
        Some(c) => if belongs(c, session, path) {
            c.file_offset
        } else {
            0
        },
        None => 0,
    }
}

/// The cache of a session whose log was not found.
pub fn missing_log(session: &str) -> (r: ConversationCache)
    ensures
        r.session_id@ == session@,
        r.entries@.len() == 0,
        r.file_offset == 0,
        r.path is None,
{
    ConversationCache {
        session_id: session.to_owned(),
        entries: Vec::new(),
        file_offset: 0,
        path: None,
    }
}

/// Take in what was read: appended where the cache is of the same session and file,
/// else in a new cache.
pub fn extend_cache(
    cache: Option<ConversationCache>,
    session: &str,
    path: &str,
    entries: Vec<ConversationEntry>,
    offset: u64,
) -> (r: ConversationCache)
    ensures
        r.session_id@ == session@,
        r.path matches Some(p) && p@ == path@,
        r.file_offset == offset,
        r.entries@ == if cache_is_for(cache, session@, path@) {
            cache->0.entries@ + entries@
        } else {
            entries@
        },
{
    let mut entries = entries;
    match cache {
        Some(c) => {
            if belongs(&c, session, path) {
                let mut c = c;
                c.entries.append(&mut entries);
                c.file_offset = offset;
                return c;
            }
        },
        None => {},
    }
    ConversationCache {
        session_id: session.to_owned(),
        entries,
        file_offset: offset,
        path: Some(path.to_owned()),
    }
}

// ---------------------------------------------------------------------------
// Summary
// ---------------------------------------------------------------------------

/// The texts of the agent among some entries, blank ones left out.
pub open spec fn answers_in(entries: Seq<ConversationEntry>) -> Seq<Seq<char>>
    decreases entries.len(),
{
    if entries.len() == 0 {
        Seq::empty()
    } else {
        let rest = answers_in(entries.drop_last());
        match entries.last() {
            ConversationEntry::AssistantText { text } => if is_blank(text@) {
                rest
            } else {
                rest.push(text@)
            },
            _ => rest,
        }
    }
}

/// The last `n` of a list.
pub open spec fn last_of<A>(s: Seq<A>, n: nat) -> Seq<A> {
    if s.len() <= n {
        s
    } else {
        s.skip(s.len() - n)
    }
}

/// The last three texts of the agent among the last twenty entries, separated by
/// blank lines.
pub open spec fn recent_answers(entries: Seq<ConversationEntry>) -> Option<Seq<char>> {
    let texts = last_of(answers_in(last_of(entries, 20)), 3);
    if texts.len() == 0 {
        None
    } else {
        Some(joined(texts, "\n\n"@))
    }
}

proof fn lemma_last_of_push<A>(s: Seq<A>, x: A, n: nat)
    ensures
        last_of(s.push(x), n + 1) == last_of(s, n).push(x),
{
    assert(last_of(s.push(x), n + 1) =~= last_of(s, n).push(x));
}

pub fn summarize_conversation(entries: &Vec<ConversationEntry>) -> (r: Option<String>)
    ensures
        (match r {
            Some(s) => Some(s@),
            None => None,
        }) == recent_answers(entries@),
{
    let total: usize = entries.len();
    let start: usize = if total > 20 {
        total - 20
    } else {
        0
    };
    let ghost window = last_of(entries@, 20);
    let mut bottom_up: Vec<String> = Vec::new();
    let mut i: usize = total;
    proof {
        assert(window.take(i - start) =~= window);
        assert(views(bottom_up@).reverse() =~= Seq::<Seq<char>>::empty());
        assert(last_of(answers_in(window), 3) =~= last_of(answers_in(window), 3) + Seq::<
            Seq<char>,
        >::empty());
    }
    while i > start && bottom_up.len() < 3
        invariant
            start <= i <= total,
            total == entries@.len(),
            start == (if total > 20 {
                total - 20
            } else {
                0
            }),
            window == last_of(entries@, 20),
            window.len() == total - start,
            forall|k: int| 0 <= k < window.len() ==> window[k] == entries@[start + k],
            bottom_up@.len() <= 3,
            last_of(answers_in(window), 3) == last_of(
                answers_in(window.take(i - start)),
                (3 - bottom_up@.len()) as nat,
            ) + views(bottom_up@).reverse(),
        decreases i,
    {
        let ghost before = views(bottom_up@);
        let ghost room = (3 - bottom_up@.len()) as nat;
        let ghost above = window.take(i - start - 1);
        proof {
            assert(window.take(i - start).drop_last() =~= above);
            assert(window.take(i - start).last() == entries@[i - 1]);
        }
        i -= 1;
        match &entries[i] {
            ConversationEntry::AssistantText { text } => {
                if !crate::text::blank(text.as_str()) {
                    let copy = text.clone();
                    proof {
                        lemma_views_push(bottom_up@, copy);
                        lemma_last_of_push(answers_in(above), text@, (room - 1) as nat);
                        assert(before.push(text@).reverse() =~= seq![text@] + before.reverse());
                        let kept = last_of(answers_in(above), (room - 1) as nat);
                        assert(kept.push(text@) + before.reverse() =~= kept + (seq![text@]
                            + before.reverse()));
                    }
                    bottom_up.push(copy);
                }
            },
            _ => {},
        }
    }
    let ghost texts = last_of(answers_in(window), 3);
    proof {
        if i == start {
            assert(window.take(0) =~= Seq::<ConversationEntry>::empty());
            assert(answers_in(window.take(0)) =~= Seq::<Seq<char>>::empty());
        }
        let head = last_of(answers_in(window.take(i - start)), (3 - bottom_up@.len()) as nat);
        assert(head =~= Seq::<Seq<char>>::empty());
        assert(texts =~= views(bottom_up@).reverse());
    }
    let parts = reversed(bottom_up);
    proof {
        assert(views(parts@).len() == parts@.len());
    }
    if parts.len() == 0 {
        None
    } else {
        Some(join(&parts, "\n\n"))
    }
}

/// A line offers a choice by a digit, a full stop and a blank; the choice is what follows.
pub proof fn law_a_choice_follows_its_number(d: char, text: Seq<char>)
    requires
        '0' <= d <= '9',
        text.len() > 0,
        !crate::text::is_space(text.last()),
    ensures
        choice_on(seq![d, '.', ' '] + text) == Some(text),
{
    let line = seq![d, '.', ' '] + text;
    let none = Seq::<char>::empty();
    crate::text::law_what_is_space(d);
    crate::text::law_trimming_undoes_spacing(none, line, none);
    assert(none + line + none =~= line);
    assert(line.skip(3) =~= text);
}

proof fn lemma_block_of_choices(lines: Seq<Seq<char>>, n: nat, found: bool)
    requires
        n <= lines.len(),
        forall|k: int|
            lines.len() - n <= k < lines.len() ==> (choice_on(#[trigger] lines[k]) matches Some(t)
                && t.len() > 0),
        n < lines.len() ==> choice_on(lines[lines.len() - n - 1]) is None,
        n > 0 || found,
    ensures
        trailing_choices(lines, found) =~= Seq::new(
            n,
            |k: int| choice_on(lines[lines.len() - n + k])->0,
        ),
    decreases lines.len(),
{
    if n > 0 {
        let rest = lines.drop_last();
        assert forall|k: int| rest.len() - (n - 1) <= k < rest.len() implies (choice_on(
            #[trigger] rest[k],
        ) matches Some(t) && t.len() > 0) by {
            assert(rest[k] == lines[k]);
        }
        lemma_block_of_choices(rest, (n - 1) as nat, true);
        assert(choice_on(lines[lines.len() - 1]) is Some);
    }
}

proof fn lemma_answer_found(entries: Seq<ConversationEntry>, i: int)
    requires
        0 <= i < entries.len(),
        entries[i] is AssistantText,
        forall|k: int| i < k < entries.len() ==> !((#[trigger] entries[k]) is AssistantText),
    ensures
        last_answer(entries) == Some(i),
    decreases entries.len(),
{
    if i < entries.len() - 1 {
        let rest = entries.drop_last();
        assert(!(entries[entries.len() - 1] is AssistantText));
        assert forall|k: int| i < k < rest.len() implies !((#[trigger] rest[k])
            is AssistantText) by {
            assert(rest[k] == entries[k]);
        }
        lemma_answer_found(rest, i);
    }
}

/// The last answer's closing lines are offered as quick replies, in their order: at least
/// two numbered lines, with no line behind them and none before them that is numbered,
/// while the user has not replied.
pub proof fn law_closing_choices_are_offered(
    entries: Seq<ConversationEntry>,
    i: int,
    n: nat,
)
    requires
        0 <= i < entries.len(),
        entries[i] is AssistantText,
        forall|k: int|
            i < k < entries.len() ==> !((#[trigger] entries[k]) is AssistantText)
                && !(entries[k] is UserMessage),
        2 <= n <= lines_of(entries[i]->AssistantText_text@).len(),
        ({
            let lines = lines_of(entries[i]->AssistantText_text@);
            &&& forall|k: int|
                lines.len() - n <= k < lines.len() ==> (choice_on(#[trigger] lines[k]) matches Some(
                    t,
                ) && t.len() > 0)
            &&& n < lines.len() ==> choice_on(lines[lines.len() - n - 1]) is None
        }),
    ensures
        offered_choices(entries) =~= Seq::new(
            n,
            |k: int|
                choice_on(
                    lines_of(entries[i]->AssistantText_text@)[lines_of(
                        entries[i]->AssistantText_text@,
                    ).len() - n + k],
                )->0,
        ),
{
    lemma_answer_found(entries, i);
    lemma_block_of_choices(lines_of(entries[i]->AssistantText_text@), n, false);
    assert(!is_replied(entries, i));
}

/// Without an answer there are no quick replies.
pub proof fn law_no_answer_offers_nothing(entries: Seq<ConversationEntry>)
    requires
        forall|k: int| 0 <= k < entries.len() ==> !((#[trigger] entries[k]) is AssistantText),
    ensures
        offered_choices(entries).len() == 0,
        recent_answers(entries) is None,
{
    lemma_no_answer(entries);
    let window = last_of(entries, 20);
    assert forall|k: int| 0 <= k < window.len() implies !((#[trigger] window[k])
        is AssistantText) by {
        assert(entries.contains(window[k]));
    }
    lemma_no_answer(window);
}

proof fn lemma_no_answer(entries: Seq<ConversationEntry>)
    requires
        forall|k: int| 0 <= k < entries.len() ==> !((#[trigger] entries[k]) is AssistantText),
    ensures
        last_answer(entries) is None,
        answers_in(entries).len() == 0,
    decreases entries.len(),
{
    if entries.len() > 0 {
        let rest = entries.drop_last();
        assert(!(entries[entries.len() - 1] is AssistantText));
        assert forall|k: int| 0 <= k < rest.len() implies !((#[trigger] rest[k])
            is AssistantText) by {
            assert(rest[k] == entries[k]);
        }
        lemma_no_answer(rest);
    }
}

proof fn lemma_answers_add(a: Seq<ConversationEntry>, b: Seq<ConversationEntry>)
    ensures
        answers_in(a + b) == answers_in(a) + answers_in(b),
    decreases b.len(),
{
    if b.len() == 0 {
        assert(a + b =~= a);
        assert(answers_in(a) + answers_in(b) =~= answers_in(a));
    } else {
        assert((a + b).drop_last() =~= a + b.drop_last());
        lemma_answers_add(a, b.drop_last());
        assert(answers_in(a + b) =~= answers_in(a) + answers_in(b));
    }
}

/// The summary of a conversation ends with its last answer: with all of an answer that is
/// not blank and stands among the last twenty entries with no other answer behind it.
pub proof fn law_the_summary_ends_with_the_last_answer(entries: Seq<ConversationEntry>, i: int)
    requires
        entries.len() - 20 <= i < entries.len(),
        0 <= i,
        entries[i] is AssistantText,
        !is_blank(entries[i]->AssistantText_text@),
        forall|k: int| i < k < entries.len() ==> !((#[trigger] entries[k]) is AssistantText),
    ensures
        recent_answers(entries) matches Some(s) && s.len()
            >= entries[i]->AssistantText_text@.len() && s.skip(
            s.len() - entries[i]->AssistantText_text@.len(),
        ) =~= entries[i]->AssistantText_text@,
{
    let window = last_of(entries, 20);
    let off = entries.len() - window.len();
    let j = i - off;
    let text = entries[i]->AssistantText_text@;
    assert(window[j] == entries[i]);
    let front = window.take(j + 1);
    let back = window.skip(j + 1);
    assert(window =~= front + back);
    lemma_answers_add(front, back);
    assert forall|k: int| 0 <= k < back.len() implies !((#[trigger] back[k]) is AssistantText) by {
        assert(back[k] == entries[i + 1 + k]);
    }
    lemma_no_answer(back);
    let all = answers_in(window);
    assert(all =~= answers_in(front));
    assert(front.last() == entries[i]);
    assert(all.last() == text);
    let texts = last_of(all, 3);
    assert(texts.last() == text);
    let s = joined(texts, "\n\n"@);
    if texts.len() == 1 {
        assert(s == text);
    } else {
        assert(s == joined(texts.drop_last(), "\n\n"@) + "\n\n"@ + text);
    }
}

/// The summary of a conversation holds at most its last three answers, and every one of
/// them that is among the last twenty entries.
pub proof fn law_the_summary_holds_three_answers(entries: Seq<ConversationEntry>, k: int)
    requires
        ({
            let all = answers_in(last_of(entries, 20));
            all.len() - 3 <= k < all.len() && 0 <= k
        }),
    ensures
        recent_answers(entries) matches Some(s) && contains_text(
            s,
            answers_in(last_of(entries, 20))[k],
        ),
{
    let all = answers_in(last_of(entries, 20));
    let texts = last_of(all, 3);
    let m = k - (all.len() - texts.len());
    assert(texts[m] == all[k]);
    crate::text::law_joining_keeps_every_part(texts, "\n\n"@, m);
}

} // verus!
