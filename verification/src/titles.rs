//! Short titles for long prompts.

use vstd::prelude::*;
use vstd::string::*;

use crate::screen::is_last_content;
use crate::text::{
    begins_with, blank, byte_len, bytes_in, chars_of, is_blank, lines, lines_of, text_between, trim,
    trimmed, views, width_of,
};
use crate::text_input::chars_within;

verus! {

/// The first line of a text; the text itself where it has no line.
pub open spec fn first_line(s: Seq<char>) -> Seq<char> {
    if lines_of(s).len() > 0 {
        lines_of(s)[0]
    } else {
        s
    }
}

/// The place of the last `c`.
pub open spec fn last_index(s: Seq<char>, c: char) -> Option<int>
    decreases s.len(),
{
    if s.len() == 0 {
        None
    } else if s.last() == c {
        Some(s.len() - 1)
    } else {
        last_index(s.drop_last(), c)
    }
}

/// A line of at most 60 bytes is its own title. A longer one is cut at 60 bytes,
/// then at the last space in front of the cut where there is one, and marked with
/// dots.
pub open spec fn short_title(line: Seq<char>) -> Seq<char> {
    if byte_len(line) <= 60 {
        line
    } else {
        let cut = line.take(chars_within(line, 60) as int);
        match last_index(cut, ' ') {
            Some(i) => cut.take(i) + "..."@,
            None => cut + "..."@,
        }
    }
}

fn first_line_of(s: &str) -> (r: String)
    ensures
        r@ == first_line(s@),
{
    let all = lines(s);
    if all.len() > 0 {
        assert(views(all@)[0] == all@[0]@);
        all[0].clone()
    } else {
        assert(views(all@).len() == 0);
        s.to_owned()
    }
}

/// A title made of the first line of a prompt, without asking anybody: used at once
/// when a task is created.
pub fn fallback_title(prompt: &str) -> (r: String)
    ensures
        r@ == short_title(first_line(prompt@)),
{
    let line = first_line_of(prompt);
    if bytes_in(line.as_str()) <= 60 {
        return line;
    }
    let v = chars_of(line.as_str());
    let mut k: usize = 0;
    let mut left: usize = 60;
    assert(v@.skip(0) =~= v@);
    while k < v.len() && width_of(v[k]) <= left
        invariant
            k <= v@.len(),
            chars_within(v@, 60) == k + chars_within(v@.skip(k as int), left as int),
        decreases v@.len() - k,
    {
        assert(v@.skip(k as int).drop_first() =~= v@.skip(k as int + 1));
        left = left - width_of(v[k]);
        k += 1;
    }
    let ghost cut = v@.take(k as int);
    let mut i: usize = k;
    assert(cut.take(k as int) =~= cut);
    while i > 0 && v[i - 1] != ' '
        invariant
            i <= k <= v@.len(),
            cut == v@.take(k as int),
            last_index(cut, ' ') == last_index(cut.take(i as int), ' '),
        decreases i,
    {
        assert(cut.take(i as int).drop_last() =~= cut.take(i as int - 1));
        assert(cut.take(i as int).last() == v@[i - 1]);
        i -= 1;
    }
    if i > 0 {
        assert(cut.take(i as int).last() == ' ');
        let head = text_between(&v, 0, i - 1);
        assert(head@ =~= cut.take(i as int - 1));
        head.concat("...")
    } else {
        let head = text_between(&v, 0, k);
        assert(head@ =~= cut);
        head.concat("...")
    }
}

/// The title that a model's answer holds: its last line with content, trimmed. A
/// model may put a preamble in front of it.
pub open spec fn is_answer_title(answer: Seq<char>, title: Seq<char>) -> bool {
    exists|k: int|
        #[trigger] is_last_content(lines_of(answer), k) && title == trimmed(lines_of(answer)[k])
}

/// The title for a prompt, given the answer of the model that was asked for one
/// (`None` where it could not be asked): the answer's title, or the prompt's own
/// first line where the answer is blank.
pub fn generated_title(prompt: &str, answer: &Option<String>) -> (r: String)
    ensures
        match *answer {
            Some(a) => if exists|k: int| is_last_content(lines_of(a@), k) {
                is_answer_title(a@, r@)
            } else {
                r@ == short_title(first_line(prompt@))
            },
            None => r@ == short_title(first_line(prompt@)),
        },
{
    if let Some(a) = answer {
        let all = lines(a.as_str());
        let ghost rows = views(all@);
        let mut k: usize = all.len();
        while k > 0 && blank(all[k - 1].as_str())
            invariant
                k <= all@.len(),
                rows == views(all@),
                forall|i: int| k <= i < rows.len() ==> is_blank(#[trigger] rows[i]),
            decreases k,
        {
            assert(is_blank(rows[k - 1]));
            k -= 1;
        }
        if k > 0 {
            assert(rows[k - 1] == all@[k - 1]@);
            assert(is_last_content(rows, k - 1));
            return trim(all[k - 1].as_str());
        }
        assert forall|j: int| !is_last_content(rows, j) by {
            if 0 <= j < rows.len() {
                assert(is_blank(rows[j]));
            }
        }
    }
    fallback_title(prompt)
}

/// A title is never longer than 63 bytes.
pub proof fn law_titles_are_short(prompt: Seq<char>)
    ensures
        byte_len(short_title(first_line(prompt))) <= 63,
{
    let line = first_line(prompt);
    if byte_len(line) > 60 {
        let n = chars_within(line, 60) as int;
        crate::text_input::lemma_chars_within_longest(line, 60);
        let cut = line.take(n);
        lemma_last_index(cut, ' ');
        reveal_strlit("...");
        reveal_with_fuel(byte_len, 4);
        assert("..."@ =~= seq!['.', '.', '.']);
        assert("..."@.drop_first() =~= seq!['.', '.']);
        assert("..."@.drop_first().drop_first() =~= seq!['.']);
        assert("..."@.drop_first().drop_first().drop_first() =~= Seq::<char>::empty());
        assert(byte_len("..."@) == 3);
        match last_index(cut, ' ') {
            Some(i) => {
                crate::text::lemma_byte_len_take(cut, i, cut.len() as int);
                assert(cut.take(cut.len() as int) =~= cut);
                crate::text::lemma_byte_len_concat(cut.take(i), "..."@);
            },
            None => {
                crate::text::lemma_byte_len_concat(cut, "..."@);
            },
        }
    }
}

proof fn lemma_last_index(s: Seq<char>, c: char)
    ensures
        last_index(s, c) matches Some(i) ==> 0 <= i < s.len(),
    decreases s.len(),
{
    if s.len() > 0 {
        lemma_last_index(s.drop_last(), c);
    }
}

/// A title keeps the beginning of its line. A line of at most sixty bytes is kept whole; a
/// longer one ends in dots, and what is kept of it takes at most sixty bytes.
pub proof fn law_titles_keep_the_beginning(line: Seq<char>) -> (kept: Seq<char>)
    ensures
        begins_with(line, kept),
        byte_len(kept) <= 60,
        byte_len(line) <= 60 ==> short_title(line) == line && kept == line,
        byte_len(line) > 60 ==> short_title(line) =~= kept + "..."@,
        byte_len(line) > 60 && kept.len() < line.len() && line[kept.len() as int] != ' '
            ==> !kept.contains(' '),
{
    if byte_len(line) <= 60 {
        assert(line.take(line.len() as int) =~= line);
        line
    } else {
        let n = chars_within(line, 60) as int;
        crate::text_input::lemma_chars_within_longest(line, 60);
        let cut = line.take(n);
        lemma_last_space(cut, ' ');
        match last_index(cut, ' ') {
            Some(i) => {
                crate::text::lemma_byte_len_take(cut, i, cut.len() as int);
                assert(cut.take(cut.len() as int) =~= cut);
                assert(cut.take(i) =~= line.take(i));
                assert(line[i] == cut[i]);
                cut.take(i)
            },
            None => {
                assert(line.take(n) == cut);
                assert(!cut.contains(' '));
                cut
            },
        }
    }
}

proof fn lemma_last_space(s: Seq<char>, c: char)
    ensures
        last_index(s, c) matches Some(i) ==> 0 <= i < s.len() && s[i] == c && forall|j: int|
            i < j < s.len() ==> s[j] != c,
        last_index(s, c) is None ==> !s.contains(c),
    decreases s.len(),
{
    if s.len() > 0 {
        lemma_last_space(s.drop_last(), c);
        if let Some(i) = last_index(s, c) {
            assert forall|j: int| i < j < s.len() implies s[j] != c by {
                if j < s.len() - 1 {
                    assert(s.drop_last()[j] == s[j]);
                }
            }
        }
        if s.last() != c && last_index(s, c) is None && s.contains(c) {
            let k = choose|k: int| 0 <= k < s.len() && s[k] == c;
            assert(s.drop_last()[k] == c);
        }
    }
}

/// A title is cut as late as it can be: behind what is kept there is no other space within
/// the first sixty bytes.
pub proof fn law_titles_are_cut_late(line: Seq<char>, i: int)
    requires
        byte_len(line) > 60,
        0 <= i < line.len(),
        line[i] == ' ',
        byte_len(line.take(i + 1)) <= 60,
    ensures
        short_title(line).len() >= i + 3,
{
    let n = chars_within(line, 60) as int;
    crate::text_input::lemma_chars_within_longest(line, 60);
    let cut = line.take(n);
    lemma_last_space(cut, ' ');
    reveal_strlit("...");
    if i >= n {
        crate::text::lemma_byte_len_take(line, n + 1, i + 1);
        if n < line.len() {
            assert(byte_len(line.take(n + 1)) <= 60);
        }
    }
    assert(cut[i] == ' ');
    assert(cut.contains(cut[i]));
}

/// The first line of a text ends at its first line feed; a text without one is its own.
pub proof fn law_the_first_line(line: Seq<char>, rest: Seq<char>)
    requires
        !line.contains('\n'),
        line.len() == 0 || line.last() != '\r',
    ensures
        first_line(line + seq!['\n'] + rest) == line,
        first_line(line) =~= line,
{
    crate::text::law_line_feeds_end_lines(line, rest);
}

/// The title that an answer holds is its last line with content, without the space around
/// it.
pub proof fn law_the_answer_ends_with_the_title(answer: Seq<char>, title: Seq<char>, k: int)
    requires
        is_answer_title(answer, title),
        0 <= k < lines_of(answer).len(),
        !is_blank(lines_of(answer)[k]),
        forall|i: int| k < i < lines_of(answer).len() ==> is_blank(#[trigger] lines_of(answer)[i]),
    ensures
        title == trimmed(lines_of(answer)[k]),
{
    let rows = lines_of(answer);
    let j = choose|j: int| #[trigger] is_last_content(rows, j) && title == trimmed(rows[j]);
    if j < k {
        assert(is_blank(rows[k]));
    } else if k < j {
        assert(is_blank(rows[j]));
    }
}

} // verus!
