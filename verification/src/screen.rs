//! What the terminal screen of an agent's pane says about the session in it.

use vstd::prelude::*;
use vstd::string::*;

use crate::settings::text_option;
use crate::text::{
    begins_with, blank, chars_of, contains, contains_text, find, is_blank, join, joined,
    lemma_views_push, lines, lines_of, occurs_at, starts_with, trim, trimmed, views,
};

verus! {

/// A terminal screen: a grid of character cells.
#[verifier::external_type_specification]
#[verifier::external_body]
pub struct ExScreen(vt100::Screen);

/// The number of rows and of columns of a screen.
pub uninterp spec fn screen_size(screen: vt100::Screen) -> (u16, u16);

/// Calls `vt100::Screen::size`: the number of rows, then that of columns.
#[verifier::external_body]
fn size_of(screen: &vt100::Screen) -> (r: (u16, u16))
    ensures
        r == screen_size(*screen),
{
    screen.size()
}

/// How many rows a screen is scrolled back.
pub uninterp spec fn screen_scrollback(screen: vt100::Screen) -> usize;

/// Calls `vt100::Screen::scrollback`: how many rows the screen is scrolled back.
#[verifier::external_body]
fn scrollback_of(screen: &vt100::Screen) -> (r: usize)
    ensures
        r == screen_scrollback(*screen),
{
    screen.scrollback()
}

/// The text of a screen can be read: it is not scrolled back by more rows than it
/// has, and its columns can be counted.
pub open spec fn is_readable(screen: vt100::Screen) -> bool {
    screen_scrollback(screen) <= screen_size(screen).0 && screen_size(screen).1 < u16::MAX
}

/// Whether the text of a screen can be read.
pub fn can_be_read(screen: &vt100::Screen) -> (r: bool)
    ensures
        r == is_readable(*screen),
{
    let (rows, cols) = size_of(screen);
    scrollback_of(screen) <= rows as usize && cols < u16::MAX
}

/// The characters that the cells of a screen hold, row by row.
pub uninterp spec fn screen_text(screen: vt100::Screen) -> Seq<char>;

/// Calls `vt100::Screen::contents`, which reads the visible rows of the screen
/// into one text. The result depends on the screen alone; how rows are trimmed
/// and wrapped rows joined is not said here.
#[verifier::external_body]
fn contents_of(screen: &vt100::Screen) -> (r: String)
    requires
        is_readable(*screen),
    ensures
        r@ == screen_text(*screen),
{
    screen.contents()
}

/// The text of the first `cols` cells of a row.
pub uninterp spec fn screen_row(screen: vt100::Screen, row: u16, cols: u16) -> Seq<char>;

/// Calls `vt100::Screen::contents_between` from the start of a row to a column of the
/// same row. The result depends on the screen, the row and the column alone; how cells
/// without a character are read is not said here.
#[verifier::external_body]
fn row_of(screen: &vt100::Screen, row: u16, cols: u16) -> (r: String)
    requires
        is_readable(*screen),
    ensures
        r@ == screen_row(*screen, row, cols),
{
    screen.contents_between(row, 0, row, cols)
}

/// The last `n` lines of a text.
pub open spec fn bottom_lines(text: Seq<char>, n: nat) -> Seq<Seq<char>> {
    let all = lines_of(text);
    if all.len() <= n {
        all
    } else {
        all.skip(all.len() - n)
    }
}

fn bottom(text: &str, n: usize) -> (r: Vec<String>)
    ensures
        views(r@) == bottom_lines(text@, n as nat),
{
    let all = lines(text);
    let from: usize = if all.len() <= n {
        0
    } else {
        all.len() - n
    };
    let mut r: Vec<String> = Vec::new();
    let mut i: usize = from;
    while i < all.len()
        invariant
            from <= i <= all@.len(),
            views(r@) == views(all@).subrange(from as int, i as int),
        decreases all@.len() - i,
    {
        proof {
            lemma_views_push(r@, all@[i as int]);
            assert(views(all@).subrange(from as int, i as int + 1) =~= views(all@).subrange(
                from as int,
                i as int,
            ).push(all@[i as int]@));
        }
        r.push(all[i].clone());
        i += 1;
    }
    assert(views(r@) =~= bottom_lines(text@, n as nat));
    r
}

/// "Allow " stands in the line, and after its first place an upper case letter:
/// the name of the tool that asks.
pub open spec fn names_a_tool(line: Seq<char>) -> bool {
    exists|p: int|
        {
            &&& #[trigger] occurs_at(line, "Allow "@, p)
            &&& forall|q: int| 0 <= q < p ==> !occurs_at(line, "Allow "@, q)
            &&& p + 6 < line.len()
            &&& 'A' <= line[p + 6]
            &&& line[p + 6] <= 'Z'
        }
}

/// A yes and a no stand in the line.
pub open spec fn offers_yes_and_no(line: Seq<char>) -> bool {
    &&& contains_text(line, "Yes"@) || contains_text(line, "yes"@)
    &&& contains_text(line, "No"@) || contains_text(line, "no"@)
}

/// The line begins with the selection cursor.
pub open spec fn has_cursor(line: Seq<char>) -> bool {
    trimmed(line).len() > 0 && trimmed(line)[0] == '\u{276f}'
}

/// The line is the option "Other".
pub open spec fn is_other_option(line: Seq<char>) -> bool {
    begins_with(trimmed(line), "Other"@)
}

/// The bottom of the screen shows a tool-approval dialog.
pub open spec fn permission_prompt(text: Seq<char>) -> bool {
    let b = bottom_lines(text, 20);
    &&& exists|i: int| 0 <= i < b.len() && names_a_tool(#[trigger] b[i])
    &&& exists|j: int| 0 <= j < b.len() && offers_yes_and_no(#[trigger] b[j])
}

/// The bottom of the screen shows a question with selectable answers.
pub open spec fn question_prompt(text: Seq<char>) -> bool {
    let b = bottom_lines(text, 25);
    &&& exists|i: int| 0 <= i < b.len() && has_cursor(#[trigger] b[i])
    &&& exists|j: int| 0 <= j < b.len() && is_other_option(#[trigger] b[j])
}

/// Line `k` is the last one of the list that is not blank.
pub open spec fn is_last_content(b: Seq<Seq<char>>, k: int) -> bool {
    0 <= k < b.len() && !is_blank(b[k]) && forall|i: int|
        k < i < b.len() ==> is_blank(#[trigger] b[i])
}

/// The last line with content begins with the prompt, and neither a question nor
/// an approval dialog stands near it.
pub open spec fn idle_prompt(text: Seq<char>) -> bool {
    let b = bottom_lines(text, 5);
    &&& exists|k: int| #[trigger] is_last_content(b, k) && has_cursor(b[k])
    &&& forall|i: int| 0 <= i < b.len() ==> !is_other_option(#[trigger] b[i])
    &&& forall|i: int| 0 <= i < b.len() ==> !contains_text(#[trigger] b[i], "Allow "@)
}

fn line_names_a_tool(line: &str) -> (r: bool)
    ensures
        r == names_a_tool(line@),
{
    proof {
        reveal_strlit("Allow ");
    }
    match find(line, "Allow ") {
        Some(p) => {
            let v = chars_of(line);
            let total: usize = v.len();
            assert(p + 6 <= total);
            let r = p + 6 < total && 'A' <= v[p + 6] && v[p + 6] <= 'Z';
            assert(names_a_tool(line@) ==> r) by {
                if names_a_tool(line@) {
                    let w = choose|w: int|
                        {
                            &&& #[trigger] occurs_at(line@, "Allow "@, w)
                            &&& forall|q: int| 0 <= q < w ==> !occurs_at(line@, "Allow "@, q)
                            &&& w + 6 < line@.len()
                            &&& 'A' <= line@[w + 6]
                            &&& line@[w + 6] <= 'Z'
                        };
                    assert(w == p);
                }
            }
            r
        },
        None => {
            assert forall|p: int| !occurs_at(line@, "Allow "@, p) by {}
            false
        },
    }
}

fn line_has_cursor(line: &str) -> (r: bool)
    ensures
        r == has_cursor(line@),
{
    let t = chars_of(trim(line).as_str());
    t.len() > 0 && t[0] == '\u{276f}'
}

fn any_names_a_tool(b: &Vec<String>) -> (r: bool)
    ensures
        r <==> exists|i: int| 0 <= i < views(b@).len() && names_a_tool(#[trigger] views(b@)[i]),
{
    let mut i: usize = 0;
    while i < b.len()
        invariant
            i <= b@.len(),
            forall|k: int| 0 <= k < i ==> !names_a_tool(#[trigger] views(b@)[k]),
        decreases b@.len() - i,
    {
        if line_names_a_tool(b[i].as_str()) {
            assert(names_a_tool(views(b@)[i as int]));
            return true;
        }
        i += 1;
    }
    false
}

fn any_offers_yes_and_no(b: &Vec<String>) -> (r: bool)
    ensures
        r <==> exists|i: int| 0 <= i < views(b@).len() && offers_yes_and_no(#[trigger] views(b@)[i]),
{
    let mut i: usize = 0;
    while i < b.len()
        invariant
            i <= b@.len(),
            forall|k: int| 0 <= k < i ==> !offers_yes_and_no(#[trigger] views(b@)[k]),
        decreases b@.len() - i,
    {
        let line = b[i].as_str();
        if (contains(line, "Yes") || contains(line, "yes")) && (contains(line, "No") || contains(
            line,
            "no",
        )) {
            assert(offers_yes_and_no(views(b@)[i as int]));
            return true;
        }
        i += 1;
    }
    false
}

fn any_has_cursor(b: &Vec<String>) -> (r: bool)
    ensures
        r <==> exists|i: int| 0 <= i < views(b@).len() && has_cursor(#[trigger] views(b@)[i]),
{
    let mut i: usize = 0;
    while i < b.len()
        invariant
            i <= b@.len(),
            forall|k: int| 0 <= k < i ==> !has_cursor(#[trigger] views(b@)[k]),
        decreases b@.len() - i,
    {
        if line_has_cursor(b[i].as_str()) {
            assert(has_cursor(views(b@)[i as int]));
            return true;
        }
        i += 1;
    }
    false
}

fn any_other_option(b: &Vec<String>) -> (r: bool)
    ensures
        r <==> exists|i: int| 0 <= i < views(b@).len() && is_other_option(#[trigger] views(b@)[i]),
{
    let mut i: usize = 0;
    while i < b.len()
        invariant
            i <= b@.len(),
            forall|k: int| 0 <= k < i ==> !is_other_option(#[trigger] views(b@)[k]),
        decreases b@.len() - i,
    {
        if starts_with(trim(b[i].as_str()).as_str(), "Other") {
            assert(is_other_option(views(b@)[i as int]));
            return true;
        }
        i += 1;
    }
    false
}

fn any_allow(b: &Vec<String>) -> (r: bool)
    ensures
        r <==> exists|i: int|
            0 <= i < views(b@).len() && contains_text(#[trigger] views(b@)[i], "Allow "@),
{
    let mut i: usize = 0;
    while i < b.len()
        invariant
            i <= b@.len(),
            forall|k: int| 0 <= k < i ==> !contains_text(#[trigger] views(b@)[k], "Allow "@),
        decreases b@.len() - i,
    {
        if contains(b[i].as_str(), "Allow ") {
            assert(contains_text(views(b@)[i as int], "Allow "@));
            return true;
        }
        i += 1;
    }
    false
}

/// `screen_shows_permission_prompt` on the text of the screen.
pub fn text_shows_permission_prompt(contents: &str) -> (r: bool)
    ensures
        r == permission_prompt(contents@),
{
    let b = bottom(contents, 20);
    any_names_a_tool(&b) && any_offers_yes_and_no(&b)
}

/// `screen_shows_question_prompt` on the text of the screen.
pub fn text_shows_question_prompt(contents: &str) -> (r: bool)
    ensures
        r == question_prompt(contents@),
{
    let b = bottom(contents, 25);
    any_has_cursor(&b) && any_other_option(&b)
}

/// `screen_shows_idle_prompt` on the text of the screen.
pub fn text_shows_idle_prompt(contents: &str) -> (r: bool)
    ensures
        r == idle_prompt(contents@),
{
    let b = bottom(contents, 5);
    let ghost lines = views(b@);
    let mut k: usize = b.len();
    while k > 0 && blank(b[k - 1].as_str())
        invariant
            k <= b@.len(),
            lines == views(b@),
            forall|i: int| k <= i < lines.len() ==> is_blank(#[trigger] lines[i]),
        decreases k,
    {
        assert(is_blank(lines[k - 1]));
        k -= 1;
    }
    if k == 0 {
        return false;
    }
    let at: usize = k - 1;
    proof {
        assert(lines[at as int] == b@[at as int]@);
        assert(is_last_content(lines, at as int));
        assert forall|j: int| #[trigger] is_last_content(lines, j) implies j == at by {
            if j < at {
                assert(is_blank(lines[at as int]));
            }
        }
    }
    if !line_has_cursor(b[at].as_str()) {
        return false;
    }
    if any_other_option(&b) {
        return false;
    }
    if any_allow(&b) {
        return false;
    }
    true
}

/// The screen shows a tool-approval dialog ("Allow Bash", "Allow WebFetch") with
/// its interactive options.
///
/// Only the bottom rows count, so that output which merely discusses the word
/// "Allow" is not taken for a dialog.
pub fn screen_shows_permission_prompt(screen: &vt100::Screen) -> (r: bool)
    requires
        is_readable(*screen),
    ensures
        r == permission_prompt(screen_text(*screen)),
{
    let contents = contents_of(screen);
    text_shows_permission_prompt(contents.as_str())
}

/// The screen shows the interactive selector of a question: a selection cursor on
/// an option line, and the option "Other" that every question offers.
pub fn screen_shows_question_prompt(screen: &vt100::Screen) -> (r: bool)
    requires
        is_readable(*screen),
    ensures
        r == question_prompt(screen_text(*screen)),
{
    let contents = contents_of(screen);
    text_shows_question_prompt(contents.as_str())
}

/// The screen shows the bare input prompt: the session waits for its user.
pub fn screen_shows_idle_prompt(screen: &vt100::Screen) -> (r: bool)
    requires
        is_readable(*screen),
    ensures
        r == idle_prompt(screen_text(*screen)),
{
    let contents = contents_of(screen);
    text_shows_idle_prompt(contents.as_str())
}

/// The prompts that a screen shows.
#[derive(Clone, Copy, Debug, PartialEq, Eq, Structural)]
pub struct Prompts {
    pub permission: bool,
    pub question: bool,
    pub idle: bool,
}

/// The prompts that a screen shows; `None` where it cannot be read.
pub fn read_prompts(screen: &vt100::Screen) -> (r: Option<Prompts>)
    ensures
        r == if is_readable(*screen) {
            Some(
                Prompts {
                    permission: permission_prompt(screen_text(*screen)),
                    question: question_prompt(screen_text(*screen)),
                    idle: idle_prompt(screen_text(*screen)),
                },
            )
        } else {
            None
        },
{
    if !can_be_read(screen) {
        return None;
    }
    Some(
        Prompts {
            permission: screen_shows_permission_prompt(screen),
            question: screen_shows_question_prompt(screen),
            idle: screen_shows_idle_prompt(screen),
        },
    )
}

// ---------------------------------------------------------------------------
// What a screen says at the end of a turn
// ---------------------------------------------------------------------------

/// The rows of a screen, without the space around their text.
pub open spec fn trimmed_rows(screen: vt100::Screen, n: nat) -> Seq<Seq<char>> {
    Seq::new(n, |i: int| trimmed(screen_row(screen, i as u16, screen_size(screen).1)))
}

/// The rows that say something, without the last three: those hold the prompt and the
/// status of the agent. A screen of at most four such rows is kept whole.
pub open spec fn told_rows(rows: Seq<Seq<char>>) -> Seq<Seq<char>> {
    let told = rows.filter(|r: Seq<char>| r.len() > 0);
    if told.len() > 4 {
        told.take(told.len() - 3)
    } else {
        told
    }
}

/// What rows of a screen say; `None` for blank ones.
pub open spec fn rows_summary(rows: Seq<Seq<char>>) -> Option<Seq<char>> {
    if told_rows(rows).len() == 0 {
        None
    } else {
        Some(joined(told_rows(rows), "\n"@))
    }
}

/// What rows of a screen say.
pub fn summarize_rows(rows: &Vec<String>) -> (r: Option<String>)
    ensures
        text_option(r) == rows_summary(views(rows@)),
{
    let mut told: Vec<String> = Vec::new();
    let mut i: usize = 0;
    let ghost keep = |r: Seq<char>| r.len() > 0;
    proof {
        reveal(Seq::filter);
        assert(views(rows@).take(0) =~= Seq::<Seq<char>>::empty());
        assert(views(told@) =~= views(rows@).take(0).filter(keep));
    }
    while i < rows.len()
        invariant
            i <= rows@.len(),
            keep == (|r: Seq<char>| r.len() > 0),
            views(told@) == views(rows@).take(i as int).filter(keep),
        decreases rows@.len() - i,
    {
        proof {
            reveal(Seq::filter);
            let next = views(rows@).take(i as int + 1);
            assert(next.drop_last() =~= views(rows@).take(i as int));
            assert(next.last() == rows@[i as int]@);
            lemma_views_push(told@, rows@[i as int]);
        }
        if !rows[i].as_str().is_empty() {
            told.push(rows[i].clone());
        }
        i += 1;
    }
    proof {
        assert(views(rows@).take(i as int) =~= views(rows@));
        assert(views(told@).len() == told@.len());
    }
    let ghost all = views(told@);
    let n: usize = told.len();
    if n > 4 {
        told.truncate(n - 3);
        assert(views(told@) =~= all.take(n - 3));
    }
    proof {
        assert(views(told@).len() == told@.len());
    }
    if told.len() == 0 {
        None
    } else {
        Some(join(&told, "\n"))
    }
}

/// What a screen says at the end of a turn.
pub fn screen_summary(screen: &vt100::Screen) -> (r: Option<String>)
    requires
        is_readable(*screen),
    ensures
        text_option(r) == rows_summary(trimmed_rows(*screen, screen_size(*screen).0 as nat)),
{
    let (count, cols) = size_of(screen);
    let mut rows: Vec<String> = Vec::new();
    let mut i: u16 = 0;
    assert(views(rows@) =~= trimmed_rows(*screen, 0));
    while i < count
        invariant
            i <= count,
            is_readable(*screen),
            cols == screen_size(*screen).1,
            views(rows@) == trimmed_rows(*screen, i as nat),
        decreases count - i,
    {
        let text = trim(row_of(screen, i, cols).as_str());
        proof {
            lemma_views_push(rows@, text);
            assert(trimmed_rows(*screen, i as nat + 1) =~= trimmed_rows(*screen, i as nat).push(
                text@,
            ));
        }
        rows.push(text);
        i += 1;
    }
    summarize_rows(&rows)
}

/// What a screen says at the end of a turn; `None` where it cannot be read.
pub fn read_summary(screen: &vt100::Screen) -> (r: Option<Option<String>>)
    ensures
        r is Some <==> is_readable(*screen),
        r matches Some(told) ==> text_option(told) == rows_summary(
            trimmed_rows(*screen, screen_size(*screen).0 as nat),
        ),
{
    if can_be_read(screen) {
        Some(screen_summary(screen))
    } else {
        None
    }
}

/// The bottom of a screen is made of its last lines: all of them where they are few.
pub proof fn law_the_bottom_is_the_end(text: Seq<char>, n: nat, i: int)
    ensures
        lines_of(text).len() <= n ==> bottom_lines(text, n) == lines_of(text),
        bottom_lines(text, n).len() <= n,
        lines_of(text).len() >= n ==> bottom_lines(text, n).len() == n,
        0 <= i < bottom_lines(text, n).len() ==> bottom_lines(text, n)[i] == lines_of(
            text,
        )[lines_of(text).len() - bottom_lines(text, n).len() + i],
{
}

proof fn lemma_tool_is_named(line: Seq<char>, p: int)
    requires
        occurs_at(line, "Allow "@, p),
        forall|q: int| 0 <= q < p ==> !occurs_at(line, "Allow "@, q),
        p + 6 < line.len(),
    ensures
        names_a_tool(line) == ('A' <= line[p + 6] <= 'Z'),
{
    if names_a_tool(line) {
        let r = choose|r: int|
            {
                &&& #[trigger] occurs_at(line, "Allow "@, r)
                &&& forall|q: int| 0 <= q < r ==> !occurs_at(line, "Allow "@, q)
                &&& r + 6 < line.len()
                &&& 'A' <= line[r + 6]
                &&& line[r + 6] <= 'Z'
            };
        if r < p {
            assert(!occurs_at(line, "Allow "@, r));
        } else if p < r {
            assert(!occurs_at(line, "Allow "@, p));
        }
    }
}

/// A permission prompt is seen where, among the last twenty lines, one asks to allow
/// something whose name begins with a large letter, and one offers a yes and a no.
pub proof fn law_permission_prompts_are_seen(text: Seq<char>, i: int, p: int, j: int)
    requires
        0 <= i < lines_of(text).len(),
        lines_of(text).len() - 20 <= i,
        0 <= j < lines_of(text).len(),
        lines_of(text).len() - 20 <= j,
        occurs_at(lines_of(text)[i], "Allow "@, p),
        forall|q: int| 0 <= q < p ==> !occurs_at(lines_of(text)[i], "Allow "@, q),
        p + 6 < lines_of(text)[i].len(),
        'A' <= lines_of(text)[i][p + 6] <= 'Z',
        contains_text(lines_of(text)[j], "Yes"@) || contains_text(lines_of(text)[j], "yes"@),
        contains_text(lines_of(text)[j], "No"@) || contains_text(lines_of(text)[j], "no"@),
    ensures
        permission_prompt(text),
        !idle_prompt(text) || i < lines_of(text).len() - 5,
{
    let all = lines_of(text);
    let b = bottom_lines(text, 20);
    let off = all.len() - b.len();
    lemma_tool_is_named(all[i], p);
    assert(b[i - off] == all[i]);
    assert(b[j - off] == all[j]);
    let c = bottom_lines(text, 5);
    if i >= all.len() - 5 {
        let m = i - (all.len() - c.len());
        assert(c[m] == all[i]);
        assert(contains_text(c[m], "Allow "@));
    }
}

/// No permission prompt is seen where none of the last twenty lines asks to allow
/// something, or none offers a yes, or none a no.
pub proof fn law_permission_prompts_need_both(text: Seq<char>)
    ensures
        (forall|i: int|
            0 <= i < lines_of(text).len() && lines_of(text).len() - 20 <= i ==> !contains_text(
                #[trigger] lines_of(text)[i],
                "Allow "@,
            )) ==> !permission_prompt(text),
        (forall|i: int|
            0 <= i < lines_of(text).len() && lines_of(text).len() - 20 <= i ==> !contains_text(
                #[trigger] lines_of(text)[i],
                "Yes"@,
            ) && !contains_text(lines_of(text)[i], "yes"@)) ==> !permission_prompt(text),
        (forall|i: int|
            0 <= i < lines_of(text).len() && lines_of(text).len() - 20 <= i ==> !contains_text(
                #[trigger] lines_of(text)[i],
                "No"@,
            ) && !contains_text(lines_of(text)[i], "no"@)) ==> !permission_prompt(text),
{
    let all = lines_of(text);
    let b = bottom_lines(text, 20);
    let off = all.len() - b.len();
    if permission_prompt(text) {
        let i = choose|i: int| 0 <= i < b.len() && names_a_tool(#[trigger] b[i]);
        assert(b[i] == all[i + off]);
        let r = choose|r: int| #[trigger] occurs_at(b[i], "Allow "@, r);
        assert(contains_text(all[i + off], "Allow "@));
        let j = choose|j: int| 0 <= j < b.len() && offers_yes_and_no(#[trigger] b[j]);
        assert(b[j] == all[j + off]);
    }
}

/// A question is seen where, among the last twenty-five lines, one begins with the cursor
/// and one with the option for other answers, each behind any space.
pub proof fn law_questions_are_seen(text: Seq<char>, i: int, j: int)
    requires
        0 <= i < lines_of(text).len(),
        lines_of(text).len() - 25 <= i,
        0 <= j < lines_of(text).len(),
        lines_of(text).len() - 25 <= j,
        begins_with(trimmed(lines_of(text)[i]), seq!['\u{276f}']),
        begins_with(trimmed(lines_of(text)[j]), "Other"@),
    ensures
        question_prompt(text),
        idle_prompt(text) ==> j < lines_of(text).len() - 5,
{
    let all = lines_of(text);
    let b = bottom_lines(text, 25);
    let off = all.len() - b.len();
    let t = trimmed(all[i]);
    assert(t.take(1)[0] == '\u{276f}');
    assert(b[i - off] == all[i]);
    assert(b[j - off] == all[j]);
    let c = bottom_lines(text, 5);
    if j >= all.len() - 5 {
        let m = j - (all.len() - c.len());
        assert(c[m] == all[j]);
        assert(is_other_option(c[m]));
    }
}

/// An agent waits at its prompt where the last line with content, among the last five,
/// begins with the cursor and none of the five asks anything. A last line with other
/// content is no prompt.
pub proof fn law_idle_prompts_are_seen(text: Seq<char>, i: int)
    requires
        0 <= i < lines_of(text).len(),
        lines_of(text).len() - 5 <= i,
        !is_blank(lines_of(text)[i]),
        forall|k: int| i < k < lines_of(text).len() ==> is_blank(#[trigger] lines_of(text)[k]),
    ensures
        begins_with(trimmed(lines_of(text)[i]), seq!['\u{276f}']) && (forall|k: int|
            0 <= k < lines_of(text).len() && lines_of(text).len() - 5 <= k ==> !begins_with(
                trimmed(#[trigger] lines_of(text)[k]),
                "Other"@,
            ) && !contains_text(lines_of(text)[k], "Allow "@)) ==> idle_prompt(text),
        !begins_with(trimmed(lines_of(text)[i]), seq!['\u{276f}']) ==> !idle_prompt(text),
{
    let all = lines_of(text);
    let b = bottom_lines(text, 5);
    let off = all.len() - b.len();
    let m = i - off;
    assert(b[m] == all[i]);
    assert forall|k: int| m < k < b.len() implies is_blank(#[trigger] b[k]) by {
        assert(b[k] == all[k + off]);
    }
    assert(is_last_content(b, m));
    let t = trimmed(all[i]);
    if begins_with(t, seq!['\u{276f}']) {
        assert(t.take(1)[0] == '\u{276f}');
        if forall|k: int|
            0 <= k < all.len() && all.len() - 5 <= k ==> !begins_with(
                trimmed(#[trigger] all[k]),
                "Other"@,
            ) && !contains_text(all[k], "Allow "@) {
            assert forall|k: int| 0 <= k < b.len() implies !is_other_option(
                #[trigger] b[k],
            ) && !contains_text(b[k], "Allow "@) by {
                assert(b[k] == all[k + off]);
            }
        }
    } else if idle_prompt(text) {
        let k = choose|k: int| #[trigger] is_last_content(b, k) && has_cursor(b[k]);
        assert(k == m) by {
            if k < m {
                assert(is_blank(b[m]));
            } else if m < k {
                assert(is_blank(b[k]));
            }
        }
        assert(t.take(1) =~= seq!['\u{276f}']);
    }
}

/// The rows that tell what a terminal shows are those with content, in their order; of more
/// than four the last three, where the prompt stands, are left out.
pub proof fn law_the_told_rows(rows: Seq<Seq<char>>, k: int)
    requires
        0 <= k < rows.len(),
        rows[k].len() > 0,
    ensures
        rows.filter(|r: Seq<char>| r.len() > 0).len() <= 4 ==> told_rows(rows).contains(rows[k])
            && (rows_summary(rows) matches Some(s) && contains_text(s, rows[k])),
        rows_summary(rows) is Some,
        rows.filter(|r: Seq<char>| r.len() > 0).len() > 4 ==> told_rows(rows).len() + 3
            == rows.filter(|r: Seq<char>| r.len() > 0).len(),
{
    let p = |r: Seq<char>| r.len() > 0;
    lemma_row_kept(rows, p, k);
    let told = rows.filter(p);
    if told.len() <= 4 {
        let m = choose|m: int| 0 <= m < told.len() && told[m] == rows[k];
        crate::text::law_joining_keeps_every_part(told, "\n"@, m);
    }
}

proof fn lemma_row_kept(rows: Seq<Seq<char>>, p: spec_fn(Seq<char>) -> bool, k: int)
    requires
        0 <= k < rows.len(),
        p(rows[k]),
    ensures
        rows.filter(p).contains(rows[k]),
    decreases rows.len(),
{
    reveal(Seq::filter);
    let rest = rows.drop_last();
    if k < rows.len() - 1 {
        lemma_row_kept(rest, p, k);
        let m = choose|m: int| 0 <= m < rest.filter(p).len() && rest.filter(p)[m] == rest[k];
        assert(rows.filter(p)[m] == rows[k]);
    } else {
        assert(rows.filter(p)[rows.filter(p).len() - 1] == rows[k]);
    }
}

/// A terminal without content tells nothing.
pub proof fn law_empty_rows_tell_nothing(rows: Seq<Seq<char>>)
    requires
        forall|k: int| 0 <= k < rows.len() ==> (#[trigger] rows[k]).len() == 0,
    ensures
        rows_summary(rows) is None,
    decreases rows.len(),
{
    let p = |r: Seq<char>| r.len() > 0;
    lemma_no_row_kept(rows, p);
}

proof fn lemma_no_row_kept(rows: Seq<Seq<char>>, p: spec_fn(Seq<char>) -> bool)
    requires
        forall|k: int| 0 <= k < rows.len() ==> !p(#[trigger] rows[k]),
    ensures
        rows.filter(p).len() == 0,
    decreases rows.len(),
{
    reveal(Seq::filter);
    if rows.len() > 0 {
        assert(!p(rows[rows.len() - 1]));
        assert forall|k: int| 0 <= k < rows.drop_last().len() implies !p(
            #[trigger] rows.drop_last()[k],
        ) by {
            assert(rows.drop_last()[k] == rows[k]);
        }
        lemma_no_row_kept(rows.drop_last(), p);
    }
}

/// A screen can be read where it is not scrolled back beyond its rows and its columns can be
/// counted.
pub proof fn law_readable_screens(screen: vt100::Screen)
    ensures
        screen_scrollback(screen) > screen_size(screen).0 ==> !is_readable(screen),
        screen_size(screen).1 == u16::MAX ==> !is_readable(screen),
        screen_scrollback(screen) == 0 && screen_size(screen).1 < u16::MAX ==> is_readable(screen),
{
}

/// The rows of a screen are read from the first one on, over all its columns, without the
/// space around them.
pub proof fn law_rows_are_read_whole(screen: vt100::Screen, n: nat, i: int)
    requires
        0 <= i < n <= u16::MAX,
    ensures
        trimmed_rows(screen, n).len() == n,
        trimmed_rows(screen, n)[i] == trimmed(
            screen_row(screen, i as u16, screen_size(screen).1),
        ),
{
}

/// There is no question where no line of the last twenty-five begins with the cursor, or
/// none with the option for other answers.
pub proof fn law_questions_need_both(text: Seq<char>)
    ensures
        (forall|i: int|
            0 <= i < lines_of(text).len() && lines_of(text).len() - 25 <= i ==> !begins_with(
                trimmed(#[trigger] lines_of(text)[i]),
                seq!['\u{276f}'],
            )) ==> !question_prompt(text),
        (forall|i: int|
            0 <= i < lines_of(text).len() && lines_of(text).len() - 25 <= i ==> !begins_with(
                trimmed(#[trigger] lines_of(text)[i]),
                "Other"@,
            )) ==> !question_prompt(text),
{
    let all = lines_of(text);
    let b = bottom_lines(text, 25);
    let off = all.len() - b.len();
    if question_prompt(text) {
        let i = choose|i: int| 0 <= i < b.len() && has_cursor(#[trigger] b[i]);
        assert(b[i] == all[i + off]);
        assert(trimmed(b[i]).take(1) =~= seq!['\u{276f}']);
        let j = choose|j: int| 0 <= j < b.len() && is_other_option(#[trigger] b[j]);
        assert(b[j] == all[j + off]);
    }
}

} // verus!
