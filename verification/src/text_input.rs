//! A line of text with a cursor, and the keys that edit it.
//!
//! The cursor is a byte offset. Its model is the offset together with the texts before
//! and after it: a cursor that lies past the end, or inside a character, stands for the
//! nearest character boundary below it until the next edit puts it there.

use vstd::prelude::*;
use vstd::string::*;

use crate::keys::{KeyCode, KeyModifiers};
use crate::text::{
    byte_len, bytes_in, char_is_space, char_width, chars_of, is_space, lemma_byte_len_concat,
    text_between, width_of,
};

verus! {

/// The text before and after the cursor, and the cursor's byte offset.
pub struct LineView {
    pub before: Seq<char>,
    pub after: Seq<char>,
    pub cursor: nat,
}

impl LineView {
    pub open spec fn text(self) -> Seq<char> {
        self.before + self.after
    }
}

/// Two texts with the cursor between them.
pub open spec fn placed(before: Seq<char>, after: Seq<char>) -> LineView {
    LineView { before, after, cursor: byte_len(before) }
}

/// The line with its cursor on the boundary that it stands for.
pub open spec fn settled(v: LineView) -> LineView {
    placed(v.before, v.after)
}

/// A text with the cursor at its end.
pub open spec fn line_at_end(s: Seq<char>) -> LineView {
    placed(s, seq![])
}

/// The line holds a text, and its cursor stands at the end.
pub open spec fn at_end(line: TextInput, s: Seq<char>) -> bool {
    &&& line.text@ == s
    &&& line.cursor == byte_len(s)
    &&& line@ == line_at_end(s)
}

/// The line without its text; the offset of the cursor stays.
pub open spec fn emptied(v: LineView) -> LineView {
    LineView { before: seq![], after: seq![], cursor: v.cursor }
}

pub struct TextInput {
    pub text: String,
    pub cursor: usize,
}

/// How many characters of `s` fit in `limit` bytes.
pub open spec fn chars_within(s: Seq<char>, limit: int) -> nat
    decreases s.len(),
{
    if s.len() == 0 || char_width(s[0]) > limit {
        0
    } else {
        1 + chars_within(s.drop_first(), limit - char_width(s[0]))
    }
}

pub proof fn lemma_chars_within_bound(s: Seq<char>, limit: int)
    ensures
        chars_within(s, limit) <= s.len(),
    decreases s.len(),
{
    if s.len() > 0 && char_width(s[0]) <= limit {
        lemma_chars_within_bound(s.drop_first(), limit - char_width(s[0]));
    }
}

/// The characters that fit are the longest prefix of at most `limit` bytes.
pub proof fn lemma_chars_within_longest(s: Seq<char>, limit: int)
    requires
        limit >= 0,
    ensures
        chars_within(s, limit) <= s.len(),
        byte_len(s.take(chars_within(s, limit) as int)) <= limit,
        forall|k: int| chars_within(s, limit) < k <= s.len() ==> byte_len(s.take(k)) > limit,
    decreases s.len(),
{
    lemma_chars_within_bound(s, limit);
    let n = chars_within(s, limit) as int;
    if s.len() == 0 {
    } else if char_width(s[0]) > limit {
        assert forall|k: int| n < k <= s.len() implies byte_len(s.take(k)) > limit by {
            assert(s.take(k)[0] == s[0]);
        }
    } else {
        let rest = s.drop_first();
        lemma_chars_within_longest(rest, limit - char_width(s[0]));
        assert(s.take(n).drop_first() =~= rest.take(n - 1));
        assert forall|k: int| n < k <= s.len() implies byte_len(s.take(k)) > limit by {
            assert(s.take(k).drop_first() =~= rest.take(k - 1));
            assert(s.take(k)[0] == s[0]);
        }
    }
}

/// All of `b` fits in its own bytes, and nothing behind it.
proof fn lemma_chars_within_concat(b: Seq<char>, a: Seq<char>)
    ensures
        chars_within(b + a, byte_len(b) as int) == b.len(),
    decreases b.len(),
{
    if b.len() == 0 {
        assert(b + a =~= a);
    } else {
        lemma_chars_within_concat(b.drop_first(), a);
        assert((b + a).drop_first() =~= b.drop_first() + a);
        assert((b + a)[0] == b[0]);
    }
}

impl View for TextInput {
    type V = LineView;

    open spec fn view(&self) -> LineView {
        let k = chars_within(self.text@, self.cursor as int) as int;
        LineView {
            before: self.text@.take(k),
            after: self.text@.skip(k),
            cursor: self.cursor as nat,
        }
    }
}

/// The text before the last word of `s`, white space behind the word included in
/// what is left out.
pub open spec fn word_head(s: Seq<char>) -> Seq<char>
    decreases s.len(),
{
    if s.len() > 0 && is_space(s.last()) {
        word_head(s.drop_last())
    } else {
        letters_head(s)
    }
}

pub open spec fn letters_head(s: Seq<char>) -> Seq<char>
    decreases s.len(),
{
    if s.len() > 0 && !is_space(s.last()) {
        letters_head(s.drop_last())
    } else {
        s
    }
}

/// The length of the first word of `s` together with the white space behind it.
pub open spec fn word_step(s: Seq<char>) -> nat
    decreases s.len(),
{
    if s.len() > 0 && !is_space(s[0]) {
        1 + word_step(s.drop_first())
    } else {
        space_run(s)
    }
}

pub open spec fn space_run(s: Seq<char>) -> nat
    decreases s.len(),
{
    if s.len() > 0 && is_space(s[0]) {
        1 + space_run(s.drop_first())
    } else {
        0
    }
}

proof fn lemma_heads(s: Seq<char>)
    ensures
        word_head(s).len() <= s.len(),
        word_head(s) == s.take(word_head(s).len() as int),
        letters_head(s).len() <= s.len(),
        letters_head(s) == s.take(letters_head(s).len() as int),
    decreases s.len(),
{
    assert(s.take(s.len() as int) =~= s);
    if s.len() > 0 {
        lemma_heads(s.drop_last());
        let w = word_head(s.drop_last()).len() as int;
        let l = letters_head(s.drop_last()).len() as int;
        assert(s.drop_last().take(w) =~= s.take(w));
        assert(s.drop_last().take(l) =~= s.take(l));
    }
}

proof fn lemma_word_step(s: Seq<char>)
    ensures
        word_step(s) <= s.len(),
        space_run(s) <= s.len(),
    decreases s.len(),
{
    if s.len() > 0 {
        lemma_word_step(s.drop_first());
    }
}

/// A character that is typed, not a command: no modifier but shift.
pub open spec fn is_plain(m: KeyModifiers) -> bool {
    !m.control && !m.alt && !m.super_key && !m.hyper && !m.meta
}

pub open spec fn only_alt(m: KeyModifiers) -> bool {
    m == (KeyModifiers { alt: true, ..KeyModifiers::none() })
}

pub open spec fn only_super(m: KeyModifiers) -> bool {
    m == (KeyModifiers { super_key: true, ..KeyModifiers::none() })
}

/// Where the word before the cursor begins.
pub open spec fn word_left(v: LineView) -> LineView {
    let head = word_head(v.before);
    placed(head, v.before.skip(head.len() as int) + v.after)
}

/// Where the word after the next one begins.
pub open spec fn word_right(v: LineView) -> LineView {
    let n = word_step(v.after) as int;
    placed(v.before + v.after.take(n), v.after.skip(n))
}

/// Delete the word before the cursor.
pub open spec fn delete_word(v: LineView) -> LineView {
    placed(word_head(v.before), v.after)
}

/// What a key does to the line; `None` for a key that is not an editing key.
pub open spec fn edited(v: LineView, code: KeyCode, m: KeyModifiers) -> Option<LineView> {
    match code {
        KeyCode::Char(c) => if is_plain(m) {
            Some(placed(v.before.push(c), v.after))
        } else if only_alt(m) && c == 'b' {
            Some(word_left(v))
        } else if only_alt(m) && c == 'f' {
            Some(word_right(v))
        } else if m == KeyModifiers::control() && c == 'w' {
            Some(delete_word(v))
        } else {
            None
        },
        KeyCode::Backspace => if only_alt(m) {
            Some(delete_word(v))
        } else if only_super(m) {
            Some(placed(seq![], v.after))
        } else if v.before.len() > 0 {
            Some(placed(v.before.drop_last(), v.after))
        } else {
            Some(settled(v))
        },
        KeyCode::Delete => if v.after.len() > 0 {
            Some(placed(v.before, v.after.drop_first()))
        } else {
            Some(settled(v))
        },
        KeyCode::Left => if only_alt(m) {
            Some(word_left(v))
        } else if v.before.len() > 0 {
            Some(placed(v.before.drop_last(), seq![v.before.last()] + v.after))
        } else {
            Some(settled(v))
        },
        KeyCode::Right => if only_alt(m) {
            Some(word_right(v))
        } else if v.after.len() > 0 {
            Some(placed(v.before.push(v.after[0]), v.after.drop_first()))
        } else {
            Some(settled(v))
        },
        KeyCode::Home => Some(placed(seq![], v.before + v.after)),
        KeyCode::End => Some(placed(v.before + v.after, seq![])),
        _ => None,
    }
}

/// The line after a key, the same where it is not an editing key.
pub open spec fn after_edit(v: LineView, code: KeyCode, m: KeyModifiers) -> LineView {
    match edited(v, code, m) {
        Some(w) => w,
        None => v,
    }
}

/// The line after a text was inserted at the cursor.
pub open spec fn inserted(v: LineView, s: Seq<char>) -> LineView {
    placed(v.before + s, v.after)
}

impl TextInput {
    pub fn new() -> (r: TextInput)
        ensures
            at_end(r, seq![]),
            r.text@.len() == 0,
            r.cursor == 0,
    {
        let r = TextInput { text: String::new(), cursor: 0 };
        assert(r@.before =~= Seq::<char>::empty());
        assert(r@.after =~= Seq::<char>::empty());
        r
    }

    /// A text with the cursor at its end.
    pub fn holding(text: String) -> (r: TextInput)
        ensures
            at_end(r, text@),
            r.text == text,
    {
        let cursor: usize = bytes_in(text.as_str());
        let r = TextInput { text, cursor };
        proof {
            lemma_chars_within_concat(text@, seq![]);
            assert(text@ + Seq::<char>::empty() =~= text@);
            assert(r@.before =~= text@);
            assert(r@.after =~= Seq::<char>::empty());
        }
        r
    }

    /// The line made of two texts, with the cursor between them.
    pub fn between(before: String, after: String) -> (r: TextInput)
        ensures
            r@ == placed(before@, after@),
            r.text@ == before@ + after@,
            r.cursor == byte_len(before@),
    {
        let cursor: usize = bytes_in(before.as_str());
        let ghost b = before@;
        let text = before.concat(after.as_str());
        let r = TextInput { text, cursor };
        proof {
            lemma_chars_within_concat(b, after@);
            assert(r@.before =~= b);
            assert(r@.after =~= after@);
        }
        r
    }

    /// The cursor in characters.
    fn at(&self, v: &Vec<char>) -> (k: usize)
        requires
            v@ == self.text@,
        ensures
            k == chars_within(self.text@, self.cursor as int),
            k <= v@.len(),
    {
        let mut k: usize = 0;
        let mut left: usize = self.cursor;
        assert(v@.skip(0) =~= v@);
        while k < v.len() && width_of(v[k]) <= left
            invariant
                v@ == self.text@,
                k <= v@.len(),
                chars_within(self.text@, self.cursor as int) == k + chars_within(
                    v@.skip(k as int),
                    left as int,
                ),
            decreases v@.len() - k,
        {
            assert(v@.skip(k as int).drop_first() =~= v@.skip(k as int + 1));
            left = left - width_of(v[k]);
            k += 1;
        }
        k
    }

    /// Take the text away; the offset of the cursor stays.
    pub fn clear_text(&mut self)
        ensures
            final(self)@ == emptied(old(self)@),
            final(self).text@ == Seq::<char>::empty(),
            final(self).cursor == old(self).cursor,
    {
        self.text = String::new();
        assert(self@.before =~= Seq::<char>::empty());
        assert(self@.after =~= Seq::<char>::empty());
    }

    /// The character in front of the cursor.
    pub fn char_before_cursor(&self) -> (r: Option<char>)
        ensures
            r == if self@.before.len() > 0 {
                Some(self@.before.last())
            } else {
                None
            },
    {
        let v = chars_of(self.text.as_str());
        let k: usize = self.at(&v);
        if k > 0 {
            Some(v[k - 1])
        } else {
            None
        }
    }

    /// Insert a text at the cursor.
    pub fn insert_text(&mut self, s: &str)
        ensures
            final(self)@ == inserted(old(self)@, s@),
    {
        let v = chars_of(self.text.as_str());
        let k: usize = self.at(&v);
        let mut before = text_between(&v, 0, k);
        let after = text_between(&v, k, v.len());
        proof {
            assert(v@.subrange(0, k as int) =~= v@.take(k as int));
            assert(v@.subrange(k as int, v@.len() as int) =~= v@.skip(k as int));
        }
        before.append(s);
        *self = TextInput::between(before, after);
    }

    fn replace(&mut self, v: &Vec<char>, keep: usize, from: usize)
        requires
            keep <= from <= v@.len(),
        ensures
            final(self)@ == placed(v@.take(keep as int), v@.skip(from as int)),
    {
        let before = text_between(v, 0, keep);
        let after = text_between(v, from, v.len());
        proof {
            assert(v@.subrange(0, keep as int) =~= v@.take(keep as int));
            assert(v@.subrange(from as int, v@.len() as int) =~= v@.skip(from as int));
        }
        *self = TextInput::between(before, after);
    }

    /// Apply an editing key. The result says whether the key was one.
    #[verifier::rlimit(40)]
    pub fn apply_text_edit(&mut self, code: KeyCode, modifiers: KeyModifiers) -> (r: bool)
        ensures
            r == edited(old(self)@, code, modifiers) is Some,
            final(self)@ == after_edit(old(self)@, code, modifiers),
            !r ==> *final(self) == *old(self),
    {
        let v = chars_of(self.text.as_str());
        let total: usize = v.len();
        let k: usize = self.at(&v);
        let ghost view = self@;
        let plain = !modifiers.control && !modifiers.alt && !modifiers.super_key
            && !modifiers.hyper && !modifiers.meta;
        let alt = modifiers == KeyModifiers {
            shift: false,
            control: false,
            alt: true,
            super_key: false,
            hyper: false,
            meta: false,
        };
        let command = modifiers == KeyModifiers {
            shift: false,
            control: false,
            alt: false,
            super_key: true,
            hyper: false,
            meta: false,
        };
        match code {
            KeyCode::Char(c) => if plain {
                let mut s = String::new();
                s.push(c);
                self.insert_text(s.as_str());
                assert(view.before + s@ =~= view.before.push(c));
                true
            } else if alt && c == 'b' {
                let w: usize = word_start(&v, k);
                self.replace(&v, w, w);
                assert(v@.skip(w as int) =~= v@.take(k as int).skip(w as int) + v@.skip(k as int));
                true
            } else if alt && c == 'f' {
                let w: usize = word_end(&v, k);
                self.replace(&v, w, w);
                assert(v@.take(w as int) =~= v@.take(k as int) + v@.skip(k as int).take(w - k));
                assert(v@.skip(w as int) =~= v@.skip(k as int).skip(w - k));
                true
            } else if modifiers == KeyModifiers::control() && c == 'w' {
                let w: usize = word_start(&v, k);
                self.replace(&v, w, k);
                true
            } else {
                false
            },
            KeyCode::Backspace => {
                if alt {
                    let w: usize = word_start(&v, k);
                    self.replace(&v, w, k);
                } else if command {
                    self.replace(&v, 0, k);
                    assert(v@.take(0) =~= Seq::<char>::empty());
                } else if k > 0 {
                    self.replace(&v, k - 1, k);
                    assert(v@.take(k - 1) =~= view.before.drop_last());
                } else {
                    self.replace(&v, k, k);
                }
                true
            },
            KeyCode::Delete => {
                if k < total {
                    self.replace(&v, k, k + 1);
                    assert(v@.skip(k + 1) =~= view.after.drop_first());
                } else {
                    self.replace(&v, k, k);
                }
                true
            },
            KeyCode::Left => {
                if alt {
                    let w: usize = word_start(&v, k);
                    self.replace(&v, w, w);
                    assert(v@.skip(w as int) =~= v@.take(k as int).skip(w as int) + v@.skip(
                        k as int,
                    ));
                } else if k > 0 {
                    self.replace(&v, k - 1, k - 1);
                    assert(v@.take(k - 1) =~= view.before.drop_last());
                    assert(v@.skip(k - 1) =~= seq![view.before.last()] + view.after);
                } else {
                    self.replace(&v, k, k);
                }
                true
            },
            KeyCode::Right => {
                if alt {
                    let w: usize = word_end(&v, k);
                    self.replace(&v, w, w);
                    assert(v@.take(w as int) =~= v@.take(k as int) + v@.skip(k as int).take(w - k));
                    assert(v@.skip(w as int) =~= v@.skip(k as int).skip(w - k));
                } else if k < total {
                    self.replace(&v, k + 1, k + 1);
                    assert(v@.take(k + 1) =~= view.before.push(view.after[0]));
                    assert(v@.skip(k + 1) =~= view.after.drop_first());
                } else {
                    self.replace(&v, k, k);
                }
                true
            },
            KeyCode::Home => {
                self.replace(&v, 0, 0);
                assert(v@.take(0) =~= Seq::<char>::empty());
                assert(v@.skip(0) =~= view.before + view.after);
                true
            },
            KeyCode::End => {
                self.replace(&v, total, total);
                assert(v@.take(total as int) =~= view.before + view.after);
                assert(v@.skip(total as int) =~= Seq::<char>::empty());
                true
            },
            _ => false,
        }
    }
}

/// Where the word in front of place `k` begins.
fn word_start(v: &Vec<char>, k: usize) -> (w: usize)
    requires
        k <= v@.len(),
    ensures
        w <= k,
        v@.take(w as int) == word_head(v@.take(k as int)),
{
    let mut w: usize = k;
    while w > 0 && char_is_space(v[w - 1])
        invariant
            w <= k <= v@.len(),
            word_head(v@.take(w as int)) == word_head(v@.take(k as int)),
        decreases w,
    {
        assert(v@.take(w as int).drop_last() =~= v@.take(w as int - 1));
        w -= 1;
    }
    assert(word_head(v@.take(w as int)) == letters_head(v@.take(w as int)));
    while w > 0 && !char_is_space(v[w - 1])
        invariant
            w <= k <= v@.len(),
            letters_head(v@.take(w as int)) == word_head(v@.take(k as int)),
        decreases w,
    {
        assert(v@.take(w as int).drop_last() =~= v@.take(w as int - 1));
        w -= 1;
    }
    w
}

/// Where the word behind the one at place `k` begins.
fn word_end(v: &Vec<char>, k: usize) -> (w: usize)
    requires
        k <= v@.len(),
    ensures
        k <= w <= v@.len(),
        w - k == word_step(v@.skip(k as int)),
{
    let mut w: usize = k;
    while w < v.len() && !char_is_space(v[w])
        invariant
            k <= w <= v@.len(),
            word_step(v@.skip(k as int)) == (w - k) + word_step(v@.skip(w as int)),
        decreases v@.len() - w,
    {
        assert(v@.skip(w as int).drop_first() =~= v@.skip(w as int + 1));
        w += 1;
    }
    assert(word_step(v@.skip(w as int)) == space_run(v@.skip(w as int)));
    while w < v.len() && char_is_space(v[w])
        invariant
            k <= w <= v@.len(),
            word_step(v@.skip(k as int)) == (w - k) + space_run(v@.skip(w as int)),
        decreases v@.len() - w,
    {
        assert(v@.skip(w as int).drop_first() =~= v@.skip(w as int + 1));
        w += 1;
    }
    w
}

/// Typing a character and deleting it with backspace restores the line, with its cursor on
/// a boundary.
pub proof fn law_backspace_undoes_typing(v: LineView, c: char, m: KeyModifiers)
    requires
        is_plain(m),
    ensures
        after_edit(
            after_edit(v, KeyCode::Char(c), m),
            KeyCode::Backspace,
            KeyModifiers::none(),
        ) == settled(v),
{
    assert(v.before.push(c).drop_last() =~= v.before);
}

/// Moving the cursor never changes the text.
pub proof fn law_moves_keep_the_text(v: LineView, code: KeyCode, m: KeyModifiers)
    requires
        code == KeyCode::Left || code == KeyCode::Right || code == KeyCode::Home || code
            == KeyCode::End,
    ensures
        after_edit(v, code, m).text() == v.text(),
{
    lemma_heads(v.before);
    lemma_word_step(v.after);
    let head = word_head(v.before).len() as int;
    let n = word_step(v.after) as int;
    assert(v.before.take(head) + (v.before.skip(head) + v.after) =~= v.text());
    assert((v.before + v.after.take(n)) + v.after.skip(n) =~= v.text());
    assert(after_edit(v, code, m).text() =~= v.text());
}

/// A step to the left and one to the right return to the same place.
pub proof fn law_left_then_right(v: LineView)
    requires
        v.before.len() > 0,
    ensures
        after_edit(
            after_edit(v, KeyCode::Left, KeyModifiers::none()),
            KeyCode::Right,
            KeyModifiers::none(),
        ) == settled(v),
{
    let w = after_edit(v, KeyCode::Left, KeyModifiers::none());
    let x = after_edit(w, KeyCode::Right, KeyModifiers::none());
    assert(x.before =~= v.before);
    assert(x.after =~= v.after);
}

/// An editing key leaves the cursor on a boundary inside the text.
pub proof fn law_edits_settle_the_cursor(v: LineView, code: KeyCode, m: KeyModifiers)
    requires
        edited(v, code, m) is Some,
    ensures
        after_edit(v, code, m).cursor == byte_len(after_edit(v, code, m).before),
        after_edit(v, code, m).cursor <= byte_len(after_edit(v, code, m).text()),
{
    let w = after_edit(v, code, m);
    lemma_byte_len_concat(w.before, w.after);
}

/// A typed character stands at the cursor, and the cursor behind it. What stood before and
/// behind stays.
pub proof fn law_typing_inserts_at_the_cursor(v: LineView, c: char, m: KeyModifiers)
    requires
        !m.control && !m.alt && !m.super_key && !m.hyper && !m.meta,
    ensures
        after_edit(v, KeyCode::Char(c), m).text() =~= v.before + seq![c] + v.after,
        after_edit(v, KeyCode::Char(c), m).before.len() == v.before.len() + 1,
        after_edit(v, KeyCode::Char(c), m).after == v.after,
{
}

/// Backspace takes the character before the cursor, delete the one behind it; at an end
/// they take nothing.
pub proof fn law_deletions_take_one_character(v: LineView)
    ensures
        v.before.len() > 0 ==> after_edit(v, KeyCode::Backspace, KeyModifiers::none()).text()
            =~= v.before.drop_last() + v.after,
        v.before.len() == 0 ==> after_edit(v, KeyCode::Backspace, KeyModifiers::none()).text()
            == v.text(),
        v.after.len() > 0 ==> after_edit(v, KeyCode::Delete, KeyModifiers::none()).text()
            =~= v.before + v.after.drop_first(),
        v.after.len() > 0 ==> after_edit(v, KeyCode::Delete, KeyModifiers::none()).before
            == v.before,
        v.after.len() == 0 ==> after_edit(v, KeyCode::Delete, KeyModifiers::none()).text()
            == v.text(),
{
}

/// Left and right move the cursor by one character, home and end to the ends.
pub proof fn law_arrows_move_by_one(v: LineView)
    ensures
        v.before.len() > 0 ==> after_edit(v, KeyCode::Left, KeyModifiers::none()).before.len() + 1
            == v.before.len(),
        v.after.len() > 0 ==> after_edit(v, KeyCode::Right, KeyModifiers::none()).before.len()
            == v.before.len() + 1,
        after_edit(v, KeyCode::Home, KeyModifiers::none()).before.len() == 0,
        after_edit(v, KeyCode::End, KeyModifiers::none()).after.len() == 0,
{
}

/// The keys that delete a word take the word before the cursor and the space behind that
/// word, and nothing in front of the word.
pub proof fn law_a_word_is_deleted_at_once(
    head: Seq<char>,
    word: Seq<char>,
    space: Seq<char>,
    after: Seq<char>,
    cursor: nat,
)
    requires
        head.len() > 0 ==> is_space(head.last()),
        word.len() > 0,
        forall|i: int| 0 <= i < word.len() ==> !is_space(#[trigger] word[i]),
        forall|i: int| 0 <= i < space.len() ==> is_space(#[trigger] space[i]),
    ensures
        ({
            let v = LineView { before: head + word + space, after, cursor };
            let control = KeyModifiers::control();
            let alt = KeyModifiers { alt: true, ..KeyModifiers::none() };
            &&& after_edit(v, KeyCode::Char('w'), control).before == head
            &&& after_edit(v, KeyCode::Char('w'), control).after == after
            &&& after_edit(v, KeyCode::Backspace, alt).before == head
            &&& after_edit(v, KeyCode::Backspace, alt).after == after
            &&& after_edit(v, KeyCode::Char('b'), alt).before == head
            &&& after_edit(v, KeyCode::Char('b'), alt).after =~= word + space + after
            &&& after_edit(v, KeyCode::Left, alt).before == head
        }),
{
    lemma_word_head(head, word, space);
    assert((head + word + space).skip(head.len() as int) =~= word + space);
}

proof fn lemma_word_head(head: Seq<char>, word: Seq<char>, space: Seq<char>)
    requires
        head.len() > 0 ==> is_space(head.last()),
        word.len() > 0,
        forall|i: int| 0 <= i < word.len() ==> !is_space(#[trigger] word[i]),
        forall|i: int| 0 <= i < space.len() ==> is_space(#[trigger] space[i]),
    ensures
        word_head(head + word + space) == head,
    decreases space.len(),
{
    let all = head + word + space;
    if space.len() > 0 {
        assert(is_space(space[space.len() - 1]));
        assert(all.last() == space.last());
        assert(all.drop_last() =~= head + word + space.drop_last());
        lemma_word_head(head, word, space.drop_last());
    } else {
        assert(all =~= head + word);
        assert(!is_space(word[word.len() - 1]));
        lemma_letters_head(head, word);
    }
}

proof fn lemma_letters_head(head: Seq<char>, word: Seq<char>)
    requires
        head.len() > 0 ==> is_space(head.last()),
        forall|i: int| 0 <= i < word.len() ==> !is_space(#[trigger] word[i]),
    ensures
        letters_head(head + word) == head,
    decreases word.len(),
{
    let all = head + word;
    if word.len() > 0 {
        assert(!is_space(word[word.len() - 1]));
        assert(all.last() == word.last());
        assert(all.drop_last() =~= head + word.drop_last());
        lemma_letters_head(head, word.drop_last());
    } else {
        assert(all =~= head);
    }
}

/// The keys that move on by a word pass the rest of the word at the cursor and the space
/// behind it.
pub proof fn law_a_word_is_passed_at_once(
    before: Seq<char>,
    word: Seq<char>,
    space: Seq<char>,
    rest: Seq<char>,
    cursor: nat,
)
    requires
        forall|i: int| 0 <= i < word.len() ==> !is_space(#[trigger] word[i]),
        forall|i: int| 0 <= i < space.len() ==> is_space(#[trigger] space[i]),
        rest.len() > 0 ==> !is_space(rest[0]),
        space.len() > 0 || rest.len() == 0,
    ensures
        ({
            let v = LineView { before, after: word + space + rest, cursor };
            let alt = KeyModifiers { alt: true, ..KeyModifiers::none() };
            &&& after_edit(v, KeyCode::Char('f'), alt).before =~= before + word + space
            &&& after_edit(v, KeyCode::Char('f'), alt).after =~= rest
            &&& after_edit(v, KeyCode::Right, alt).after =~= rest
        }),
{
    let all = word + space + rest;
    lemma_word_passed(word, space, rest);
    let n = (word.len() + space.len()) as int;
    assert(all.take(n) =~= word + space);
    assert(all.skip(n) =~= rest);
}

proof fn lemma_word_passed(word: Seq<char>, space: Seq<char>, rest: Seq<char>)
    requires
        forall|i: int| 0 <= i < word.len() ==> !is_space(#[trigger] word[i]),
        forall|i: int| 0 <= i < space.len() ==> is_space(#[trigger] space[i]),
        rest.len() > 0 ==> !is_space(rest[0]),
        space.len() > 0 || rest.len() == 0,
    ensures
        word_step(word + space + rest) == word.len() + space.len(),
    decreases word.len(),
{
    let all = word + space + rest;
    if word.len() > 0 {
        assert(!is_space(word[0]));
        assert(all.drop_first() =~= word.drop_first() + space + rest);
        assert forall|i: int| 0 <= i < word.drop_first().len() implies !is_space(
            #[trigger] word.drop_first()[i],
        ) by {
            assert(word.drop_first()[i] == word[i + 1]);
        }
        lemma_word_passed(word.drop_first(), space, rest);
    } else {
        assert(all =~= space + rest);
        lemma_space_passed(space, rest);
        if space.len() > 0 {
            assert(is_space(space[0]));
        }
    }
}

proof fn lemma_space_passed(space: Seq<char>, rest: Seq<char>)
    requires
        forall|i: int| 0 <= i < space.len() ==> is_space(#[trigger] space[i]),
        rest.len() > 0 ==> !is_space(rest[0]),
    ensures
        space_run(space + rest) == space.len(),
    decreases space.len(),
{
    let all = space + rest;
    if space.len() > 0 {
        assert(is_space(space[0]));
        assert(all.drop_first() =~= space.drop_first() + rest);
        assert forall|i: int| 0 <= i < space.drop_first().len() implies is_space(
            #[trigger] space.drop_first()[i],
        ) by {
            assert(space.drop_first()[i] == space[i + 1]);
        }
        lemma_space_passed(space.drop_first(), rest);
    } else {
        assert(all =~= rest);
    }
}

/// With the super key backspace empties the line up to the cursor.
pub proof fn law_super_backspace_empties_the_front(v: LineView)
    ensures
        after_edit(
            v,
            KeyCode::Backspace,
            KeyModifiers { super_key: true, ..KeyModifiers::none() },
        ).text() =~= v.after,
{
}

/// A key that is no editing key leaves the line alone: so does a character with control,
/// but for the one that deletes a word.
pub proof fn law_other_keys_leave_the_line(v: LineView, c: char, m: KeyModifiers)
    ensures
        after_edit(v, KeyCode::Enter, m) == v,
        after_edit(v, KeyCode::Tab, m) == v,
        after_edit(v, KeyCode::Esc, m) == v,
        after_edit(v, KeyCode::Up, m) == v,
        after_edit(v, KeyCode::Down, m) == v,
        m.control && c != 'w' ==> after_edit(v, KeyCode::Char(c), m) == v,
        m.control && m.alt ==> after_edit(v, KeyCode::Char(c), m) == v,
{
}

/// The cursor stands behind as many characters as its bytes hold.
pub proof fn law_the_cursor_splits_the_text(a: Seq<char>, b: Seq<char>)
    ensures
        chars_within(a + b, byte_len(a) as int) == a.len(),
{
    let s = a + b;
    let n = chars_within(s, byte_len(a) as int) as int;
    lemma_chars_within_longest(s, byte_len(a) as int);
    assert(s.take(a.len() as int) =~= a);
    if n < a.len() {
        assert(byte_len(s.take(a.len() as int)) > byte_len(a));
    } else if n > a.len() {
        crate::text::lemma_byte_len_take(s, a.len() as int, n);
    }
}

/// What is pasted stands at the cursor, and the cursor behind it.
pub proof fn law_pastes_stand_at_the_cursor(v: LineView, s: Seq<char>)
    ensures
        inserted(v, s).text() =~= v.before + s + v.after,
        inserted(v, s).after == v.after,
        inserted(v, s).cursor == byte_len(v.before + s),
{
}

} // verus!
