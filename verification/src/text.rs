//! Text as a sequence of characters: the searching, splitting, trimming and
//! number formatting that the rest of the crate is written with.
//!
//! Every function states its result over the characters of its arguments.
//! Byte offsets appear only where the interface counts in bytes (cursor
//! positions, length limits); `byte_len` relates them to the characters.

use vstd::prelude::*;
use vstd::string::*;
use vstd::utf8::*;

verus! {

/// `String::push` appends one character.
pub assume_specification[ String::push ](s: &mut String, c: char)
    ensures
        final(s)@ == old(s)@.push(c),
;

/// What `str::to_lowercase` makes of a text.
pub uninterp spec fn lowercase(s: Seq<char>) -> Seq<char>;

/// The lower case of one ASCII letter; every other character is left alone.
pub open spec fn ascii_lower(c: char) -> char {
    if 'A' <= c && c <= 'Z' {
        ((c as u32) + 32) as char
    } else {
        c
    }
}

/// Calls `str::to_lowercase`. The result is a function of the text alone, and on
/// text made of ASCII characters only it lowers the letters `A` to `Z` one by
/// one; what it does to other letters is not said here.
#[verifier::external_body]
pub(crate) fn to_lowercase(s: &str) -> (r: String)
    ensures
        r@ == lowercase(s@),
        is_ascii_chars(s@) ==> r@ == s@.map_values(|c: char| ascii_lower(c)),
{
    s.to_lowercase()
}

// ---------------------------------------------------------------------------
// Characters
// ---------------------------------------------------------------------------

/// The Unicode White_Space property.
pub open spec fn is_space(c: char) -> bool {
    let u = c as u32;
    ||| 0x09 <= u <= 0x0d
    ||| u == 0x20
    ||| u == 0x85
    ||| u == 0xa0
    ||| u == 0x1680
    ||| 0x2000 <= u <= 0x200a
    ||| u == 0x2028
    ||| u == 0x2029
    ||| u == 0x202f
    ||| u == 0x205f
    ||| u == 0x3000
}

pub fn char_is_space(c: char) -> (r: bool)
    ensures
        r == is_space(c),
{
    let u: u32 = c as u32;
    (0x09 <= u && u <= 0x0d) || u == 0x20 || u == 0x85 || u == 0xa0 || u == 0x1680
        || (0x2000 <= u && u <= 0x200a) || u == 0x2028 || u == 0x2029 || u == 0x202f
        || u == 0x205f || u == 0x3000
}

pub open spec fn is_digit(c: char) -> bool {
    '0' <= c && c <= '9'
}

pub open spec fn digit_value(c: char) -> nat {
    (c as u32 - '0' as u32) as nat
}

/// The number of bytes that UTF-8 spends on one character.
pub open spec fn char_width(c: char) -> nat {
    let u = c as u32;
    if u < 0x80 {
        1
    } else if u < 0x800 {
        2
    } else if u < 0x10000 {
        3
    } else {
        4
    }
}

/// The number of bytes that UTF-8 spends on a text.
pub open spec fn byte_len(s: Seq<char>) -> nat
    decreases s.len(),
{
    if s.len() == 0 {
        0
    } else {
        char_width(s[0]) + byte_len(s.drop_first())
    }
}

proof fn lemma_byte_len_encoding(s: Seq<char>)
    ensures
        byte_len(s) == encode_utf8(s).len(),
    decreases s.len(),
{
    if s.len() > 0 {
        lemma_byte_len_encoding(s.drop_first());
        char_is_scalar(s[0]);
        char_u32_cast(s[0], s[0] as u32);
        assert(encode_scalar(s[0] as u32).len() == char_width(s[0]));
    }
}

pub proof fn lemma_byte_len_concat(a: Seq<char>, b: Seq<char>)
    ensures
        byte_len(a + b) == byte_len(a) + byte_len(b),
    decreases a.len(),
{
    if a.len() == 0 {
        assert(a + b =~= b);
    } else {
        lemma_byte_len_concat(a.drop_first(), b);
        assert((a + b).drop_first() =~= a.drop_first() + b);
    }
}

pub proof fn lemma_byte_len_push(a: Seq<char>, c: char)
    ensures
        byte_len(a.push(c)) == byte_len(a) + char_width(c),
{
    lemma_byte_len_concat(a, seq![c]);
    assert(a.push(c) =~= a + seq![c]);
    assert(seq![c].drop_first() =~= Seq::<char>::empty());
    reveal_with_fuel(byte_len, 3);
}

/// A longer prefix takes at least one byte more per character.
pub proof fn lemma_byte_len_take(s: Seq<char>, i: int, j: int)
    requires
        0 <= i <= j <= s.len(),
    ensures
        byte_len(s.take(i)) + (j - i) <= byte_len(s.take(j)),
    decreases j - i,
{
    if i < j {
        lemma_byte_len_take(s, i, j - 1);
        assert(s.take(j) =~= s.take(j - 1).push(s[j - 1]));
        lemma_byte_len_push(s.take(j - 1), s[j - 1]);
    }
}

pub fn width_of(c: char) -> (w: usize)
    ensures
        w == char_width(c),
{
    let u: u32 = c as u32;
    if u < 0x80 {
        1
    } else if u < 0x800 {
        2
    } else if u < 0x10000 {
        3
    } else {
        4
    }
}

/// The length of a text in bytes.
pub fn bytes_in(s: &str) -> (n: usize)
    ensures
        n == byte_len(s@),
{
    proof {
        lemma_byte_len_encoding(s@);
    }
    s.as_bytes().len()
}

/// The characters of a text.
pub fn chars_of(s: &str) -> (v: Vec<char>)
    ensures
        v@ == s@,
{
    let mut v: Vec<char> = Vec::new();
    for c in it: s.chars()
        invariant
            it.seq() == s@,
            v@ == s@.take(it.index() as int),
    {
        assert(s@.take(it.index() as int + 1) =~= s@.take(it.index() as int).push(c));
        v.push(c);
    }
    assert(s@.take(s@.len() as int) =~= s@);
    v
}

/// The text made of `v[from..to]`.
pub fn text_between(v: &Vec<char>, from: usize, to: usize) -> (r: String)
    requires
        from <= to <= v@.len(),
    ensures
        r@ == v@.subrange(from as int, to as int),
{
    let mut r: String = String::new();
    let mut i: usize = from;
    while i < to
        invariant
            from <= i <= to <= v@.len(),
            r@ == v@.subrange(from as int, i as int),
        decreases to - i,
    {
        assert(v@.subrange(from as int, i as int + 1) =~= v@.subrange(
            from as int,
            i as int,
        ).push(v@[i as int]));
        r.push(v[i]);
        i += 1;
    }
    r
}

// ---------------------------------------------------------------------------
// Searching
// ---------------------------------------------------------------------------

/// `needle` stands in `hay` from character `i` on.
pub open spec fn occurs_at(hay: Seq<char>, needle: Seq<char>, i: int) -> bool {
    0 <= i && i + needle.len() <= hay.len() && hay.subrange(i, i + needle.len()) == needle
}

/// `needle` stands somewhere in `hay`.
pub open spec fn contains_text(hay: Seq<char>, needle: Seq<char>) -> bool {
    exists|i: int| occurs_at(hay, needle, i)
}

/// `hay` begins with `needle`.
pub open spec fn begins_with(hay: Seq<char>, needle: Seq<char>) -> bool {
    needle.len() <= hay.len() && hay.take(needle.len() as int) == needle
}

fn matches_at(hay: &Vec<char>, needle: &Vec<char>, at: usize) -> (r: bool)
    requires
        at + needle@.len() <= hay@.len(),
    ensures
        r == occurs_at(hay@, needle@, at as int),
{
    let total: usize = hay.len();
    let mut j: usize = 0;
    while j < needle.len()
        invariant
            total == hay@.len(),
            at + needle@.len() <= total,
            j <= needle@.len(),
            forall|k: int| 0 <= k < j ==> hay@[at + k] == #[trigger] needle@[k],
        decreases needle@.len() - j,
    {
        if hay[at + j] != needle[j] {
            assert(hay@.subrange(at as int, at + needle@.len())[j as int] != needle@[j as int]);
            return false;
        }
        j += 1;
    }
    assert(hay@.subrange(at as int, at + needle@.len()) =~= needle@);
    true
}

/// The first place where `needle` stands in `hay`, counted in characters.
pub fn find(hay: &str, needle: &str) -> (r: Option<usize>)
    ensures
        r is None <==> !contains_text(hay@, needle@),
        r matches Some(p) ==> occurs_at(hay@, needle@, p as int) && forall|i: int|
            0 <= i < p ==> !occurs_at(hay@, needle@, i),
{
    let h = chars_of(hay);
    let n = chars_of(needle);
    if n.len() > h.len() {
        return None;
    }
    let last: usize = h.len() - n.len();
    let mut i: usize = 0;
    while i <= last
        invariant
            h@ == hay@,
            n@ == needle@,
            last + n@.len() == h@.len(),
            i <= last + 1,
            forall|k: int| 0 <= k < i ==> !occurs_at(hay@, needle@, k),
        decreases last + 1 - i,
    {
        if matches_at(&h, &n, i) {
            return Some(i);
        }
        if i == last {
            return None;
        }
        i += 1;
    }
    None
}

pub fn contains(hay: &str, needle: &str) -> (r: bool)
    ensures
        r == contains_text(hay@, needle@),
{
    find(hay, needle).is_some()
}

pub fn starts_with(hay: &str, needle: &str) -> (r: bool)
    ensures
        r == begins_with(hay@, needle@),
{
    let h = chars_of(hay);
    let n = chars_of(needle);
    if n.len() > h.len() {
        return false;
    }
    proof {
        assert(h@.subrange(0, needle@.len() as int) =~= h@.take(needle@.len() as int));
    }
    matches_at(&h, &n, 0)
}

/// The two texts hold the same characters.
pub fn same(a: &str, b: &str) -> (r: bool)
    ensures
        r == (a@ == b@),
{
    let x = chars_of(a);
    let y = chars_of(b);
    if x.len() != y.len() {
        return false;
    }
    let r = matches_at(&x, &y, 0);
    proof {
        assert(x@.subrange(0, y@.len() as int) =~= x@);
    }
    r
}

/// The texts agree up to the case of ASCII letters.
pub open spec fn same_ignoring_case(a: Seq<char>, b: Seq<char>) -> bool {
    a.len() == b.len() && forall|i: int|
        0 <= i < a.len() ==> ascii_lower(#[trigger] a[i]) == ascii_lower(b[i])
}

fn lower_of(c: char) -> (r: char)
    ensures
        r == ascii_lower(c),
{
    if 'A' <= c && c <= 'Z' {
        match c {
            'A' => 'a',
            'B' => 'b',
            'C' => 'c',
            'D' => 'd',
            'E' => 'e',
            'F' => 'f',
            'G' => 'g',
            'H' => 'h',
            'I' => 'i',
            'J' => 'j',
            'K' => 'k',
            'L' => 'l',
            'M' => 'm',
            'N' => 'n',
            'O' => 'o',
            'P' => 'p',
            'Q' => 'q',
            'R' => 'r',
            'S' => 's',
            'T' => 't',
            'U' => 'u',
            'V' => 'v',
            'W' => 'w',
            'X' => 'x',
            'Y' => 'y',
            _ => 'z',
        }
    } else {
        c
    }
}

/// `str::eq_ignore_ascii_case`, character by character.
pub fn eq_ignore_case(a: &str, b: &str) -> (r: bool)
    ensures
        r == same_ignoring_case(a@, b@),
{
    let x = chars_of(a);
    let y = chars_of(b);
    if x.len() != y.len() {
        return false;
    }
    let mut i: usize = 0;
    while i < x.len()
        invariant
            x@ == a@,
            y@ == b@,
            x@.len() == y@.len(),
            i <= x@.len(),
            forall|k: int| 0 <= k < i ==> ascii_lower(#[trigger] a@[k]) == ascii_lower(b@[k]),
        decreases x@.len() - i,
    {
        if lower_of(x[i]) != lower_of(y[i]) {
            return false;
        }
        i += 1;
    }
    true
}

// ---------------------------------------------------------------------------
// Trimming
// ---------------------------------------------------------------------------

pub open spec fn trim_front(s: Seq<char>) -> Seq<char>
    decreases s.len(),
{
    if s.len() > 0 && is_space(s[0]) {
        trim_front(s.drop_first())
    } else {
        s
    }
}

pub open spec fn trim_back(s: Seq<char>) -> Seq<char>
    decreases s.len(),
{
    if s.len() > 0 && is_space(s.last()) {
        trim_back(s.drop_last())
    } else {
        s
    }
}

/// The text without the white space at its ends.
pub open spec fn trimmed(s: Seq<char>) -> Seq<char> {
    trim_back(trim_front(s))
}

/// Nothing but white space.
pub open spec fn is_blank(s: Seq<char>) -> bool {
    trimmed(s).len() == 0
}

pub fn trim(s: &str) -> (r: String)
    ensures
        r@ == trimmed(s@),
{
    let v = chars_of(s);
    let mut from: usize = 0;
    assert(v@.skip(0) =~= s@);
    while from < v.len() && char_is_space(v[from])
        invariant
            from <= v@.len(),
            v@ == s@,
            trim_front(v@.skip(from as int)) == trim_front(s@),
        decreases v@.len() - from,
    {
        assert(v@.skip(from as int).drop_first() =~= v@.skip(from as int + 1));
        from += 1;
    }
    let mut to: usize = v.len();
    assert(v@.skip(from as int) =~= v@.subrange(from as int, to as int));
    while to > from && char_is_space(v[to - 1])
        invariant
            from <= to <= v@.len(),
            trim_back(v@.subrange(from as int, to as int)) == trimmed(s@),
        decreases to,
    {
        assert(v@.subrange(from as int, to as int).drop_last() =~= v@.subrange(
            from as int,
            to as int - 1,
        ));
        to -= 1;
    }
    text_between(&v, from, to)
}

pub fn blank(s: &str) -> (r: bool)
    ensures
        r == is_blank(s@),
{
    let t = trim(s);
    t.as_str().is_empty()
}

// ---------------------------------------------------------------------------
// Splitting and joining
// ---------------------------------------------------------------------------

/// The place of the first `c` in `s`, or the length of `s`.
pub open spec fn first_index(s: Seq<char>, c: char) -> int
    decreases s.len(),
{
    if s.len() == 0 || s[0] == c {
        0
    } else {
        1 + first_index(s.drop_first(), c)
    }
}

pub proof fn lemma_first_index(s: Seq<char>, c: char)
    ensures
        0 <= first_index(s, c) <= s.len(),
        first_index(s, c) < s.len() ==> s[first_index(s, c)] == c,
        forall|i: int| 0 <= i < first_index(s, c) ==> s[i] != c,
    decreases s.len(),
{
    if s.len() > 0 && s[0] != c {
        lemma_first_index(s.drop_first(), c);
        assert forall|i: int| 0 <= i < first_index(s, c) implies s[i] != c by {
            if i > 0 {
                assert(s[i] == s.drop_first()[i - 1]);
            }
        }
    }
}

/// The pieces of `s` between the characters `c`: one more than there are `c`s.
pub open spec fn split_on(s: Seq<char>, c: char) -> Seq<Seq<char>>
    decreases s.len(),
    via split_on_decreases
{
    let i = first_index(s, c);
    if i < s.len() {
        seq![s.take(i)] + split_on(s.skip(i + 1), c)
    } else {
        seq![s]
    }
}

#[via_fn]
proof fn split_on_decreases(s: Seq<char>, c: char) {
    lemma_first_index(s, c);
}

/// A line without the carriage return in front of its line feed.
pub open spec fn without_return(s: Seq<char>) -> Seq<char> {
    if s.len() > 0 && s.last() == '\r' {
        s.drop_last()
    } else {
        s
    }
}

/// The lines of a text, as `str::lines` gives them: a line ends in a line feed,
/// which a carriage return may precede; the last line need not end in one.
pub open spec fn lines_of(s: Seq<char>) -> Seq<Seq<char>>
    decreases s.len(),
    via lines_of_decreases
{
    let i = first_index(s, '\n');
    if s.len() == 0 {
        seq![]
    } else if i < s.len() {
        seq![without_return(s.take(i))] + lines_of(s.skip(i + 1))
    } else {
        seq![s]
    }
}

#[via_fn]
proof fn lines_of_decreases(s: Seq<char>) {
    lemma_first_index(s, '\n');
}

/// The characters of each text of a list.
pub open spec fn views(v: Seq<String>) -> Seq<Seq<char>> {
    v.map_values(|s: String| s@)
}

pub proof fn lemma_views_push(v: Seq<String>, s: String)
    ensures
        views(v.push(s)) == views(v).push(s@),
{
    assert(views(v.push(s)) =~= views(v).push(s@));
}

fn index_from(v: &Vec<char>, from: usize, c: char) -> (r: usize)
    requires
        from <= v@.len(),
    ensures
        from <= r <= v@.len(),
        r - from == first_index(v@.skip(from as int), c),
{
    let mut i: usize = from;
    while i < v.len() && v[i] != c
        invariant
            from <= i <= v@.len(),
            first_index(v@.skip(from as int), c) == (i - from) + first_index(v@.skip(i as int), c),
        decreases v@.len() - i,
    {
        assert(v@.skip(i as int).drop_first() =~= v@.skip(i as int + 1));
        i += 1;
    }
    i
}

/// The pieces of a text between the characters `c`.
pub fn split(s: &str, c: char) -> (r: Vec<String>)
    ensures
        views(r@) == split_on(s@, c),
{
    let v = chars_of(s);
    let mut r: Vec<String> = Vec::new();
    let mut at: usize = 0;
    assert(v@.skip(0) =~= s@);
    assert(views(r@) + split_on(v@.skip(0), c) =~= split_on(s@, c));
    loop
        invariant
            at <= v@.len(),
            views(r@) + split_on(v@.skip(at as int), c) == split_on(s@, c),
        decreases v@.len() - at,
    {
        let end: usize = index_from(&v, at, c);
        let ghost rest = v@.skip(at as int);
        let ghost before = views(r@);
        proof {
            lemma_first_index(rest, c);
            assert(rest.take(end - at) =~= v@.subrange(at as int, end as int));
        }
        let piece = text_between(&v, at, end);
        proof {
            lemma_views_push(r@, piece);
        }
        r.push(piece);
        if end < v.len() {
            proof {
                assert(rest.skip(end - at + 1) =~= v@.skip(end as int + 1));
                assert(views(r@) + split_on(v@.skip(end as int + 1), c) =~= before + (seq![
                    rest.take(end - at),
                ] + split_on(rest.skip(end - at + 1), c)));
            }
            at = end + 1;
        } else {
            proof {
                assert(rest.take(end - at) =~= rest);
                assert(views(r@) =~= before + seq![rest]);
            }
            return r;
        }
    }
}

/// The lines of a text.
pub fn lines(s: &str) -> (r: Vec<String>)
    ensures
        views(r@) == lines_of(s@),
{
    let v = chars_of(s);
    let mut r: Vec<String> = Vec::new();
    let mut at: usize = 0;
    assert(v@.skip(0) =~= s@);
    assert(views(r@) + lines_of(v@.skip(0)) =~= lines_of(s@));
    while at < v.len()
        invariant
            at <= v@.len(),
            views(r@) + lines_of(v@.skip(at as int)) == lines_of(s@),
        decreases v@.len() - at,
    {
        let end: usize = index_from(&v, at, '\n');
        let ghost rest = v@.skip(at as int);
        let ghost before = views(r@);
        proof {
            lemma_first_index(rest, '\n');
            assert(rest.take(end - at) =~= v@.subrange(at as int, end as int));
        }
        if end < v.len() {
            let stop: usize = if end > at && v[end - 1] == '\r' {
                end - 1
            } else {
                end
            };
            let piece = text_between(&v, at, stop);
            proof {
                assert(piece@ =~= without_return(rest.take(end - at)));
                lemma_views_push(r@, piece);
                assert(rest.skip(end - at + 1) =~= v@.skip(end as int + 1));
                assert(before.push(piece@) + lines_of(v@.skip(end as int + 1)) =~= before + (seq![
                    without_return(rest.take(end - at)),
                ] + lines_of(rest.skip(end - at + 1))));
            }
            r.push(piece);
            at = end + 1;
        } else {
            let piece = text_between(&v, at, end);
            proof {
                assert(piece@ =~= rest);
                lemma_views_push(r@, piece);
                assert(v@.skip(end as int) =~= Seq::<char>::empty());
                assert(before.push(piece@) + lines_of(v@.skip(end as int)) =~= before + seq![rest]);
            }
            r.push(piece);
            at = end;
        }
    }
    assert(v@.skip(at as int) =~= Seq::<char>::empty());
    assert(views(r@) + lines_of(v@.skip(at as int)) =~= views(r@));
    r
}

/// The texts one after the other, with `sep` between neighbours.
pub open spec fn joined(parts: Seq<Seq<char>>, sep: Seq<char>) -> Seq<char>
    decreases parts.len(),
{
    if parts.len() == 0 {
        seq![]
    } else if parts.len() == 1 {
        parts[0]
    } else {
        joined(parts.drop_last(), sep) + sep + parts.last()
    }
}

pub fn join(parts: &Vec<String>, sep: &str) -> (r: String)
    ensures
        r@ == joined(views(parts@), sep@),
{
    let mut r: String = String::new();
    let mut i: usize = 0;
    while i < parts.len()
        invariant
            i <= parts@.len(),
            r@ == joined(views(parts@).take(i as int), sep@),
        decreases parts@.len() - i,
    {
        let ghost next = views(parts@).take(i as int + 1);
        proof {
            assert(next.drop_last() =~= views(parts@).take(i as int));
            assert(next.last() == parts@[i as int]@);
        }
        if i > 0 {
            r.append(sep);
        } else {
            assert(r@ + parts@[0]@ =~= parts@[0]@);
        }
        r.append(parts[i].as_str());
        i += 1;
    }
    assert(views(parts@).take(i as int) =~= views(parts@));
    r
}

/// The first run of characters that are not white space.
pub open spec fn first_word(s: Seq<char>) -> Seq<char>
    decreases s.len(),
{
    if s.len() == 0 {
        s
    } else if is_space(s[0]) {
        first_word(s.drop_first())
    } else {
        word_prefix(s)
    }
}

/// The characters of `s` in front of its first white space.
pub open spec fn word_prefix(s: Seq<char>) -> Seq<char>
    decreases s.len(),
{
    if s.len() == 0 || is_space(s[0]) {
        seq![]
    } else {
        seq![s[0]] + word_prefix(s.drop_first())
    }
}

/// The first word of a text, empty where there is none.
pub fn leading_word(s: &str) -> (r: String)
    ensures
        r@ == first_word(s@),
{
    let v = chars_of(s);
    let mut from: usize = 0;
    assert(v@.skip(0) =~= s@);
    while from < v.len() && char_is_space(v[from])
        invariant
            from <= v@.len(),
            first_word(v@.skip(from as int)) == first_word(s@),
        decreases v@.len() - from,
    {
        assert(v@.skip(from as int).drop_first() =~= v@.skip(from as int + 1));
        from += 1;
    }
    let mut r: String = String::new();
    let mut i: usize = from;
    assert(v@.skip(from as int).len() > 0 ==> first_word(v@.skip(from as int)) == word_prefix(
        v@.skip(from as int),
    ));
    assert(v@.skip(from as int).len() == 0 ==> word_prefix(v@.skip(from as int)) =~= v@.skip(
        from as int,
    ));
    assert(r@ + word_prefix(v@.skip(i as int)) =~= first_word(s@));
    while i < v.len() && !char_is_space(v[i])
        invariant
            i <= v@.len(),
            r@ + word_prefix(v@.skip(i as int)) == first_word(s@),
        decreases v@.len() - i,
    {
        proof {
            assert(v@.skip(i as int).drop_first() =~= v@.skip(i as int + 1));
            assert(r@.push(v@[i as int]) + word_prefix(v@.skip(i as int + 1)) =~= r@ + (seq![
                v@[i as int],
            ] + word_prefix(v@.skip(i as int + 1))));
        }
        r.push(v[i]);
        i += 1;
    }
    assert(r@ + word_prefix(v@.skip(i as int)) =~= r@);
    r
}

// ---------------------------------------------------------------------------
// Numbers
// ---------------------------------------------------------------------------

pub open spec fn digit_char(d: nat) -> char {
    (('0' as u32) + d) as char
}

/// A natural number in decimal digits.
pub open spec fn decimal(n: nat) -> Seq<char>
    decreases n,
{
    if n < 10 {
        seq![digit_char(n)]
    } else {
        decimal(n / 10).push(digit_char(n % 10))
    }
}

/// An integer in decimal digits, with a minus sign in front where it is negative.
pub open spec fn signed_decimal(n: int) -> Seq<char> {
    if n < 0 {
        seq!['-'] + decimal((-n) as nat)
    } else {
        decimal(n as nat)
    }
}

fn digit_of(d: u64) -> (c: char)
    requires
        d < 10,
    ensures
        c == digit_char(d as nat),
{
    match d {
        0 => '0',
        1 => '1',
        2 => '2',
        3 => '3',
        4 => '4',
        5 => '5',
        6 => '6',
        7 => '7',
        8 => '8',
        _ => '9',
    }
}

pub fn format_number(n: u64) -> (r: String)
    ensures
        r@ == decimal(n as nat),
    decreases n,
{
    if n < 10 {
        let mut r: String = String::new();
        r.push(digit_of(n));
        assert(r@ =~= seq![digit_char(n as nat)]);
        r
    } else {
        let mut r = format_number(n / 10);
        r.push(digit_of(n % 10));
        r
    }
}

pub fn format_signed(n: i64) -> (r: String)
    ensures
        r@ == signed_decimal(n as int),
{
    if n < 0 {
        let mut r = "-".to_owned();
        proof {
            reveal_strlit("-");
            assert("-"@ =~= seq!['-']);
        }
        let positive: u64 = if n == i64::MIN {
            9223372036854775808
        } else {
            (-n) as u64
        };
        r.append(format_number(positive).as_str());
        r
    } else {
        format_number(n as u64)
    }
}

/// The value of a run of decimal digits.
pub open spec fn number_value(s: Seq<char>) -> nat
    decreases s.len(),
{
    if s.len() == 0 {
        0
    } else {
        10 * number_value(s.drop_last()) + digit_value(s.last())
    }
}

pub open spec fn all_digits(s: Seq<char>) -> bool {
    s.len() > 0 && forall|i: int| 0 <= i < s.len() ==> is_digit(#[trigger] s[i])
}

proof fn lemma_number_value_take(s: Seq<char>, i: int)
    requires
        0 <= i <= s.len(),
    ensures
        number_value(s.take(i)) <= number_value(s),
    decreases s.len(),
{
    if i < s.len() {
        lemma_number_value_take(s.drop_last(), i);
        assert(s.drop_last().take(i) =~= s.take(i));
    } else {
        assert(s.take(i) =~= s);
    }
}

/// The value of a non-empty run of digits that is at most `max`.
fn digits_value(v: &Vec<char>, from: usize, max: u64) -> (r: Option<u64>)
    requires
        from <= v@.len(),
    ensures
        r matches Some(n) ==> all_digits(v@.skip(from as int)) && n == number_value(
            v@.skip(from as int),
        ) && n <= max,
        r is None ==> !all_digits(v@.skip(from as int)) || number_value(v@.skip(from as int)) > max,
{
    let ghost s = v@.skip(from as int);
    if from == v.len() {
        return None;
    }
    let mut n: u64 = 0;
    let mut i: usize = from;
    assert(s.take(0) =~= Seq::<char>::empty());
    while i < v.len()
        invariant
            from <= i <= v@.len(),
            s == v@.skip(from as int),
            n == number_value(s.take(i - from)),
            n <= max,
            forall|k: int| 0 <= k < i - from ==> is_digit(#[trigger] s[k]),
        decreases v@.len() - i,
    {
        let c = v[i];
        assert(s[i - from] == c);
        if c < '0' || '9' < c {
            return None;
        }
        let d: u64 = (c as u32 - '0' as u32) as u64;
        proof {
            assert(s.take(i - from + 1).drop_last() =~= s.take(i - from));
            assert(s.take(i - from + 1).last() == c);
            lemma_number_value_take(s, i - from + 1);
        }
        if n > max / 10 || d > max || n * 10 > max - d {
            proof {
                assert(number_value(s.take(i - from + 1)) == 10 * n + d);
            }
            return None;
        }
        n = n * 10 + d;
        i += 1;
    }
    assert(s.take(i - from) =~= s);
    Some(n)
}

/// The number that `str::parse` reads into a `u64`: digits, with at most a plus
/// sign in front, of a value that fits.
pub open spec fn parsed_u64(s: Seq<char>) -> Option<u64> {
    let digits = if s.len() > 0 && s[0] == '+' {
        s.drop_first()
    } else {
        s
    };
    if all_digits(digits) && number_value(digits) <= u64::MAX {
        Some(number_value(digits) as u64)
    } else {
        None
    }
}

pub fn parse_u64(s: &str) -> (r: Option<u64>)
    ensures
        r == parsed_u64(s@),
{
    let v = chars_of(s);
    let from: usize = if v.len() > 0 && v[0] == '+' {
        1
    } else {
        0
    };
    proof {
        assert(v@.skip(0) =~= v@);
        assert(v@.len() > 0 ==> v@.skip(1) =~= v@.drop_first());
    }
    digits_value(&v, from, u64::MAX)
}

pub proof fn lemma_decimal_value(n: nat)
    ensures
        all_digits(decimal(n)),
        number_value(decimal(n)) == n,
    decreases n,
{
    let last = digit_char(n % 10);
    assert(is_digit(last) && digit_value(last) == n % 10);
    if n < 10 {
        assert(decimal(n).drop_last() =~= Seq::<char>::empty());
        assert(number_value(decimal(n).drop_last()) == 0);
    } else {
        lemma_decimal_value(n / 10);
        assert(decimal(n).drop_last() =~= decimal(n / 10));
    }
}

/// A number that is written in decimal digits reads back as itself.
pub proof fn lemma_decimal_reads_back(n: u64)
    ensures
        parsed_u64(decimal(n as nat)) == Some(n),
{
    lemma_decimal_value(n as nat);
    assert(is_digit(decimal(n as nat)[0]));
}

/// The number that `str::parse` reads into an `i64`: digits, with at most one sign
/// in front, of a value that fits.
pub open spec fn parsed_i64(s: Seq<char>) -> Option<i64> {
    let signed = s.len() > 0 && (s[0] == '+' || s[0] == '-');
    let digits = if signed {
        s.drop_first()
    } else {
        s
    };
    let value: int = if s.len() > 0 && s[0] == '-' {
        -(number_value(digits) as int)
    } else {
        number_value(digits) as int
    };
    if all_digits(digits) && i64::MIN <= value <= i64::MAX {
        Some(value as i64)
    } else {
        None
    }
}

pub fn parse_i64(s: &str) -> (r: Option<i64>)
    ensures
        r == parsed_i64(s@),
{
    let v = chars_of(s);
    proof {
        assert(v@.skip(0) =~= v@);
        assert(v@.len() > 0 ==> v@.skip(1) =~= v@.drop_first());
    }
    if v.len() > 0 && v[0] == '-' {
        match digits_value(&v, 1, 9223372036854775808) {
            Some(n) => if n == 9223372036854775808 {
                Some(i64::MIN)
            } else {
                Some(-(n as i64))
            },
            None => None,
        }
    } else {
        let from: usize = if v.len() > 0 && v[0] == '+' {
            1
        } else {
            0
        };
        match digits_value(&v, from, 9223372036854775807) {
            Some(n) => Some(n as i64),
            None => None,
        }
    }
}

// ---------------------------------------------------------------------------
// Laws
// ---------------------------------------------------------------------------

/// A part of a text is found in it.
pub proof fn lemma_part_is_found(before: Seq<char>, part: Seq<char>, after: Seq<char>)
    ensures
        contains_text(before + part + after, part),
{
    let all = before + part + after;
    assert(all.subrange(before.len() as int, (before.len() + part.len()) as int) =~= part);
    assert(occurs_at(all, part, before.len() as int));
}

/// What is found in a part of a text is found in the text.
pub proof fn lemma_found_in_part(
    before: Seq<char>,
    part: Seq<char>,
    after: Seq<char>,
    needle: Seq<char>,
)
    requires
        contains_text(part, needle),
    ensures
        contains_text(before + part + after, needle),
{
    let all = before + part + after;
    let i = choose|i: int| occurs_at(part, needle, i);
    let k = before.len() + i;
    assert(all.subrange(k, k + needle.len()) =~= part.subrange(i, i + needle.len()));
    assert(occurs_at(all, needle, k));
}

/// A text holds another one exactly where the other one's characters stand in it, one
/// behind the other.
pub proof fn law_containing_is_standing_in_a_row(hay: Seq<char>, needle: Seq<char>)
    ensures
        contains_text(hay, needle) <==> exists|i: int|
            0 <= i <= hay.len() - needle.len() && #[trigger] hay.skip(i).take(needle.len() as int)
                == needle,
        contains_text(hay, seq![]),
        contains_text(hay, hay),
        needle.len() > hay.len() ==> !contains_text(hay, needle),
{
    if contains_text(hay, needle) {
        let i = choose|i: int| occurs_at(hay, needle, i);
        assert(hay.skip(i).take(needle.len() as int) =~= hay.subrange(i, i + needle.len()));
    }
    if exists|i: int|
        0 <= i <= hay.len() - needle.len() && #[trigger] hay.skip(i).take(needle.len() as int)
            == needle {
        let i = choose|i: int|
            0 <= i <= hay.len() - needle.len() && #[trigger] hay.skip(i).take(
                needle.len() as int,
            ) == needle;
        assert(hay.skip(i).take(needle.len() as int) =~= hay.subrange(i, i + needle.len()));
        assert(occurs_at(hay, needle, i));
    }
    assert(hay.subrange(0, 0) =~= Seq::<char>::empty());
    assert(occurs_at(hay, seq![], 0));
    assert(hay.subrange(0, hay.len() as int) =~= hay);
    assert(occurs_at(hay, hay, 0));
}

/// A text stands in a longer one, at its front or at its back.
pub proof fn lemma_found_beside(front: Seq<char>, back: Seq<char>)
    ensures
        contains_text(front + back, front),
        contains_text(front + back, back),
        forall|needle: Seq<char>|
            contains_text(front, needle) ==> #[trigger] contains_text(front + back, needle),
        forall|needle: Seq<char>|
            contains_text(back, needle) ==> #[trigger] contains_text(front + back, needle),
{
    let none = Seq::<char>::empty();
    assert(none + front + back =~= front + back);
    assert(front + back + none =~= front + back);
    lemma_part_is_found(none, front, back);
    lemma_part_is_found(front, back, none);
    assert forall|needle: Seq<char>| contains_text(front, needle) implies #[trigger] contains_text(
        front + back,
        needle,
    ) by {
        lemma_found_in_part(none, front, back, needle);
    }
    assert forall|needle: Seq<char>| contains_text(back, needle) implies #[trigger] contains_text(
        front + back,
        needle,
    ) by {
        lemma_found_in_part(front, back, none, needle);
    }
}

/// Four texts in a row stand in the text that ends with them.
pub proof fn lemma_row_is_found(
    front: Seq<char>,
    a: Seq<char>,
    b: Seq<char>,
    c: Seq<char>,
    d: Seq<char>,
)
    ensures
        contains_text(front + a + b + c + d, a + b + c + d),
{
    lemma_grouping(front, a, b);
    lemma_grouping(front, a + b, c);
    lemma_grouping(front, a + b + c, d);
    lemma_found_beside(front, a + b + c + d);
}

proof fn lemma_grouping(a: Seq<char>, b: Seq<char>, c: Seq<char>)
    ensures
        a + (b + c) == a + b + c,
{
    assert(a + (b + c) =~= a + b + c);
}

/// Letters are compared without their case, `A` to `Z` with `a` to `z`; every other
/// character is compared as it stands.
pub proof fn law_case_is_that_of_the_ascii_letters(c: char, a: Seq<char>, b: Seq<char>)
    ensures
        'A' <= c <= 'Z' ==> ascii_lower(c) as u32 == c as u32 + 32,
        !('A' <= c <= 'Z') ==> ascii_lower(c) == c,
        ascii_lower(ascii_lower(c)) == ascii_lower(c),
        same_ignoring_case(a, a),
        same_ignoring_case(a, b) <==> same_ignoring_case(b, a),
        same_ignoring_case(a, b) ==> a.len() == b.len(),
        same_ignoring_case(a.push(c), b.push(c)) <==> same_ignoring_case(a, b),
{
    if same_ignoring_case(a, b) {
        assert forall|i: int| 0 <= i < b.len() implies ascii_lower(#[trigger] b[i]) == ascii_lower(
            a[i],
        ) by {
            assert(ascii_lower(a[i]) == ascii_lower(b[i]));
        }
    }
    if same_ignoring_case(b, a) {
        assert forall|i: int| 0 <= i < a.len() implies ascii_lower(#[trigger] a[i]) == ascii_lower(
            b[i],
        ) by {
            assert(ascii_lower(b[i]) == ascii_lower(a[i]));
        }
    }
    let (x, y) = (a.push(c), b.push(c));
    if same_ignoring_case(a, b) {
        assert forall|i: int| 0 <= i < x.len() implies ascii_lower(#[trigger] x[i]) == ascii_lower(
            y[i],
        ) by {
            if i < a.len() {
                assert(x[i] == a[i] && y[i] == b[i]);
            }
        }
    }
    if same_ignoring_case(x, y) {
        assert forall|i: int| 0 <= i < a.len() implies ascii_lower(#[trigger] a[i]) == ascii_lower(
            b[i],
        ) by {
            assert(x[i] == a[i] && y[i] == b[i]);
        }
    }
}

/// Blanks, tabs and line ends are space; letters, digits and marks are not.
pub proof fn law_what_is_space(c: char)
    ensures
        c == ' ' || c == '\t' || c == '\n' || c == '\r' ==> is_space(c),
        '!' <= c <= '~' ==> !is_space(c),
{
}

/// All of a text is space.
pub open spec fn all_space(s: Seq<char>) -> bool {
    forall|i: int| 0 <= i < s.len() ==> is_space(#[trigger] s[i])
}

proof fn lemma_trim_front(s: Seq<char>) -> (a: Seq<char>)
    ensures
        s == a + trim_front(s),
        all_space(a),
        trim_front(s).len() > 0 ==> !is_space(trim_front(s)[0]),
    decreases s.len(),
{
    if s.len() > 0 && is_space(s[0]) {
        let rest = lemma_trim_front(s.drop_first());
        let a = seq![s[0]] + rest;
        assert(s =~= seq![s[0]] + s.drop_first());
        lemma_grouping(seq![s[0]], rest, trim_front(s));
        a
    } else {
        assert(s =~= Seq::<char>::empty() + s);
        Seq::empty()
    }
}

proof fn lemma_trim_back(s: Seq<char>) -> (b: Seq<char>)
    ensures
        s == trim_back(s) + b,
        all_space(b),
        trim_back(s).len() > 0 ==> !is_space(trim_back(s).last()),
    decreases s.len(),
{
    if s.len() > 0 && is_space(s.last()) {
        let rest = lemma_trim_back(s.drop_last());
        let b = rest + seq![s.last()];
        assert(s =~= s.drop_last() + seq![s.last()]);
        lemma_grouping(trim_back(s), rest, seq![s.last()]);
        b
    } else {
        assert(s =~= s + Seq::<char>::empty());
        Seq::empty()
    }
}

/// Trimming takes away space and nothing else, at the front and at the back, and all of it
/// there.
pub proof fn law_trimming_takes_the_space_around(s: Seq<char>) -> (ends: (Seq<char>, Seq<char>))
    ensures
        s == ends.0 + trimmed(s) + ends.1,
        all_space(ends.0),
        all_space(ends.1),
        trimmed(s).len() > 0 ==> !is_space(trimmed(s)[0]) && !is_space(trimmed(s).last()),
        contains_text(s, trimmed(s)),
{
    let a = lemma_trim_front(s);
    let b = lemma_trim_back(trim_front(s));
    assert(s =~= a + trimmed(s) + b);
    lemma_part_is_found(a, trimmed(s), b);
    if trimmed(s).len() > 0 {
        assert(trim_front(s)[0] == trimmed(s)[0]);
    }
    (a, b)
}

/// A text without space at its ends is its own trimmed text, whatever space is put around
/// it.
pub proof fn law_trimming_undoes_spacing(a: Seq<char>, s: Seq<char>, b: Seq<char>)
    requires
        all_space(a),
        all_space(b),
        s.len() > 0,
        !is_space(s[0]),
        !is_space(s.last()),
    ensures
        trimmed(a + s + b) == s,
    decreases a.len() + b.len(),
{
    let all = a + s + b;
    lemma_front_goes(a, s + b);
    assert(all =~= a + (s + b));
    assert((s + b)[0] == s[0]);
    lemma_back_goes(s, b);
}

proof fn lemma_front_goes(a: Seq<char>, s: Seq<char>)
    requires
        all_space(a),
        s.len() > 0,
        !is_space(s[0]),
    ensures
        trim_front(a + s) == s,
    decreases a.len(),
{
    if a.len() == 0 {
        assert(a + s =~= s);
    } else {
        assert((a + s).drop_first() =~= a.drop_first() + s);
        assert forall|i: int| 0 <= i < a.drop_first().len() implies is_space(
            #[trigger] a.drop_first()[i],
        ) by {
            assert(a.drop_first()[i] == a[i + 1]);
        }
        assert(is_space(a[0]));
        lemma_front_goes(a.drop_first(), s);
    }
}

proof fn lemma_back_goes(s: Seq<char>, b: Seq<char>)
    requires
        all_space(b),
        s.len() > 0,
        !is_space(s.last()),
    ensures
        trim_back(s + b) == s,
    decreases b.len(),
{
    if b.len() == 0 {
        assert(s + b =~= s);
    } else {
        assert((s + b).drop_last() =~= s + b.drop_last());
        assert(is_space(b[b.len() - 1]));
        assert((s + b).last() == b.last());
        lemma_back_goes(s, b.drop_last());
    }
}

/// A blank text is one of space alone.
pub proof fn law_blank_is_space_alone(s: Seq<char>)
    ensures
        is_blank(s) <==> all_space(s),
        is_blank(seq![]),
{
    let ends = law_trimming_takes_the_space_around(s);
    if is_blank(s) {
        assert forall|i: int| 0 <= i < s.len() implies is_space(#[trigger] s[i]) by {
            if i < ends.0.len() {
                assert(s[i] == ends.0[i]);
            } else {
                assert(s[i] == ends.1[i - ends.0.len()]);
            }
        }
    }
    if all_space(s) && trimmed(s).len() > 0 {
        assert(trimmed(s)[0] == s[ends.0.len() as int]);
    }
    let none = law_trimming_takes_the_space_around(Seq::empty());
}

/// The parts of a split text, put together again with the character between, are the text,
/// and none of them holds the character.
pub proof fn law_splitting_can_be_undone(s: Seq<char>, c: char)
    ensures
        joined(split_on(s, c), seq![c]) == s,
        split_on(s, c).len() > 0,
        forall|i: int| 0 <= i < split_on(s, c).len() ==> !(#[trigger] split_on(s, c)[i]).contains(c),
    decreases s.len(),
{
    lemma_first_index(s, c);
    let i = first_index(s, c);
    if i < s.len() {
        let rest = split_on(s.skip(i + 1), c);
        law_splitting_can_be_undone(s.skip(i + 1), c);
        lemma_joined_front(s.take(i), rest, seq![c]);
        assert(s =~= s.take(i) + seq![c] + s.skip(i + 1));
        assert forall|k: int| 0 <= k < split_on(s, c).len() implies !(
        #[trigger] split_on(s, c)[k]).contains(c) by {
            if k > 0 {
                assert(split_on(s, c)[k] == rest[k - 1]);
            }
        }
    }
}

proof fn lemma_joined_front(first: Seq<char>, rest: Seq<Seq<char>>, sep: Seq<char>)
    requires
        rest.len() > 0,
    ensures
        joined(seq![first] + rest, sep) == first + sep + joined(rest, sep),
    decreases rest.len(),
{
    let all = seq![first] + rest;
    assert(all.drop_last() =~= seq![first] + rest.drop_last());
    if rest.len() == 1 {
        assert(all.drop_last() =~= seq![first]);
        assert(joined(all.drop_last(), sep) == first);
    } else {
        lemma_joined_front(first, rest.drop_last(), sep);
        assert(first + sep + joined(rest.drop_last(), sep) + sep + rest.last() =~= first + sep + (
        joined(rest.drop_last(), sep) + sep + rest.last()));
    }
}

/// Every part of a joined text stands in it, and its length is that of its parts and of
/// the separators between them.
pub proof fn law_joining_keeps_every_part(parts: Seq<Seq<char>>, sep: Seq<char>, i: int)
    requires
        0 <= i < parts.len(),
    ensures
        contains_text(joined(parts, sep), parts[i]),
        parts.len() > 1 ==> contains_text(joined(parts, sep), sep),
        parts.len() == 1 ==> joined(parts, sep) == parts[0],
    decreases parts.len(),
{
    if parts.len() == 1 {
        law_containing_is_standing_in_a_row(parts[0], parts[0]);
    } else {
        let front = joined(parts.drop_last(), sep);
        lemma_found_beside(front, sep);
        lemma_found_beside(front + sep, parts.last());
        if i < parts.len() - 1 {
            law_joining_keeps_every_part(parts.drop_last(), sep, i);
        }
    }
}

/// The lines of a text: each line feed ends one, a carriage return in front of it goes with
/// it, and what stands behind the last line feed is a line if there is any.
pub proof fn law_line_feeds_end_lines(line: Seq<char>, rest: Seq<char>)
    requires
        !line.contains('\n'),
    ensures
        lines_of(seq![]).len() == 0,
        line.len() > 0 ==> lines_of(line) =~= seq![line],
        line.len() == 0 || line.last() != '\r' ==> lines_of(line + seq!['\n'] + rest) =~= seq![line]
            + lines_of(rest),
        lines_of(line + seq!['\r', '\n'] + rest) =~= seq![line] + lines_of(rest),
{
    lemma_first_index(line, '\n');
    let a = line + seq!['\n'] + rest;
    let b = line + seq!['\r', '\n'] + rest;
    lemma_index_is(a, '\n', line.len() as int);
    lemma_index_is(b, '\n', line.len() as int + 1);
    assert(a.take(line.len() as int) =~= line);
    assert(a.skip(line.len() as int + 1) =~= rest);
    assert(b.take(line.len() as int + 1) =~= line.push('\r'));
    assert(line.push('\r').drop_last() =~= line);
    assert(b.skip(line.len() as int + 2) =~= rest);
}

proof fn lemma_index_is(s: Seq<char>, c: char, i: int)
    requires
        0 <= i < s.len(),
        s[i] == c,
        forall|j: int| 0 <= j < i ==> s[j] != c,
    ensures
        first_index(s, c) == i,
{
    lemma_first_index(s, c);
}

/// The first word of a text: what stands between the space at its front and the next space.
pub proof fn law_the_first_word(a: Seq<char>, word: Seq<char>, rest: Seq<char>)
    requires
        all_space(a),
        forall|i: int| 0 <= i < word.len() ==> !is_space(#[trigger] word[i]),
        word.len() > 0,
        rest.len() > 0 ==> is_space(rest[0]),
    ensures
        first_word(a + word + rest) == word,
    decreases a.len(),
{
    let all = a + word + rest;
    if a.len() > 0 {
        assert(is_space(a[0]));
        assert forall|i: int| 0 <= i < a.drop_first().len() implies is_space(
            #[trigger] a.drop_first()[i],
        ) by {
            assert(a.drop_first()[i] == a[i + 1]);
        }
        assert(all.drop_first() =~= a.drop_first() + word + rest);
        law_the_first_word(a.drop_first(), word, rest);
    } else {
        assert(all =~= word + rest);
        assert(!is_space(word[0]));
        lemma_word_prefix(word, rest);
    }
}

proof fn lemma_word_prefix(word: Seq<char>, rest: Seq<char>)
    requires
        forall|i: int| 0 <= i < word.len() ==> !is_space(#[trigger] word[i]),
        rest.len() > 0 ==> is_space(rest[0]),
    ensures
        word_prefix(word + rest) == word,
    decreases word.len(),
{
    let all = word + rest;
    if word.len() == 0 {
        assert(all =~= rest);
    } else {
        assert(!is_space(word[0]));
        assert forall|i: int| 0 <= i < word.drop_first().len() implies !is_space(
            #[trigger] word.drop_first()[i],
        ) by {
            assert(word.drop_first()[i] == word[i + 1]);
        }
        assert(all.drop_first() =~= word.drop_first() + rest);
        lemma_word_prefix(word.drop_first(), rest);
        assert(word =~= seq![word[0]] + word.drop_first());
    }
}

/// Written numbers are read back: a number of either sign, with a minus in front of a
/// negative one, and no zero in front of the others.
pub proof fn law_numbers_read_back(n: i64, m: u64)
    ensures
        parsed_i64(signed_decimal(n as int)) == Some(n),
        parsed_u64(decimal(m as nat)) == Some(m),
        n < 0 ==> signed_decimal(n as int)[0] == '-',
        n >= 0 ==> signed_decimal(n as int) == decimal(n as nat),
        m > 0 ==> decimal(m as nat)[0] != '0',
        decimal(0) =~= seq!['0'],
        number_value(seq!['7']) == 7,
{
    lemma_decimal_reads_back(m);
    lemma_no_zero_in_front(m as nat);
    let size = if n < 0 {
        (-(n as int)) as nat
    } else {
        n as nat
    };
    lemma_decimal_value(size);
    let digits = decimal(size);
    assert(is_digit(digits[0]));
    let s = signed_decimal(n as int);
    if n < 0 {
        assert(s.drop_first() =~= digits);
    }
    assert(seq!['7'].drop_last() =~= Seq::<char>::empty());
    reveal_with_fuel(number_value, 2);
}

proof fn lemma_no_zero_in_front(n: nat)
    ensures
        n > 0 ==> decimal(n)[0] != '0',
        decimal(n).len() > 0,
    decreases n,
{
    if n >= 10 {
        lemma_no_zero_in_front(n / 10);
    }
}

/// A text that is not digits, with at most one sign in front, is no number; nor is one that
/// does not fit.
pub proof fn law_other_texts_are_no_numbers(s: Seq<char>, i: int)
    requires
        0 <= i < s.len(),
        !('0' <= s[i] <= '9'),
    ensures
        i > 0 || s[0] != '+' ==> parsed_u64(s) is None,
        i > 0 || (s[0] != '+' && s[0] != '-') ==> parsed_i64(s) is None,
        parsed_u64(seq![]) is None,
        parsed_i64(seq![]) is None,
{
    if i > 0 {
        assert(s.drop_first()[i - 1] == s[i]);
    }
}

/// A text takes as many bytes as its characters together; an ASCII character takes one.
pub proof fn law_bytes_add_up(a: Seq<char>, b: Seq<char>, c: char)
    ensures
        byte_len(a + b) == byte_len(a) + byte_len(b),
        byte_len(a) >= a.len(),
        byte_len(a) == encode_utf8(a).len(),
        c <= '~' ==> byte_len(a.push(c)) == byte_len(a) + 1,
{
    lemma_byte_len_concat(a, b);
    lemma_byte_len_encoding(a);
    lemma_byte_len_push(a, c);
    lemma_byte_len_take(a, 0, a.len() as int);
    assert(a.take(a.len() as int) =~= a);
    assert(a.take(0) =~= Seq::<char>::empty());
}

/// A text begins with another where the characters agree one by one.
pub proof fn law_beginning_is_agreeing(hay: Seq<char>, needle: Seq<char>)
    ensures
        begins_with(hay, needle) <==> needle.len() <= hay.len() && forall|i: int|
            0 <= i < needle.len() ==> hay[i] == #[trigger] needle[i],
        begins_with(needle + hay, needle),
{
    assert((needle + hay).take(needle.len() as int) =~= needle);
    if begins_with(hay, needle) {
        assert forall|i: int| 0 <= i < needle.len() implies hay[i] == #[trigger] needle[i] by {
            assert(hay.take(needle.len() as int)[i] == hay[i]);
        }
    }
    if needle.len() <= hay.len() && forall|i: int|
        0 <= i < needle.len() ==> hay[i] == #[trigger] needle[i] {
        assert(hay.take(needle.len() as int) =~= needle);
    }
}

/// The characters that count as space, by their numbers: the five from the tab to the
/// carriage return, the blank, and the wider blanks and separators.
pub proof fn law_the_space_characters(c: char)
    ensures
        is_space(c) <==> {
            let u = c as u32;
            ||| u == 9
            ||| u == 10
            ||| u == 11
            ||| u == 12
            ||| u == 13
            ||| u == 32
            ||| u == 133
            ||| u == 160
            ||| u == 5760
            ||| 8192 <= u <= 8202
            ||| u == 8232
            ||| u == 8233
            ||| u == 8239
            ||| u == 8287
            ||| u == 12288
        },
{
}

} // verus!
