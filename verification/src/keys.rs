//! Key and mouse events, and the bytes that a terminal sends for them.

use vstd::prelude::*;
use vstd::slice::*;
use vstd::string::*;
use vstd::utf8::*;

use crate::text::ascii_lower;

verus! {

/// A key as the terminal library reports it. `Other` stands for the keys that
/// produce no terminal bytes (locks, media keys, bare modifiers).
#[derive(Clone, Copy, Debug, PartialEq, Eq, Structural)]
pub enum KeyCode {
    Backspace,
    Enter,
    Left,
    Right,
    Up,
    Down,
    Home,
    End,
    PageUp,
    PageDown,
    Tab,
    BackTab,
    Delete,
    Insert,
    F(u8),
    Char(char),
    Null,
    Esc,
    Other,
}

/// The modifiers held down with a key.
#[derive(Clone, Copy, Debug, PartialEq, Eq, Structural)]
pub struct KeyModifiers {
    pub shift: bool,
    pub control: bool,
    pub alt: bool,
    pub super_key: bool,
    pub hyper: bool,
    pub meta: bool,
}

#[derive(Clone, Copy, Debug, PartialEq, Eq, Structural)]
pub enum MouseButton {
    Left,
    Right,
    Middle,
}

#[derive(Clone, Copy, Debug, PartialEq, Eq, Structural)]
pub enum MouseEventKind {
    Down(MouseButton),
    Up(MouseButton),
    Drag(MouseButton),
    Moved,
    ScrollDown,
    ScrollUp,
    ScrollLeft,
    ScrollRight,
}

/// How the program in a pane wants mouse reports encoded.
#[derive(Clone, Copy, Debug, PartialEq, Eq, Structural)]
pub enum MouseProtocolEncoding {
    Default,
    Utf8,
    Sgr,
}

impl KeyModifiers {
    #[verifier::allow_in_spec]
    pub fn none() -> KeyModifiers
        returns
            (KeyModifiers {
                shift: false,
                control: false,
                alt: false,
                super_key: false,
                hyper: false,
                meta: false,
            }),
    {
        KeyModifiers {
            shift: false,
            control: false,
            alt: false,
            super_key: false,
            hyper: false,
            meta: false,
        }
    }

    /// Control and nothing else.
    #[verifier::allow_in_spec]
    pub fn control() -> KeyModifiers
        returns
            (KeyModifiers {
                shift: false,
                control: true,
                alt: false,
                super_key: false,
                hyper: false,
                meta: false,
            }),
    {
        KeyModifiers {
            shift: false,
            control: true,
            alt: false,
            super_key: false,
            hyper: false,
            meta: false,
        }
    }

    #[verifier::allow_in_spec]
    pub fn is_empty(self) -> bool
        returns
            self == KeyModifiers::none(),
    {
        self == KeyModifiers::none()
    }
}

/// The bytes of one key press, at most eight, held without a heap allocation.
pub struct KeyBytes {
    buf: [u8; 8],
    len: usize,
}

impl View for KeyBytes {
    type V = Seq<u8>;

    closed spec fn view(&self) -> Seq<u8> {
        self.buf@.take(self.len as int)
    }
}

impl KeyBytes {
    /// The length never exceeds the buffer.
    #[verifier::type_invariant]
    spec fn fits(self) -> bool {
        self.len <= 8
    }

    pub fn empty() -> (r: Self)
        ensures
            r@ == Seq::<u8>::empty(),
    {
        let r = KeyBytes { buf: [0, 0, 0, 0, 0, 0, 0, 0], len: 0 };
        assert(r@ =~= Seq::<u8>::empty());
        r
    }

    /// The first eight bytes of `s`.
    pub fn from_slice(s: &[u8]) -> (r: Self)
        ensures
            r@ == if s@.len() <= 8 {
                s@
            } else {
                s@.take(8)
            },
    {
        let mut buf: [u8; 8] = [0, 0, 0, 0, 0, 0, 0, 0];
        let len: usize = if s.len() < 8 {
            s.len()
        } else {
            8
        };
        let mut i: usize = 0;
        while i < len
            invariant
                i <= len <= 8,
                len <= s@.len(),
                forall|k: int| 0 <= k < i ==> buf@[k] == s@[k],
            decreases len - i,
        {
            buf[i] = s[i];
            i += 1;
        }
        let r = KeyBytes { buf, len };
        assert(r@ =~= s@.take(len as int));
        assert(s@.len() <= 8 ==> s@.take(len as int) =~= s@);
        r
    }

    pub fn as_bytes(&self) -> (r: &[u8])
        ensures
            r@ == self@,
            r@.len() <= 8,
    {
        proof {
            use_type_invariant(self);
        }
        let r = slice_subrange(self.buf.as_slice(), 0, self.len);
        assert(r@ =~= self@);
        r
    }
}

/// The bytes of a key without modifiers; empty for a key that sends none.
pub open spec fn base_sequence(code: KeyCode) -> Seq<u8> {
    match code {
        KeyCode::Char(c) => encode_utf8(seq![c]),
        KeyCode::Esc => seq![0x1b],
        KeyCode::Enter => seq![0x0d],
        KeyCode::Backspace => seq![0x7f],
        KeyCode::Tab => seq![0x09],
        KeyCode::BackTab => seq![0x1b, 0x5b, 0x5a],
        KeyCode::Up => seq![0x1b, 0x5b, 0x41],
        KeyCode::Down => seq![0x1b, 0x5b, 0x42],
        KeyCode::Right => seq![0x1b, 0x5b, 0x43],
        KeyCode::Left => seq![0x1b, 0x5b, 0x44],
        KeyCode::Home => seq![0x1b, 0x5b, 0x48],
        KeyCode::End => seq![0x1b, 0x5b, 0x46],
        KeyCode::Insert => seq![0x1b, 0x5b, 0x32, 0x7e],
        KeyCode::Delete => seq![0x1b, 0x5b, 0x33, 0x7e],
        KeyCode::PageUp => seq![0x1b, 0x5b, 0x35, 0x7e],
        KeyCode::PageDown => seq![0x1b, 0x5b, 0x36, 0x7e],
        KeyCode::Null => seq![0x00],
        KeyCode::F(n) => if 1 <= n <= 4 {
            seq![0x1b, 0x4f, (0x4f + n) as u8]
        } else if 5 <= n <= 12 {
            seq![0x1b, 0x5b, function_key_tens(n), function_key_units(n), 0x7e]
        } else {
            seq![]
        },
        KeyCode::Other => seq![],
    }
}

/// First digit of the parameter of F5 to F12 (15, 17, 18, 19, 20, 21, 23, 24).
pub open spec fn function_key_tens(n: u8) -> u8 {
    if n <= 8 {
        0x31
    } else {
        0x32
    }
}

/// Second digit of the parameter of F5 to F12.
pub open spec fn function_key_units(n: u8) -> u8 {
    if n == 5 {
        0x35
    } else if n <= 8 {
        (0x31 + n) as u8
    } else if n <= 10 {
        (0x27 + n) as u8
    } else {
        (0x28 + n) as u8
    }
}

/// The digit that encodes a set of modifiers: one, plus one for shift, two for
/// alt and four for control.
pub open spec fn modifier_digit(m: KeyModifiers) -> u8 {
    (0x31 + (if m.shift {
        1int
    } else {
        0
    }) + (if m.alt {
        2int
    } else {
        0
    }) + (if m.control {
        4int
    } else {
        0
    })) as u8
}

/// The final letter of the keys that are written `ESC [ 1 ; m X` with modifiers.
pub open spec fn letter_of(code: KeyCode) -> Option<u8> {
    match code {
        KeyCode::Up => Some(0x41),
        KeyCode::Down => Some(0x42),
        KeyCode::Right => Some(0x43),
        KeyCode::Left => Some(0x44),
        KeyCode::Home => Some(0x48),
        KeyCode::End => Some(0x46),
        KeyCode::F(n) => if 1 <= n <= 4 {
            Some((0x4f + n) as u8)
        } else {
            None
        },
        _ => None,
    }
}

/// The parameter of the keys that are written `ESC [ n ; m ~` with modifiers.
pub open spec fn tilde_of(code: KeyCode) -> Option<Seq<u8>> {
    match code {
        KeyCode::Insert => Some(seq![0x32]),
        KeyCode::Delete => Some(seq![0x33]),
        KeyCode::PageUp => Some(seq![0x35]),
        KeyCode::PageDown => Some(seq![0x36]),
        KeyCode::F(n) => if 5 <= n <= 12 {
            Some(seq![function_key_tens(n), function_key_units(n)])
        } else {
            None
        },
        _ => None,
    }
}

/// The bytes of a special key with modifiers, where xterm has a form for it.
pub open spec fn modified_sequence(code: KeyCode, m: KeyModifiers) -> Option<Seq<u8>> {
    match letter_of(code) {
        Some(x) => Some(seq![0x1b, 0x5b, 0x31, 0x3b, modifier_digit(m), x]),
        None => match tilde_of(code) {
            Some(n) => Some(seq![0x1b, 0x5b] + n + seq![0x3b, modifier_digit(m), 0x7e]),
            None => None,
        },
    }
}

/// The control code of a character: the distance of its lower case from the
/// character before `a`, in one byte.
pub open spec fn control_byte(c: char) -> u8 {
    (((ascii_lower(c) as u32) as int % 256 - 96) % 256) as u8
}

/// The bytes that a key press sends.
pub open spec fn key_sequence(code: KeyCode, m: KeyModifiers) -> Seq<u8> {
    if m.control && code is Char {
        seq![control_byte(code->Char_0)]
    } else if !m.is_empty() && !(code is Char) && modified_sequence(code, m) is Some {
        modified_sequence(code, m)->0
    } else if m.alt {
        if base_sequence(code).len() > 0 {
            seq![0x1b] + base_sequence(code)
        } else {
            seq![]
        }
    } else {
        base_sequence(code)
    }
}

fn from_bytes(v: Vec<u8>) -> (r: KeyBytes)
    requires
        v@.len() <= 8,
    ensures
        r@ == v@,
{
    KeyBytes::from_slice(v.as_slice())
}

proof fn lemma_utf8_char_len(c: char)
    ensures
        1 <= encode_utf8(seq![c]).len() <= 4,
{
    char_is_scalar(c);
    reveal_with_fuel(encode_utf8, 2);
    assert(seq![c].drop_first() =~= Seq::<char>::empty());
    assert(encode_utf8(seq![c]) =~= encode_scalar(c as u32));
}

/// Map a key without modifiers to its terminal bytes.
pub fn keycode_to_bytes_base(code: KeyCode) -> (r: KeyBytes)
    ensures
        r@ == base_sequence(code),
        r@.len() <= 5,
{
    match code {
        KeyCode::Char(c) => {
            let mut s = String::new();
            s.push(c);
            proof {
                lemma_utf8_char_len(c);
                assert(s@ =~= seq![c]);
            }
            KeyBytes::from_slice(s.as_str().as_bytes())
        },
        KeyCode::Esc => from_bytes(vec![0x1b]),
        KeyCode::Enter => from_bytes(vec![0x0d]),
        KeyCode::Backspace => from_bytes(vec![0x7f]),
        KeyCode::Tab => from_bytes(vec![0x09]),
        KeyCode::BackTab => from_bytes(vec![0x1b, 0x5b, 0x5a]),
        KeyCode::Up => from_bytes(vec![0x1b, 0x5b, 0x41]),
        KeyCode::Down => from_bytes(vec![0x1b, 0x5b, 0x42]),
        KeyCode::Right => from_bytes(vec![0x1b, 0x5b, 0x43]),
        KeyCode::Left => from_bytes(vec![0x1b, 0x5b, 0x44]),
        KeyCode::Home => from_bytes(vec![0x1b, 0x5b, 0x48]),
        KeyCode::End => from_bytes(vec![0x1b, 0x5b, 0x46]),
        KeyCode::Insert => from_bytes(vec![0x1b, 0x5b, 0x32, 0x7e]),
        KeyCode::Delete => from_bytes(vec![0x1b, 0x5b, 0x33, 0x7e]),
        KeyCode::PageUp => from_bytes(vec![0x1b, 0x5b, 0x35, 0x7e]),
        KeyCode::PageDown => from_bytes(vec![0x1b, 0x5b, 0x36, 0x7e]),
        KeyCode::Null => from_bytes(vec![0x00]),
        KeyCode::F(n) => if 1 <= n && n <= 4 {
            from_bytes(vec![0x1b, 0x4f, 0x4f + n])
        } else if 5 <= n && n <= 12 {
            from_bytes(vec![0x1b, 0x5b, tens_digit(n), units_digit(n), 0x7e])
        } else {
            KeyBytes::empty()
        },
        KeyCode::Other => KeyBytes::empty(),
    }
}

fn tens_digit(n: u8) -> (r: u8)
    ensures
        r == function_key_tens(n),
{
    if n <= 8 {
        0x31
    } else {
        0x32
    }
}

fn units_digit(n: u8) -> (r: u8)
    requires
        5 <= n <= 12,
    ensures
        r == function_key_units(n),
{
    if n == 5 {
        0x35
    } else if n <= 8 {
        0x31 + n
    } else if n <= 10 {
        0x27 + n
    } else {
        0x28 + n
    }
}

fn modifier_code(m: KeyModifiers) -> (r: u8)
    ensures
        r == modifier_digit(m),
{
    let shift: u8 = if m.shift {
        1
    } else {
        0
    };
    let alt: u8 = if m.alt {
        2
    } else {
        0
    };
    let control: u8 = if m.control {
        4
    } else {
        0
    };
    0x31 + shift + alt + control
}

/// Encode a special key with modifiers in xterm's form. `None` where the key has
/// no such form.
pub fn modified_special_key(code: KeyCode, modifiers: KeyModifiers) -> (r: Option<KeyBytes>)
    ensures
        r is Some <==> modified_sequence(code, modifiers) is Some,
        r matches Some(b) ==> b@ == modified_sequence(
            code,
            modifiers,
        )->0,
{
    let digit: u8 = modifier_code(modifiers);
    let letter: Option<u8> = match code {
        KeyCode::Up => Some(0x41),
        KeyCode::Down => Some(0x42),
        KeyCode::Right => Some(0x43),
        KeyCode::Left => Some(0x44),
        KeyCode::Home => Some(0x48),
        KeyCode::End => Some(0x46),
        KeyCode::F(n) => if 1 <= n && n <= 4 {
            Some(0x4f + n)
        } else {
            None
        },
        _ => None,
    };
    if let Some(k) = letter {
        return Some(from_bytes(vec![0x1b, 0x5b, 0x31, 0x3b, digit, k]));
    }
    let tilde: Option<u8> = match code {
        KeyCode::Insert => Some(0x32),
        KeyCode::Delete => Some(0x33),
        KeyCode::PageUp => Some(0x35),
        KeyCode::PageDown => Some(0x36),
        _ => None,
    };
    if let Some(n) = tilde {
        let v: Vec<u8> = vec![0x1b, 0x5b, n, 0x3b, digit, 0x7e];
        assert(v@ =~= seq![0x1b, 0x5b] + seq![n] + seq![0x3b, digit, 0x7e]);
        return Some(from_bytes(v));
    }
    if let KeyCode::F(n) = code {
        if 5 <= n && n <= 12 {
            let v: Vec<u8> = vec![0x1b, 0x5b, tens_digit(n), units_digit(n), 0x3b, digit, 0x7e];
            assert(v@ =~= seq![0x1b, 0x5b] + seq![function_key_tens(n), function_key_units(n)]
                + seq![0x3b, digit, 0x7e]);
            return Some(from_bytes(v));
        }
    }
    None
}

fn control_code(c: char) -> (r: u8)
    ensures
        r == control_byte(c),
{
    let raw: u32 = c as u32;
    let u: u32 = if 'A' <= c && c <= 'Z' {
        raw + 32
    } else {
        raw
    };
    let low: u8 = (u % 256) as u8;
    low.wrapping_sub(97).wrapping_add(1)
}

/// Convert a key press into the bytes that a terminal would send.
pub fn keycode_to_bytes(code: KeyCode, modifiers: KeyModifiers) -> (r: KeyBytes)
    ensures
        r@ == key_sequence(code, modifiers),
{
    if modifiers.control {
        if let KeyCode::Char(c) = code {
            return from_bytes(vec![control_code(c)]);
        }
    }
    let is_char = matches!(code, KeyCode::Char(_));
    if !modifiers.is_empty() && !is_char {
        if let Some(bytes) = modified_special_key(code, modifiers) {
            return bytes;
        }
    }
    if modifiers.alt {
        let base = keycode_to_bytes_base(code);
        let bytes = base.as_bytes();
        if bytes.len() > 0 {
            let mut v: Vec<u8> = vec![0x1b];
            let mut i: usize = 0;
            while i < bytes.len()
                invariant
                    i <= bytes@.len() <= 5,
                    v@ == seq![0x1bu8] + bytes@.take(i as int),
                decreases bytes@.len() - i,
            {
                assert(seq![0x1bu8] + bytes@.take(i as int + 1) =~= (seq![0x1bu8] + bytes@.take(
                    i as int,
                )).push(bytes@[i as int]));
                v.push(bytes[i]);
                i += 1;
            }
            assert(bytes@.take(i as int) =~= bytes@);
            return from_bytes(v);
        }
        return KeyBytes::empty();
    }
    keycode_to_bytes_base(code)
}

/// A number in ASCII digits.
pub open spec fn ascii_digits(n: nat) -> Seq<u8>
    decreases n,
{
    if n < 10 {
        seq![(0x30 + n) as u8]
    } else {
        ascii_digits(n / 10).push((0x30 + n % 10) as u8)
    }
}

fn push_digits(out: &mut Vec<u8>, n: u32)
    ensures
        final(out)@ == old(out)@ + ascii_digits(n as nat),
    decreases n,
{
    if n >= 10 {
        push_digits(out, n / 10);
    }
    let ghost before = out@;
    out.push(0x30 + (n % 10) as u8);
    proof {
        if n < 10 {
            assert(out@ =~= old(out)@ + ascii_digits(n as nat));
        } else {
            assert(out@ =~= old(out)@ + ascii_digits(n as nat / 10).push(
                (0x30 + n as nat % 10) as u8,
            ));
        }
    }
}

/// The button number of a mouse report and whether the button was let go; `None`
/// for the events that the protocol does not cover.
pub open spec fn mouse_button(kind: MouseEventKind) -> Option<(u8, bool)> {
    match kind {
        MouseEventKind::Down(b) => Some((button_number(b), false)),
        MouseEventKind::Up(b) => Some((button_number(b), true)),
        MouseEventKind::Drag(b) => Some(((32 + button_number(b)) as u8, false)),
        MouseEventKind::ScrollUp => Some((64, false)),
        MouseEventKind::ScrollDown => Some((65, false)),
        MouseEventKind::Moved => Some((35, false)),
        _ => None,
    }
}

pub open spec fn button_number(b: MouseButton) -> u8 {
    match b {
        MouseButton::Left => 0,
        MouseButton::Middle => 1,
        MouseButton::Right => 2,
    }
}

/// A coordinate of the older reports: one-based, capped at 223, the highest that they
/// can name, and moved up by 32.
pub open spec fn legacy_coordinate(n: u16) -> u8 {
    (if n < 222 {
        n + 1
    } else {
        223
    } + 32) as u8
}

/// The bytes of a mouse report.
pub open spec fn mouse_sequence(
    button: u8,
    release: bool,
    col: u16,
    row: u16,
    encoding: MouseProtocolEncoding,
) -> Seq<u8> {
    if encoding == MouseProtocolEncoding::Sgr {
        seq![0x1bu8, 0x5b, 0x3c] + ascii_digits(button as nat) + seq![0x3bu8] + ascii_digits(
            (col + 1) as nat,
        ) + seq![0x3bu8] + ascii_digits((row + 1) as nat) + seq![
            if release {
                0x6du8
            } else {
                0x4d
            },
        ]
    } else {
        seq![
            0x1bu8,
            0x5b,
            0x4d,
            if release {
                35u8
            } else {
                (button + 32) as u8
            },
            legacy_coordinate(col),
            legacy_coordinate(row),
        ]
    }
}

fn number_of(b: MouseButton) -> (r: u8)
    ensures
        r == button_number(b),
{
    match b {
        MouseButton::Left => 0,
        MouseButton::Middle => 1,
        MouseButton::Right => 2,
    }
}

fn legacy(n: u16) -> (r: u8)
    ensures
        r == legacy_coordinate(n),
{
    let capped: u8 = if n < 222 {
        (n + 1) as u8
    } else {
        223
    };
    capped + 32
}

/// Encode a mouse event for a program that has asked for mouse reports. `None`
/// for the events that the protocol does not cover.
pub fn encode_mouse_event(
    kind: &MouseEventKind,
    vt_col: u16,
    vt_row: u16,
    encoding: MouseProtocolEncoding,
) -> (r: Option<Vec<u8>>)
    ensures
        r is Some <==> mouse_button(*kind) is Some,
        r matches Some(v) ==> v@ == mouse_sequence(
            (mouse_button(*kind)->0).0,
            (mouse_button(*kind)->0).1,
            vt_col,
            vt_row,
            encoding,
        ),
{
    let (button, release): (u8, bool) = match *kind {
        MouseEventKind::Down(b) => (number_of(b), false),
        MouseEventKind::Up(b) => (number_of(b), true),
        MouseEventKind::Drag(b) => (32 + number_of(b), false),
        MouseEventKind::ScrollUp => (64, false),
        MouseEventKind::ScrollDown => (65, false),
        MouseEventKind::Moved => (35, false),
        _ => return None,
    };
    match encoding {
        MouseProtocolEncoding::Sgr => {
            let mut v: Vec<u8> = vec![0x1b, 0x5b, 0x3c];
            push_digits(&mut v, button as u32);
            v.push(0x3b);
            push_digits(&mut v, vt_col as u32 + 1);
            v.push(0x3b);
            push_digits(&mut v, vt_row as u32 + 1);
            let suffix: u8 = if release {
                0x6d
            } else {
                0x4d
            };
            v.push(suffix);
            assert(v@ =~= mouse_sequence(button, release, vt_col, vt_row, encoding));
            Some(v)
        },
        _ => {
            let code: u8 = if release {
                35
            } else {
                button + 32
            };
            let v: Vec<u8> = vec![0x1b, 0x5b, 0x4d, code, legacy(vt_col), legacy(vt_row)];
            assert(v@ =~= mouse_sequence(button, release, vt_col, vt_row, encoding));
            Some(v)
        },
    }
}

/// Every key press fits the eight bytes of a `KeyBytes`: no sequence is cut short.
pub proof fn law_key_sequences_fit(code: KeyCode, m: KeyModifiers)
    ensures
        key_sequence(code, m).len() <= 8,
{
    if let KeyCode::Char(c) = code {
        lemma_utf8_char_len(c);
    }
}

/// Holding alt puts an escape byte in front of the bytes of a key, unless xterm has a
/// form of its own for the key with modifiers.
pub proof fn law_alt_prefixes_escape(code: KeyCode, m: KeyModifiers)
    requires
        m.alt,
        !(m.control && code is Char),
        modified_sequence(code, m) is None,
        base_sequence(code).len() > 0,
    ensures
        key_sequence(code, m) == seq![0x1bu8] + key_sequence(code, KeyModifiers::none()),
{
}

/// A key that xterm has a form of its own for is sent in that form with any modifiers.
pub proof fn law_modified_keys_have_their_form(code: KeyCode, m: KeyModifiers)
    requires
        !m.is_empty(),
        modified_sequence(code, m) is Some,
    ensures
        key_sequence(code, m) == modified_sequence(code, m)->0,
{
}

/// The older reports name no place twice before their cap, and every place behind it by
/// the cap.
pub proof fn law_legacy_coordinates_are_capped(a: u16, b: u16)
    ensures
        a < b < 223 ==> legacy_coordinate(a) < legacy_coordinate(b),
        222 <= a ==> legacy_coordinate(a) == 255,
        33 <= legacy_coordinate(a),
{
}

/// Upper and lower case letters share their control code.
pub proof fn law_control_ignores_case(c: char, m: KeyModifiers)
    requires
        m.control,
    ensures
        key_sequence(KeyCode::Char(c), m) == key_sequence(KeyCode::Char(ascii_lower(c)), m),
{
    assert(ascii_lower(ascii_lower(c)) == ascii_lower(c));
}

/// An arrow, Home or End without a modifier sends the introducer and a letter: up to left
/// the letters A to D, Home H and End F.
pub proof fn law_plain_cursor_keys_send_their_letter(m: KeyModifiers)
    requires
        m.is_empty(),
    ensures
        key_sequence(KeyCode::Up, m) =~= seq![0x1bu8, 0x5b, 0x41],
        key_sequence(KeyCode::Down, m) =~= seq![0x1bu8, 0x5b, 0x42],
        key_sequence(KeyCode::Right, m) =~= seq![0x1bu8, 0x5b, 0x43],
        key_sequence(KeyCode::Left, m) =~= seq![0x1bu8, 0x5b, 0x44],
        key_sequence(KeyCode::Home, m) =~= seq![0x1bu8, 0x5b, 0x48],
        key_sequence(KeyCode::End, m) =~= seq![0x1bu8, 0x5b, 0x46],
{
}

/// A cursor key ends in the same letter with modifiers and without. What the modifiers
/// change is what stands between the introducer and the letter: a one, a semicolon and a
/// digit.
pub proof fn law_modifiers_keep_the_letter(code: KeyCode, none: KeyModifiers, m: KeyModifiers)
    requires
        none.is_empty(),
        !m.is_empty(),
        code == KeyCode::Up || code == KeyCode::Down || code == KeyCode::Left || code
            == KeyCode::Right || code == KeyCode::Home || code == KeyCode::End,
    ensures
        key_sequence(code, none).len() == 3,
        key_sequence(code, m).len() == 6,
        key_sequence(code, m).last() == key_sequence(code, none).last(),
        key_sequence(code, m).take(2) =~= key_sequence(code, none).take(2),
        key_sequence(code, none).take(2) =~= seq![0x1bu8, 0x5b],
        key_sequence(code, m).subrange(2, 4) =~= seq![0x31u8, 0x3b],
        0x31 < key_sequence(code, m)[4] <= 0x38 || !(m.shift || m.alt || m.control),
{
}

/// A key that sends a number and a tilde sends the same number with modifiers and without.
pub proof fn law_modifiers_keep_the_number(code: KeyCode, none: KeyModifiers, m: KeyModifiers)
    requires
        none.is_empty(),
        !m.is_empty(),
        code == KeyCode::Insert || code == KeyCode::Delete || code == KeyCode::PageUp || code
            == KeyCode::PageDown || (code is F && 5 <= code->F_0 <= 12),
    ensures
        key_sequence(code, none).last() == 0x7e,
        key_sequence(code, m).last() == 0x7e,
        key_sequence(code, m).len() == key_sequence(code, none).len() + 2,
        key_sequence(code, m).take(key_sequence(code, none).len() - 1)
            =~= key_sequence(code, none).drop_last(),
        key_sequence(code, m)[key_sequence(code, none).len() - 1] == 0x3b,
{
}

/// The digit that stands for the modifiers is a one to which shift adds one, alt two and
/// control four, each whatever the others are.
pub proof fn law_each_modifier_adds_its_share(code: KeyCode, m: KeyModifiers, with: KeyModifiers)
    requires
        !m.is_empty(),
        !(code is Char),
        key_sequence(code, m).len() >= 6,
        with.alt == m.alt,
        with.control == m.control,
        !m.shift,
        with.shift,
    ensures
        key_sequence(code, with).len() == key_sequence(code, m).len(),
        key_sequence(code, with)[key_sequence(code, m).len() - 2] == key_sequence(
            code,
            m,
        )[key_sequence(code, m).len() - 2] + 1,
        key_sequence(code, with).last() == key_sequence(code, m).last(),
{
    lemma_long_sequences(code, m);
    lemma_long_sequences(code, with);
}

/// Only a modified key sends six bytes or more, the last but one the modifiers' digit.
proof fn lemma_long_sequences(code: KeyCode, m: KeyModifiers)
    requires
        !(code is Char),
        !m.is_empty(),
    ensures
        key_sequence(code, m).len() >= 6 <==> modified_sequence(code, m) is Some,
        modified_sequence(code, m) matches Some(s) ==> s.len() >= 6 && s[s.len() - 2]
            == modifier_digit(m),
{
}

/// What each modifier alone, and each two of them, make of a modified key's digit.
pub proof fn law_modifier_digits(code: KeyCode, m: KeyModifiers)
    requires
        !m.is_empty(),
        !(code is Char),
        key_sequence(code, m).len() >= 6,
    ensures
        ({
            let d = key_sequence(code, m)[key_sequence(code, m).len() - 2];
            &&& m.shift && !m.alt && !m.control ==> d == 0x32
            &&& !m.shift && m.alt && !m.control ==> d == 0x33
            &&& m.shift && m.alt && !m.control ==> d == 0x34
            &&& !m.shift && !m.alt && m.control ==> d == 0x35
            &&& m.shift && !m.alt && m.control ==> d == 0x36
            &&& !m.shift && m.alt && m.control ==> d == 0x37
            &&& m.shift && m.alt && m.control ==> d == 0x38
            &&& !m.shift && !m.alt && !m.control ==> d == 0x31
        }),
{
    lemma_long_sequences(code, m);
}

/// The bytes of the other keys without a modifier. A function key beyond the twelfth, and
/// a key without a code, send nothing.
pub proof fn law_plain_keys_send_their_bytes(m: KeyModifiers, n: u8)
    requires
        m.is_empty(),
    ensures
        key_sequence(KeyCode::Enter, m) =~= seq![0x0du8],
        key_sequence(KeyCode::Backspace, m) =~= seq![0x7fu8],
        key_sequence(KeyCode::Tab, m) =~= seq![0x09u8],
        key_sequence(KeyCode::BackTab, m) =~= seq![0x1bu8, 0x5b, 0x5a],
        key_sequence(KeyCode::Esc, m) =~= seq![0x1bu8],
        key_sequence(KeyCode::Null, m) =~= seq![0x00u8],
        key_sequence(KeyCode::Insert, m) =~= seq![0x1bu8, 0x5b, 0x32, 0x7e],
        key_sequence(KeyCode::Delete, m) =~= seq![0x1bu8, 0x5b, 0x33, 0x7e],
        key_sequence(KeyCode::PageUp, m) =~= seq![0x1bu8, 0x5b, 0x35, 0x7e],
        key_sequence(KeyCode::PageDown, m) =~= seq![0x1bu8, 0x5b, 0x36, 0x7e],
        key_sequence(KeyCode::F(1), m) =~= seq![0x1bu8, 0x4f, 0x50],
        key_sequence(KeyCode::F(2), m) =~= seq![0x1bu8, 0x4f, 0x51],
        key_sequence(KeyCode::F(3), m) =~= seq![0x1bu8, 0x4f, 0x52],
        key_sequence(KeyCode::F(4), m) =~= seq![0x1bu8, 0x4f, 0x53],
        key_sequence(KeyCode::F(5), m) =~= seq![0x1bu8, 0x5b, 0x31, 0x35, 0x7e],
        key_sequence(KeyCode::F(6), m) =~= seq![0x1bu8, 0x5b, 0x31, 0x37, 0x7e],
        key_sequence(KeyCode::F(7), m) =~= seq![0x1bu8, 0x5b, 0x31, 0x38, 0x7e],
        key_sequence(KeyCode::F(8), m) =~= seq![0x1bu8, 0x5b, 0x31, 0x39, 0x7e],
        key_sequence(KeyCode::F(9), m) =~= seq![0x1bu8, 0x5b, 0x32, 0x30, 0x7e],
        key_sequence(KeyCode::F(10), m) =~= seq![0x1bu8, 0x5b, 0x32, 0x31, 0x7e],
        key_sequence(KeyCode::F(11), m) =~= seq![0x1bu8, 0x5b, 0x32, 0x33, 0x7e],
        key_sequence(KeyCode::F(12), m) =~= seq![0x1bu8, 0x5b, 0x32, 0x34, 0x7e],
        n == 0 || n > 12 ==> key_sequence(KeyCode::F(n), m).len() == 0,
        key_sequence(KeyCode::Other, m).len() == 0,
{
}

/// A character sends its own encoding: below 128 the one byte of its number. Shift changes
/// nothing, alt puts an escape in front.
pub proof fn law_characters_send_themselves(c: char, m: KeyModifiers)
    requires
        !m.control,
    ensures
        !m.alt ==> key_sequence(KeyCode::Char(c), m) == encode_utf8(seq![c]),
        m.alt && encode_utf8(seq![c]).len() > 0 ==> key_sequence(KeyCode::Char(c), m) =~= seq![
            0x1bu8,
        ] + encode_utf8(seq![c]),
{
}

/// With control the letters a to z, small or large, send the bytes one to twenty-six.
pub proof fn law_control_letters_count_from_one(m: KeyModifiers, c: char, d: char)
    requires
        m.control,
        'a' <= c <= 'z',
        'A' <= d <= 'Z',
    ensures
        key_sequence(KeyCode::Char(c), m) =~= seq![((c as u32) - 96) as u8],
        key_sequence(KeyCode::Char(d), m) =~= seq![((d as u32) - 64) as u8],
        key_sequence(KeyCode::Char('a'), m) =~= seq![1u8],
        key_sequence(KeyCode::Char('c'), m) =~= seq![3u8],
        key_sequence(KeyCode::Char('Z'), m) =~= seq![26u8],
{
}

/// Alt in front of a key that takes no modifier number puts an escape before its bytes.
pub proof fn law_alt_puts_an_escape_in_front(m: KeyModifiers)
    requires
        m.alt,
    ensures
        key_sequence(KeyCode::Enter, m) =~= seq![0x1bu8, 0x0d],
        key_sequence(KeyCode::Backspace, m) =~= seq![0x1bu8, 0x7f],
        key_sequence(KeyCode::Tab, m) =~= seq![0x1bu8, 0x09],
        key_sequence(KeyCode::Esc, m) =~= seq![0x1bu8, 0x1b],
        key_sequence(KeyCode::BackTab, m) =~= seq![0x1bu8, 0x1b, 0x5b, 0x5a],
{
}

/// The numbers of the mouse buttons: left, middle and right count from zero, a drag adds
/// thirty-two, the wheel sends sixty-four up and one more down. A release has its button's
/// own number. Sideways wheels send nothing.
pub proof fn law_mouse_buttons(b: MouseButton)
    ensures
        mouse_button(MouseEventKind::Down(MouseButton::Left)) == Some((0u8, false)),
        mouse_button(MouseEventKind::Down(MouseButton::Middle)) == Some((1u8, false)),
        mouse_button(MouseEventKind::Down(MouseButton::Right)) == Some((2u8, false)),
        mouse_button(MouseEventKind::Down(b)) matches Some((n, _)) ==> mouse_button(
            MouseEventKind::Up(b),
        ) == Some((n, true)) && mouse_button(MouseEventKind::Drag(b)) == Some(
            ((n + 32) as u8, false),
        ),
        mouse_button(MouseEventKind::ScrollUp) == Some((64u8, false)),
        mouse_button(MouseEventKind::ScrollDown) == Some((65u8, false)),
        mouse_button(MouseEventKind::Moved) == Some((35u8, false)),
        mouse_button(MouseEventKind::ScrollLeft) is None,
        mouse_button(MouseEventKind::ScrollRight) is None,
{
}

/// In the extended encoding a release differs from a press in the last byte alone, `m` for
/// `M`; in the old encodings it sends the number three for any button.
pub proof fn law_releases_are_told_apart(
    button: u8,
    col: u16,
    row: u16,
    encoding: MouseProtocolEncoding,
)
    ensures
        encoding == MouseProtocolEncoding::Sgr ==> {
            let press = mouse_sequence(button, false, col, row, encoding);
            let release = mouse_sequence(button, true, col, row, encoding);
            &&& press.last() == 0x4d
            &&& release.last() == 0x6d
            &&& press.drop_last() =~= release.drop_last()
        },
        encoding != MouseProtocolEncoding::Sgr ==> mouse_sequence(
            button,
            true,
            col,
            row,
            encoding,
        )[3] == 35,
        encoding != MouseProtocolEncoding::Sgr && button < 200 ==> mouse_sequence(
            button,
            false,
            col,
            row,
            encoding,
        )[3] == button + 32,
{
    if encoding == MouseProtocolEncoding::Sgr {
        let press = mouse_sequence(button, false, col, row, encoding);
        let release = mouse_sequence(button, true, col, row, encoding);
        assert(press.drop_last() =~= release.drop_last());
    }
}

/// Coordinates count from one. The old encodings add thirty-two and stop at the largest
/// byte.
pub proof fn law_coordinates_count_from_one(
    button: u8,
    release: bool,
    col: u16,
    row: u16,
    encoding: MouseProtocolEncoding,
)
    requires
        encoding != MouseProtocolEncoding::Sgr,
    ensures
        mouse_sequence(button, release, col, row, encoding).len() == 6,
        mouse_sequence(button, release, col, row, encoding).take(3) =~= seq![0x1bu8, 0x5b, 0x4d],
        col <= 222 ==> mouse_sequence(button, release, col, row, encoding)[4] == col + 33,
        row <= 222 ==> mouse_sequence(button, release, col, row, encoding)[5] == row + 33,
        col > 222 ==> mouse_sequence(button, release, col, row, encoding)[4] == 255,
        row > 222 ==> mouse_sequence(button, release, col, row, encoding)[5] == 255,
{
}

/// The number that a run of decimal digits stands for.
pub open spec fn digits_number(s: Seq<u8>) -> int
    decreases s.len(),
{
    if s.len() == 0 {
        0
    } else {
        digits_number(s.drop_last()) * 10 + (s.last() - 0x30)
    }
}

/// Written digits are decimal digits, at least one, and stand for the number written.
pub proof fn law_digits_say_the_number(n: nat)
    ensures
        ascii_digits(n).len() > 0,
        digits_number(ascii_digits(n)) == n,
        forall|i: int| 0 <= i < ascii_digits(n).len() ==> 0x30 <= #[trigger] ascii_digits(n)[i]
            <= 0x39,
        n > 0 ==> ascii_digits(n)[0] != 0x30,
    decreases n,
{
    reveal_with_fuel(digits_number, 2);
    if n >= 10 {
        law_digits_say_the_number(n / 10);
        assert(ascii_digits(n).drop_last() =~= ascii_digits(n / 10));
    } else {
        assert(ascii_digits(n).drop_last() =~= Seq::<u8>::empty());
    }
}

/// What an extended report says before its last byte: the button, the column and the row
/// in decimal digits, with semicolons between.
pub open spec fn reports_at(report: Seq<u8>, b: Seq<u8>, x: Seq<u8>, y: Seq<u8>) -> bool {
    &&& report =~= seq![0x1bu8, 0x5b, 0x3c] + b + seq![0x3bu8] + x + seq![0x3bu8] + y
    &&& forall|k: int| 0 <= k < b.len() ==> 0x30 <= #[trigger] b[k] <= 0x39
    &&& forall|k: int| 0 <= k < x.len() ==> 0x30 <= #[trigger] x[k] <= 0x39
    &&& forall|k: int| 0 <= k < y.len() ==> 0x30 <= #[trigger] y[k] <= 0x39
}

/// The extended encoding says the button, the column and the row, in this order; the
/// column and the row count from one.
pub proof fn law_extended_reports_say_where(button: u8, release: bool, col: u16, row: u16)
    ensures
        exists|b: Seq<u8>, x: Seq<u8>, y: Seq<u8>| #[trigger]
            reports_at(
                mouse_sequence(button, release, col, row, MouseProtocolEncoding::Sgr).drop_last(),
                b,
                x,
                y,
            ) && digits_number(b) == button && digits_number(x) == col + 1 && digits_number(y)
                == row + 1,
{
    let b = ascii_digits(button as nat);
    let x = ascii_digits((col + 1) as nat);
    let y = ascii_digits((row + 1) as nat);
    law_digits_say_the_number(button as nat);
    law_digits_say_the_number((col + 1) as nat);
    law_digits_say_the_number((row + 1) as nat);
    let report = mouse_sequence(
        button,
        release,
        col,
        row,
        MouseProtocolEncoding::Sgr,
    ).drop_last();
    assert(report =~= seq![0x1bu8, 0x5b, 0x3c] + b + seq![0x3bu8] + x + seq![0x3bu8] + y);
    assert(reports_at(report, b, x, y));
}

} // verus!
