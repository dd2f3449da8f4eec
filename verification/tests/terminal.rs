use claustre::keys::{
    encode_mouse_event, keycode_to_bytes, KeyCode, KeyModifiers, MouseButton, MouseEventKind,
    MouseProtocolEncoding,
};
use claustre::screen::{
    read_prompts, read_summary, screen_shows_idle_prompt, screen_shows_permission_prompt,
    screen_shows_question_prompt,
};

fn alt() -> KeyModifiers {
    KeyModifiers { alt: true, ..KeyModifiers::none() }
}

fn shift() -> KeyModifiers {
    KeyModifiers { shift: true, ..KeyModifiers::none() }
}

fn shift_control() -> KeyModifiers {
    KeyModifiers { shift: true, ..KeyModifiers::control() }
}

// ── keycode_to_bytes tests ──

#[test]
fn alt_backspace_sends_esc_del() {
    let bytes = keycode_to_bytes(KeyCode::Backspace, alt());
    assert_eq!(bytes.as_bytes(), b"\x1b\x7f");
}

#[test]
fn alt_char_sends_esc_prefix() {
    let bytes = keycode_to_bytes(KeyCode::Char('b'), alt());
    assert_eq!(bytes.as_bytes(), b"\x1bb");

    let bytes = keycode_to_bytes(KeyCode::Char('d'), alt());
    assert_eq!(bytes.as_bytes(), b"\x1bd");

    let bytes = keycode_to_bytes(KeyCode::Char('f'), alt());
    assert_eq!(bytes.as_bytes(), b"\x1bf");
}

#[test]
fn plain_backspace_unchanged() {
    let bytes = keycode_to_bytes(KeyCode::Backspace, KeyModifiers::none());
    assert_eq!(bytes.as_bytes(), &[0x7f]);
}

#[test]
fn ctrl_char_sends_control_code() {
    let bytes = keycode_to_bytes(KeyCode::Char('c'), KeyModifiers::control());
    assert_eq!(bytes.as_bytes(), &[0x03]);
}

// ── Permission prompt detection tests ──

#[test]
fn permission_prompt_detected() {
    let mut parser = vt100::Parser::new(24, 80, 0);
    parser.process(b"Working on your task...\r\n\r\n");
    parser.process(b"  Allow Bash\r\n");
    parser.process(b"  ls -la\r\n");
    parser.process(b"  Yes  No  Always\r\n");
    assert!(screen_shows_permission_prompt(parser.screen()));
}

#[test]
fn permission_prompt_not_detected_without_allow() {
    let mut parser = vt100::Parser::new(24, 80, 0);
    parser.process(b"Working on your task...\r\n");
    parser.process(b"  Running command: ls -la\r\n");
    parser.process(b"  Yes  No  Always\r\n");
    assert!(!screen_shows_permission_prompt(parser.screen()));
}

#[test]
fn permission_prompt_not_detected_without_options() {
    let mut parser = vt100::Parser::new(24, 80, 0);
    parser.process(b"  Allow Bash\r\n");
    parser.process(b"  ls -la\r\n");
    assert!(!screen_shows_permission_prompt(parser.screen()));
}

#[test]
fn permission_prompt_detected_webfetch() {
    let mut parser = vt100::Parser::new(24, 80, 0);
    parser.process(b"  Allow WebFetch\r\n");
    parser.process(b"  https://example.com\r\n");
    parser.process(b"  Yes  No\r\n");
    assert!(screen_shows_permission_prompt(parser.screen()));
}

#[test]
fn permission_prompt_not_detected_lowercase_tool() {
    // "Allow something" where something is not capitalized (unlikely to be a tool)
    let mut parser = vt100::Parser::new(24, 80, 0);
    parser.process(b"  Allow me to explain\r\n");
    parser.process(b"  Yes  No\r\n");
    // "me" starts lowercase — should not match
    assert!(!screen_shows_permission_prompt(parser.screen()));
}

// ── Question prompt detection tests ──

#[test]
fn question_prompt_detected_with_options() {
    let mut parser = vt100::Parser::new(24, 80, 0);
    parser.process(b"Working on your task...\r\n\r\n");
    parser.process(b"  Which approach should we take?\r\n\r\n");
    parser.process(b"  \xe2\x9d\xaf Option A (Recommended)\r\n");
    parser.process(b"    Option B\r\n");
    parser.process(b"    Other\r\n");
    assert!(screen_shows_question_prompt(parser.screen()));
}

#[test]
fn question_prompt_not_detected_without_cursor() {
    let mut parser = vt100::Parser::new(24, 80, 0);
    parser.process(b"Working on your task...\r\n");
    parser.process(b"  Option A\r\n");
    parser.process(b"  Other\r\n");
    assert!(!screen_shows_question_prompt(parser.screen()));
}

#[test]
fn question_prompt_not_detected_without_other() {
    let mut parser = vt100::Parser::new(24, 80, 0);
    parser.process(b"Working on your task...\r\n");
    parser.process(b"  \xe2\x9d\xaf Option A\r\n");
    parser.process(b"  Option B\r\n");
    assert!(!screen_shows_question_prompt(parser.screen()));
}

#[test]
fn question_prompt_not_confused_with_permission_text() {
    // Regular text mentioning "Other" and containing a right-pointing character shouldn't match
    let mut parser = vt100::Parser::new(24, 80, 0);
    parser.process(b"There are Other options available.\r\n");
    assert!(!screen_shows_question_prompt(parser.screen()));
}

#[test]
fn question_prompt_detected_multiselect() {
    let mut parser = vt100::Parser::new(24, 80, 0);
    parser.process(b"  Which features do you want?\r\n\r\n");
    parser.process(b"  \xe2\x9d\xaf Feature A\r\n");
    parser.process(b"    Feature B\r\n");
    parser.process(b"    Feature C\r\n");
    parser.process(b"    Other\r\n");
    assert!(screen_shows_question_prompt(parser.screen()));
}

// ── Modified special key encoding tests ──

#[test]
fn shift_up_encodes_xterm_modifier() {
    let kb = keycode_to_bytes(KeyCode::Up, shift());
    assert_eq!(kb.as_bytes(), b"\x1b[1;2A");
}

#[test]
fn shift_down_encodes_xterm_modifier() {
    let kb = keycode_to_bytes(KeyCode::Down, shift());
    assert_eq!(kb.as_bytes(), b"\x1b[1;2B");
}

#[test]
fn ctrl_right_encodes_xterm_modifier() {
    let kb = keycode_to_bytes(KeyCode::Right, KeyModifiers::control());
    // Ctrl = 5 (1 + 4)
    assert_eq!(kb.as_bytes(), b"\x1b[1;5C");
}

#[test]
fn shift_ctrl_left_encodes_xterm_modifier() {
    let kb = keycode_to_bytes(KeyCode::Left, shift_control());
    // Shift+Ctrl = 6 (1 + 1 + 4)
    assert_eq!(kb.as_bytes(), b"\x1b[1;6D");
}

#[test]
fn alt_arrow_encodes_xterm_modifier() {
    let kb = keycode_to_bytes(KeyCode::Up, alt());
    // Alt = 3 (1 + 2)
    assert_eq!(kb.as_bytes(), b"\x1b[1;3A");
}

#[test]
fn shift_home_encodes_xterm_modifier() {
    let kb = keycode_to_bytes(KeyCode::Home, shift());
    assert_eq!(kb.as_bytes(), b"\x1b[1;2H");
}

#[test]
fn shift_end_encodes_xterm_modifier() {
    let kb = keycode_to_bytes(KeyCode::End, shift());
    assert_eq!(kb.as_bytes(), b"\x1b[1;2F");
}

#[test]
fn shift_pageup_encodes_tilde_modifier() {
    let kb = keycode_to_bytes(KeyCode::PageUp, shift());
    assert_eq!(kb.as_bytes(), b"\x1b[5;2~");
}

#[test]
fn ctrl_delete_encodes_tilde_modifier() {
    let kb = keycode_to_bytes(KeyCode::Delete, KeyModifiers::control());
    assert_eq!(kb.as_bytes(), b"\x1b[3;5~");
}

#[test]
fn shift_f1_encodes_modifier() {
    let kb = keycode_to_bytes(KeyCode::F(1), shift());
    assert_eq!(kb.as_bytes(), b"\x1b[1;2P");
}

#[test]
fn ctrl_f5_encodes_modifier() {
    let kb = keycode_to_bytes(KeyCode::F(5), KeyModifiers::control());
    assert_eq!(kb.as_bytes(), b"\x1b[15;5~");
}

#[test]
fn unmodified_arrow_unchanged() {
    let kb = keycode_to_bytes(KeyCode::Up, KeyModifiers::none());
    assert_eq!(kb.as_bytes(), b"\x1b[A");
}

#[test]
fn ctrl_char_still_works() {
    let kb = keycode_to_bytes(KeyCode::Char('c'), KeyModifiers::control());
    assert_eq!(kb.as_bytes(), &[3]); // ETX
}

#[test]
fn alt_char_still_prefixes_esc() {
    let kb = keycode_to_bytes(KeyCode::Char('b'), alt());
    assert_eq!(kb.as_bytes(), b"\x1bb");
}

// ── Mouse event encoding tests ──

#[test]
fn sgr_scroll_up_encoding() {
    let bytes = encode_mouse_event(
        &MouseEventKind::ScrollUp,
        10,
        5,
        MouseProtocolEncoding::Sgr,
    );
    assert_eq!(bytes, Some(b"\x1b[<64;11;6M".to_vec()));
}

#[test]
fn old_reports_are_capped() {
    let encoding = MouseProtocolEncoding::Default;
    let report = |column| encode_mouse_event(&MouseEventKind::ScrollUp, column, 5, encoding);
    let bytes = |column: u8| Some(vec![0x1b, b'[', b'M', 96, column, 38]);
    assert_eq!(report(299), bytes(255));
    assert_eq!(report(222), bytes(255));
    assert_eq!(report(221), bytes(254));
}

#[test]
fn sgr_scroll_down_encoding() {
    let bytes = encode_mouse_event(
        &MouseEventKind::ScrollDown,
        10,
        5,
        MouseProtocolEncoding::Sgr,
    );
    assert_eq!(bytes, Some(b"\x1b[<65;11;6M".to_vec()));
}

#[test]
fn sgr_left_press_encoding() {
    let bytes = encode_mouse_event(
        &MouseEventKind::Down(MouseButton::Left),
        0,
        0,
        MouseProtocolEncoding::Sgr,
    );
    assert_eq!(bytes, Some(b"\x1b[<0;1;1M".to_vec()));
}

#[test]
fn sgr_left_release_encoding() {
    let bytes = encode_mouse_event(
        &MouseEventKind::Up(MouseButton::Left),
        0,
        0,
        MouseProtocolEncoding::Sgr,
    );
    // Release uses 'm' suffix instead of 'M'
    assert_eq!(bytes, Some(b"\x1b[<0;1;1m".to_vec()));
}

#[test]
fn default_scroll_up_encoding() {
    let bytes = encode_mouse_event(
        &MouseEventKind::ScrollUp,
        10,
        5,
        MouseProtocolEncoding::Default,
    );
    // button=64+32=96, x=11+32=43, y=6+32=38
    assert_eq!(bytes, Some(vec![0x1b, b'[', b'M', 96, 43, 38]));
}

#[test]
fn default_left_release_sends_button3() {
    let bytes = encode_mouse_event(
        &MouseEventKind::Up(MouseButton::Left),
        0,
        0,
        MouseProtocolEncoding::Default,
    );
    // Release: button=3+32=35, x=1+32=33, y=1+32=33
    assert_eq!(bytes, Some(vec![0x1b, b'[', b'M', 35, 33, 33]));
}
// ── Screens ──

#[test]
fn idle_prompt_detected() {
    let mut parser = vt100::Parser::new(24, 80, 0);
    parser.process(b"All done.\r\n\r\n");
    parser.process("\u{276f}\r\n".as_bytes());
    let shown = read_prompts(parser.screen()).unwrap();
    assert!(shown.idle);
    assert!(!shown.permission);
    assert!(!shown.question);
    assert!(screen_shows_idle_prompt(parser.screen()));
}

#[test]
fn idle_prompt_not_detected_in_output() {
    let mut parser = vt100::Parser::new(24, 80, 0);
    parser.process(b"Working on your task...\r\n");
    assert!(!read_prompts(parser.screen()).unwrap().idle);
}

#[test]
fn screen_behind_its_scrollback_is_not_read() {
    let mut parser = vt100::Parser::new(4, 20, 100);
    for _ in 0..40 {
        parser.process(b"line\r\n");
    }
    assert!(read_prompts(parser.screen()).is_some());
    parser.set_scrollback(30);
    assert!(read_prompts(parser.screen()).is_none());
    assert!(read_summary(parser.screen()).is_none());
}

#[test]
fn summary_leaves_the_prompt_out() {
    let mut parser = vt100::Parser::new(10, 40, 0);
    for line in ["one", "  two", "three", "status", "prompt", "hint"] {
        parser.process(line.as_bytes());
        parser.process(b"\r\n");
    }
    let told = read_summary(parser.screen()).unwrap();
    assert_eq!(told, Some("one\ntwo\nthree".to_string()));
}

#[test]
fn blank_screen_says_nothing() {
    let parser = vt100::Parser::new(10, 40, 0);
    assert_eq!(read_summary(parser.screen()), Some(None));
}

#[test]
fn sideways_scrolls_are_not_reported() {
    let encoding = MouseProtocolEncoding::Sgr;
    assert_eq!(encode_mouse_event(&MouseEventKind::ScrollLeft, 1, 1, encoding), None);
    let moved = encode_mouse_event(&MouseEventKind::Moved, 1, 1, encoding);
    assert_eq!(moved, Some(b"\x1b[<35;2;2M".to_vec()));
}
