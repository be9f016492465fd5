use boxlib::{
    content_size, luminance_fg, detect_app_cursor_mode, detect_cursor_visible, detect_mouse_mode,
    draw_status_bar, encode_mouse_event, exit_outcome, f_key_bytes, key_to_bytes,
    parse_status_colors, terminal_restore_bytes, ControlStateMachine, KeyAction, KeyCode,
    KeyEvent, ModeState, MouseButton, MouseEventKind, OverlayEngine, OverlayResult, SetupError,
};

fn plain(code: KeyCode) -> KeyEvent {
    KeyEvent { code, ctrl: false, alt: false }
}

fn ctrl(code: KeyCode) -> KeyEvent {
    KeyEvent { code, ctrl: true, alt: false }
}

fn alt(code: KeyCode) -> KeyEvent {
    KeyEvent { code, ctrl: false, alt: true }
}

// -- key translation --

#[test]
fn test_key_to_bytes_char() {
    let key = plain(KeyCode::Char('a'));
    assert_eq!(key_to_bytes(key, false), vec![b'a']);
}

#[test]
fn test_key_to_bytes_enter() {
    let key = plain(KeyCode::Enter);
    assert_eq!(key_to_bytes(key, false), vec![b'\r']);
}

#[test]
fn test_key_to_bytes_ctrl_c() {
    let key = ctrl(KeyCode::Char('c'));
    assert_eq!(key_to_bytes(key, false), vec![3]);
}

#[test]
fn test_key_to_bytes_arrow_keys() {
    let up = plain(KeyCode::Up);
    assert_eq!(key_to_bytes(up, false), vec![0x1b, b'[', b'A']);
    let down = plain(KeyCode::Down);
    assert_eq!(key_to_bytes(down, false), vec![0x1b, b'[', b'B']);
}

#[test]
fn test_key_to_bytes_arrow_keys_app_cursor() {
    let up = plain(KeyCode::Up);
    assert_eq!(key_to_bytes(up, true), vec![0x1b, b'O', b'A']);
    let down = plain(KeyCode::Down);
    assert_eq!(key_to_bytes(down, true), vec![0x1b, b'O', b'B']);
}

#[test]
fn test_key_to_bytes_esc() {
    let key = plain(KeyCode::Esc);
    assert_eq!(key_to_bytes(key, false), vec![0x1b]);
}

#[test]
fn test_key_to_bytes_backspace() {
    let key = plain(KeyCode::Backspace);
    assert_eq!(key_to_bytes(key, false), vec![0x7f]);
}

#[test]
fn test_key_to_bytes_f_keys() {
    let f1 = plain(KeyCode::F(1));
    assert_eq!(key_to_bytes(f1, false), vec![0x1b, b'O', b'P']);
    let f5 = plain(KeyCode::F(5));
    assert_eq!(key_to_bytes(f5, false), vec![0x1b, b'[', b'1', b'5', b'~']);
}

#[test]
fn test_key_to_bytes_alt_char() {
    let key = alt(KeyCode::Char('x'));
    assert_eq!(key_to_bytes(key, false), vec![0x1b, b'x']);
}

#[test]
fn ctrl_letters_map_to_control_bytes() {
    for (i, c) in ('a'..='z').enumerate() {
        let key = ctrl(KeyCode::Char(c));
        assert_eq!(key_to_bytes(key, false), vec![i as u8 + 1], "lowercase {c}");
    }
    for (i, c) in ('A'..='Z').enumerate() {
        let key = ctrl(KeyCode::Char(c));
        assert_eq!(key_to_bytes(key, false), vec![i as u8 + 1], "uppercase {c}");
    }
}

#[test]
fn ctrl_symbols_map_to_control_bytes() {
    let cases = [('@', 0u8), ('[', 27), ('\\', 28), (']', 29), ('^', 30), ('_', 31)];
    for (c, b) in cases {
        assert_eq!(key_to_bytes(ctrl(KeyCode::Char(c)), false), vec![b]);
    }
    // an unmapped control chord produces nothing
    assert_eq!(key_to_bytes(ctrl(KeyCode::Char('1')), false), Vec::<u8>::new());
}

#[test]
fn editing_and_paging_keys() {
    assert_eq!(key_to_bytes(plain(KeyCode::Tab), false), vec![b'\t']);
    assert_eq!(key_to_bytes(plain(KeyCode::BackTab), false), vec![0x1b, b'[', b'Z']);
    assert_eq!(key_to_bytes(plain(KeyCode::Insert), false), vec![0x1b, b'[', b'2', b'~']);
    assert_eq!(key_to_bytes(plain(KeyCode::Delete), false), vec![0x1b, b'[', b'3', b'~']);
    assert_eq!(key_to_bytes(plain(KeyCode::PageUp), false), vec![0x1b, b'[', b'5', b'~']);
    assert_eq!(key_to_bytes(plain(KeyCode::PageDown), false), vec![0x1b, b'[', b'6', b'~']);
}

#[test]
fn home_end_respect_app_cursor_mode() {
    assert_eq!(key_to_bytes(plain(KeyCode::Home), false), vec![0x1b, b'[', b'H']);
    assert_eq!(key_to_bytes(plain(KeyCode::Home), true), vec![0x1b, b'O', b'H']);
    assert_eq!(key_to_bytes(plain(KeyCode::End), false), vec![0x1b, b'[', b'F']);
    assert_eq!(key_to_bytes(plain(KeyCode::End), true), vec![0x1b, b'O', b'F']);
}

#[test]
fn function_keys_full_range() {
    assert_eq!(f_key_bytes(2), vec![0x1b, b'O', b'Q']);
    assert_eq!(f_key_bytes(6), vec![0x1b, b'[', b'1', b'7', b'~']);
    assert_eq!(f_key_bytes(10), vec![0x1b, b'[', b'2', b'1', b'~']);
    assert_eq!(f_key_bytes(12), vec![0x1b, b'[', b'2', b'4', b'~']);
    assert_eq!(f_key_bytes(13), Vec::<u8>::new());
}

#[test]
fn multibyte_chars_are_utf8_encoded() {
    assert_eq!(key_to_bytes(plain(KeyCode::Char('é')), false), "é".as_bytes().to_vec());
    assert_eq!(key_to_bytes(plain(KeyCode::Char('€')), false), "€".as_bytes().to_vec());
    assert_eq!(key_to_bytes(plain(KeyCode::Char('🦀')), false), "🦀".as_bytes().to_vec());
    let mut alt_euro = vec![0x1b];
    alt_euro.extend_from_slice("€".as_bytes());
    assert_eq!(key_to_bytes(alt(KeyCode::Char('€')), false), alt_euro);
}

// -- mouse encoding --

#[test]
fn test_encode_mouse_event_left_click() {
    let seq = encode_mouse_event(MouseEventKind::Down(MouseButton::Left), 10, 5);
    assert_eq!(seq, Some("\x1b[<0;11;6M".to_string()));
}

#[test]
fn test_encode_mouse_event_right_click() {
    let seq = encode_mouse_event(MouseEventKind::Down(MouseButton::Right), 0, 0);
    assert_eq!(seq, Some("\x1b[<2;1;1M".to_string()));
}

#[test]
fn test_encode_mouse_event_release() {
    let seq = encode_mouse_event(MouseEventKind::Up(MouseButton::Left), 5, 3);
    assert_eq!(seq, Some("\x1b[<0;6;4m".to_string()));
}

#[test]
fn test_encode_mouse_event_scroll() {
    let seq = encode_mouse_event(MouseEventKind::ScrollUp, 10, 10);
    assert_eq!(seq, Some("\x1b[<64;11;11M".to_string()));
}

#[test]
fn mouse_buttons_and_motions() {
    assert_eq!(
        encode_mouse_event(MouseEventKind::Down(MouseButton::Middle), 1, 1),
        Some("\x1b[<1;2;2M".to_string())
    );
    assert_eq!(
        encode_mouse_event(MouseEventKind::Drag(MouseButton::Left), 2, 3),
        Some("\x1b[<32;3;4M".to_string())
    );
    assert_eq!(
        encode_mouse_event(MouseEventKind::Drag(MouseButton::Right), 2, 3),
        Some("\x1b[<34;3;4M".to_string())
    );
    assert_eq!(encode_mouse_event(MouseEventKind::Moved, 0, 0), Some("\x1b[<35;1;1M".to_string()));
    assert_eq!(
        encode_mouse_event(MouseEventKind::ScrollDown, 0, 0),
        Some("\x1b[<65;1;1M".to_string())
    );
    assert_eq!(
        encode_mouse_event(MouseEventKind::ScrollLeft, 0, 0),
        Some("\x1b[<66;1;1M".to_string())
    );
    assert_eq!(
        encode_mouse_event(MouseEventKind::ScrollRight, 0, 0),
        Some("\x1b[<67;1;1M".to_string())
    );
    // large coordinates survive the decimal encoding
    assert_eq!(
        encode_mouse_event(MouseEventKind::Up(MouseButton::Middle), 65535, 299),
        Some("\x1b[<1;65536;300m".to_string())
    );
}

// -- mode scanners --

#[test]
fn test_detect_mouse_mode_enable() {
    let mut mode = false;
    detect_mouse_mode(b"\x1b[?1000h", &mut mode);
    assert!(mode);
}

#[test]
fn test_detect_mouse_mode_disable() {
    let mut mode = true;
    detect_mouse_mode(b"\x1b[?1000l", &mut mode);
    assert!(!mode);
}

#[test]
fn test_detect_mouse_mode_sgr_enable() {
    let mut mode = false;
    detect_mouse_mode(b"\x1b[?1006h", &mut mode);
    assert!(mode);
}

#[test]
fn test_detect_app_cursor_mode_enable() {
    let mut mode = false;
    detect_app_cursor_mode(b"\x1b[?1h", &mut mode);
    assert!(mode);
}

#[test]
fn test_detect_app_cursor_mode_disable() {
    let mut mode = true;
    detect_app_cursor_mode(b"\x1b[?1l", &mut mode);
    assert!(!mode);
}

#[test]
fn test_detect_app_cursor_mode_short_data() {
    let mut mode = false;
    detect_app_cursor_mode(b"\x1b[", &mut mode);
    assert!(!mode); // unchanged
}

#[test]
fn mouse_mode_variants_and_priority() {
    for on in [&b"\x1b[?1002h"[..], b"\x1b[?1003h"] {
        let mut mode = false;
        detect_mouse_mode(on, &mut mode);
        assert!(mode);
    }
    for off in [&b"\x1b[?1002l"[..], b"\x1b[?1003l", b"\x1b[?1006l"] {
        let mut mode = true;
        detect_mouse_mode(off, &mut mode);
        assert!(!mode);
    }
    // a disable anywhere in the chunk wins over an enable
    let mut mode = false;
    detect_mouse_mode(b"\x1b[?1000h...\x1b[?1000l", &mut mode);
    assert!(!mode);
    let mut mode = false;
    detect_mouse_mode(b"\x1b[?1000l...\x1b[?1000h", &mut mode);
    assert!(!mode);
}

#[test]
fn app_cursor_last_change_wins() {
    let mut mode = false;
    detect_app_cursor_mode(b"\x1b[?1h...\x1b[?1l", &mut mode);
    assert!(!mode);
    detect_app_cursor_mode(b"\x1b[?1l...\x1b[?1h", &mut mode);
    assert!(mode);
}

#[test]
fn cursor_visibility_scanner() {
    let mut visible = true;
    detect_cursor_visible(b"\x1b[?25l", &mut visible);
    assert!(!visible);
    detect_cursor_visible(b"\x1b[?25h", &mut visible);
    assert!(visible);
    detect_cursor_visible(b"\x1b[?25", &mut visible);
    assert!(visible); // truncated: unchanged
}

// -- colors --

#[test]
fn test_parse_status_colors_none() {
    // Default: bright white on bright black
    assert_eq!(parse_status_colors(None), ("97;".to_string(), "100;".to_string()));
}

#[test]
fn test_parse_status_colors_named() {
    // Dark backgrounds -> white text
    assert_eq!(parse_status_colors(Some("blue")), ("97;".to_string(), "44;".to_string()));
    assert_eq!(parse_status_colors(Some("Blue")), ("97;".to_string(), "44;".to_string()));
    assert_eq!(parse_status_colors(Some("RED")), ("97;".to_string(), "41;".to_string()));
    assert_eq!(parse_status_colors(Some("black")), ("97;".to_string(), "40;".to_string()));
    assert_eq!(parse_status_colors(Some("magenta")), ("97;".to_string(), "45;".to_string()));
    assert_eq!(parse_status_colors(Some("gray")), ("97;".to_string(), "100;".to_string()));
    assert_eq!(parse_status_colors(Some("grey")), ("97;".to_string(), "100;".to_string()));
    // Light backgrounds -> black text
    assert_eq!(parse_status_colors(Some("white")), ("30;".to_string(), "47;".to_string()));
    assert_eq!(parse_status_colors(Some("lightgreen")), ("30;".to_string(), "102;".to_string()));
    assert_eq!(parse_status_colors(Some("lightcyan")), ("30;".to_string(), "106;".to_string()));
}

#[test]
fn test_parse_status_colors_named_luminance() {
    // yellow: L = 0.299*170 + 0.587*170 + 0.114*0 = 150.6 -> black text
    assert_eq!(parse_status_colors(Some("yellow")), ("30;".to_string(), "43;".to_string()));
    // green: L = 0.299*0 + 0.587*170 + 0.114*0 = 99.8 -> white text
    assert_eq!(parse_status_colors(Some("green")), ("97;".to_string(), "42;".to_string()));
    // cyan: L = 0.299*0 + 0.587*170 + 0.114*170 = 119.2 -> white text
    assert_eq!(parse_status_colors(Some("cyan")), ("97;".to_string(), "46;".to_string()));
}

#[test]
fn test_parse_status_colors_hex() {
    // Dark hex -> white text
    assert_eq!(
        parse_status_colors(Some("#ff0000")),
        ("97;".to_string(), "48;2;255;0;0;".to_string())
    );
    assert_eq!(
        parse_status_colors(Some("#0000ff")),
        ("97;".to_string(), "48;2;0;0;255;".to_string())
    );
    // Light hex -> black text
    assert_eq!(
        parse_status_colors(Some("#ffffff")),
        ("30;".to_string(), "48;2;255;255;255;".to_string())
    );
    assert_eq!(
        parse_status_colors(Some("#00ff00")),
        ("30;".to_string(), "48;2;0;255;0;".to_string())
    );
}

#[test]
fn test_parse_status_colors_invalid_hex() {
    // Falls back to default
    assert_eq!(parse_status_colors(Some("#fff")), ("97;".to_string(), "100;".to_string()));
    assert_eq!(parse_status_colors(Some("#gggggg")), ("97;".to_string(), "100;".to_string()));
}

#[test]
fn test_parse_status_colors_unknown() {
    assert_eq!(parse_status_colors(Some("unknown")), ("97;".to_string(), "100;".to_string()));
}

#[test]
fn luminance_threshold_boundary() {
    // 299*128 + 587*128 + 114*128 = 128000: exactly at the threshold
    assert_eq!(luminance_fg(128, 128, 128), "30;");
    assert_eq!(luminance_fg(127, 128, 128), "97;");
    assert_eq!(luminance_fg(0, 0, 0), "97;");
    assert_eq!(luminance_fg(255, 255, 255), "30;");
}

// -- status bar --

#[test]
fn status_bar_exact_burst() {
    let bar = draw_status_bar(24, 80, "demo", "97;", "100;", true);
    let right = " ctrl+p,q:detach | ctrl+p,x:stop ";
    let pad = 80 - " demo".len() - right.len();
    let expected = format!(
        "\x1b[?25l\x1b[s\x1b[24;1H\x1b[2K\x1b[97;100;1m demo{}{}\x1b[0m\x1b[1;23r\x1b[u\x1b[?25h",
        " ".repeat(pad),
        right
    );
    assert_eq!(bar, expected);
}

#[test]
fn status_bar_hidden_cursor_and_truncation() {
    let bar = draw_status_bar(10, 40, "a-very-long-session-name", "30;", "47;", false);
    // cursor stays hidden: no show-cursor suffix
    assert!(!bar.ends_with("\x1b[?25h"));
    assert!(bar.ends_with("\x1b[u"));
    // label truncated to width - hint - 2 = 40 - 33 - 2 = 5 characters
    assert!(bar.contains(" a-ver "));
    assert!(!bar.contains("a-very"));
    // scroll region reserves the last of 10 rows
    assert!(bar.contains("\x1b[1;9r"));
    assert!(bar.contains("\x1b[10;1H"));
}

// -- control state machine (detach/stop chord) --

#[test]
fn chord_detach_forwards_nothing() {
    let mut machine = ControlStateMachine::new();
    let started = machine.handle_key(KeyEvent { code: KeyCode::Char('p'), ctrl: true, alt: false }, false);
    assert!(matches!(started, KeyAction::ChordStarted));
    assert!(machine.chord_pending);
    let done = machine.handle_key(plain(KeyCode::Char('q')), false);
    assert!(matches!(done, KeyAction::Detach));
    assert!(!machine.chord_pending);
    // capital Q and the stop keys work the same way
    let mut machine = ControlStateMachine::new();
    machine.handle_key(ctrl(KeyCode::Char('p')), false);
    assert!(matches!(machine.handle_key(plain(KeyCode::Char('Q')), false), KeyAction::Detach));
    let mut machine = ControlStateMachine::new();
    machine.handle_key(ctrl(KeyCode::Char('p')), false);
    assert!(matches!(machine.handle_key(plain(KeyCode::Char('x')), false), KeyAction::StopContainer));
    let mut machine = ControlStateMachine::new();
    machine.handle_key(ctrl(KeyCode::Char('p')), false);
    assert!(matches!(machine.handle_key(plain(KeyCode::Char('X')), false), KeyAction::StopContainer));
}

#[test]
fn chord_fallthrough_replays_prefix() {
    let mut machine = ControlStateMachine::new();
    machine.handle_key(ctrl(KeyCode::Char('p')), false);
    let action = machine.handle_key(plain(KeyCode::Char('a')), false);
    match action {
        KeyAction::Forward(bytes) => assert_eq!(bytes, vec![0x10, b'a']),
        _ => panic!("expected forwarded bytes"),
    }
    assert!(!machine.chord_pending);
}

#[test]
fn ordinary_keys_forward_translated() {
    let mut machine = ControlStateMachine::new();
    let action = machine.handle_key(plain(KeyCode::Up), true);
    match action {
        KeyAction::Forward(bytes) => assert_eq!(bytes, vec![0x1b, b'O', b'A']),
        _ => panic!("expected forwarded bytes"),
    }
    assert!(!machine.chord_pending);
}

// -- engine decisions --

#[test]
fn content_size_checks_minimum() {
    assert_eq!(content_size(24, 80), Ok((23, 80)));
    assert_eq!(content_size(2, 80), Err(SetupError::TerminalTooSmall));
    assert_eq!(content_size(24, 19), Err(SetupError::TerminalTooSmall));
    assert_eq!(content_size(3, 20), Ok((2, 20)));
    assert_eq!(
        SetupError::TerminalTooSmall.message(),
        "Terminal too small (need at least 20x3)"
    );
}

#[test]
fn overlay_reserves_one_row_and_resizes() {
    // opening on an 80x24 terminal reserves exactly 23 rows for content
    let (content_rows, cols) = content_size(24, 80).unwrap();
    assert_eq!((content_rows, cols), (23, 80));

    // resizing to 100x30 updates the PTY window to 100x29 and redraws the
    // status bar at row 30
    let engine = OverlayEngine::new("demo".to_string(), None);
    let plan = engine.on_resize(30, 100).unwrap();
    assert_eq!(plan.content_rows, 29);
    assert_eq!(plan.cols, 100);
    assert_eq!(plan.nudge_rows, 28);
    let redraw = String::from_utf8(plan.redraw).unwrap();
    assert!(redraw.starts_with("\x1b[?2026h"));
    assert!(redraw.ends_with("\x1b[?2026l"));
    assert!(redraw.contains("\x1b[1;29r"));
    assert!(redraw.contains("\x1b[30;1H"));

    // a height of one row or less is ignored
    assert!(engine.on_resize(1, 100).is_none());
}

#[test]
fn engine_gates_mouse_events() {
    let mut engine = OverlayEngine::new("demo".to_string(), None);
    assert!(engine.on_mouse(MouseEventKind::Down(MouseButton::Left), 10, 5).is_none());
    engine.on_output_chunk(b"\x1b[?1000h");
    assert_eq!(
        engine.on_mouse(MouseEventKind::Down(MouseButton::Left), 10, 5),
        Some("\x1b[<0;11;6M".to_string())
    );
    engine.on_output_chunk(b"\x1b[?1000l");
    assert!(engine.on_mouse(MouseEventKind::Down(MouseButton::Left), 10, 5).is_none());
}

#[test]
fn engine_tracks_app_cursor_for_keys() {
    let mut engine = OverlayEngine::new("demo".to_string(), None);
    engine.on_output_chunk(b"\x1b[?1h");
    match engine.on_key(plain(KeyCode::Up)) {
        KeyAction::Forward(bytes) => assert_eq!(bytes, vec![0x1b, b'O', b'A']),
        _ => panic!("expected forwarded bytes"),
    }
}

#[test]
fn engine_frames_output_with_status_bar() {
    let mut engine = OverlayEngine::new("demo".to_string(), Some("blue"));
    assert_eq!(engine.fg_color, "97;");
    assert_eq!(engine.bg_color, "44;");
    engine.on_output_chunk(b"\x1b[?25l");
    let frame = engine.frame_bytes(b"hello", 24, 80);
    let bar = draw_status_bar(24, 80, "demo", "97;", "44;", false);
    let mut expected = b"\x1b[?2026h".to_vec();
    expected.extend_from_slice(b"hello");
    expected.extend_from_slice(bar.as_bytes());
    expected.extend_from_slice(b"\x1b[?2026l");
    assert_eq!(frame, expected);
}

#[test]
fn engine_init_and_restore_sequences() {
    let engine = OverlayEngine::new("demo".to_string(), None);
    let init = String::from_utf8(engine.init_bytes(24, 80)).unwrap();
    assert!(init.starts_with("\x1b[2J\x1b[H\x1b[1;23r"));
    assert!(init.contains("\x1b[24;1H"));
    let restore = terminal_restore_bytes();
    assert_eq!(restore, b"\x1b[r\x1b[999;1H\x1b[2K\n".to_vec());
}

#[test]
fn exit_outcome_defaults_to_one() {
    assert_eq!(exit_outcome(Some(0)), OverlayResult::Exited(0));
    assert_eq!(exit_outcome(Some(42)), OverlayResult::Exited(42));
    assert_eq!(exit_outcome(None), OverlayResult::Exited(1));
}

#[test]
fn mode_state_defaults() {
    let state = ModeState::new();
    assert!(!state.app_cursor_mode);
    assert!(!state.mouse_tracking_mode);
    assert!(state.cursor_visible);
}

#[test]
fn status_bar_narrow_terminal_keeps_hint() {
    // at the 20-column minimum the label is truncated away entirely
    let bar = draw_status_bar(3, 20, "name", "97;", "100;", true);
    let right = " ctrl+p,q:detach | ctrl+p,x:stop ";
    assert!(bar.contains(&format!("\x1b[2K\x1b[97;100;1m {}", right)));
    assert!(bar.contains("\x1b[1;2r"));
}

#[test]
fn uppercase_hex_digits_parse() {
    assert_eq!(
        parse_status_colors(Some("#FF0000")),
        ("97;".to_string(), "48;2;255;0;0;".to_string())
    );
    assert_eq!(
        parse_status_colors(Some("#AbCdEf")),
        ("30;".to_string(), "48;2;171;205;239;".to_string())
    );
}
