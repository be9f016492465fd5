use vstd::prelude::*;
use vstd::utf8::{char_is_scalar, encode_scalar, has_width_3_encoding};

verus! {

/// A keyboard key, as a terminal input backend reports it.
#[derive(Clone, Copy, PartialEq, Eq, Structural, Debug)]
pub enum KeyCode {
    Char(char),
    Enter,
    Backspace,
    Tab,
    BackTab,
    Esc,
    Up,
    Down,
    Left,
    Right,
    Home,
    End,
    Insert,
    Delete,
    PageUp,
    PageDown,
    F(u8),
    Other,
}

/// A key press together with its control and alt modifiers.
#[derive(Clone, Copy, PartialEq, Eq, Structural, Debug)]
pub struct KeyEvent {
    pub code: KeyCode,
    pub ctrl: bool,
    pub alt: bool,
}

/// The C0 control byte sent for Ctrl plus the given character, when one exists.
pub open spec fn ctrl_byte(c: char) -> Option<u8> {
    let u = c as u32;
    if 97 <= u <= 122 {  // 'a'..='z'
        Some((u - 96) as u8)
    } else if 65 <= u <= 90 {  // 'A'..='Z'
        Some((u - 64) as u8)
    } else if u == 64 {  // '@'
        Some(0u8)
    } else if u == 91 {  // '['
        Some(27u8)
    } else if u == 92 {  // '\'
        Some(28u8)
    } else if u == 93 {  // ']'
        Some(29u8)
    } else if u == 94 {  // '^'
        Some(30u8)
    } else if u == 95 {  // '_'
        Some(31u8)
    } else {
        None
    }
}

/// A cursor-movement sequence: `ESC O <letter>` in application cursor mode,
/// `ESC [ <letter>` otherwise.
pub open spec fn cursor_seq(app_cursor: bool, letter: u8) -> Seq<u8> {
    if app_cursor {
        seq![0x1bu8, 0x4fu8, letter]  // ESC O
    } else {
        seq![0x1bu8, 0x5bu8, letter]  // ESC [
    }
}

/// A `CSI <digit> ~` editing-key sequence.
pub open spec fn csi_tilde_seq(digit: u8) -> Seq<u8> {
    seq![0x1bu8, 0x5bu8, digit, 0x7eu8]  // ESC [ d ~
}

/// The byte sequence a function key emits: `ESC O P..S` for the first four,
/// `CSI <two digits> ~` for the rest, nothing for numbers past twelve.
pub open spec fn f_key_seq(n: u8) -> Seq<u8> {
    if n == 1 {
        seq![0x1bu8, 0x4fu8, 0x50u8]  // ESC O P
    } else if n == 2 {
        seq![0x1bu8, 0x4fu8, 0x51u8]  // ESC O Q
    } else if n == 3 {
        seq![0x1bu8, 0x4fu8, 0x52u8]  // ESC O R
    } else if n == 4 {
        seq![0x1bu8, 0x4fu8, 0x53u8]  // ESC O S
    } else if n == 5 {
        seq![0x1bu8, 0x5bu8, 0x31u8, 0x35u8, 0x7eu8]  // ESC [ 1 5 ~
    } else if n == 6 {
        seq![0x1bu8, 0x5bu8, 0x31u8, 0x37u8, 0x7eu8]  // ESC [ 1 7 ~
    } else if n == 7 {
        seq![0x1bu8, 0x5bu8, 0x31u8, 0x38u8, 0x7eu8]  // ESC [ 1 8 ~
    } else if n == 8 {
        seq![0x1bu8, 0x5bu8, 0x31u8, 0x39u8, 0x7eu8]  // ESC [ 1 9 ~
    } else if n == 9 {
        seq![0x1bu8, 0x5bu8, 0x32u8, 0x30u8, 0x7eu8]  // ESC [ 2 0 ~
    } else if n == 10 {
        seq![0x1bu8, 0x5bu8, 0x32u8, 0x31u8, 0x7eu8]  // ESC [ 2 1 ~
    } else if n == 11 {
        seq![0x1bu8, 0x5bu8, 0x32u8, 0x33u8, 0x7eu8]  // ESC [ 2 3 ~
    } else if n == 12 {
        seq![0x1bu8, 0x5bu8, 0x32u8, 0x34u8, 0x7eu8]  // ESC [ 2 4 ~
    } else {
        seq![]
    }
}

/// The bytes written to the child's terminal for a key press: Ctrl chords map
/// to C0 control bytes, Alt prefixes the character's UTF-8 encoding with ESC,
/// plain characters are UTF-8 encoded, and special keys emit their standard
/// escape sequences (cursor keys respecting application cursor mode).
/// Unrecognized keys produce no bytes.
pub open spec fn key_bytes(key: KeyEvent, app_cursor: bool) -> Seq<u8> {
    if key.ctrl && key.code is Char {
        match ctrl_byte(key.code->Char_0) {
            Some(b) => seq![b],
            None => seq![],
        }
    } else if key.alt && key.code is Char {
        seq![0x1bu8] + encode_scalar(key.code->Char_0 as u32)
    } else {
        match key.code {
            KeyCode::Char(c) => encode_scalar(c as u32),
            KeyCode::Enter => seq![0x0du8],
            KeyCode::Backspace => seq![0x7fu8],
            KeyCode::Tab => seq![0x09u8],
            KeyCode::BackTab => seq![0x1bu8, 0x5bu8, 0x5au8],  // ESC [ Z
            KeyCode::Esc => seq![0x1bu8],
            KeyCode::Up => cursor_seq(app_cursor, 0x41),  // A
            KeyCode::Down => cursor_seq(app_cursor, 0x42),  // B
            KeyCode::Right => cursor_seq(app_cursor, 0x43),  // C
            KeyCode::Left => cursor_seq(app_cursor, 0x44),  // D
            KeyCode::Home => cursor_seq(app_cursor, 0x48),  // H
            KeyCode::End => cursor_seq(app_cursor, 0x46),  // F
            KeyCode::Insert => csi_tilde_seq(0x32),  // 2
            KeyCode::Delete => csi_tilde_seq(0x33),  // 3
            KeyCode::PageUp => csi_tilde_seq(0x35),  // 5
            KeyCode::PageDown => csi_tilde_seq(0x36),  // 6
            KeyCode::F(n) => f_key_seq(n),
            KeyCode::Other => seq![],
        }
    }
}

/// UTF-8 encode one character.
pub fn encode_char_utf8(c: char) -> (r: Vec<u8>)
    ensures
        r@ == encode_scalar(c as u32),
{
    proof {
        char_is_scalar(c);
    }
    let u = c as u32;
    let mut r: Vec<u8> = Vec::new();
    if u <= 0x7f {
        r.push((u & 0x7f) as u8);
        proof {
            assert(r@ =~= encode_scalar(u));
        }
    } else if u <= 0x7ff {
        r.push(0xc0 | ((u >> 6) & 0x1f) as u8);
        r.push(0x80 | (u & 0x3f) as u8);
        proof {
            assert(r@ =~= encode_scalar(u));
        }
    } else if u <= 0xffff {
        r.push(0xe0 | ((u >> 12) & 0x0f) as u8);
        r.push(0x80 | ((u >> 6) & 0x3f) as u8);
        r.push(0x80 | (u & 0x3f) as u8);
        proof {
            assert(has_width_3_encoding(u));
            assert(r@ =~= encode_scalar(u));
        }
    } else {
        r.push(0xf0 | ((u >> 18) & 0x07) as u8);
        r.push(0x80 | ((u >> 12) & 0x3f) as u8);
        r.push(0x80 | ((u >> 6) & 0x3f) as u8);
        r.push(0x80 | (u & 0x3f) as u8);
        proof {
            assert(r@ =~= encode_scalar(u));
        }
    }
    r
}

/// Translate a key press into the bytes forwarded to the child's terminal.
pub fn key_to_bytes(key: KeyEvent, app_cursor: bool) -> (r: Vec<u8>)
    ensures
        r@ == key_bytes(key, app_cursor),
{
    if key.ctrl {
        if let KeyCode::Char(c) = key.code {
            let u = c as u32;
            let byte: u8 = if u >= 97 && u <= 122 {
                (u - 96) as u8
            } else if u >= 65 && u <= 90 {
                (u - 64) as u8
            } else if u == 64 {
                0
            } else if u == 91 {
                27
            } else if u == 92 {
                28
            } else if u == 93 {
                29
            } else if u == 94 {
                30
            } else if u == 95 {
                31
            } else {
                let r: Vec<u8> = Vec::new();
                proof {
                    assert(r@ =~= key_bytes(key, app_cursor));
                }
                return r;
            };
            let mut r: Vec<u8> = Vec::new();
            r.push(byte);
            proof {
                assert(r@ =~= key_bytes(key, app_cursor));
            }
            return r;
        }
    }
    if key.alt {
        if let KeyCode::Char(c) = key.code {
            let mut r: Vec<u8> = Vec::new();
            r.push(0x1b);
            let mut enc = encode_char_utf8(c);
            r.append(&mut enc);
            proof {
                assert(r@ =~= key_bytes(key, app_cursor));
            }
            return r;
        }
    }
    let r: Vec<u8> = match key.code {
        KeyCode::Char(c) => encode_char_utf8(c),
        KeyCode::Enter => byte_vec1(0x0d),
        KeyCode::Backspace => byte_vec1(0x7f),
        KeyCode::Tab => byte_vec1(0x09),
        KeyCode::BackTab => byte_vec3(0x1b, 0x5b, 0x5a),
        KeyCode::Esc => byte_vec1(0x1b),
        KeyCode::Up => cursor_bytes(app_cursor, 0x41),
        KeyCode::Down => cursor_bytes(app_cursor, 0x42),
        KeyCode::Right => cursor_bytes(app_cursor, 0x43),
        KeyCode::Left => cursor_bytes(app_cursor, 0x44),
        KeyCode::Home => cursor_bytes(app_cursor, 0x48),
        KeyCode::End => cursor_bytes(app_cursor, 0x46),
        KeyCode::Insert => csi_tilde_bytes(0x32),
        KeyCode::Delete => csi_tilde_bytes(0x33),
        KeyCode::PageUp => csi_tilde_bytes(0x35),
        KeyCode::PageDown => csi_tilde_bytes(0x36),
        KeyCode::F(n) => f_key_bytes(n),
        KeyCode::Other => Vec::new(),
    };
    proof {
        assert(r@ =~= key_bytes(key, app_cursor));
    }
    r
}

/// The escape sequence for a function key.
pub fn f_key_bytes(n: u8) -> (r: Vec<u8>)
    ensures
        r@ == f_key_seq(n),
{
    let r: Vec<u8> = if n == 1 {
        byte_vec3(0x1b, 0x4f, 0x50)
    } else if n == 2 {
        byte_vec3(0x1b, 0x4f, 0x51)
    } else if n == 3 {
        byte_vec3(0x1b, 0x4f, 0x52)
    } else if n == 4 {
        byte_vec3(0x1b, 0x4f, 0x53)
    } else if n == 5 {
        byte_vec5(0x1b, 0x5b, 0x31, 0x35, 0x7e)
    } else if n == 6 {
        byte_vec5(0x1b, 0x5b, 0x31, 0x37, 0x7e)
    } else if n == 7 {
        byte_vec5(0x1b, 0x5b, 0x31, 0x38, 0x7e)
    } else if n == 8 {
        byte_vec5(0x1b, 0x5b, 0x31, 0x39, 0x7e)
    } else if n == 9 {
        byte_vec5(0x1b, 0x5b, 0x32, 0x30, 0x7e)
    } else if n == 10 {
        byte_vec5(0x1b, 0x5b, 0x32, 0x31, 0x7e)
    } else if n == 11 {
        byte_vec5(0x1b, 0x5b, 0x32, 0x33, 0x7e)
    } else if n == 12 {
        byte_vec5(0x1b, 0x5b, 0x32, 0x34, 0x7e)
    } else {
        Vec::new()
    };
    proof {
        assert(r@ =~= f_key_seq(n));
    }
    r
}

fn cursor_bytes(app_cursor: bool, letter: u8) -> (r: Vec<u8>)
    ensures
        r@ == cursor_seq(app_cursor, letter),
{
    let r = if app_cursor {
        byte_vec3(0x1b, 0x4f, letter)
    } else {
        byte_vec3(0x1b, 0x5b, letter)
    };
    proof {
        assert(r@ =~= cursor_seq(app_cursor, letter));
    }
    r
}

fn csi_tilde_bytes(digit: u8) -> (r: Vec<u8>)
    ensures
        r@ == csi_tilde_seq(digit),
{
    let r = byte_vec4(0x1b, 0x5b, digit, 0x7e);
    proof {
        assert(r@ =~= csi_tilde_seq(digit));
    }
    r
}

fn byte_vec1(a: u8) -> (r: Vec<u8>)
    ensures
        r@ =~= seq![a],
{
    let mut r: Vec<u8> = Vec::new();
    r.push(a);
    r
}

fn byte_vec3(a: u8, b: u8, c: u8) -> (r: Vec<u8>)
    ensures
        r@ =~= seq![a, b, c],
{
    let mut r: Vec<u8> = Vec::new();
    r.push(a);
    r.push(b);
    r.push(c);
    r
}

fn byte_vec4(a: u8, b: u8, c: u8, d: u8) -> (r: Vec<u8>)
    ensures
        r@ =~= seq![a, b, c, d],
{
    let mut r: Vec<u8> = Vec::new();
    r.push(a);
    r.push(b);
    r.push(c);
    r.push(d);
    r
}

fn byte_vec5(a: u8, b: u8, c: u8, d: u8, e: u8) -> (r: Vec<u8>)
    ensures
        r@ =~= seq![a, b, c, d, e],
{
    let mut r: Vec<u8> = Vec::new();
    r.push(a);
    r.push(b);
    r.push(c);
    r.push(d);
    r.push(e);
    r
}

/// Ctrl plus any ASCII letter, upper or lower case, sends the single C0
/// control byte numbered from one for the letter's lower-case form.
pub proof fn lemma_ctrl_letter_byte(c: char)
    requires
        (97 <= c as u32 <= 122) || (65 <= c as u32 <= 90),
    ensures
        key_bytes(KeyEvent { code: KeyCode::Char(c), ctrl: true, alt: false }, false) == seq![
            ((if 97 <= c as u32 { c as u32 as int } else { c as u32 + 32 }) - 97 + 1) as u8,
        ],
{
    let lower: int = if 97 <= c as u32 {
        c as u32 as int
    } else {
        c as u32 + 32
    };
    assert(key_bytes(KeyEvent { code: KeyCode::Char(c), ctrl: true, alt: false }, false) =~= seq![
        (lower - 96) as u8,
    ]);
}

} // verus!
