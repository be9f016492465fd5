use vstd::prelude::*;
use crate::text::{dec_chars, push_char, push_u32_dec};

verus! {

/// A mouse button.
#[derive(Clone, Copy, PartialEq, Eq, Structural, Debug)]
pub enum MouseButton {
    Left,
    Right,
    Middle,
}

/// A mouse event kind, as a terminal input backend reports it.
#[derive(Clone, Copy, PartialEq, Eq, Structural, Debug)]
pub enum MouseEventKind {
    Down(MouseButton),
    Up(MouseButton),
    Drag(MouseButton),
    Moved,
    ScrollUp,
    ScrollDown,
    ScrollLeft,
    ScrollRight,
}

/// The SGR button code of a mouse event: left/middle/right presses are 0/1/2,
/// drags add 32, pure movement is 35, and the four scroll directions are 64
/// through 67.
pub open spec fn sgr_button_code(kind: MouseEventKind) -> nat {
    match kind {
        MouseEventKind::Down(MouseButton::Left) => 0,
        MouseEventKind::Down(MouseButton::Middle) => 1,
        MouseEventKind::Down(MouseButton::Right) => 2,
        MouseEventKind::Up(MouseButton::Left) => 0,
        MouseEventKind::Up(MouseButton::Middle) => 1,
        MouseEventKind::Up(MouseButton::Right) => 2,
        MouseEventKind::Drag(MouseButton::Left) => 32,
        MouseEventKind::Drag(MouseButton::Middle) => 33,
        MouseEventKind::Drag(MouseButton::Right) => 34,
        MouseEventKind::Moved => 35,
        MouseEventKind::ScrollUp => 64,
        MouseEventKind::ScrollDown => 65,
        MouseEventKind::ScrollLeft => 66,
        MouseEventKind::ScrollRight => 67,
    }
}

/// The SGR report terminator: lowercase for a button release, uppercase
/// otherwise.
pub open spec fn sgr_suffix(kind: MouseEventKind) -> char {
    if kind is Up {
        'm'
    } else {
        'M'
    }
}

/// An SGR (mode 1006) mouse report: `ESC [ < button ; col+1 ; row+1 (M|m)`,
/// with 1-based coordinates.
pub open spec fn mouse_report(kind: MouseEventKind, col: u16, row: u16) -> Seq<char> {
    seq!['\u{1b}', '[', '<'] + dec_chars(sgr_button_code(kind)) + seq![';'] + dec_chars(
        col as nat + 1,
    ) + seq![';'] + dec_chars(row as nat + 1) + seq![sgr_suffix(kind)]
}

/// Encode a mouse event as an SGR (mode 1006) escape sequence.
///
/// The status bar occupies the terminal's structural last row, outside the
/// content area the child sees, so no row offset is applied.
pub fn encode_mouse_event(kind: MouseEventKind, col: u16, row: u16) -> (r: Option<String>)
    ensures
        r is Some,
        r->Some_0@ == mouse_report(kind, col, row),
{
    let button: u32 = match kind {
        MouseEventKind::Down(MouseButton::Left) => 0,
        MouseEventKind::Down(MouseButton::Middle) => 1,
        MouseEventKind::Down(MouseButton::Right) => 2,
        MouseEventKind::Up(MouseButton::Left) => 0,
        MouseEventKind::Up(MouseButton::Middle) => 1,
        MouseEventKind::Up(MouseButton::Right) => 2,
        MouseEventKind::Drag(MouseButton::Left) => 32,
        MouseEventKind::Drag(MouseButton::Middle) => 33,
        MouseEventKind::Drag(MouseButton::Right) => 34,
        MouseEventKind::Moved => 35,
        MouseEventKind::ScrollUp => 64,
        MouseEventKind::ScrollDown => 65,
        MouseEventKind::ScrollLeft => 66,
        MouseEventKind::ScrollRight => 67,
    };
    let suffix: char = if matches!(kind, MouseEventKind::Up(_)) {
        'm'
    } else {
        'M'
    };
    let mut s = String::new();
    push_char(&mut s, '\u{1b}');
    push_char(&mut s, '[');
    push_char(&mut s, '<');
    push_u32_dec(&mut s, button);
    push_char(&mut s, ';');
    push_u32_dec(&mut s, col as u32 + 1);
    push_char(&mut s, ';');
    push_u32_dec(&mut s, row as u32 + 1);
    push_char(&mut s, suffix);
    proof {
        assert(s@ =~= mouse_report(kind, col, row));
    }
    Some(s)
}

} // verus!
