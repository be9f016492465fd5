use vstd::prelude::*;
use crate::text::{dec_chars, push_char, push_u32_dec};

verus! {

/// `n` spaces.
pub open spec fn spaces(n: nat) -> Seq<char>
    decreases n,
{
    if n == 0 {
        Seq::empty()
    } else {
        spaces((n - 1) as nat).push(' ')
    }
}

/// The hotkey hint shown right-aligned in the status bar.
pub open spec fn hotkey_hint() -> Seq<char> {
    " ctrl+p,q:detach | ctrl+p,x:stop "@
}

/// The content height for a terminal of `rows` rows: one row is reserved for
/// the status bar, and the region is never empty.
pub open spec fn content_rows_of(rows: u16) -> u16 {
    if rows <= 1 {
        1u16
    } else {
        (rows - 1) as u16
    }
}

/// The escape burst that draws the status bar: hide cursor, save position,
/// move to the last row, clear it, write the styled left-aligned label and
/// right-aligned hotkey hint padded to the row width, reset styling,
/// re-assert the scroll region over the content rows, restore position, and
/// re-show the cursor only when the child last left it visible.
pub open spec fn status_bar(
    rows: u16,
    cols: u16,
    name: Seq<char>,
    fg: Seq<char>,
    bg: Seq<char>,
    cursor_visible: bool,
) -> Seq<char> {
    let width = cols as nat;
    let right = hotkey_hint();
    let name_max: nat = if width > right.len() + 2 {
        (width - right.len() - 2) as nat
    } else {
        0
    };
    let disp = if name.len() > name_max {
        name.take(name_max as int)
    } else {
        name
    };
    let left = " "@ + disp;
    let pad: nat = if width > left.len() + right.len() {
        (width - left.len() - right.len()) as nat
    } else {
        0
    };
    "\x1b[?25l\x1b[s\x1b["@ + dec_chars(rows as nat) + ";1H\x1b[2K\x1b["@ + fg + bg + "1m"@ + left
        + spaces(pad) + right + "\x1b[0m\x1b[1;"@ + dec_chars(content_rows_of(rows) as nat)
        + "r\x1b[u"@ + (if cursor_visible {
        "\x1b[?25h"@
    } else {
        Seq::<char>::empty()
    })
}

/// Build the escape burst that redraws the status bar on the bottom row.
///
/// Cursor save/restore uses SCP/RCP (`ESC [ s` / `ESC [ u`) rather than
/// DECSC/DECRC so the child's own cursor save slot is never clobbered; the
/// scroll-region command moves the cursor home as a side effect, which the
/// final restore undoes.
#[verifier::rlimit(50)]
pub fn draw_status_bar(
    rows: u16,
    cols: u16,
    session_name: &str,
    fg_color: &str,
    bg_color: &str,
    cursor_visible: bool,
) -> (r: String)
    ensures
        r@ == status_bar(rows, cols, session_name@, fg_color@, bg_color@, cursor_visible),
{
    let content_rows: u16 = if rows <= 1 {
        1
    } else {
        rows - 1
    };
    let width = cols as usize;
    let right = " ctrl+p,q:detach | ctrl+p,x:stop ";
    proof {
        reveal_strlit(" ctrl+p,q:detach | ctrl+p,x:stop ");
    }
    let right_len = right.unicode_len();
    let name_max: usize = if width > right_len + 2 {
        width - right_len - 2
    } else {
        0
    };
    let name_len = session_name.unicode_len();
    let disp: &str = if name_len > name_max {
        session_name.substring_char(0, name_max)
    } else {
        session_name
    };
    let disp_len: usize = if name_len > name_max {
        name_max
    } else {
        name_len
    };
    let left_len = disp_len + 1;
    let pad: usize = if width > left_len + right_len {
        width - left_len - right_len
    } else {
        0
    };
    let mut out = String::from_str("\x1b[?25l\x1b[s\x1b[");
    push_u32_dec(&mut out, rows as u32);
    out.append(";1H\x1b[2K\x1b[");
    out.append(fg_color);
    out.append(bg_color);
    out.append("1m");
    out.append(" ");
    out.append(disp);
    let ghost before_pad = out@;
    let mut i: usize = 0;
    while i < pad
        invariant
            i <= pad,
            out@ =~= before_pad + spaces(i as nat),
        decreases pad - i,
    {
        push_char(&mut out, ' ');
        i = i + 1;
    }
    out.append(right);
    out.append("\x1b[0m\x1b[1;");
    push_u32_dec(&mut out, content_rows as u32);
    out.append("r\x1b[u");
    if cursor_visible {
        out.append("\x1b[?25h");
    }
    proof {
        assert(" "@ + (if session_name@.len() > name_max {
            session_name@.take(name_max as int)
        } else {
            session_name@
        }) =~= seq![' '] + (if session_name@.len() > name_max {
            session_name@.take(name_max as int)
        } else {
            session_name@
        })) by {
            reveal_strlit(" ");
        }
        assert(out@ =~= status_bar(rows, cols, session_name@, fg_color@, bg_color@,
            cursor_visible));
    }
    out
}

} // verus!
