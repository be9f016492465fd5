use vstd::prelude::*;
use vstd::string::StringSliceAdditionalSpecFns;
use vstd::utf8::encode_utf8;
use crate::colors::{parse_status_colors, status_bg, status_fg};
use crate::keys::{key_bytes, key_to_bytes, KeyCode, KeyEvent};
use crate::modes::{
    app_cursor_off_seq, app_cursor_on_seq, cursor_hide_seq, cursor_show_seq,
    detect_app_cursor_mode, detect_cursor_visible, detect_mouse_mode, mouse_mode_after, scan_flag,
};
use crate::mouse::{encode_mouse_event, mouse_report, MouseEventKind};
use crate::status::{content_rows_of, draw_status_bar, status_bar};
use crate::text::{dec_chars, push_u32_dec};

verus! {

/// The terminal outcome of one overlay invocation.
#[derive(Clone, Copy, PartialEq, Eq, Structural, Debug)]
pub enum OverlayResult {
    /// The user detached; the session keeps running.
    Detached,
    /// The child terminated on its own with this exit code.
    Exited(i32),
    /// The user explicitly stopped the underlying container.
    Stopped,
}

/// The outcome reported when the child has exited: its code, or 1 when the
/// platform reports none.
pub fn exit_outcome(code: Option<i32>) -> (r: OverlayResult)
    ensures
        code is Some ==> r == OverlayResult::Exited(code->0),
        code is None ==> r == OverlayResult::Exited(1i32),
{
    match code {
        Some(c) => OverlayResult::Exited(c),
        None => OverlayResult::Exited(1),
    }
}

/// A setup failure, reported before any terminal mode is changed.
#[derive(Clone, Copy, PartialEq, Eq, Structural, Debug)]
pub enum SetupError {
    /// The terminal is smaller than the 20x3 minimum needed to render both
    /// content and status bar.
    TerminalTooSmall,
}

impl SetupError {
    /// A human-readable description of the failure.
    pub fn message(&self) -> (r: String)
        ensures
            r@ == "Terminal too small (need at least 20x3)"@,
    {
        String::from_str("Terminal too small (need at least 20x3)")
    }
}

/// The content area reserved for the child on a terminal of the given size:
/// the full width, and all rows but the one kept for the status bar. Fails
/// when the terminal is under 20 columns or 3 rows.
pub fn content_size(term_rows: u16, term_cols: u16) -> (r: Result<(u16, u16), SetupError>)
    ensures
        (r is Ok) == (term_rows >= 3 && term_cols >= 20),
        r is Ok ==> r->Ok_0 == ((term_rows - 1) as u16, term_cols),
{
    if term_rows < 3 || term_cols < 20 {
        Err(SetupError::TerminalTooSmall)
    } else {
        Ok((term_rows - 1, term_cols))
    }
}

/// The three terminal modes tracked by scanning the child's output.
#[derive(Clone, Copy, PartialEq, Eq, Structural, Debug)]
pub struct ModeState {
    /// DECCKM: cursor keys send `ESC O` sequences instead of `ESC [`.
    pub app_cursor_mode: bool,
    /// Any of the 1000/1002/1003/1006 mouse-tracking modes is on.
    pub mouse_tracking_mode: bool,
    /// DECTCEM: the child wants the cursor shown.
    pub cursor_visible: bool,
}

impl ModeState {
    /// The state before any child output: normal cursor keys, no mouse
    /// tracking, cursor visible.
    pub fn new() -> (r: ModeState)
        ensures
            r == (ModeState {
                app_cursor_mode: false,
                mouse_tracking_mode: false,
                cursor_visible: true,
            }),
    {
        ModeState { app_cursor_mode: false, mouse_tracking_mode: false, cursor_visible: true }
    }

    /// Update all three modes from one freshly received chunk of child
    /// output. Only this chunk is inspected: a sequence split across chunk
    /// boundaries is not recognized.
    pub fn scan_chunk(&mut self, data: &[u8])
        ensures
            final(self).app_cursor_mode == scan_flag(
                data@,
                app_cursor_on_seq(),
                app_cursor_off_seq(),
                old(self).app_cursor_mode,
            ),
            final(self).mouse_tracking_mode == mouse_mode_after(
                data@,
                old(self).mouse_tracking_mode,
            ),
            final(self).cursor_visible == scan_flag(
                data@,
                cursor_show_seq(),
                cursor_hide_seq(),
                old(self).cursor_visible,
            ),
    {
        detect_app_cursor_mode(data, &mut self.app_cursor_mode);
        detect_mouse_mode(data, &mut self.mouse_tracking_mode);
        detect_cursor_visible(data, &mut self.cursor_visible);
    }
}

/// True for the chord prefix, Ctrl+P.
pub open spec fn is_chord_prefix(key: KeyEvent) -> bool {
    key.ctrl && key.code == KeyCode::Char('p')
}

/// True for the keys that complete the chord as a detach.
pub open spec fn is_detach_key(code: KeyCode) -> bool {
    code == KeyCode::Char('q') || code == KeyCode::Char('Q')
}

/// True for the keys that complete the chord as a stop.
pub open spec fn is_stop_key(code: KeyCode) -> bool {
    code == KeyCode::Char('x') || code == KeyCode::Char('X')
}

/// The chord flag after processing one key: set exactly by a prefix seen
/// while idle, cleared by everything else.
pub open spec fn next_chord_pending(pending: bool, key: KeyEvent) -> bool {
    !pending && is_chord_prefix(key)
}

/// The bytes forwarded to the child for one key: nothing while the chord
/// resolves, the swallowed prefix byte followed by the key's own encoding
/// when the chord falls through, and the key's encoding alone otherwise.
pub open spec fn forwarded_bytes(pending: bool, key: KeyEvent, app_cursor: bool) -> Seq<u8> {
    if pending {
        if is_detach_key(key.code) || is_stop_key(key.code) {
            Seq::empty()
        } else {
            seq![0x10u8] + key_bytes(key, app_cursor)
        }
    } else {
        if is_chord_prefix(key) {
            Seq::empty()
        } else {
            key_bytes(key, app_cursor)
        }
    }
}

/// The terminal outcome a key produces, when it completes the chord.
pub open spec fn chord_outcome(pending: bool, key: KeyEvent) -> Option<OverlayResult> {
    if pending && is_detach_key(key.code) {
        Some(OverlayResult::Detached)
    } else if pending && is_stop_key(key.code) {
        Some(OverlayResult::Stopped)
    } else {
        None
    }
}

/// What the event loop must do with one key press.
pub enum KeyAction {
    /// Return control to the caller; the session keeps running.
    Detach,
    /// Stop the underlying container, wait for the child, then return.
    StopContainer,
    /// Write these bytes to the PTY master (they may be empty).
    Forward(Vec<u8>),
    /// The chord prefix was consumed; nothing is forwarded yet.
    ChordStarted,
}

/// Intercepts the two-key detach/stop chord from the raw input stream before
/// the translator sees it.
#[derive(Clone, Copy, PartialEq, Eq, Structural, Debug)]
pub struct ControlStateMachine {
    /// True directly after an in-band chord-prefix key press.
    pub chord_pending: bool,
}

impl ControlStateMachine {
    /// A machine in the idle state.
    pub fn new() -> (r: ControlStateMachine)
        ensures
            !r.chord_pending,
    {
        ControlStateMachine { chord_pending: false }
    }

    /// Process one key press. While a chord is pending, `q`/`Q` detaches and
    /// `x`/`X` stops; any other key forwards the swallowed prefix byte and
    /// then the key itself. While idle, the prefix starts a chord and every
    /// other key is translated and forwarded.
    pub fn handle_key(&mut self, key: KeyEvent, app_cursor: bool) -> (a: KeyAction)
        ensures
            final(self).chord_pending == next_chord_pending(old(self).chord_pending, key),
            (a is Detach) == (chord_outcome(old(self).chord_pending, key) == Some(
                OverlayResult::Detached,
            )),
            (a is StopContainer) == (chord_outcome(old(self).chord_pending, key) == Some(
                OverlayResult::Stopped,
            )),
            (a is ChordStarted) == next_chord_pending(old(self).chord_pending, key),
            a matches KeyAction::Forward(b) ==> b@ == forwarded_bytes(
                old(self).chord_pending,
                key,
                app_cursor,
            ),
            (a is Forward) == (chord_outcome(old(self).chord_pending, key) is None
                && !next_chord_pending(old(self).chord_pending, key)),
    {
        if self.chord_pending {
            self.chord_pending = false;
            let is_q = match key.code {
                KeyCode::Char(c) => c == 'q' || c == 'Q',
                _ => false,
            };
            if is_q {
                return KeyAction::Detach;
            }
            let is_x = match key.code {
                KeyCode::Char(c) => c == 'x' || c == 'X',
                _ => false,
            };
            if is_x {
                return KeyAction::StopContainer;
            }
            let mut bytes: Vec<u8> = Vec::new();
            bytes.push(0x10);
            let mut tail = key_to_bytes(key, app_cursor);
            bytes.append(&mut tail);
            proof {
                assert(bytes@ =~= forwarded_bytes(true, key, app_cursor));
            }
            return KeyAction::Forward(bytes);
        }
        let is_prefix = key.ctrl && match key.code {
            KeyCode::Char(c) => c == 'p',
            _ => false,
        };
        if is_prefix {
            self.chord_pending = true;
            return KeyAction::ChordStarted;
        }
        KeyAction::Forward(key_to_bytes(key, app_cursor))
    }
}

/// `ESC [ ? 2 0 2 6 h` — begin a synchronized update.
pub open spec fn sync_begin_bytes() -> Seq<u8> {
    seq![0x1bu8, 0x5bu8, 0x3fu8, 0x32u8, 0x30u8, 0x32u8, 0x36u8, 0x68u8]
}

/// `ESC [ ? 2 0 2 6 l` — end a synchronized update.
pub open spec fn sync_end_bytes() -> Seq<u8> {
    seq![0x1bu8, 0x5bu8, 0x3fu8, 0x32u8, 0x30u8, 0x32u8, 0x36u8, 0x6cu8]
}

fn push_sync_marker(out: &mut Vec<u8>, suffix: u8)
    ensures
        final(out)@ == old(out)@ + seq![
            0x1bu8,
            0x5bu8,
            0x3fu8,
            0x32u8,
            0x30u8,
            0x32u8,
            0x36u8,
            suffix,
        ],
{
    out.push(0x1b);
    out.push(0x5b);
    out.push(0x3f);
    out.push(0x32);
    out.push(0x30);
    out.push(0x32);
    out.push(0x36);
    out.push(suffix);
    proof {
        assert(out@ =~= old(out)@ + seq![0x1bu8, 0x5bu8, 0x3fu8, 0x32u8, 0x30u8, 0x32u8, 0x36u8,
            suffix]);
    }
}

fn extend_bytes(out: &mut Vec<u8>, s: &[u8])
    ensures
        final(out)@ == old(out)@ + s@,
{
    let n = s.len();
    let mut i: usize = 0;
    while i < n
        invariant
            n == s@.len(),
            i <= n,
            out@ =~= old(out)@ + s@.take(i as int),
        decreases n - i,
    {
        out.push(s[i]);
        proof {
            assert(old(out)@ + s@.take(i as int + 1) =~= (old(out)@ + s@.take(i as int)).push(
                s@[i as int],
            ));
        }
        i = i + 1;
    }
    proof {
        assert(s@.take(n as int) =~= s@);
    }
}

/// The plan the event loop executes after a window resize.
pub struct ResizePlan {
    /// One synchronized burst: new scroll region, then the redrawn status
    /// bar. The screen is not cleared, so old content stays visible until
    /// the child repaints.
    pub redraw: Vec<u8>,
    /// The transient height of the PTY nudge that makes the child repaint.
    pub nudge_rows: u16,
    /// The content height the PTY is set back to.
    pub content_rows: u16,
    /// The new width.
    pub cols: u16,
}

/// Owns the per-session state the event loop consults: the session label,
/// the status bar colors, the scanned terminal modes, and the chord machine.
pub struct OverlayEngine {
    /// The label drawn left-aligned in the status bar.
    pub session_name: String,
    /// SGR fragment for the status bar foreground.
    pub fg_color: String,
    /// SGR fragment for the status bar background.
    pub bg_color: String,
    /// Modes scanned from the child's output.
    pub modes: ModeState,
    /// The detach/stop chord machine.
    pub control: ControlStateMachine,
}

impl OverlayEngine {
    /// Set up engine state for a session: resolve the status bar colors and
    /// start with default modes and an idle chord machine.
    pub fn new(session_name: String, color: Option<&str>) -> (r: OverlayEngine)
        ensures
            r.session_name == session_name,
            color is None ==> r.fg_color@ == "97;"@ && r.bg_color@ == "100;"@,
            color is Some ==> r.fg_color@ == status_fg(color->Some_0@) && r.bg_color@
                == status_bg(color->Some_0@),
            r.modes == (ModeState {
                app_cursor_mode: false,
                mouse_tracking_mode: false,
                cursor_visible: true,
            }),
            !r.control.chord_pending,
    {
        let (fg_color, bg_color) = parse_status_colors(color);
        OverlayEngine {
            session_name,
            fg_color,
            bg_color,
            modes: ModeState::new(),
            control: ControlStateMachine::new(),
        }
    }

    /// Scan one freshly drained chunk of child output for mode changes.
    pub fn on_output_chunk(&mut self, data: &[u8])
        ensures
            final(self).modes.app_cursor_mode == scan_flag(
                data@,
                app_cursor_on_seq(),
                app_cursor_off_seq(),
                old(self).modes.app_cursor_mode,
            ),
            final(self).modes.mouse_tracking_mode == mouse_mode_after(
                data@,
                old(self).modes.mouse_tracking_mode,
            ),
            final(self).modes.cursor_visible == scan_flag(
                data@,
                cursor_show_seq(),
                cursor_hide_seq(),
                old(self).modes.cursor_visible,
            ),
            final(self).session_name == old(self).session_name,
            final(self).fg_color == old(self).fg_color,
            final(self).bg_color == old(self).bg_color,
            final(self).control == old(self).control,
    {
        self.modes.scan_chunk(data);
    }

    /// One output frame: the drained content bytes followed by the redrawn
    /// status bar, wrapped in a synchronized-update bracket so the terminal
    /// renders them atomically. The bar always follows the content, so stale
    /// child output from the same batch never overwrites it.
    pub fn frame_bytes(&self, content: &[u8], rows: u16, cols: u16) -> (r: Vec<u8>)
        ensures
            r@ == sync_begin_bytes() + content@ + encode_utf8(
                status_bar(
                    rows,
                    cols,
                    self.session_name@,
                    self.fg_color@,
                    self.bg_color@,
                    self.modes.cursor_visible,
                ),
            ) + sync_end_bytes(),
    {
        let mut out: Vec<u8> = Vec::new();
        push_sync_marker(&mut out, 0x68);
        extend_bytes(&mut out, content);
        let bar = draw_status_bar(
            rows,
            cols,
            self.session_name.as_str(),
            self.fg_color.as_str(),
            self.bg_color.as_str(),
            self.modes.cursor_visible,
        );
        extend_bytes(&mut out, bar.as_str().as_bytes());
        push_sync_marker(&mut out, 0x6c);
        out
    }

    /// Run one key press through the chord machine, translating forwarded
    /// keys with the current application-cursor mode.
    pub fn on_key(&mut self, key: KeyEvent) -> (a: KeyAction)
        ensures
            final(self).control.chord_pending == next_chord_pending(
                old(self).control.chord_pending,
                key,
            ),
            (a is Detach) == (chord_outcome(old(self).control.chord_pending, key) == Some(
                OverlayResult::Detached,
            )),
            (a is StopContainer) == (chord_outcome(old(self).control.chord_pending, key) == Some(
                OverlayResult::Stopped,
            )),
            (a is ChordStarted) == next_chord_pending(old(self).control.chord_pending, key),
            a matches KeyAction::Forward(b) ==> b@ == forwarded_bytes(
                old(self).control.chord_pending,
                key,
                old(self).modes.app_cursor_mode,
            ),
            (a is Forward) == (chord_outcome(old(self).control.chord_pending, key) is None
                && !next_chord_pending(old(self).control.chord_pending, key)),
            final(self).modes == old(self).modes,
            final(self).session_name == old(self).session_name,
            final(self).fg_color == old(self).fg_color,
            final(self).bg_color == old(self).bg_color,
    {
        self.control.handle_key(key, self.modes.app_cursor_mode)
    }

    /// Encode a mouse event for the child, but only while it has mouse
    /// tracking on; otherwise the event is dropped.
    pub fn on_mouse(&self, kind: MouseEventKind, col: u16, row: u16) -> (r: Option<String>)
        ensures
            (r is Some) == self.modes.mouse_tracking_mode,
            r is Some ==> r->Some_0@ == mouse_report(kind, col, row),
    {
        if !self.modes.mouse_tracking_mode {
            return None;
        }
        encode_mouse_event(kind, col, row)
    }

    /// The bytes written once at startup: clear the screen, home the cursor,
    /// reserve the bottom row with a scroll region, and draw the first
    /// status bar.
    pub fn init_bytes(&self, rows: u16, cols: u16) -> (r: Vec<u8>)
        ensures
            r@ == encode_utf8(
                "\x1b[2J\x1b[H\x1b[1;"@ + dec_chars(content_rows_of(rows) as nat) + "r"@
                    + status_bar(
                    rows,
                    cols,
                    self.session_name@,
                    self.fg_color@,
                    self.bg_color@,
                    self.modes.cursor_visible,
                ),
            ),
    {
        let content_rows: u16 = if rows <= 1 {
            1
        } else {
            rows - 1
        };
        let mut s = String::from_str("\x1b[2J\x1b[H\x1b[1;");
        push_u32_dec(&mut s, content_rows as u32);
        s.append("r");
        let bar = draw_status_bar(
            rows,
            cols,
            self.session_name.as_str(),
            self.fg_color.as_str(),
            self.bg_color.as_str(),
            self.modes.cursor_visible,
        );
        s.append(bar.as_str());
        proof {
            assert(s@ =~= "\x1b[2J\x1b[H\x1b[1;"@ + dec_chars(content_rows_of(rows) as nat) + "r"@
                + status_bar(rows, cols, self.session_name@, self.fg_color@, self.bg_color@,
                self.modes.cursor_visible));
        }
        let sb = s.as_str();
        let mut out: Vec<u8> = Vec::new();
        extend_bytes(&mut out, sb.as_bytes());
        proof {
            assert(out@ =~= sb.spec_bytes());
        }
        out
    }

    /// The plan for a window resize: when the new height leaves room, one
    /// synchronized burst re-asserting the scroll region and redrawing the
    /// status bar, plus the PTY nudge sizes that make the child repaint. A
    /// height of one row or less is ignored.
    pub fn on_resize(&self, rows: u16, cols: u16) -> (r: Option<ResizePlan>)
        ensures
            (r is Some) == (rows > 1),
            r matches Some(p) ==> {
                &&& p.redraw@ == sync_begin_bytes() + encode_utf8(
                    "\x1b[1;"@ + dec_chars((rows - 1) as nat) + "r"@ + status_bar(
                        rows,
                        cols,
                        self.session_name@,
                        self.fg_color@,
                        self.bg_color@,
                        self.modes.cursor_visible,
                    ),
                ) + sync_end_bytes()
                &&& p.content_rows == rows - 1
                &&& p.nudge_rows == (if rows - 1 > 1 {
                    rows - 2
                } else {
                    1int
                })
                &&& p.cols == cols
            },
    {
        if rows <= 1 {
            return None;
        }
        let content_rows = rows - 1;
        let nudge_rows: u16 = if content_rows > 1 {
            content_rows - 1
        } else {
            1
        };
        let mut s = String::from_str("\x1b[1;");
        push_u32_dec(&mut s, content_rows as u32);
        s.append("r");
        let bar = draw_status_bar(
            rows,
            cols,
            self.session_name.as_str(),
            self.fg_color.as_str(),
            self.bg_color.as_str(),
            self.modes.cursor_visible,
        );
        s.append(bar.as_str());
        proof {
            assert(s@ =~= "\x1b[1;"@ + dec_chars((rows - 1) as nat) + "r"@ + status_bar(
                rows,
                cols,
                self.session_name@,
                self.fg_color@,
                self.bg_color@,
                self.modes.cursor_visible,
            ));
        }
        let mut redraw: Vec<u8> = Vec::new();
        push_sync_marker(&mut redraw, 0x68);
        extend_bytes(&mut redraw, s.as_str().as_bytes());
        push_sync_marker(&mut redraw, 0x6c);
        Some(ResizePlan { redraw, nudge_rows, content_rows, cols })
    }
}

/// The bytes the terminal guard writes on every exit path: reset the scroll
/// region to the full terminal, move to the bottom row, clear the status bar
/// remnant, and emit a newline so the shell's next prompt starts clean.
pub fn terminal_restore_bytes() -> (r: Vec<u8>)
    ensures
        r@ == encode_utf8("\x1b[r\x1b[999;1H\x1b[2K\n"@),
{
    let s = "\x1b[r\x1b[999;1H\x1b[2K\n";
    let mut out: Vec<u8> = Vec::new();
    extend_bytes(&mut out, s.as_bytes());
    proof {
        assert(out@ =~= s.spec_bytes());
    }
    out
}

/// Starting from the idle state, the chord prefix followed by a detach key
/// returns the detached outcome with no byte forwarded to the child, by
/// either key press.
pub proof fn lemma_detach_chord(prefix: KeyEvent, done: KeyEvent, app_cursor: bool)
    requires
        is_chord_prefix(prefix),
        is_detach_key(done.code),
    ensures
        forwarded_bytes(false, prefix, app_cursor) == Seq::<u8>::empty(),
        next_chord_pending(false, prefix),
        forwarded_bytes(true, done, app_cursor) == Seq::<u8>::empty(),
        chord_outcome(true, done) == Some(OverlayResult::Detached),
        !next_chord_pending(true, done),
{
}

/// Starting from the idle state, the chord prefix followed by any key that
/// completes no chord forwards the swallowed prefix byte and then that key's
/// own translation, in that order.
pub proof fn lemma_chord_fallthrough(prefix: KeyEvent, other: KeyEvent, app_cursor: bool)
    requires
        is_chord_prefix(prefix),
        !is_detach_key(other.code),
        !is_stop_key(other.code),
    ensures
        forwarded_bytes(false, prefix, app_cursor) == Seq::<u8>::empty(),
        next_chord_pending(false, prefix),
        forwarded_bytes(true, other, app_cursor) == seq![0x10u8] + key_bytes(other, app_cursor),
        chord_outcome(true, other) is None,
        !next_chord_pending(true, other),
{
}

} // verus!
