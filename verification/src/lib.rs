//! A transparent PTY overlay for containerized sessions: a child process
//! runs behind a pseudo-terminal while one terminal row is reserved for a
//! status bar. This crate holds the verified logic: the keyboard and mouse
//! protocol translation, the mode-change scanners, the status bar
//! compositor, the detach/stop chord machine, the event-loop decisions, and
//! the pure parts of session metadata and container argument handling. The
//! I/O around it (the PTY, the reader thread, the terminal, the container
//! runtime) lives with the caller.
use vstd::prelude::*;

pub mod colors;
pub mod config;
pub mod docker_args;
pub mod engine;
pub mod keys;
pub mod modes;
pub mod mouse;
pub mod paths;
pub mod session;
pub mod shell;
pub mod status;
pub mod text;
pub mod text_input;

pub use colors::{lemma_hex_fg_by_luminance, luminance_fg, parse_status_colors};
pub use config::{default_image, resolve, BoxConfig, BoxConfigInput, ConfigError};
pub use docker_args::{build_run_args, ArgsError, DockerRunConfig, SshAgentPaths};
pub use engine::{
    content_size, exit_outcome, lemma_chord_fallthrough, lemma_detach_chord,
    terminal_restore_bytes, ControlStateMachine, KeyAction, ModeState, OverlayEngine,
    OverlayResult, ResizePlan, SetupError,
};
pub use keys::{f_key_bytes, key_to_bytes, lemma_ctrl_letter_byte, KeyCode, KeyEvent};
pub use modes::{detect_app_cursor_mode, detect_cursor_visible, detect_mouse_mode};
pub use mouse::{encode_mouse_event, MouseButton, MouseEventKind};
pub use paths::derive_mount_path;
pub use session::{
    assemble_session, join_nul, lemma_nul_round_trip, sessions_dir, split_nul, trim_ascii,
    validate_name, NameError, Session, SessionSummary,
};
pub use status::draw_status_bar;
pub use text_input::TextInput;

verus! {

} // verus!
