//! Keyboard-driven window switcher core.
//!
//! Windows are tagged with short repeated-letter hints; typing a hint's
//! letters focuses the window, or launches a configured application when
//! no window matches.  This crate holds the deterministic heart of that
//! behavior: hint assignment and matching, input normalization, the
//! debounce timeout tracker, and the event-driven lifecycle state
//! machine.  All I/O — compositor protocols, rendering, sockets, files
//! and clocks — stays with the caller, which hands in plain values (the
//! current time in milliseconds, keysym codes, file contents) and
//! executes the actions the state machine returns.

use vstd::prelude::*;

mod buffer;
mod chars;
mod config;
mod cosmic_keys;
mod env;
mod error;
mod hint;
mod ipc;
mod launcher;
mod laws;
mod matcher;
mod mru;
mod processor;
mod render;
mod state;
mod strutil;
mod timeout;
mod ui;
mod validator;
mod window;

pub use crate::buffer::{buffer_from_str, InputBuffer, MAX_INPUT_LENGTH};
pub use crate::config::{
    default_keys, str_eq, str_first_char, Color, Config, KeyBinding, LaunchConfig, Settings,
};
pub use crate::cosmic_keys::{
    add_binding, escape_ron_string, format_keybinding, has_sesame_binding, parse_key_combo,
    remove_sesame_bindings,
};
pub use crate::env::{parse_env_contents, parse_env_value};
pub use crate::error::Error;
pub use crate::hint::auto_generate_key;
pub use crate::hint::{normalize_input, HintAssignment, HintSequence, WindowHint};
pub use crate::ipc::{IpcCommand, IpcResponse};
pub use crate::launcher::LaunchCommand;
pub use crate::laws::{
    lemma_cycle_index_empty, lemma_cycle_index_round_trip, lemma_escape_cancels,
    lemma_hint_round_trip, lemma_tick_without_frames_is_identity,
    lemma_unmatched_event_is_identity,
};
pub use crate::matcher::{HintMatcher, MatchResult};
pub use crate::mru::{parse_mru_contents, reorder_for_mru, MruState};
pub use crate::processor::{keysym_to_alnum, InputAction, InputProcessor, SelectionDirection};
pub use crate::render::Color as RenderColor;
pub use crate::state::{
    cycle_index, is_tab, keysym_to_char, Action, ActivationResult, AppState, Event, Transition,
};
pub use crate::state::{
    KEY_BACKSPACE, KEY_DOWN, KEY_ESCAPE, KEY_ISO_LEFT_TAB, KEY_KP_DOWN, KEY_KP_ENTER, KEY_KP_UP,
    KEY_RETURN, KEY_TAB, KEY_UP,
};
pub use crate::timeout::TimeoutTracker;
pub use crate::ui::{extract_app_name, OverlayPhase};
pub use crate::validator::{ConfigValidator, Severity, ValidationIssue};
pub use crate::window::{lower_str, str_last_segment, AppId, Window, WindowId};

verus! {

} // verus!
