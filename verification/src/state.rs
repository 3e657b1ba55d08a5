//! Application lifecycle state machine.
//!
//! A pure transition function: every event maps the current state to a
//! new state plus a list of actions for the caller to execute.  The
//! machine performs no I/O; the caller supplies the current time in
//! milliseconds with each call.

use vstd::prelude::*;

use crate::config::{spec_launch_config, Config};
use crate::hint::{HintAssignment, WindowHint};
use crate::matcher::{
    spec_first_equal, spec_match_ok, spec_matched_pos, HintMatcher, MatchResult,
};
use crate::hint::spec_canonical;
use crate::hint::spec_normalize;
use crate::strutil::{chars_to_string, str_chars};
use crate::timeout::{spec_has_elapsed, TimeoutTracker};
use vstd::string::*;

verus! {

/// Keysym code for Tab.
pub const KEY_TAB: u32 = 0xff09;

/// Keysym code for ISO_Left_Tab (Shift+Tab on most keyboards).
pub const KEY_ISO_LEFT_TAB: u32 = 0xfe20;

/// Keysym code for Escape.
pub const KEY_ESCAPE: u32 = 0xff1b;

/// Keysym code for Return.
pub const KEY_RETURN: u32 = 0xff0d;

/// Keysym code for keypad Enter.
pub const KEY_KP_ENTER: u32 = 0xff8d;

/// Keysym code for Backspace.
pub const KEY_BACKSPACE: u32 = 0xff08;

/// Keysym code for the up arrow.
pub const KEY_UP: u32 = 0xff52;

/// Keysym code for the down arrow.
pub const KEY_DOWN: u32 = 0xff54;

/// Keysym code for keypad up.
pub const KEY_KP_UP: u32 = 0xff97;

/// Keysym code for keypad down.
pub const KEY_KP_DOWN: u32 = 0xff99;

/// Result of the whole session.
#[derive(Debug)]
pub enum ActivationResult {
    /// Activate the window at this hint index.
    Window(usize),
    /// Quick Alt+Tab: activate the previous window.
    QuickSwitch,
    /// Launch the application bound to this key.
    Launch(String),
    /// The user cancelled.
    Cancelled,
}

/// Value equality of activation results.
pub open spec fn spec_result_eq(a: ActivationResult, b: ActivationResult) -> bool {
    match (a, b) {
        (ActivationResult::Window(i), ActivationResult::Window(j)) => i == j,
        (ActivationResult::QuickSwitch, ActivationResult::QuickSwitch) => true,
        (ActivationResult::Launch(x), ActivationResult::Launch(y)) => x@ == y@,
        (ActivationResult::Cancelled, ActivationResult::Cancelled) => true,
        _ => false,
    }
}

impl Clone for ActivationResult {
    fn clone(&self) -> (r: Self)
        ensures
            spec_result_eq(r, *self),
    {
        match self {
            ActivationResult::Window(i) => ActivationResult::Window(*i),
            ActivationResult::QuickSwitch => ActivationResult::QuickSwitch,
            ActivationResult::Launch(s) => ActivationResult::Launch(s.clone()),
            ActivationResult::Cancelled => ActivationResult::Cancelled,
        }
    }
}

/// Events that can drive state transitions.
#[derive(Debug, Clone, Copy)]
pub enum Event {
    /// A key was pressed.
    KeyPress {
        /// Keysym code of the key.
        keysym: u32,
        /// Whether Shift was held.
        shift: bool,
    },
    /// The Alt modifier was released.
    AltReleased,
    /// Timer tick, for checking timeouts.
    Tick,
    /// A frame callback arrived: it is safe to render.
    FrameCallback,
    /// External signal to cycle the selection forward.
    CycleForward,
    /// External signal to cycle the selection backward.
    CycleBackward,
    /// The surface was configured with new dimensions.
    Configure {
        /// New width in pixels.
        width: u32,
        /// New height in pixels.
        height: u32,
    },
}

/// Actions the caller must execute after a transition.
#[derive(Debug, Clone, Copy, PartialEq, Eq, Structural)]
pub enum Action {
    /// Schedule a redraw on the next frame.
    ScheduleRedraw,
    /// Exit the event loop.
    Exit,
}

/// Application lifecycle state.
#[derive(Debug)]
pub enum AppState {
    /// Border-only phase, waiting for the overlay delay.
    BorderOnly {
        /// When this phase started, in milliseconds.
        start_time: u64,
        /// Number of frames rendered in this phase.
        frame_count: u32,
    },
    /// Full overlay with the window list visible.
    FullOverlay {
        /// Index into the hints array (not into any filtered view).
        selected_hint_index: usize,
        /// User input collected for hint matching.
        input: String,
    },
    /// An exact hint match, waiting out the activation delay.
    PendingActivation {
        /// Index of the matched hint.
        hint_index: usize,
        /// Current input.
        input: String,
        /// Tracker for the activation delay.
        timeout: TimeoutTracker,
    },
    /// Terminal state: the session is over.
    Exiting {
        /// The session's result.
        result: ActivationResult,
    },
}

/// Value equality of states.
pub open spec fn spec_state_eq(a: AppState, b: AppState) -> bool {
    match (a, b) {
        (
            AppState::BorderOnly { start_time: s1, frame_count: f1 },
            AppState::BorderOnly { start_time: s2, frame_count: f2 },
        ) => s1 == s2 && f1 == f2,
        (
            AppState::FullOverlay { selected_hint_index: i1, input: in1 },
            AppState::FullOverlay { selected_hint_index: i2, input: in2 },
        ) => i1 == i2 && in1@ == in2@,
        (
            AppState::PendingActivation { hint_index: i1, input: in1, timeout: t1 },
            AppState::PendingActivation { hint_index: i2, input: in2, timeout: t2 },
        ) => i1 == i2 && in1@ == in2@ && t1 == t2,
        (AppState::Exiting { result: r1 }, AppState::Exiting { result: r2 }) => spec_result_eq(
            r1,
            r2,
        ),
        _ => false,
    }
}

impl Clone for AppState {
    fn clone(&self) -> (r: Self)
        ensures
            spec_state_eq(r, *self),
    {
        match self {
            AppState::BorderOnly { start_time, frame_count } => AppState::BorderOnly {
                start_time: *start_time,
                frame_count: *frame_count,
            },
            AppState::FullOverlay { selected_hint_index, input } => AppState::FullOverlay {
                selected_hint_index: *selected_hint_index,
                input: input.clone(),
            },
            AppState::PendingActivation { hint_index, input, timeout } => {
                AppState::PendingActivation {
                    hint_index: *hint_index,
                    input: input.clone(),
                    timeout: *timeout,
                }
            },
            AppState::Exiting { result } => AppState::Exiting { result: result.clone() },
        }
    }
}

/// A state transition: the new state and the actions it asks for.
pub struct Transition {
    /// The state after the event.
    pub new_state: AppState,
    /// Actions for the caller, in order.
    pub actions: Vec<Action>,
}

/// Tab, including the ISO left-tab keysym sent for Shift+Tab.
pub open spec fn spec_is_tab(keysym: u32) -> bool {
    keysym == KEY_TAB || keysym == KEY_ISO_LEFT_TAB
}

/// Whether a keysym is Tab-like.  Besides the named constants this also
/// accepts the raw codes 0xff09 and 0xfe20, which some compositors send
/// directly.
pub fn is_tab(keysym: u32) -> (r: bool)
    ensures
        r == spec_is_tab(keysym),
{
    keysym == KEY_TAB || keysym == KEY_ISO_LEFT_TAB || keysym == 0xff09 || keysym == 0xfe20
}

/// The printable ASCII character of a keysym, for codes 0x20 ..= 0x7e.
pub open spec fn spec_keysym_char(keysym: u32) -> Option<char> {
    if 0x20 <= keysym && keysym <= 0x7e {
        Some((keysym as u8) as char)
    } else {
        Option::None
    }
}

/// Map a keysym to its printable ASCII character, if it has one.
pub fn keysym_to_char(keysym: u32) -> (r: Option<char>)
    ensures
        r == spec_keysym_char(keysym),
{
    if 0x20 <= keysym && keysym <= 0x7e {
        Some((keysym as u8) as char)
    } else {
        None
    }
}

/// Cycling a selection through `len` entries: one step forward wraps
/// from the end to the start, one step backward from the start to the
/// end; an empty list pins the selection at zero.
pub open spec fn spec_cycle_index(current: int, len: int, forward: bool) -> int {
    if len == 0 {
        0
    } else if forward {
        (current + 1) % len
    } else if current == 0 {
        len - 1
    } else {
        current - 1
    }
}

/// Cycle a selection index through `len` entries, wrapping at both ends.
pub fn cycle_index(current: usize, len: usize, forward: bool) -> (r: usize)
    ensures
        r == spec_cycle_index(current as int, len as int, forward),
{
    if len == 0 {
        0
    } else if forward {
        proof {
            vstd::arithmetic::div_mod::lemma_add_mod_noop(current as int, 1, len as int);
            vstd::arithmetic::div_mod::lemma_mod_self_0(len as int);
            vstd::arithmetic::div_mod::lemma_mod_twice(current as int, len as int);
            if len > 1 {
                vstd::arithmetic::div_mod::lemma_small_mod(1nat, len as nat);
            }
            assert(((current as int) % (len as int) + 1) % (len as int) == ((current as int) + 1)
                % (len as int));
        }
        ((current % len) + 1) % len
    } else if current == 0 {
        len - 1
    } else {
        current - 1
    }
}

/// Milliseconds elapsed from `start` to `now`; zero when `now` lies
/// before `start`.
pub open spec fn spec_elapsed(start: u64, now: u64) -> int {
    if now >= start {
        now - start
    } else {
        0
    }
}

/// The hint position a previous-window id selects: the first hint with
/// that window id, else zero.
pub open spec fn spec_sel_prev(hints: Seq<WindowHint>, prev: Option<Seq<char>>) -> int {
    match prev {
        Some(p) => match HintAssignment::spec_find_index(hints, p) {
            Some(k) => k,
            Option::None => 0,
        },
        Option::None => 0,
    }
}

/// The selection Tab or a cycle signal picks when the overlay first
/// opens: the last hint for a backward step, else the second (or the
/// only one).
pub open spec fn spec_tab_sel(len: int, backward: bool) -> int {
    let last = if len == 0 {
        0int
    } else {
        len - 1
    };
    if backward {
        last
    } else if 1 < last {
        1
    } else {
        last
    }
}

/// A tracker freshly started at `now` with the configured activation
/// delay.
pub open spec fn spec_started(now: u64, delay: u64) -> TimeoutTracker {
    TimeoutTracker { started_at: Some(now), duration_ms: delay }
}

/// Outcome of matching an input against the hints, reduced to what the
/// state machine needs: the position of the single target hint, an
/// ambiguous match, or none.
pub enum MatchOutcome {
    /// No hint matches.
    MNone,
    /// Several hints match and none is spelled out in full.
    MPartial,
    /// One hint is the target; its position in the hint list.
    MExact(int),
}

/// Reduce `spec_match_ok`'s cases to a `MatchOutcome`.
pub open spec fn spec_match_outcome(hints: Seq<WindowHint>, inp: Seq<char>) -> MatchOutcome {
    let pos = spec_matched_pos(hints, inp);
    let norm = spec_normalize(inp);
    if inp.len() == 0 {
        MatchOutcome::MPartial
    } else if pos.len() == 0 {
        MatchOutcome::MNone
    } else if pos.len() == 1 {
        MatchOutcome::MExact(pos[0])
    } else if exists|j: int|
        0 <= j < pos.len() && spec_canonical(hints[#[trigger] pos[j]].hint) == norm {
        MatchOutcome::MExact(pos[spec_first_equal(hints, pos, norm)])
    } else {
        MatchOutcome::MPartial
    }
}

proof fn lemma_matched_pos_range(hints: Seq<WindowHint>, inp: Seq<char>)
    ensures
        forall|j: int|
            0 <= j < spec_matched_pos(hints, inp).len() ==> 0 <= #[trigger] spec_matched_pos(
                hints,
                inp,
            )[j] < hints.len(),
    decreases hints.len(),
{
    if hints.len() > 0 {
        lemma_matched_pos_range(hints.drop_last(), inp);
        let rest = spec_matched_pos(hints.drop_last(), inp);
        let cur = spec_matched_pos(hints, inp);
        assert forall|j: int| 0 <= j < cur.len() implies 0 <= #[trigger] cur[j] < hints.len() by {
            if crate::matcher::spec_hint_matches(hints.last(), inp) {
                if j < rest.len() {
                    assert(cur[j] == rest[j]);
                } else {
                    assert(cur[j] == hints.len() - 1);
                }
            } else {
                assert(cur[j] == rest[j]);
            }
        }
    }
}

proof fn lemma_first_equal_range(hints: Seq<WindowHint>, pos: Seq<int>, norm: Seq<char>)
    requires
        exists|j: int| 0 <= j < pos.len() && spec_canonical(hints[#[trigger] pos[j]].hint) == norm,
    ensures
        0 <= spec_first_equal(hints, pos, norm) < pos.len(),
        spec_canonical(hints[pos[spec_first_equal(hints, pos, norm)]].hint) == norm,
    decreases pos.len(),
{
    if pos.len() > 0 {
        if spec_canonical(hints[pos[0]].hint) == norm {
        } else {
            let j = choose|j: int|
                0 <= j < pos.len() && spec_canonical(hints[#[trigger] pos[j]].hint) == norm;
            assert(0 <= j - 1 < pos.drop_first().len() && spec_canonical(
                hints[pos.drop_first()[j - 1]].hint,
            ) == norm);
            lemma_first_equal_range(hints, pos.drop_first(), norm);
        }
    }
}

/// The input with its last character removed; empty input stays empty.
pub open spec fn spec_pop(s: Seq<char>) -> Seq<char> {
    if s.len() > 0 {
        s.drop_last()
    } else {
        s
    }
}

/// `r` stays in (or enters) the full overlay with this selection and
/// input, scheduling a redraw when `redraw` holds and nothing otherwise.
pub open spec fn spec_overlay_ok(r: Transition, sel: int, input: Seq<char>, redraw: bool) -> bool {
    &&& (r.new_state matches AppState::FullOverlay { selected_hint_index, input: inp }
        && selected_hint_index == sel && inp@ == input)
    &&& r.actions@ == if redraw {
        seq![Action::ScheduleRedraw]
    } else {
        Seq::<Action>::empty()
    }
}

/// `r` enters pending activation on this hint with this input and
/// timeout, scheduling a redraw.
pub open spec fn spec_pending_ok(
    r: Transition,
    idx: int,
    input: Seq<char>,
    t: TimeoutTracker,
) -> bool {
    &&& (r.new_state matches AppState::PendingActivation { hint_index, input: inp, timeout }
        && hint_index == idx && inp@ == input && timeout == t)
    &&& r.actions@ == seq![Action::ScheduleRedraw]
}

/// `r` exits with the given result and asks the caller to quit.
pub open spec fn spec_exit_ok(r: Transition, res: ActivationResult) -> bool {
    &&& (r.new_state matches AppState::Exiting { result } && spec_result_eq(result, res))
    &&& r.actions@ == seq![Action::Exit]
}

/// `r` exits asking to launch the application bound to `key`.
pub open spec fn spec_exit_launch_ok(r: Transition, key: Seq<char>) -> bool {
    &&& (r.new_state matches AppState::Exiting { result } && (result
        matches ActivationResult::Launch(k) && k@ == key))
    &&& r.actions@ == seq![Action::Exit]
}

/// `r` leaves the state untouched, with no actions.
pub open spec fn spec_identity_ok(r: Transition, s: AppState) -> bool {
    spec_state_eq(r.new_state, s) && r.actions@ == Seq::<Action>::empty()
}

/// The quick-switch result when Alt is released in the border phase: the
/// previous window's hint when it resolves; the first window when a
/// previous id was given but resolves to nothing, or when the release
/// came late; plain quick-switch when no previous id is known.
pub open spec fn spec_alt_release_result(
    hints: Seq<WindowHint>,
    prev: Option<Seq<char>>,
    quick: bool,
) -> ActivationResult {
    if quick {
        match prev {
            Some(p) => match HintAssignment::spec_find_index(hints, p) {
                Some(k) => ActivationResult::Window(k as usize),
                Option::None => ActivationResult::Window(0),
            },
            Option::None => ActivationResult::QuickSwitch,
        }
    } else {
        ActivationResult::Window(0)
    }
}

/// The whole transition table: what `handle_event` owes for every state
/// and event.  Any pair the table does not name leaves the state
/// untouched with no actions.
pub open spec fn spec_transition_ok(
    s: AppState,
    ev: Event,
    cfg: Config,
    hints: Seq<WindowHint>,
    prev: Option<Seq<char>>,
    now: u64,
    r: Transition,
) -> bool {
    match s {
        AppState::BorderOnly { start_time, frame_count } => match ev {
            Event::FrameCallback => {
                &&& (r.new_state matches AppState::BorderOnly { start_time: st2, frame_count: fc2 }
                    && st2 == start_time && fc2 == (if frame_count == u32::MAX {
                    u32::MAX
                } else {
                    (frame_count + 1) as u32
                }))
                &&& r.actions@ == Seq::<Action>::empty()
            },
            Event::Tick => {
                if spec_elapsed(start_time, now) >= cfg.settings.overlay_delay && frame_count
                    >= 2 {
                    spec_overlay_ok(r, spec_sel_prev(hints, prev), Seq::empty(), true)
                } else {
                    spec_identity_ok(r, s)
                }
            },
            Event::AltReleased => spec_exit_ok(
                r,
                spec_alt_release_result(
                    hints,
                    prev,
                    spec_elapsed(start_time, now) < cfg.settings.quick_switch_threshold,
                ),
            ),
            Event::KeyPress { keysym, shift } => {
                if spec_is_tab(keysym) {
                    spec_overlay_ok(r, spec_tab_sel(hints.len() as int, shift), Seq::empty(), true)
                } else if keysym == KEY_ESCAPE {
                    spec_exit_ok(r, ActivationResult::Cancelled)
                } else {
                    match spec_keysym_char(keysym) {
                        Some(c) => match spec_match_outcome(hints, seq![c]) {
                            MatchOutcome::MExact(p) => spec_pending_ok(
                                r,
                                hints[p].index as int,
                                seq![c],
                                spec_started(now, cfg.settings.activation_delay),
                            ),
                            MatchOutcome::MPartial => spec_overlay_ok(r, 0, seq![c], true),
                            MatchOutcome::MNone => {
                                if spec_launch_config(cfg.keys@, seq![c]) is Some {
                                    spec_exit_launch_ok(r, seq![c])
                                } else {
                                    spec_overlay_ok(r, 0, Seq::empty(), true)
                                }
                            },
                        },
                        Option::None => spec_overlay_ok(r, 0, Seq::empty(), true),
                    }
                }
            },
            Event::CycleForward => spec_overlay_ok(
                r,
                spec_tab_sel(hints.len() as int, false),
                Seq::empty(),
                true,
            ),
            Event::CycleBackward => spec_overlay_ok(
                r,
                spec_tab_sel(hints.len() as int, true),
                Seq::empty(),
                true,
            ),
            Event::Configure { .. } => spec_identity_ok(r, s),
        },
        AppState::FullOverlay { selected_hint_index: sel, input } => match ev {
            Event::KeyPress { keysym, shift } => {
                if spec_is_tab(keysym) {
                    spec_overlay_ok(
                        r,
                        spec_cycle_index(sel as int, hints.len() as int, !shift),
                        input@,
                        true,
                    )
                } else if keysym == KEY_DOWN || keysym == KEY_KP_DOWN {
                    spec_overlay_ok(
                        r,
                        spec_cycle_index(sel as int, hints.len() as int, true),
                        input@,
                        true,
                    )
                } else if keysym == KEY_UP || keysym == KEY_KP_UP {
                    spec_overlay_ok(
                        r,
                        spec_cycle_index(sel as int, hints.len() as int, false),
                        input@,
                        true,
                    )
                } else if keysym == KEY_RETURN || keysym == KEY_KP_ENTER {
                    spec_exit_ok(r, ActivationResult::Window(sel))
                } else if keysym == KEY_ESCAPE {
                    spec_exit_ok(r, ActivationResult::Cancelled)
                } else if keysym == KEY_BACKSPACE {
                    spec_overlay_ok(r, sel as int, spec_pop(input@), true)
                } else {
                    match spec_keysym_char(keysym) {
                        Some(c) => match spec_match_outcome(hints, input@.push(c)) {
                            MatchOutcome::MExact(p) => spec_pending_ok(
                                r,
                                hints[p].index as int,
                                input@.push(c),
                                spec_started(now, cfg.settings.activation_delay),
                            ),
                            MatchOutcome::MPartial => spec_overlay_ok(
                                r,
                                sel as int,
                                input@.push(c),
                                true,
                            ),
                            MatchOutcome::MNone => {
                                if spec_launch_config(cfg.keys@, seq![c]) is Some {
                                    spec_exit_launch_ok(r, seq![c])
                                } else {
                                    spec_overlay_ok(r, sel as int, input@, false)
                                }
                            },
                        },
                        Option::None => spec_identity_ok(r, s),
                    }
                }
            },
            Event::AltReleased => spec_exit_ok(r, ActivationResult::Window(sel)),
            Event::CycleForward => spec_overlay_ok(
                r,
                spec_cycle_index(sel as int, hints.len() as int, true),
                input@,
                true,
            ),
            Event::CycleBackward => spec_overlay_ok(
                r,
                spec_cycle_index(sel as int, hints.len() as int, false),
                input@,
                true,
            ),
            _ => spec_identity_ok(r, s),
        },
        AppState::PendingActivation { hint_index, input, timeout } => match ev {
            Event::Tick => {
                if spec_has_elapsed(timeout, now) {
                    spec_exit_ok(r, ActivationResult::Window(hint_index))
                } else {
                    spec_identity_ok(r, s)
                }
            },
            Event::KeyPress { keysym, .. } => {
                match spec_keysym_char(keysym) {
                    Some(c) => match spec_match_outcome(hints, input@.push(c)) {
                        MatchOutcome::MExact(p) => spec_pending_ok(
                            r,
                            hints[p].index as int,
                            input@.push(c),
                            spec_started(now, cfg.settings.activation_delay),
                        ),
                        MatchOutcome::MPartial => spec_overlay_ok(
                            r,
                            hint_index as int,
                            input@.push(c),
                            true,
                        ),
                        MatchOutcome::MNone => spec_identity_ok(r, s),
                    },
                    Option::None => {
                        if keysym == KEY_ESCAPE {
                            spec_exit_ok(r, ActivationResult::Cancelled)
                        } else if keysym == KEY_BACKSPACE {
                            spec_overlay_ok(r, hint_index as int, spec_pop(input@), true)
                        } else {
                            spec_identity_ok(r, s)
                        }
                    },
                }
            },
            Event::AltReleased => spec_exit_ok(r, ActivationResult::Window(hint_index)),
            _ => spec_identity_ok(r, s),
        },
        AppState::Exiting { .. } => spec_identity_ok(r, s),
    }
}

/// Connect the result of `match_input` to the reduced outcome.
pub(crate) proof fn lemma_match_outcome(hints: Seq<WindowHint>, inp: Seq<char>, mr: MatchResult)
    requires
        spec_match_ok(hints, inp, mr),
        inp.len() > 0,
    ensures
        match spec_match_outcome(hints, inp) {
            MatchOutcome::MNone => mr matches MatchResult::NoMatch,
            MatchOutcome::MPartial => mr matches MatchResult::Partial(_),
            MatchOutcome::MExact(p) => 0 <= p < hints.len() && (mr matches MatchResult::Exact {
                index,
                window_id,
            } && index == hints[p].index && window_id@ == hints[p].window_id@),
        },
{
    let pos = spec_matched_pos(hints, inp);
    let norm = spec_normalize(inp);
    lemma_matched_pos_range(hints, inp);
    if pos.len() == 0 {
    } else if pos.len() == 1 {
    } else if exists|j: int|
        0 <= j < pos.len() && spec_canonical(hints[#[trigger] pos[j]].hint) == norm {
        lemma_first_equal_range(hints, pos, norm);
    }
}

/// A string holding the single character `c`.
pub(crate) fn char_string(c: char) -> (r: String)
    ensures
        r@ == seq![c],
{
    let mut v: Vec<char> = Vec::new();
    v.push(c);
    proof {
        assert(v@ =~= seq![c]);
    }
    chars_to_string(&v)
}

/// An empty string.
fn empty_string() -> (r: String)
    ensures
        r@ == Seq::<char>::empty(),
{
    String::new()
}

/// The string with `c` appended.
fn push_char_str(s: &str, c: char) -> (r: String)
    ensures
        r@ == s@.push(c),
{
    let mut v = str_chars(s);
    v.push(c);
    chars_to_string(&v)
}

/// The string with its last character removed; an empty string stays
/// empty.
fn pop_char_str(s: &str) -> (r: String)
    ensures
        r@ == spec_pop(s@),
{
    let mut v = str_chars(s);
    if v.len() > 0 {
        let _ = v.pop();
    }
    chars_to_string(&v)
}

fn no_actions() -> (r: Vec<Action>)
    ensures
        r@ == Seq::<Action>::empty(),
{
    let v: Vec<Action> = Vec::new();
    proof {
        assert(v@ =~= Seq::<Action>::empty());
    }
    v
}

fn redraw_actions() -> (r: Vec<Action>)
    ensures
        r@ == seq![Action::ScheduleRedraw],
{
    let mut v: Vec<Action> = Vec::new();
    v.push(Action::ScheduleRedraw);
    proof {
        assert(v@ =~= seq![Action::ScheduleRedraw]);
    }
    v
}

fn exit_actions() -> (r: Vec<Action>)
    ensures
        r@ == seq![Action::Exit],
{
    let mut v: Vec<Action> = Vec::new();
    v.push(Action::Exit);
    proof {
        assert(v@ =~= seq![Action::Exit]);
    }
    v
}

/// Position of the first hint whose window id equals `id`, if any.
#[verifier::loop_isolation(false)]
fn find_hint_pos(hints: &[WindowHint], id: &str) -> (r: Option<usize>)
    ensures
        match r {
            Some(kv) => HintAssignment::spec_find_index(hints@, id@) == Some(kv as int),
            Option::None => HintAssignment::spec_find_index(hints@, id@) is None,
        },
{
    let n = hints.len();
    let mut i: usize = 0;
    while i < n
        invariant
            i <= n,
            forall|j: int| 0 <= j < i ==> (#[trigger] hints@[j]).window_id@ != id@,
        decreases n - i,
    {
        if crate::config::str_eq(hints[i].window_id.as_str(), id) {
            proof {
                crate::hint::lemma_find_index(hints@, id@, i as int);
            }
            return Some(i);
        }
        i = i + 1;
    }
    proof {
        crate::hint::lemma_find_index(hints@, id@, n as int);
    }
    None
}

/// The selection a previous-window id picks: its hint's position, else
/// zero.
fn sel_for_prev(hints: &[WindowHint], prev: Option<&str>) -> (r: usize)
    ensures
        r == spec_sel_prev(
            hints@,
            match prev {
                Some(p) => Some(p@),
                Option::None => Option::None,
            },
        ),
{
    match prev {
        Some(p) => {
            proof {
                crate::hint::lemma_find_index_range(hints@, p@);
            }
            match find_hint_pos(hints, p) {
                Some(k) => k,
                None => 0,
            }
        },
        None => 0,
    }
}

/// The selection Tab or a cycle signal picks when the overlay first
/// opens.
fn tab_sel(len: usize, backward: bool) -> (r: usize)
    ensures
        r == spec_tab_sel(len as int, backward),
{
    let last = if len == 0 {
        0
    } else {
        len - 1
    };
    if backward {
        last
    } else if 1 < last {
        1
    } else {
        last
    }
}

impl AppState {
    /// The initial state: launcher mode opens the full overlay with the
    /// previous window preselected; switcher mode starts the border-only
    /// phase at the given time.
    pub fn initial(
        launcher_mode: bool,
        hints: &[WindowHint],
        previous_window_id: Option<&str>,
        now_ms: u64,
    ) -> (r: Self)
        ensures
            if launcher_mode {
                r matches AppState::FullOverlay { selected_hint_index, input }
                    && selected_hint_index == spec_sel_prev(
                    hints@,
                    match previous_window_id {
                        Some(p) => Some(p@),
                        Option::None => Option::None,
                    },
                ) && input@ == Seq::<char>::empty()
            } else {
                r matches AppState::BorderOnly { start_time, frame_count } && start_time == now_ms
                    && frame_count == 0
            },
    {
        if launcher_mode {
            AppState::FullOverlay {
                selected_hint_index: sel_for_prev(hints, previous_window_id),
                input: empty_string(),
            }
        } else {
            AppState::BorderOnly { start_time: now_ms, frame_count: 0 }
        }
    }

    /// Process one event: the new state and the actions it asks for,
    /// exactly as the transition table (`spec_transition_ok`) prescribes.
    pub fn handle_event(
        &self,
        event: Event,
        config: &Config,
        hints: &[WindowHint],
        previous_window_id: Option<&str>,
        now_ms: u64,
    ) -> (r: Transition)
        ensures
            spec_transition_ok(
                *self,
                event,
                *config,
                hints@,
                match previous_window_id {
                    Some(p) => Some(p@),
                    Option::None => Option::None,
                },
                now_ms,
                r,
            ),
    {
        match self {
            AppState::BorderOnly { start_time, frame_count } => {
                let start_time = *start_time;
                let frame_count = *frame_count;
                let elapsed = if now_ms >= start_time {
                    now_ms - start_time
                } else {
                    0
                };
                match event {
                    Event::FrameCallback => Transition {
                        new_state: AppState::BorderOnly {
                            start_time,
                            frame_count: if frame_count == u32::MAX {
                                u32::MAX
                            } else {
                                frame_count + 1
                            },
                        },
                        actions: no_actions(),
                    },
                    Event::Tick => {
                        if elapsed >= config.settings.overlay_delay && frame_count >= 2 {
                            Transition {
                                new_state: AppState::FullOverlay {
                                    selected_hint_index: sel_for_prev(hints, previous_window_id),
                                    input: empty_string(),
                                },
                                actions: redraw_actions(),
                            }
                        } else {
                            Transition { new_state: self.clone(), actions: no_actions() }
                        }
                    },
                    Event::AltReleased => {
                        let result = if elapsed < config.settings.quick_switch_threshold {
                            match previous_window_id {
                                Some(p) => match find_hint_pos(hints, p) {
                                    Some(k) => ActivationResult::Window(k),
                                    None => ActivationResult::Window(0),
                                },
                                None => ActivationResult::QuickSwitch,
                            }
                        } else {
                            ActivationResult::Window(0)
                        };
                        Transition {
                            new_state: AppState::Exiting { result },
                            actions: exit_actions(),
                        }
                    },
                    Event::KeyPress { keysym, shift } => {
                        if is_tab(keysym) {
                            Transition {
                                new_state: AppState::FullOverlay {
                                    selected_hint_index: tab_sel(hints.len(), shift),
                                    input: empty_string(),
                                },
                                actions: redraw_actions(),
                            }
                        } else if keysym == KEY_ESCAPE {
                            Transition {
                                new_state: AppState::Exiting {
                                    result: ActivationResult::Cancelled,
                                },
                                actions: exit_actions(),
                            }
                        } else {
                            match keysym_to_char(keysym) {
                                Some(c) => {
                                    let input = char_string(c);
                                    let matcher = HintMatcher::new(hints);
                                    let mr = matcher.match_input(input.as_str());
                                    proof {
                                        lemma_match_outcome(hints@, input@, mr);
                                    }
                                    match mr {
                                        MatchResult::Exact { index, .. } => {
                                            let mut timeout = TimeoutTracker::new(
                                                config.settings.activation_delay,
                                            );
                                            timeout.start(now_ms);
                                            Transition {
                                                new_state: AppState::PendingActivation {
                                                    hint_index: index,
                                                    input,
                                                    timeout,
                                                },
                                                actions: redraw_actions(),
                                            }
                                        },
                                        MatchResult::Partial(_) => Transition {
                                            new_state: AppState::FullOverlay {
                                                selected_hint_index: 0,
                                                input,
                                            },
                                            actions: redraw_actions(),
                                        },
                                        MatchResult::NoMatch => {
                                            if config.launch_config(input.as_str()).is_some() {
                                                Transition {
                                                    new_state: AppState::Exiting {
                                                        result: ActivationResult::Launch(input),
                                                    },
                                                    actions: exit_actions(),
                                                }
                                            } else {
                                                Transition {
                                                    new_state: AppState::FullOverlay {
                                                        selected_hint_index: 0,
                                                        input: empty_string(),
                                                    },
                                                    actions: redraw_actions(),
                                                }
                                            }
                                        },
                                    }
                                },
                                None => Transition {
                                    new_state: AppState::FullOverlay {
                                        selected_hint_index: 0,
                                        input: empty_string(),
                                    },
                                    actions: redraw_actions(),
                                },
                            }
                        }
                    },
                    Event::CycleForward => Transition {
                        new_state: AppState::FullOverlay {
                            selected_hint_index: tab_sel(hints.len(), false),
                            input: empty_string(),
                        },
                        actions: redraw_actions(),
                    },
                    Event::CycleBackward => Transition {
                        new_state: AppState::FullOverlay {
                            selected_hint_index: tab_sel(hints.len(), true),
                            input: empty_string(),
                        },
                        actions: redraw_actions(),
                    },
                    Event::Configure { .. } => Transition {
                        new_state: self.clone(),
                        actions: no_actions(),
                    },
                }
            },
            AppState::FullOverlay { selected_hint_index, input } => {
                let sel = *selected_hint_index;
                match event {
                    Event::KeyPress { keysym, shift } => {
                        if is_tab(keysym) {
                            Transition {
                                new_state: AppState::FullOverlay {
                                    selected_hint_index: cycle_index(sel, hints.len(), !shift),
                                    input: input.clone(),
                                },
                                actions: redraw_actions(),
                            }
                        } else if keysym == KEY_DOWN || keysym == KEY_KP_DOWN {
                            Transition {
                                new_state: AppState::FullOverlay {
                                    selected_hint_index: cycle_index(sel, hints.len(), true),
                                    input: input.clone(),
                                },
                                actions: redraw_actions(),
                            }
                        } else if keysym == KEY_UP || keysym == KEY_KP_UP {
                            Transition {
                                new_state: AppState::FullOverlay {
                                    selected_hint_index: cycle_index(sel, hints.len(), false),
                                    input: input.clone(),
                                },
                                actions: redraw_actions(),
                            }
                        } else if keysym == KEY_RETURN || keysym == KEY_KP_ENTER {
                            Transition {
                                new_state: AppState::Exiting {
                                    result: ActivationResult::Window(sel),
                                },
                                actions: exit_actions(),
                            }
                        } else if keysym == KEY_ESCAPE {
                            Transition {
                                new_state: AppState::Exiting {
                                    result: ActivationResult::Cancelled,
                                },
                                actions: exit_actions(),
                            }
                        } else if keysym == KEY_BACKSPACE {
                            Transition {
                                new_state: AppState::FullOverlay {
                                    selected_hint_index: sel,
                                    input: pop_char_str(input.as_str()),
                                },
                                actions: redraw_actions(),
                            }
                        } else {
                            match keysym_to_char(keysym) {
                                Some(c) => {
                                    let new_input = push_char_str(input.as_str(), c);
                                    let matcher = HintMatcher::new(hints);
                                    let mr = matcher.match_input(new_input.as_str());
                                    proof {
                                        lemma_match_outcome(hints@, new_input@, mr);
                                    }
                                    match mr {
                                        MatchResult::Exact { index, .. } => {
                                            let mut timeout = TimeoutTracker::new(
                                                config.settings.activation_delay,
                                            );
                                            timeout.start(now_ms);
                                            Transition {
                                                new_state: AppState::PendingActivation {
                                                    hint_index: index,
                                                    input: new_input,
                                                    timeout,
                                                },
                                                actions: redraw_actions(),
                                            }
                                        },
                                        MatchResult::Partial(_) => Transition {
                                            new_state: AppState::FullOverlay {
                                                selected_hint_index: sel,
                                                input: new_input,
                                            },
                                            actions: redraw_actions(),
                                        },
                                        MatchResult::NoMatch => {
                                            let key_str = char_string(c);
                                            if config.launch_config(key_str.as_str()).is_some() {
                                                Transition {
                                                    new_state: AppState::Exiting {
                                                        result: ActivationResult::Launch(key_str),
                                                    },
                                                    actions: exit_actions(),
                                                }
                                            } else {
                                                Transition {
                                                    new_state: AppState::FullOverlay {
                                                        selected_hint_index: sel,
                                                        input: input.clone(),
                                                    },
                                                    actions: no_actions(),
                                                }
                                            }
                                        },
                                    }
                                },
                                None => Transition {
                                    new_state: self.clone(),
                                    actions: no_actions(),
                                },
                            }
                        }
                    },
                    Event::AltReleased => Transition {
                        new_state: AppState::Exiting { result: ActivationResult::Window(sel) },
                        actions: exit_actions(),
                    },
                    Event::CycleForward => Transition {
                        new_state: AppState::FullOverlay {
                            selected_hint_index: cycle_index(sel, hints.len(), true),
                            input: input.clone(),
                        },
                        actions: redraw_actions(),
                    },
                    Event::CycleBackward => Transition {
                        new_state: AppState::FullOverlay {
                            selected_hint_index: cycle_index(sel, hints.len(), false),
                            input: input.clone(),
                        },
                        actions: redraw_actions(),
                    },
                    _ => Transition { new_state: self.clone(), actions: no_actions() },
                }
            },
            AppState::PendingActivation { hint_index, input, timeout } => {
                let idx = *hint_index;
                match event {
                    Event::Tick => {
                        if timeout.has_elapsed(now_ms) {
                            Transition {
                                new_state: AppState::Exiting {
                                    result: ActivationResult::Window(idx),
                                },
                                actions: exit_actions(),
                            }
                        } else {
                            Transition { new_state: self.clone(), actions: no_actions() }
                        }
                    },
                    Event::KeyPress { keysym, .. } => {
                        match keysym_to_char(keysym) {
                            Some(c) => {
                                let new_input = push_char_str(input.as_str(), c);
                                let matcher = HintMatcher::new(hints);
                                let mr = matcher.match_input(new_input.as_str());
                                proof {
                                    lemma_match_outcome(hints@, new_input@, mr);
                                }
                                match mr {
                                    MatchResult::Exact { index, .. } => {
                                        let mut new_timeout = TimeoutTracker::new(
                                            config.settings.activation_delay,
                                        );
                                        new_timeout.start(now_ms);
                                        Transition {
                                            new_state: AppState::PendingActivation {
                                                hint_index: index,
                                                input: new_input,
                                                timeout: new_timeout,
                                            },
                                            actions: redraw_actions(),
                                        }
                                    },
                                    MatchResult::Partial(_) => Transition {
                                        new_state: AppState::FullOverlay {
                                            selected_hint_index: idx,
                                            input: new_input,
                                        },
                                        actions: redraw_actions(),
                                    },
                                    MatchResult::NoMatch => Transition {
                                        new_state: self.clone(),
                                        actions: no_actions(),
                                    },
                                }
                            },
                            None => {
                                if keysym == KEY_ESCAPE {
                                    Transition {
                                        new_state: AppState::Exiting {
                                            result: ActivationResult::Cancelled,
                                        },
                                        actions: exit_actions(),
                                    }
                                } else if keysym == KEY_BACKSPACE {
                                    Transition {
                                        new_state: AppState::FullOverlay {
                                            selected_hint_index: idx,
                                            input: pop_char_str(input.as_str()),
                                        },
                                        actions: redraw_actions(),
                                    }
                                } else {
                                    Transition { new_state: self.clone(), actions: no_actions() }
                                }
                            },
                        }
                    },
                    Event::AltReleased => Transition {
                        new_state: AppState::Exiting { result: ActivationResult::Window(idx) },
                        actions: exit_actions(),
                    },
                    _ => Transition { new_state: self.clone(), actions: no_actions() },
                }
            },
            AppState::Exiting { .. } => Transition {
                new_state: self.clone(),
                actions: no_actions(),
            },
        }
    }

    /// The selected hint index shown by the renderer; zero outside the
    /// overlay states.
    pub fn selected_hint_index(&self) -> (r: usize)
        ensures
            r == match *self {
                AppState::FullOverlay { selected_hint_index, .. } => selected_hint_index,
                AppState::PendingActivation { hint_index, .. } => hint_index,
                _ => 0usize,
            },
    {
        match self {
            AppState::FullOverlay { selected_hint_index, .. } => *selected_hint_index,
            AppState::PendingActivation { hint_index, .. } => *hint_index,
            _ => 0,
        }
    }

    /// The current input, empty outside the overlay states.
    pub fn input(&self) -> (r: &str)
        ensures
            r@ == match *self {
                AppState::FullOverlay { ref input, .. } => input@,
                AppState::PendingActivation { ref input, .. } => input@,
                _ => Seq::<char>::empty(),
            },
    {
        match self {
            AppState::FullOverlay { input, .. } => input.as_str(),
            AppState::PendingActivation { input, .. } => input.as_str(),
            _ => {
                let r = "";
                proof {
                    reveal_strlit("");
                    assert(r@ =~= Seq::<char>::empty());
                }
                r
            },
        }
    }

    /// Whether the full overlay (or pending activation) is displayed.
    pub fn is_full_overlay(&self) -> (r: bool)
        ensures
            r == (self matches AppState::FullOverlay { .. } || self
                matches AppState::PendingActivation { .. }),
    {
        match self {
            AppState::FullOverlay { .. } => true,
            AppState::PendingActivation { .. } => true,
            _ => false,
        }
    }

    /// Whether the session is over.
    pub fn is_exiting(&self) -> (r: bool)
        ensures
            r == (self matches AppState::Exiting { .. }),
    {
        match self {
            AppState::Exiting { .. } => true,
            _ => false,
        }
    }

    /// The session's result, once the state is terminal.
    pub fn activation_result(&self) -> (r: Option<&ActivationResult>)
        ensures
            match *self {
                AppState::Exiting { ref result } => r matches Some(x) && *x == *result,
                _ => r is None,
            },
    {
        match self {
            AppState::Exiting { result } => Some(result),
            _ => None,
        }
    }
}

} // verus!
