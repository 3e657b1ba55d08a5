//! General properties of the state machine and the hint engine, stated
//! and proved once for all inputs.

use vstd::prelude::*;

use crate::chars::{spec_is_alpha, spec_is_lower, spec_lower_seq, spec_to_lower};
use crate::hint::{spec_canonical, HintSequence, WindowHint};
use crate::config::Config;
use crate::state::{
    spec_cycle_index, spec_state_eq, spec_transition_ok, Action, ActivationResult, AppState,
    Event, Transition, KEY_ESCAPE,
};

verus! {

/// The pairs of state and event the transition table names.  Every other
/// pair falls through to the identity transition.
pub open spec fn spec_event_handled(s: AppState, ev: Event) -> bool {
    match s {
        AppState::BorderOnly { .. } => !(ev matches Event::Configure { .. }),
        AppState::FullOverlay { .. } => match ev {
            Event::KeyPress { .. } => true,
            Event::AltReleased => true,
            Event::CycleForward => true,
            Event::CycleBackward => true,
            _ => false,
        },
        AppState::PendingActivation { .. } => match ev {
            Event::Tick => true,
            Event::KeyPress { .. } => true,
            Event::AltReleased => true,
            _ => false,
        },
        AppState::Exiting { .. } => false,
    }
}

/// Any pair of state and event the transition table does not name leaves
/// the state value-equal and produces no actions.
pub proof fn lemma_unmatched_event_is_identity(
    s: AppState,
    ev: Event,
    cfg: Config,
    hints: Seq<WindowHint>,
    prev: Option<Seq<char>>,
    now: u64,
    r: Transition,
)
    requires
        spec_transition_ok(s, ev, cfg, hints, prev, now, r),
        !spec_event_handled(s, ev),
    ensures
        spec_state_eq(r.new_state, s),
        r.actions@ == Seq::<Action>::empty(),
{
}

/// One step forward and one step back return to the start, for any
/// selection inside the list.
pub proof fn lemma_cycle_index_round_trip(i: int, len: int)
    requires
        0 <= i < len,
    ensures
        spec_cycle_index(spec_cycle_index(i, len, true), len, false) == i,
{
    if i + 1 < len {
        vstd::arithmetic::div_mod::lemma_small_mod((i + 1) as nat, len as nat);
    } else {
        vstd::arithmetic::div_mod::lemma_mod_self_0(len);
    }
}

/// Cycling through an empty list pins the selection at zero.
pub proof fn lemma_cycle_index_empty(i: int, forward: bool)
    ensures
        spec_cycle_index(i, 0, forward) == 0,
{
}

/// Parsing a constructed hint's canonical string gives back that hint:
/// the canonical string is a non-empty run of the (lower-case) base
/// letter, so `HintSequence::from_repeated` accepts it and reads off the
/// same base and count.
pub proof fn lemma_hint_round_trip(h: HintSequence)
    requires
        spec_is_lower(h.base),
        h.count >= 1,
    ensures
        ({
            let low = spec_lower_seq(spec_canonical(h));
            &&& low.len() == h.count
            &&& low.len() > 0
            &&& spec_is_alpha(low[0])
            &&& (forall|i: int| 0 <= i < low.len() ==> #[trigger] low[i] == low[0])
            &&& low[0] == h.base
        }),
{
    let low = spec_lower_seq(spec_canonical(h));
    assert(forall|i: int|
        0 <= i < low.len() ==> #[trigger] low[i] == spec_to_lower(spec_canonical(h)[i]));
    assert(low[0] == h.base);
}

/// The frame-count gate stands on its own: a tick in the border phase
/// with fewer than two rendered frames changes nothing, however much
/// time has passed.
pub proof fn lemma_tick_without_frames_is_identity(
    start_time: u64,
    frame_count: u32,
    cfg: Config,
    hints: Seq<WindowHint>,
    prev: Option<Seq<char>>,
    now: u64,
    r: Transition,
)
    requires
        spec_transition_ok(
            AppState::BorderOnly { start_time, frame_count },
            Event::Tick,
            cfg,
            hints,
            prev,
            now,
            r,
        ),
        frame_count < 2,
    ensures
        spec_state_eq(r.new_state, AppState::BorderOnly { start_time, frame_count }),
        r.actions@ == Seq::<Action>::empty(),
{
}

/// Escape cancels from every live state: border phase, full overlay and
/// pending activation all exit with a cancelled result.
pub proof fn lemma_escape_cancels(
    s: AppState,
    shift: bool,
    cfg: Config,
    hints: Seq<WindowHint>,
    prev: Option<Seq<char>>,
    now: u64,
    r: Transition,
)
    requires
        spec_transition_ok(
            s,
            Event::KeyPress { keysym: KEY_ESCAPE, shift },
            cfg,
            hints,
            prev,
            now,
            r,
        ),
        !(s matches AppState::Exiting { .. }),
    ensures
        r.new_state matches AppState::Exiting { result } && result
            matches ActivationResult::Cancelled,
        r.actions@ == seq![Action::Exit],
{
}

} // verus!
