//! Input processing pipeline.
//!
//! Converts raw keyboard events into application actions: buffer
//! management, hint matching, and the activation-delay bookkeeping.

use vstd::prelude::*;

use crate::buffer::InputBuffer;
use crate::chars::{spec_to_lower, char_to_lower};
use crate::config::{spec_launch_config, Config};
use crate::hint::WindowHint;
use crate::matcher::{HintMatcher, MatchResult};
use crate::state::{
    spec_keysym_char, KEY_BACKSPACE, KEY_DOWN, KEY_ESCAPE, KEY_KP_DOWN, KEY_KP_ENTER, KEY_KP_UP,
    KEY_RETURN, KEY_UP,
};
use crate::state::{MatchOutcome, spec_match_outcome};
use crate::timeout::{spec_has_elapsed, TimeoutTracker};
use crate::window::WindowId;

verus! {

/// Direction of a selection movement.
#[derive(Debug, Clone, Copy, PartialEq, Eq, Structural)]
pub enum SelectionDirection {
    /// Move to the previous item.
    Up,
    /// Move to the next item.
    Down,
}

/// Actions that result from processing one key.
#[derive(Debug)]
pub enum InputAction {
    /// Nothing to do.
    Ignore,
    /// The buffer changed; update the display.
    BufferChanged,
    /// The selection moved.
    SelectionChanged {
        /// Direction of the move.
        direction: SelectionDirection,
    },
    /// An exact match is pending activation after the delay.
    PendingActivation {
        /// Window to activate.
        window_id: WindowId,
        /// Index of the matched hint.
        index: usize,
    },
    /// Activate at once.
    ActivateNow {
        /// Window to activate.
        window_id: WindowId,
        /// Index of the matched hint.
        index: usize,
    },
    /// Activate whatever is currently selected.
    ActivateSelected,
    /// No window matches; try launching the app bound to this key.
    TryLaunch {
        /// The key to look up.
        key: char,
    },
    /// Cancel and exit.
    Cancel,
}

/// The alphanumeric-only keysym mapping this pipeline uses: ASCII
/// letters (lower-cased) and digits; everything else is ignored.
pub open spec fn spec_keysym_alnum(keysym: u32) -> Option<char> {
    match spec_keysym_char(keysym) {
        Some(c) => if ('0' <= c && c <= '9') || ('a' <= c && c <= 'z') || ('A' <= c && c <= 'Z') {
            Some(spec_to_lower(c))
        } else {
            Option::None
        },
        Option::None => Option::None,
    }
}

/// Map a keysym to a lower-case ASCII alphanumeric character, if it is
/// one.
pub fn keysym_to_alnum(keysym: u32) -> (r: Option<char>)
    ensures
        r == spec_keysym_alnum(keysym),
{
    match crate::state::keysym_to_char(keysym) {
        Some(c) => {
            if ('0' <= c && c <= '9') || ('a' <= c && c <= 'z') || ('A' <= c && c <= 'Z') {
                Some(char_to_lower(c))
            } else {
                None
            }
        },
        None => None,
    }
}

/// Processes keyboard input into actions.
#[derive(Debug)]
pub struct InputProcessor {
    /// Current input buffer.
    pub buffer: InputBuffer,
    /// Tracker for the activation delay.
    pub timeout: TimeoutTracker,
    /// Index of the pending match, if any.
    pub pending_index: Option<usize>,
    /// Window id of the pending match, if any.
    pub pending_window_id: Option<WindowId>,
}

/// The buffer after a push: unchanged when full, else extended by the
/// lower-cased character.
pub open spec fn spec_buf_push(b: Seq<char>, c: char) -> Seq<char> {
    if b.len() >= crate::buffer::MAX_INPUT_LENGTH {
        b
    } else {
        b.push(spec_to_lower(c))
    }
}

/// What `process_key` owes: the action returned and the processor's new
/// state, for every key, hint list and configuration.
pub open spec fn spec_process_ok(
    pre: InputProcessor,
    post: InputProcessor,
    keysym: u32,
    hints: Seq<WindowHint>,
    cfg: Config,
    now: u64,
    r: InputAction,
) -> bool {
    if keysym == KEY_ESCAPE {
        &&& r matches InputAction::Cancel
        &&& spec_proc_eq(post, pre)
    } else if keysym == KEY_BACKSPACE {
        &&& r matches InputAction::BufferChanged
        &&& post.buffer@ == crate::state::spec_pop(pre.buffer@)
        &&& post.pending_index is None
        &&& post.pending_window_id is None
        &&& post.timeout == crate::state::spec_started(now, pre.timeout.duration_ms)
    } else if keysym == KEY_RETURN || keysym == KEY_KP_ENTER {
        match (pre.pending_index, pre.pending_window_id) {
            (Some(idx), Some(id)) => {
                &&& (r matches InputAction::ActivateNow { window_id, index } && index == idx
                    && window_id@ == id@)
                &&& post.buffer@ == pre.buffer@
                &&& post.timeout == TimeoutTracker {
                    started_at: Option::None,
                    duration_ms: pre.timeout.duration_ms,
                }
                &&& post.pending_index is None
                &&& post.pending_window_id is None
            },
            _ => {
                &&& match spec_match_outcome(hints, pre.buffer@) {
                    MatchOutcome::MExact(p) => r matches InputAction::ActivateNow {
                        window_id,
                        index,
                    } && index == hints[p].index && window_id@ == hints[p].window_id@,
                    _ => r matches InputAction::ActivateSelected,
                }
                &&& spec_proc_eq(post, pre)
            },
        }
    } else if keysym == KEY_UP || keysym == KEY_KP_UP {
        &&& (r matches InputAction::SelectionChanged { direction } && direction
            == SelectionDirection::Up)
        &&& spec_proc_eq(post, pre)
    } else if keysym == KEY_DOWN || keysym == KEY_KP_DOWN {
        &&& (r matches InputAction::SelectionChanged { direction } && direction
            == SelectionDirection::Down)
        &&& spec_proc_eq(post, pre)
    } else {
        match spec_keysym_alnum(keysym) {
            Option::None => r matches InputAction::Ignore && spec_proc_eq(post, pre),
            Some(c) => {
                let pushed = spec_buf_push(pre.buffer@, c);
                match spec_match_outcome(hints, pushed) {
                    MatchOutcome::MExact(p) => {
                        &&& (r matches InputAction::PendingActivation { window_id, index }
                            && index == hints[p].index && window_id@ == hints[p].window_id@)
                        &&& post.buffer@ == pushed
                        &&& post.pending_index == Some(hints[p].index)
                        &&& (post.pending_window_id matches Some(id) && id@ == hints[
                            p
                        ].window_id@)
                        &&& post.timeout == crate::state::spec_started(
                            now,
                            pre.timeout.duration_ms,
                        )
                    },
                    MatchOutcome::MNone => {
                        if pushed.len() > 0 && spec_launch_config(
                            cfg.keys@,
                            seq![pushed[0]],
                        ) is Some {
                            &&& (r matches InputAction::TryLaunch { key } && key == pushed[0])
                            &&& post.buffer@ == pushed
                            &&& post.pending_index == pre.pending_index
                            &&& post.pending_window_id == pre.pending_window_id
                            &&& post.timeout == crate::state::spec_started(
                                now,
                                pre.timeout.duration_ms,
                            )
                        } else {
                            &&& r matches InputAction::BufferChanged
                            &&& post.buffer@ == crate::state::spec_pop(pushed)
                            &&& post.pending_index == pre.pending_index
                            &&& post.pending_window_id == pre.pending_window_id
                            &&& post.timeout == crate::state::spec_started(
                                now,
                                pre.timeout.duration_ms,
                            )
                        }
                    },
                    MatchOutcome::MPartial => {
                        &&& r matches InputAction::BufferChanged
                        &&& post.buffer@ == pushed
                        &&& post.pending_index is None
                        &&& post.pending_window_id is None
                        &&& post.timeout == TimeoutTracker {
                            started_at: Option::None,
                            duration_ms: pre.timeout.duration_ms,
                        }
                    },
                }
            },
        }
    }
}

/// Value equality of processors.
pub open spec fn spec_proc_eq(a: InputProcessor, b: InputProcessor) -> bool {
    &&& a.buffer@ == b.buffer@
    &&& a.timeout == b.timeout
    &&& a.pending_index == b.pending_index
    &&& (match (a.pending_window_id, b.pending_window_id) {
        (Some(x), Some(y)) => x@ == y@,
        (Option::None, Option::None) => true,
        _ => false,
    })
}

impl InputProcessor {
    /// A fresh processor with the given activation delay.
    pub fn new(activation_delay_ms: u64) -> (r: Self)
        ensures
            r.buffer@ == Seq::<char>::empty(),
            r.timeout == (TimeoutTracker {
                started_at: Option::<u64>::None,
                duration_ms: activation_delay_ms,
            }),
            r.pending_index is None,
            r.pending_window_id is None,
    {
        InputProcessor {
            buffer: InputBuffer::new(),
            timeout: TimeoutTracker::new(activation_delay_ms),
            pending_index: None,
            pending_window_id: None,
        }
    }

    /// The current input buffer.
    pub fn buffer(&self) -> (r: &InputBuffer)
        ensures
            r@ == self.buffer@,
    {
        &self.buffer
    }

    /// The input as a string.
    pub fn input_string(&self) -> (r: String)
        ensures
            r@ == self.buffer@,
    {
        self.buffer.as_str()
    }

    /// Whether a match is pending.
    pub fn has_pending(&self) -> (r: bool)
        ensures
            r == (self.pending_index is Some),
    {
        self.pending_index.is_some()
    }

    /// The pending match, when both its parts are set.
    pub fn pending(&self) -> (r: Option<(usize, &WindowId)>)
        ensures
            match (self.pending_index, self.pending_window_id) {
                (Some(idx), Some(_)) => r matches Some(p) && p.0 == idx && (
                self.pending_window_id matches Some(id) && p.1@ == id@),
                _ => r is None,
            },
    {
        match (&self.pending_index, &self.pending_window_id) {
            (Some(idx), Some(id)) => Some((*idx, id)),
            _ => None,
        }
    }

    /// Whether the activation delay for the pending match has elapsed.
    pub fn timeout_elapsed(&self, now_ms: u64) -> (r: bool)
        ensures
            r == spec_has_elapsed(self.timeout, now_ms),
    {
        self.timeout.has_elapsed(now_ms)
    }

    /// Take the pending activation once its delay has elapsed.  An
    /// elapsed check consumes the pending fields either way; the timer
    /// stops only when a full pending match was handed out.
    pub fn check_timeout(&mut self, now_ms: u64) -> (r: Option<(usize, WindowId)>)
        ensures
            final(self).buffer@ == old(self).buffer@,
            if spec_has_elapsed(old(self).timeout, now_ms) {
                &&& final(self).pending_index is None
                &&& final(self).pending_window_id is None
                &&& if old(self).pending_index is Some && old(self).pending_window_id is Some {
                    &&& (r matches Some(p) && old(self).pending_index == Some(p.0) && (old(
                        self,
                    ).pending_window_id matches Some(id) && p.1@ == id@))
                    &&& final(self).timeout == (TimeoutTracker {
                        started_at: Option::<u64>::None,
                        duration_ms: old(self).timeout.duration_ms,
                    })
                } else {
                    r is None && final(self).timeout == old(self).timeout
                }
            } else {
                &&& r is None
                &&& final(self).timeout == old(self).timeout
                &&& final(self).pending_index == old(self).pending_index
                &&& final(self).pending_window_id == old(self).pending_window_id
            },
    {
        if self.timeout.has_elapsed(now_ms) {
            let pending_pair: Option<(usize, WindowId)> = match (
                &self.pending_index,
                &self.pending_window_id,
            ) {
                (Some(idx), Some(id)) => Some((*idx, id.clone())),
                _ => None,
            };
            self.pending_index = None;
            self.pending_window_id = None;
            if let Some((idx, id)) = pending_pair {
                self.timeout.cancel();
                return Some((idx, id));
            }
        }
        None
    }

    /// Process one key press: Escape cancels; Backspace edits; Enter
    /// activates the pending or exact match, else the selection; arrows
    /// move the selection; an alphanumeric key extends the buffer and
    /// re-matches, reverting the extension when nothing matches and no
    /// launch key applies.
    pub fn process_key(
        &mut self,
        keysym: u32,
        matcher: &HintMatcher<'_>,
        config: &Config,
        now_ms: u64,
    ) -> (r: InputAction)
        ensures
            spec_process_ok(
                *old(self),
                *final(self),
                keysym,
                matcher.spec_hints(),
                *config,
                now_ms,
                r,
            ),
    {
        if keysym == KEY_ESCAPE {
            return InputAction::Cancel;
        }
        if keysym == KEY_BACKSPACE {
            let _ = self.buffer.pop();
            self.clear_pending();
            self.timeout.reset(now_ms);
            return InputAction::BufferChanged;
        }
        if keysym == KEY_RETURN || keysym == KEY_KP_ENTER {
            let pending_pair: Option<(usize, WindowId)> = match (
                &self.pending_index,
                &self.pending_window_id,
            ) {
                (Some(idx), Some(id)) => Some((*idx, id.clone())),
                _ => None,
            };
            if let Some((idx, id)) = pending_pair {
                self.pending_index = None;
                self.pending_window_id = None;
                self.timeout.cancel();
                return InputAction::ActivateNow { window_id: id, index: idx };
            }
            let input = self.buffer.as_str();
            let mr = matcher.match_input(input.as_str());
            proof {
                if self.buffer@.len() > 0 {
                    crate::state::lemma_match_outcome(
                        matcher.spec_hints(),
                        self.buffer@,
                        mr,
                    );
                }
            }
            match mr {
                MatchResult::Exact { index, window_id } => {
                    return InputAction::ActivateNow { window_id, index };
                },
                _ => {
                    return InputAction::ActivateSelected;
                },
            }
        }
        if keysym == KEY_UP || keysym == KEY_KP_UP {
            return InputAction::SelectionChanged { direction: SelectionDirection::Up };
        }
        if keysym == KEY_DOWN || keysym == KEY_KP_DOWN {
            return InputAction::SelectionChanged { direction: SelectionDirection::Down };
        }
        match keysym_to_alnum(keysym) {
            None => InputAction::Ignore,
            Some(c) => {
                let _ = self.buffer.push(c);
                self.timeout.reset(now_ms);
                let input = self.buffer.as_str();
                let mr = matcher.match_input(input.as_str());
                proof {
                    crate::state::lemma_match_outcome(matcher.spec_hints(), self.buffer@, mr);
                }
                match mr {
                    MatchResult::Exact { index, window_id } => {
                        self.pending_index = Some(index);
                        self.pending_window_id = Some(window_id.clone());
                        self.timeout.start(now_ms);
                        InputAction::PendingActivation { window_id, index }
                    },
                    MatchResult::NoMatch => {
                        match self.buffer.first_char() {
                            Some(key) => {
                                let key_str = crate::state::char_string(key);
                                if config.launch_config(key_str.as_str()).is_some() {
                                    return InputAction::TryLaunch { key };
                                }
                                let _ = self.buffer.pop();
                                InputAction::BufferChanged
                            },
                            None => {
                                let _ = self.buffer.pop();
                                InputAction::BufferChanged
                            },
                        }
                    },
                    MatchResult::Partial(_) => {
                        self.clear_pending();
                        InputAction::BufferChanged
                    },
                }
            },
        }
    }

    /// Forget any pending match and stop the delay timer.
    fn clear_pending(&mut self)
        ensures
            final(self).pending_index is None,
            final(self).pending_window_id is None,
            final(self).timeout == (TimeoutTracker {
                started_at: Option::<u64>::None,
                duration_ms: old(self).timeout.duration_ms,
            }),
            final(self).buffer@ == old(self).buffer@,
    {
        self.pending_index = None;
        self.pending_window_id = None;
        self.timeout.cancel();
    }
}

} // verus!
