//! Timeout tracking for activation delays.
//!
//! A `TimeoutTracker` is a plain value: an optional start time and a
//! duration, both in milliseconds.  The caller supplies the current time
//! to every query, so the tracker itself performs no clock reads.

use vstd::prelude::*;

verus! {

/// Tracks timeout state for delayed actions.
#[derive(Debug, Clone, Copy, PartialEq, Eq, Structural)]
pub struct TimeoutTracker {
    /// When the timeout started, in milliseconds; `None` when inactive.
    pub started_at: Option<u64>,
    /// Duration to wait before triggering, in milliseconds.
    pub duration_ms: u64,
}

/// Whether a tracker has elapsed at time `now`: it was started, and at
/// least its duration has passed since.  A `now` before the start counts
/// as no time passed.
pub open spec fn spec_has_elapsed(t: TimeoutTracker, now: u64) -> bool {
    match t.started_at {
        Some(s) => (if now >= s {
            now - s
        } else {
            0
        }) >= t.duration_ms,
        None => false,
    }
}

impl TimeoutTracker {
    /// Create a new tracker with the given duration in milliseconds,
    /// not yet started.
    pub fn new(duration_ms: u64) -> (r: Self)
        ensures
            r.started_at is None,
            r.duration_ms == duration_ms,
    {
        TimeoutTracker { started_at: None, duration_ms }
    }

    /// Start (or restart) the timeout at time `now_ms`.
    pub fn start(&mut self, now_ms: u64)
        ensures
            final(self).started_at == Some(now_ms),
            final(self).duration_ms == old(self).duration_ms,
    {
        self.started_at = Some(now_ms);
    }

    /// Reset the timeout: the same as starting it.
    pub fn reset(&mut self, now_ms: u64)
        ensures
            final(self).started_at == Some(now_ms),
            final(self).duration_ms == old(self).duration_ms,
    {
        self.start(now_ms);
    }

    /// Cancel the timeout.
    pub fn cancel(&mut self)
        ensures
            final(self).started_at is None,
            final(self).duration_ms == old(self).duration_ms,
    {
        self.started_at = None;
    }

    /// Whether the timeout is active at `now_ms`: started but not yet
    /// elapsed.
    pub fn is_active(&self, now_ms: u64) -> (r: bool)
        ensures
            r == (self.started_at is Some && !spec_has_elapsed(*self, now_ms)),
    {
        self.started_at.is_some() && !self.has_elapsed(now_ms)
    }

    /// Whether the timeout has elapsed at `now_ms`; false while not
    /// started.
    pub fn has_elapsed(&self, now_ms: u64) -> (r: bool)
        ensures
            r == spec_has_elapsed(*self, now_ms),
    {
        match self.started_at {
            Some(s) => {
                let elapsed = if now_ms >= s {
                    now_ms - s
                } else {
                    0
                };
                elapsed >= self.duration_ms
            },
            None => false,
        }
    }

    /// Remaining time until the timeout triggers; `None` when not started
    /// or already elapsed.
    pub fn remaining(&self, now_ms: u64) -> (r: Option<u64>)
        ensures
            match self.started_at {
                Some(s) => if spec_has_elapsed(*self, now_ms) {
                    r is None
                } else {
                    r == Some(
                        (self.duration_ms - (if now_ms >= s {
                            now_ms - s
                        } else {
                            0
                        })) as u64,
                    )
                },
                None => r is None,
            },
    {
        match self.started_at {
            Some(s) => {
                let elapsed = if now_ms >= s {
                    now_ms - s
                } else {
                    0
                };
                if elapsed >= self.duration_ms {
                    None
                } else {
                    Some(self.duration_ms - elapsed)
                }
            },
            None => None,
        }
    }

    /// Time passed since the start; `None` when not started.
    pub fn elapsed(&self, now_ms: u64) -> (r: Option<u64>)
        ensures
            match self.started_at {
                Some(s) => r == Some(
                    (if now_ms >= s {
                        now_ms - s
                    } else {
                        0
                    }) as u64,
                ),
                None => r is None,
            },
    {
        match self.started_at {
            Some(s) => Some(
                if now_ms >= s {
                    now_ms - s
                } else {
                    0
                },
            ),
            None => None,
        }
    }

    /// The time at which the timeout triggers, saturating at the largest
    /// representable time; `None` when not started.
    pub fn deadline(&self) -> (r: Option<u64>)
        ensures
            match self.started_at {
                Some(s) => r == Some(
                    (if s + self.duration_ms <= u64::MAX {
                        s + self.duration_ms
                    } else {
                        u64::MAX as int
                    }) as u64,
                ),
                None => r is None,
            },
    {
        match self.started_at {
            Some(s) => Some(
                if s <= u64::MAX - self.duration_ms {
                    s + self.duration_ms
                } else {
                    u64::MAX
                },
            ),
            None => None,
        }
    }

    /// Replace the duration without touching the start time.
    pub fn set_duration(&mut self, duration_ms: u64)
        ensures
            final(self).started_at == old(self).started_at,
            final(self).duration_ms == duration_ms,
    {
        self.duration_ms = duration_ms;
    }
}

impl Default for TimeoutTracker {
    /// The default tracker uses a 200 ms activation delay.
    fn default() -> (r: Self)
        ensures
            r.started_at is None,
            r.duration_ms == 200,
    {
        TimeoutTracker::new(200)
    }
}

} // verus!
