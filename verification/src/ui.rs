//! Overlay-facing helpers: the display phase and app name presentation.

use vstd::prelude::*;

use crate::chars::{char_to_upper, spec_to_upper};
use crate::strutil::{chars_to_string, str_chars};
use crate::window::{spec_last_segment, str_last_segment};

verus! {

/// Phase of overlay display.
#[derive(Debug, Clone, Copy, PartialEq, Eq, Structural)]
pub enum OverlayPhase {
    /// Initial delay: only the border highlight shows.
    Initial,
    /// Full overlay with the window list.
    Full,
}

/// Display name for an app id: the last dot-segment with its first
/// character upper-cased.
pub open spec fn spec_display_app_name(app: Seq<char>) -> Seq<char> {
    let seg = spec_last_segment(app);
    if seg.len() == 0 {
        seg
    } else {
        seq![spec_to_upper(seg[0])] + seg.drop_first()
    }
}

/// The name shown for an app id ("com.mitchellh.ghostty" shows as
/// "Ghostty").
#[verifier::loop_isolation(false)]
pub fn extract_app_name(app_id: &str) -> (r: String)
    ensures
        r@ == spec_display_app_name(app_id@),
{
    let seg = str_last_segment(app_id);
    let cs = str_chars(seg);
    let mut out: Vec<char> = Vec::new();
    let n = cs.len();
    let mut i: usize = 0;
    while i < n
        invariant
            i <= n,
            out@.len() == i,
            forall|j: int|
                0 <= j < i ==> (#[trigger] out@[j]) == if j == 0 {
                    spec_to_upper(cs@[0])
                } else {
                    cs@[j]
                },
        decreases n - i,
    {
        if i == 0 {
            out.push(char_to_upper(cs[0]));
        } else {
            out.push(cs[i]);
        }
        i = i + 1;
    }
    proof {
        assert(out@ =~= spec_display_app_name(app_id@));
    }
    chars_to_string(&out)
}

} // verus!
