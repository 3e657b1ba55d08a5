//! Most-recently-used window tracking: the state file's format and the
//! window-list reordering it drives.
//!
//! Reading and writing the state file is the caller's business; this
//! module parses its contents and reorders window lists.

use vstd::prelude::*;

use crate::chars::spec_is_space;
use crate::strutil::{chars_to_string, str_chars};
use crate::window::Window;

verus! {

/// MRU state: the window switched to, and the one left behind.
#[derive(Debug)]
pub struct MruState {
    /// The currently focused window (what was just switched to).
    pub current: Option<String>,
    /// The previously focused window (the quick-switch target).
    pub previous: Option<String>,
}

impl Default for MruState {
    /// No windows recorded.
    fn default() -> (r: Self)
        ensures
            r.current is None,
            r.previous is None,
    {
        MruState { current: None, previous: None }
    }
}

/// Position of the first newline, or the length when there is none.
pub open spec fn spec_first_nl(s: Seq<char>) -> int
    decreases s.len(),
{
    if s.len() == 0 {
        0
    } else if s[0] == '\n' {
        0
    } else {
        1 + spec_first_nl(s.drop_first())
    }
}

/// The sequence with leading ASCII whitespace removed.
pub open spec fn spec_trim_start(s: Seq<char>) -> Seq<char>
    decreases s.len(),
{
    if s.len() > 0 && spec_is_space(s[0]) {
        spec_trim_start(s.drop_first())
    } else {
        s
    }
}

/// The sequence with trailing ASCII whitespace removed.
pub open spec fn spec_trim_end(s: Seq<char>) -> Seq<char>
    decreases s.len(),
{
    if s.len() > 0 && spec_is_space(s.last()) {
        spec_trim_end(s.drop_last())
    } else {
        s
    }
}

/// The sequence trimmed on both sides.
pub open spec fn spec_trim(s: Seq<char>) -> Seq<char> {
    spec_trim_end(spec_trim_start(s))
}

/// A trimmed line, kept only when non-empty.
pub open spec fn spec_nonempty_line(s: Seq<char>) -> Option<Seq<char>> {
    let t = spec_trim(s);
    if t.len() > 0 {
        Some(t)
    } else {
        Option::None
    }
}

/// The first line of the contents (before the first newline).
pub open spec fn spec_mru_previous(s: Seq<char>) -> Option<Seq<char>> {
    spec_nonempty_line(s.take(spec_first_nl(s)))
}

/// The second line of the contents, when one exists.
pub open spec fn spec_mru_current(s: Seq<char>) -> Option<Seq<char>> {
    let k = spec_first_nl(s);
    if k < s.len() {
        let rest = s.skip(k + 1);
        if rest.len() > 0 {
            spec_nonempty_line(rest.take(spec_first_nl(rest)))
        } else {
            Option::None
        }
    } else {
        Option::None
    }
}

proof fn lemma_first_nl(s: Seq<char>, k: int)
    requires
        0 <= k <= s.len(),
        forall|j: int| 0 <= j < k ==> s[j] != '\n',
        k == s.len() || s[k] == '\n',
    ensures
        spec_first_nl(s) == k,
    decreases k,
{
    if k > 0 {
        lemma_first_nl(s.drop_first(), k - 1);
    }
}

proof fn lemma_trim_start(s: Seq<char>, a: int)
    requires
        0 <= a <= s.len(),
        forall|j: int| 0 <= j < a ==> spec_is_space(#[trigger] s[j]),
        a == s.len() || !spec_is_space(s[a]),
    ensures
        spec_trim_start(s) == s.subrange(a, s.len() as int),
    decreases a,
{
    if a == 0 {
        assert(spec_trim_start(s) =~= s.subrange(0, s.len() as int));
    } else {
        lemma_trim_start(s.drop_first(), a - 1);
        assert(s.drop_first().subrange(a - 1, s.drop_first().len() as int) =~= s.subrange(
            a,
            s.len() as int,
        ));
    }
}

pub(crate) proof fn lemma_trim_end(s: Seq<char>, b: int)
    requires
        0 <= b <= s.len(),
        forall|j: int| b <= j < s.len() ==> spec_is_space(#[trigger] s[j]),
        b == 0 || !spec_is_space(s[b - 1]),
    ensures
        spec_trim_end(s) == s.take(b),
    decreases s.len(),
{
    if s.len() == 0 {
        assert(spec_trim_end(s) =~= s.take(b));
    } else if spec_is_space(s.last()) {
        assert(b < s.len());
        lemma_trim_end(s.drop_last(), b);
        assert(s.drop_last().take(b) =~= s.take(b));
    } else {
        assert(b == s.len());
        assert(spec_trim_end(s) =~= s.take(b));
    }
}

/// The trimmed contents of `cs` between `lo` and `hi`.
#[verifier::loop_isolation(false)]
pub(crate) fn trim_range(cs: &Vec<char>, lo: usize, hi: usize) -> (r: Vec<char>)
    requires
        lo <= hi <= cs@.len(),
    ensures
        r@ == spec_trim(cs@.subrange(lo as int, hi as int)),
{
    let ghost part = cs@.subrange(lo as int, hi as int);
    let mut a: usize = lo;
    while a < hi && crate::chars::char_is_space(cs[a])
        invariant
            lo <= a <= hi,
            forall|j: int| lo <= j < a ==> spec_is_space(#[trigger] cs@[j]),
        decreases hi - a,
    {
        a = a + 1;
    }
    let mut b: usize = hi;
    while b > a && crate::chars::char_is_space(cs[b - 1])
        invariant
            a <= b <= hi,
            forall|j: int| b <= j < hi ==> spec_is_space(#[trigger] cs@[j]),
        decreases b,
    {
        b = b - 1;
    }
    proof {
        lemma_trim_start(part, a - lo);
        assert(part.subrange(a - lo, part.len() as int) =~= cs@.subrange(a as int, hi as int));
        lemma_trim_end(cs@.subrange(a as int, hi as int), b - a);
        assert(cs@.subrange(a as int, hi as int).take(b - a) =~= cs@.subrange(
            a as int,
            b as int,
        ));
    }
    let mut out: Vec<char> = Vec::new();
    let mut i: usize = a;
    while i < b
        invariant
            a <= i <= b,
            b <= cs@.len(),
            out@ == cs@.subrange(a as int, i as int),
        decreases b - i,
    {
        out.push(cs[i]);
        proof {
            assert(out@ =~= cs@.subrange(a as int, i + 1));
        }
        i = i + 1;
    }
    out
}

/// Parse MRU state from file contents: the first line names the previous
/// window, the second the current one; lines are trimmed, and empty
/// lines count as absent.
#[verifier::loop_isolation(false)]
pub fn parse_mru_contents(contents: &str) -> (r: MruState)
    ensures
        match spec_mru_previous(contents@) {
            Some(p) => r.previous matches Some(x) && x@ == p,
            Option::None => r.previous is None,
        },
        match spec_mru_current(contents@) {
            Some(c) => r.current matches Some(x) && x@ == c,
            Option::None => r.current is None,
        },
{
    let cs = str_chars(contents);
    let n = cs.len();
    let mut k: usize = 0;
    while k < n && cs[k] != '\n'
        invariant
            k <= n,
            forall|j: int| 0 <= j < k ==> cs@[j] != '\n',
        decreases n - k,
    {
        k = k + 1;
    }
    proof {
        lemma_first_nl(cs@, k as int);
    }
    let line0 = trim_range(&cs, 0, k);
    proof {
        assert(cs@.subrange(0, k as int) =~= cs@.take(k as int));
    }
    let previous = if line0.len() > 0 {
        Some(chars_to_string(&line0))
    } else {
        None
    };
    let current = if k < n {
        let rest_lo = k + 1;
        if rest_lo < n {
            let ghost rest = cs@.skip(rest_lo as int);
            let mut k2: usize = rest_lo;
            while k2 < n && cs[k2] != '\n'
                invariant
                    rest_lo <= k2 <= n,
                    forall|j: int| rest_lo <= j < k2 ==> cs@[j] != '\n',
                decreases n - k2,
            {
                k2 = k2 + 1;
            }
            proof {
                assert(forall|j: int|
                    0 <= j < k2 - rest_lo ==> rest[j] == cs@[j + rest_lo] && rest[j] != '\n');
                lemma_first_nl(rest, k2 - rest_lo);
            }
            let line1 = trim_range(&cs, rest_lo, k2);
            proof {
                assert(rest.take(k2 - rest_lo) =~= cs@.subrange(rest_lo as int, k2 as int));
            }
            if line1.len() > 0 {
                Some(chars_to_string(&line1))
            } else {
                None
            }
        } else {
            None
        }
    } else {
        None
    };
    MruState { current, previous }
}

/// Move the window whose id is `current_id` to the end of the list, so
/// the list leads with quick-switch candidates; a missing id, or one
/// already at the end, changes nothing.
#[verifier::loop_isolation(false)]
pub fn reorder_for_mru(windows: &mut Vec<Window>, current_id: Option<&str>)
    ensures
        ({
            let unchanged = final(windows)@ == old(windows)@;
            match current_id {
                Some(cid) => {
                    match crate::hint::spec_window_pos(old(windows)@, cid@) {
                        Some(p) => if p + 1 < old(windows)@.len() {
                            final(windows)@ == old(windows)@.remove(p).push(old(windows)@[p])
                        } else {
                            unchanged
                        },
                        Option::None => unchanged,
                    }
                },
                Option::None => unchanged,
            }
        }),
{
    let cid = match current_id {
        Some(c) => c,
        None => {
            return ;
        },
    };
    let n = windows.len();
    let mut i: usize = 0;
    while i < n
        invariant
            i <= n,
            n == windows@.len(),
            windows@ == old(windows)@,
            forall|j: int| 0 <= j < i ==> (#[trigger] windows@[j]).id@ != cid@,
        decreases n - i,
    {
        if crate::config::str_eq(windows[i].id.as_str(), cid) {
            proof {
                crate::hint::lemma_window_pos(windows@, cid@, i as int);
            }
            if i + 1 < n {
                let w = windows.remove(i);
                windows.push(w);
            }
            return ;
        }
        i = i + 1;
    }
    proof {
        crate::hint::lemma_window_pos(windows@, cid@, n as int);
    }
}

} // verus!
