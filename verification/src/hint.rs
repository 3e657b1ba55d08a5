//! Hint assignment and sequences.
//!
//! Windows are labelled with repeated-letter hints (g, gg, ggg).  This
//! module holds the canonical hint representation, the input
//! normalization rules, and the assignment of hints to windows.

use vstd::prelude::*;

use crate::chars::{
    char_is_alpha, char_is_digit, char_to_lower, spec_digit_val, spec_is_alpha, spec_is_digit,
    spec_lower_seq, spec_to_lower,
};
use crate::strutil::{chars_to_string, str_chars};
use crate::window::{AppId, Window, WindowId};
use vstd::string::*;

verus! {

/// The character `c` repeated `n` times.
pub open spec fn spec_repeat(c: char, n: nat) -> Seq<char> {
    Seq::new(n, |i: int| c)
}

/// `p` is a prefix of `s`.
pub open spec fn spec_is_prefix(p: Seq<char>, s: Seq<char>) -> bool {
    p.len() <= s.len() && forall|i: int| 0 <= i < p.len() ==> p[i] == s[i]
}

/// Number of trailing ASCII digits of `s`, expressed as the index where
/// that trailing run starts (`s.len()` when `s` does not end in a digit).
pub open spec fn spec_letter_end(s: Seq<char>) -> int
    decreases s.len(),
{
    if s.len() == 0 {
        0
    } else if spec_is_digit(s.last()) {
        spec_letter_end(s.drop_last())
    } else {
        s.len() as int
    }
}

/// Numeric value of a sequence of ASCII digits, most significant first.
pub open spec fn spec_digits_val(s: Seq<char>) -> int
    decreases s.len(),
{
    if s.len() == 0 {
        0
    } else {
        spec_digits_val(s.drop_last()) * 10 + spec_digit_val(s.last())
    }
}

/// A lower-cased input can be expanded when it is a run of one character
/// followed by a trailing digit suffix whose value lies in 1 ..= 26.
pub open spec fn spec_expandable(low: Seq<char>) -> bool {
    let k = spec_letter_end(low);
    low.len() >= 2 && spec_is_digit(low.last()) && 0 < k && (forall|i: int|
        0 <= i < k ==> #[trigger] low[i] == low[0]) && 1 <= spec_digits_val(
        low.subrange(k, low.len() as int),
    ) <= 26
}

/// Canonical form of user input: ASCII-lower-cased, with a count suffix
/// expanded ("g2" becomes "gg"); the expansion is capped at 26.
pub open spec fn spec_normalize(s: Seq<char>) -> Seq<char> {
    let low = spec_lower_seq(s);
    if spec_expandable(low) {
        spec_repeat(
            low[0],
            spec_digits_val(low.subrange(spec_letter_end(low), low.len() as int)) as nat,
        )
    } else {
        low
    }
}

/// A hint sequence: a base character repeated a number of times
/// ("g", "gg", "ggg").
#[derive(Debug, PartialEq, Eq, Structural)]
pub struct HintSequence {
    /// The base character.
    pub base: char,
    /// Number of repetitions (1 for "g", 2 for "gg").
    pub count: usize,
}

/// The canonical character sequence of a hint.
pub open spec fn spec_canonical(h: HintSequence) -> Seq<char> {
    spec_repeat(h.base, h.count as nat)
}

impl HintSequence {
    /// Create a new hint sequence.  The base character is lower-cased and
    /// the count is raised to at least one.
    pub fn new(base: char, count: usize) -> (r: Self)
        ensures
            r.base == spec_to_lower(base),
            r.count == if count == 0 {
                1usize
            } else {
                count
            },
    {
        HintSequence {
            base: char_to_lower(base),
            count: if count == 0 {
                1
            } else {
                count
            },
        }
    }

    /// Parse a repeated-letter string, case-insensitively: succeeds
    /// exactly when the input is a non-empty run of one ASCII letter.
    #[verifier::loop_isolation(false)]
    pub fn from_repeated(s: &str) -> (r: Option<Self>)
        ensures
            ({
                let low = spec_lower_seq(s@);
                if low.len() > 0 && spec_is_alpha(low[0]) && (forall|i: int|
                    0 <= i < low.len() ==> #[trigger] low[i] == low[0]) {
                    r == Some(HintSequence { base: low[0], count: low.len() as usize })
                } else {
                    r is None
                }
            }),
    {
        let cs = str_chars(s);
        let low = crate::window::lower_chars(&cs);
        let n = low.len();
        if n == 0 {
            return None;
        }
        let base = low[0];
        if !char_is_alpha(base) {
            return None;
        }
        let mut i: usize = 1;
        while i < n
            invariant
                1 <= i <= n,
                n == low@.len(),
                base == low@[0],
                forall|j: int| 0 <= j < i ==> low@[j] == base,
            decreases n - i,
        {
            if low[i] != base {
                proof {
                    assert(low@[i as int] != low@[0]);
                }
                return None;
            }
            i = i + 1;
        }
        Some(HintSequence { base, count: n })
    }

    /// The base character.
    pub fn base(&self) -> (r: char)
        ensures
            r == self.base,
    {
        self.base
    }

    /// The repetition count.
    pub fn count(&self) -> (r: usize)
        ensures
            r == self.count,
    {
        self.count
    }

    /// The canonical string: the base character repeated `count` times.
    pub fn as_string(&self) -> (r: String)
        ensures
            r@ == spec_canonical(*self),
    {
        let v = repeat_chars(self.base, self.count);
        chars_to_string(&v)
    }

    /// Whether the normalized input is a prefix of this hint's canonical
    /// string.
    pub fn matches_input(&self, input: &str) -> (r: bool)
        ensures
            r == spec_is_prefix(spec_normalize(input@), spec_canonical(*self)),
    {
        let norm = normalize_chars(&str_chars(input));
        let canon = repeat_chars(self.base, self.count);
        chars_prefix(&norm, &canon)
    }

    /// Whether the normalized input equals this hint's canonical string.
    pub fn equals_input(&self, input: &str) -> (r: bool)
        ensures
            r == (spec_normalize(input@) == spec_canonical(*self)),
    {
        let norm = normalize_chars(&str_chars(input));
        let canon = repeat_chars(self.base, self.count);
        chars_equal(&norm, &canon)
    }
}

impl Clone for HintSequence {
    fn clone(&self) -> (r: Self)
        ensures
            r == *self,
    {
        HintSequence { base: self.base, count: self.count }
    }
}

/// Build the character `c` repeated `n` times.
pub fn repeat_chars(c: char, n: usize) -> (r: Vec<char>)
    ensures
        r@ == spec_repeat(c, n as nat),
{
    let mut v: Vec<char> = Vec::new();
    let mut i: usize = 0;
    while i < n
        invariant
            i <= n,
            v@.len() == i,
            forall|j: int| 0 <= j < i ==> v@[j] == c,
        decreases n - i,
    {
        v.push(c);
        i = i + 1;
    }
    proof {
        assert(v@ =~= spec_repeat(c, n as nat));
    }
    v
}

/// Whether `p` is a prefix of `s`.
fn chars_prefix(p: &Vec<char>, s: &Vec<char>) -> (r: bool)
    ensures
        r == spec_is_prefix(p@, s@),
{
    let n = p.len();
    if n > s.len() {
        return false;
    }
    let mut i: usize = 0;
    while i < n
        invariant
            i <= n,
            n == p@.len(),
            n <= s@.len(),
            forall|j: int| 0 <= j < i ==> p@[j] == s@[j],
        decreases n - i,
    {
        if p[i] != s[i] {
            return false;
        }
        i = i + 1;
    }
    true
}

/// Whether the two character vectors hold the same characters.
pub(crate) fn chars_equal(p: &Vec<char>, s: &Vec<char>) -> (r: bool)
    ensures
        r == (p@ == s@),
{
    let n = p.len();
    if n != s.len() {
        return false;
    }
    let mut i: usize = 0;
    while i < n
        invariant
            i <= n,
            n == p@.len(),
            n == s@.len(),
            forall|j: int| 0 <= j < i ==> p@[j] == s@[j],
        decreases n - i,
    {
        if p[i] != s[i] {
            proof {
                assert(p@[i as int] != s@[i as int]);
            }
            return false;
        }
        i = i + 1;
    }
    proof {
        assert(p@ =~= s@);
    }
    true
}

proof fn lemma_letter_end(s: Seq<char>, k: int)
    requires
        0 <= k <= s.len(),
        forall|j: int| k <= j < s.len() ==> spec_is_digit(s[j]),
        k == 0 || !spec_is_digit(s[k - 1]),
    ensures
        spec_letter_end(s) == k,
    decreases s.len(),
{
    if s.len() == 0 {
    } else if spec_is_digit(s.last()) {
        assert(k < s.len());
        lemma_letter_end(s.drop_last(), k);
    } else {
        assert(k == s.len());
    }
}

/// Normalize user input, over character vectors: lower-case it and expand
/// a trailing count suffix ("g2" becomes "gg"), capped at 26.
#[verifier::loop_isolation(false)]
pub fn normalize_chars(cs: &Vec<char>) -> (r: Vec<char>)
    ensures
        r@ == spec_normalize(cs@),
{
    let low = crate::window::lower_chars(cs);
    let n = low.len();
    if n < 2 {
        return low;
    }
    if !char_is_digit(low[n - 1]) {
        return low;
    }
    // Start of the trailing digit run.
    let mut k: usize = n;
    while k > 0 && char_is_digit(low[k - 1])
        invariant
            k <= n,
            n == low@.len(),
            forall|j: int| k <= j < n ==> spec_is_digit(low@[j]),
        decreases k,
    {
        k = k - 1;
    }
    proof {
        lemma_letter_end(low@, k as int);
    }
    if k == 0 {
        return low;
    }
    // The characters before the digit run must all repeat the first one.
    let base = low[0];
    let mut i: usize = 0;
    while i < k
        invariant
            i <= k,
            k <= n,
            n == low@.len(),
            base == low@[0],
            forall|j: int| 0 <= j < i ==> low@[j] == base,
        decreases k - i,
    {
        if low[i] != base {
            proof {
                assert(low@[i as int] != low@[0]);
                assert(!spec_expandable(low@));
            }
            return low;
        }
        i = i + 1;
    }
    // Value of the digit suffix, saturated just above the cap.
    let ghost digits = low@.subrange(k as int, n as int);
    let mut acc: u32 = 0;
    let mut j: usize = k;
    while j < n
        invariant
            k <= j <= n,
            n == low@.len(),
            digits == low@.subrange(k as int, n as int),
            forall|jj: int| k <= jj < n ==> spec_is_digit(low@[jj]),
            ({
                let v = spec_digits_val(low@.subrange(k as int, j as int));
                &&& (v <= 26 ==> acc == v)
                &&& (v > 26 ==> 26 < acc <= 269)
            }),
            spec_digits_val(low@.subrange(k as int, j as int)) >= 0,
        decreases n - j,
    {
        let d = crate::chars::char_digit_val(low[j]);
        proof {
            let pre = low@.subrange(k as int, j as int);
            let post = low@.subrange(k as int, j + 1);
            assert(post.drop_last() =~= pre);
            assert(post.last() == low@[j as int]);
            assert(spec_digits_val(post) == spec_digits_val(pre) * 10 + spec_digit_val(
                low@[j as int],
            ));
        }
        acc = if acc > 26 {
            27
        } else {
            acc * 10 + d
        };
        j = j + 1;
    }
    proof {
        assert(low@.subrange(k as int, n as int) =~= digits);
    }
    if 1 <= acc && acc <= 26 {
        proof {
            assert(spec_expandable(low@));
        }
        repeat_chars(base, acc as usize)
    } else {
        proof {
            assert(!(1 <= spec_digits_val(digits) <= 26));
            assert(!spec_expandable(low@));
        }
        low
    }
}

/// Normalize user input to canonical hint form: lower-cased, with a
/// trailing count suffix expanded ("g2" becomes "gg"), capped at 26.
pub fn normalize_input(input: &str) -> (r: String)
    ensures
        r@ == spec_normalize(input@),
{
    let v = normalize_chars(&str_chars(input));
    chars_to_string(&v)
}

/// A hint assigned to a window.
#[derive(Debug)]
pub struct WindowHint {
    /// The hint sequence.
    pub hint: HintSequence,
    /// Window id used for activation.
    pub window_id: WindowId,
    /// Application id, as a plain string for display.
    pub app_id: String,
    /// Window title.
    pub title: String,
    /// Position of the window in the original window list.
    pub index: usize,
}

impl WindowHint {
    /// The hint rendered as a string.
    pub fn hint_string(&self) -> (r: String)
        ensures
            r@ == spec_canonical(self.hint),
    {
        self.hint.as_string()
    }
}

impl Clone for WindowHint {
    fn clone(&self) -> (r: Self)
        ensures
            r.hint == self.hint,
            r.window_id@ == self.window_id@,
            r.app_id@ == self.app_id@,
            r.title@ == self.title@,
            r.index == self.index,
    {
        WindowHint {
            hint: self.hint.clone(),
            window_id: self.window_id.clone(),
            app_id: self.app_id.clone(),
            title: self.title.clone(),
            index: self.index,
        }
    }
}

/// First ASCII letter of a sequence, if any.
pub open spec fn spec_first_alpha(s: Seq<char>) -> Option<char>
    decreases s.len(),
{
    if s.len() == 0 {
        Option::None
    } else if spec_is_alpha(s[0]) {
        Some(s[0])
    } else {
        spec_first_alpha(s.drop_first())
    }
}

proof fn lemma_first_alpha(s: Seq<char>, i: int)
    requires
        0 <= i <= s.len(),
        forall|j: int| 0 <= j < i ==> !spec_is_alpha(#[trigger] s[j]),
        i == s.len() || spec_is_alpha(s[i]),
    ensures
        spec_first_alpha(s) == if i == s.len() {
            Option::<char>::None
        } else {
            Some(s[i])
        },
    decreases i,
{
    if i > 0 {
        lemma_first_alpha(s.drop_first(), i - 1);
    }
}

/// Automatic base letter for an app id: the first ASCII letter of the
/// lower-cased last dot-segment.
pub open spec fn spec_auto_key(app: Seq<char>) -> Option<char> {
    spec_first_alpha(spec_lower_seq(crate::window::spec_last_segment(app)))
}

/// Automatically choose a base letter from an app id.
#[verifier::loop_isolation(false)]
pub fn auto_generate_key(app_id: &AppId) -> (r: Option<char>)
    ensures
        r == spec_auto_key(app_id@),
{
    let seg = app_id.last_segment();
    let segch = str_chars(seg);
    let low = crate::window::lower_chars(&segch);
    let n = low.len();
    let mut i: usize = 0;
    while i < n
        invariant
            i <= n,
            forall|j: int| 0 <= j < i ==> !spec_is_alpha(#[trigger] low@[j]),
        decreases n - i,
    {
        if char_is_alpha(low[i]) {
            proof {
                lemma_first_alpha(low@, i as int);
            }
            return Some(low[i]);
        }
        i = i + 1;
    }
    proof {
        lemma_first_alpha(low@, n as int);
    }
    None
}

/// Number of occurrences of `b` among the first `n` elements of `bases`.
pub open spec fn spec_occ(bases: Seq<char>, b: char, n: int) -> int
    decreases n,
{
    if n <= 0 {
        0
    } else {
        spec_occ(bases, b, n - 1) + if bases[n - 1] == b {
            1int
        } else {
            0int
        }
    }
}

proof fn lemma_occ_bounds(bases: Seq<char>, b: char, n: int)
    requires
        0 <= n,
    ensures
        0 <= spec_occ(bases, b, n) <= n,
    decreases n,
{
    if n > 0 {
        lemma_occ_bounds(bases, b, n - 1);
    }
}

/// The base letter each window receives: the configured key when the
/// lookup yields one, else the automatic key, else `'x'`.
pub open spec fn spec_chosen_base<F: Fn(&AppId) -> Option<char>>(
    f: F,
    app: AppId,
    b: char,
) -> bool {
    ||| (exists|c: char| call_ensures(f, (&app,), Some(c)) && b == c)
    ||| (call_ensures(f, (&app,), Option::None) && b == (match spec_auto_key(app@) {
        Some(c) => c,
        Option::None => 'x',
    }))
}

/// The hints that `HintAssignment::assign` produces for `windows`, once
/// each window's base letter is fixed: hints stand in window order, and
/// the n-th window of a base group receives that base repeated n times.
pub open spec fn spec_assigned_hint(
    windows: Seq<Window>,
    bases: Seq<char>,
    h: WindowHint,
    i: int,
) -> bool {
    &&& h.index == i
    &&& h.window_id@ == windows[i].id@
    &&& h.app_id@ == windows[i].app_id@
    &&& h.title@ == windows[i].title@
    &&& h.hint.base == spec_to_lower(bases[i])
    &&& h.hint.count == spec_occ(bases, bases[i], i) + 1
}

/// Result of hint assignment: all window hints, in window (MRU) order.
#[derive(Debug)]
pub struct HintAssignment {
    /// Assigned hints, sorted by original window index.
    pub hints: Vec<WindowHint>,
}

impl HintAssignment {
    /// Assign a hint to every window.  The base letter comes from
    /// `key_for_app`, falling back to the first letter of the app id's
    /// last dot-segment, then to `'x'`; the n-th window with a given base
    /// (1-indexed) receives that base repeated n times.  Hint order
    /// follows window order.
    #[verifier::loop_isolation(false)]
    pub fn assign<F: Fn(&AppId) -> Option<char>>(windows: &[Window], key_for_app: F) -> (r: Self)
        requires
            forall|i: int|
                0 <= i < windows@.len() ==> call_requires(key_for_app, (&windows@[i].app_id,)),
        ensures
            r.hints@.len() == windows@.len(),
            exists|bases: Seq<char>|
                #![trigger bases.len()]
                {
                    &&& bases.len() == windows@.len()
                    &&& (forall|i: int|
                        0 <= i < windows@.len() ==> spec_chosen_base(
                            key_for_app,
                            windows@[i].app_id,
                            #[trigger] bases[i],
                        ))
                    &&& (forall|i: int|
                        0 <= i < windows@.len() ==> spec_assigned_hint(
                            windows@,
                            bases,
                            #[trigger] r.hints@[i],
                            i,
                        ))
                },
    {
        let n = windows.len();
        let mut bases: Vec<char> = Vec::new();
        let mut j: usize = 0;
        while j < n
            invariant
                j <= n,
                bases@.len() == j,
                forall|i: int|
                    0 <= i < j ==> spec_chosen_base(
                        key_for_app,
                        windows@[i].app_id,
                        #[trigger] bases@[i],
                    ),
            decreases n - j,
        {
            let b = match key_for_app(&windows[j].app_id) {
                Some(c) => c,
                None => match auto_generate_key(&windows[j].app_id) {
                    Some(c) => c,
                    None => 'x',
                },
            };
            bases.push(b);
            j = j + 1;
        }
        let mut hints: Vec<WindowHint> = Vec::new();
        let mut i: usize = 0;
        while i < n
            invariant
                i <= n,
                bases@.len() == n,
                hints@.len() == i,
                forall|m: int|
                    0 <= m < i ==> spec_assigned_hint(windows@, bases@, #[trigger] hints@[m], m),
            decreases n - i,
        {
            let b = bases[i];
            let mut cnt: usize = 0;
            let mut m: usize = 0;
            while m < i
                invariant
                    m <= i,
                    cnt == spec_occ(bases@, b, m as int),
                    cnt <= m,
                decreases i - m,
            {
                if bases[m] == b {
                    cnt = cnt + 1;
                }
                m = m + 1;
            }
            let w = &windows[i];
            hints.push(
                WindowHint {
                    hint: HintSequence::new(b, cnt + 1),
                    window_id: w.id.clone(),
                    app_id: w.app_id.as_str().to_owned(),
                    title: w.title.clone(),
                    index: i,
                },
            );
            i = i + 1;
        }
        let r = HintAssignment { hints };
        proof {
            let bs = bases@;
            assert(bs.len() == windows@.len());
            assert(forall|i: int|
                0 <= i < windows@.len() ==> spec_assigned_hint(
                    windows@,
                    bs,
                    #[trigger] r.hints@[i],
                    i,
                ));
        }
        r
    }

    /// All hints.
    pub fn hints(&self) -> (r: &[WindowHint])
        ensures
            r@ == self.hints@,
    {
        self.hints.as_slice()
    }

    /// Position of the first hint whose window id equals `id`, if any.
    pub open spec fn spec_find_index(hints: Seq<WindowHint>, id: Seq<char>) -> Option<int>
        decreases hints.len(),
    {
        if hints.len() == 0 {
            Option::None
        } else if hints[0].window_id@ == id {
            Some(0int)
        } else {
            match Self::spec_find_index(hints.drop_first(), id) {
                Some(k) => Some(k + 1),
                Option::None => Option::None,
            }
        }
    }

    /// Find the hint for a window id.
    #[verifier::loop_isolation(false)]
    pub fn find_by_window_id(&self, id: &WindowId) -> (r: Option<&WindowHint>)
        ensures
            match Self::spec_find_index(self.hints@, id@) {
                Some(k) => r matches Some(h) && *h == self.hints@[k],
                Option::None => r is None,
            },
    {
        let n = self.hints.len();
        let mut i: usize = 0;
        while i < n
            invariant
                i <= n,
                forall|j: int| 0 <= j < i ==> (#[trigger] self.hints@[j]).window_id@ != id@,
            decreases n - i,
        {
            if self.hints[i].window_id == *id {
                proof {
                    lemma_find_index(self.hints@, id@, i as int);
                }
                return Some(&self.hints[i]);
            }
            i = i + 1;
        }
        proof {
            lemma_find_index(self.hints@, id@, n as int);
        }
        None
    }
}

/// Position of the first window whose id equals `id`, if any.
pub open spec fn spec_window_pos(windows: Seq<Window>, id: Seq<char>) -> Option<int>
    decreases windows.len(),
{
    if windows.len() == 0 {
        Option::None
    } else if windows[0].id@ == id {
        Some(0int)
    } else {
        match spec_window_pos(windows.drop_first(), id) {
            Some(k) => Some(k + 1),
            Option::None => Option::None,
        }
    }
}

pub(crate) proof fn lemma_window_pos(windows: Seq<Window>, id: Seq<char>, i: int)
    requires
        0 <= i <= windows.len(),
        forall|j: int| 0 <= j < i ==> (#[trigger] windows[j]).id@ != id,
        i == windows.len() || windows[i].id@ == id,
    ensures
        spec_window_pos(windows, id) == if i == windows.len() {
            Option::<int>::None
        } else {
            Some(i)
        },
    decreases i,
{
    if i > 0 {
        lemma_window_pos(windows.drop_first(), id, i - 1);
    }
}

pub(crate) proof fn lemma_find_index_range(hints: Seq<WindowHint>, id: Seq<char>)
    ensures
        HintAssignment::spec_find_index(hints, id) matches Some(k) ==> 0 <= k < hints.len(),
    decreases hints.len(),
{
    if hints.len() > 0 && hints[0].window_id@ != id {
        lemma_find_index_range(hints.drop_first(), id);
    }
}

pub(crate) proof fn lemma_find_index(hints: Seq<WindowHint>, id: Seq<char>, i: int)
    requires
        0 <= i <= hints.len(),
        forall|j: int| 0 <= j < i ==> (#[trigger] hints[j]).window_id@ != id,
        i == hints.len() || hints[i].window_id@ == id,
    ensures
        HintAssignment::spec_find_index(hints, id) == if i == hints.len() {
            Option::<int>::None
        } else {
            Some(i)
        },
    decreases i,
{
    if i > 0 {
        lemma_find_index(hints.drop_first(), id, i - 1);
    }
}

} // verus!
