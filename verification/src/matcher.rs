//! Input matching against hints.
//!
//! Resolves user keyboard input against assigned window hints: no match,
//! ambiguous (partial) match, or exact match.

use vstd::prelude::*;

use crate::hint::{spec_canonical, spec_is_prefix, spec_normalize, WindowHint};
use crate::window::WindowId;

verus! {

/// Whether the normalized input is a prefix of the hint's canonical string.
pub open spec fn spec_hint_matches(h: WindowHint, inp: Seq<char>) -> bool {
    spec_is_prefix(spec_normalize(inp), spec_canonical(h.hint))
}

/// Positions (into `hints`) of the hints the input matches, in order.
pub open spec fn spec_matched_pos(hints: Seq<WindowHint>, inp: Seq<char>) -> Seq<int>
    decreases hints.len(),
{
    if hints.len() == 0 {
        Seq::empty()
    } else {
        let rest = spec_matched_pos(hints.drop_last(), inp);
        if spec_hint_matches(hints.last(), inp) {
            rest.push(hints.len() - 1)
        } else {
            rest
        }
    }
}

/// Position (into `pos`) of the first matched hint whose canonical string
/// equals the normalized input.
pub open spec fn spec_first_equal(hints: Seq<WindowHint>, pos: Seq<int>, norm: Seq<char>) -> int
    decreases pos.len(),
{
    if pos.len() == 0 {
        0
    } else if spec_canonical(hints[pos[0]].hint) == norm {
        0
    } else {
        1 + spec_first_equal(hints, pos.drop_first(), norm)
    }
}

/// Result of matching user input against hints.
#[derive(Debug, Clone, PartialEq)]
pub enum MatchResult {
    /// No hints match the input.
    NoMatch,
    /// Multiple hints could match; more input is needed.  Holds the
    /// `index` field of every matching hint, in hint order.
    Partial(Vec<usize>),
    /// Exactly one hint matches.
    Exact {
        /// `index` field of the matched hint.
        index: usize,
        /// Window id of the matched hint, for activation.
        window_id: WindowId,
    },
}

impl MatchResult {
    /// Whether this is an exact match.
    pub fn is_exact(&self) -> (r: bool)
        ensures
            r == (self matches MatchResult::Exact { .. }),
    {
        match self {
            MatchResult::Exact { .. } => true,
            _ => false,
        }
    }

    /// Whether nothing matched.
    pub fn is_none(&self) -> (r: bool)
        ensures
            r == (self matches MatchResult::NoMatch),
    {
        match self {
            MatchResult::NoMatch => true,
            _ => false,
        }
    }

    /// The window id of an exact match.
    pub fn window_id(&self) -> (r: Option<&WindowId>)
        ensures
            match self {
                MatchResult::Exact { window_id, .. } => r matches Some(w) && w@ == window_id@,
                _ => r is None,
            },
    {
        match self {
            MatchResult::Exact { window_id, .. } => Some(window_id),
            _ => None,
        }
    }
}

/// The outcome `match_input` owes for the given hints and input.
pub open spec fn spec_match_ok(hints: Seq<WindowHint>, inp: Seq<char>, r: MatchResult) -> bool {
    let pos = spec_matched_pos(hints, inp);
    let norm = spec_normalize(inp);
    if inp.len() == 0 {
        r matches MatchResult::Partial(v) && v@.len() == hints.len() && (forall|i: int|
            0 <= i < hints.len() ==> (#[trigger] v@[i]) == hints[i].index)
    } else if pos.len() == 0 {
        r matches MatchResult::NoMatch
    } else if pos.len() == 1 {
        r matches MatchResult::Exact { index, window_id } && index == hints[pos[0]].index
            && window_id@ == hints[pos[0]].window_id@
    } else if exists|j: int|
        0 <= j < pos.len() && spec_canonical(hints[#[trigger] pos[j]].hint) == norm {
        let j0 = spec_first_equal(hints, pos, norm);
        r matches MatchResult::Exact { index, window_id } && index == hints[pos[j0]].index
            && window_id@ == hints[pos[j0]].window_id@
    } else {
        r matches MatchResult::Partial(v) && v@.len() == pos.len() && (forall|j: int|
            0 <= j < pos.len() ==> (#[trigger] v@[j]) == hints[pos[j]].index)
    }
}

/// Matcher that resolves user input against a set of hints.
pub struct HintMatcher<'a> {
    hints: &'a [WindowHint],
}

impl<'a> HintMatcher<'a> {
    /// The hints this matcher resolves against.
    pub closed spec fn spec_hints(&self) -> Seq<WindowHint> {
        self.hints@
    }

    /// Create a new matcher over the given hints.
    pub fn new(hints: &'a [WindowHint]) -> (r: Self)
        ensures
            r.spec_hints() == hints@,
    {
        HintMatcher { hints }
    }

    /// Match input against the hints: empty input is a partial match on
    /// everything; otherwise the matching hints decide between no match,
    /// an exact match, and a partial match, where an input that equals a
    /// matching hint's full string exactly resolves to that hint.
    #[verifier::loop_isolation(false)]
    pub fn match_input(&self, input: &str) -> (r: MatchResult)
        ensures
            spec_match_ok(self.spec_hints(), input@, r),
    {
        let hints = self.hints;
        let n = hints.len();
        if input.unicode_len() == 0 {
            let mut all: Vec<usize> = Vec::new();
            let mut i: usize = 0;
            while i < n
                invariant
                    i <= n,
                    all@.len() == i,
                    forall|j: int| 0 <= j < i ==> (#[trigger] all@[j]) == hints@[j].index,
                decreases n - i,
            {
                all.push(hints[i].index);
                i = i + 1;
            }
            return MatchResult::Partial(all);
        }
        let mut pos: Vec<usize> = Vec::new();
        let mut i: usize = 0;
        while i < n
            invariant
                i <= n,
                pos@.map_values(|p: usize| p as int) == spec_matched_pos(
                    hints@.take(i as int),
                    input@,
                ),
                forall|j: int| 0 <= j < pos@.len() ==> (#[trigger] pos@[j]) < i,
            decreases n - i,
        {
            proof {
                assert(hints@.take(i + 1).drop_last() =~= hints@.take(i as int));
                assert(hints@.take(i + 1).last() == hints@[i as int]);
            }
            if hints[i].hint.matches_input(input) {
                pos.push(i);
                proof {
                    assert(pos@.map_values(|p: usize| p as int) =~= spec_matched_pos(
                        hints@.take(i + 1),
                        input@,
                    ));
                }
            } else {
                proof {
                    assert(pos@.map_values(|p: usize| p as int) =~= spec_matched_pos(
                        hints@.take(i + 1),
                        input@,
                    ));
                }
            }
            i = i + 1;
        }
        proof {
            assert(hints@.take(n as int) =~= hints@);
        }
        let ghost spos = spec_matched_pos(hints@, input@);
        let m = pos.len();
        if m == 0 {
            return MatchResult::NoMatch;
        }
        if m == 1 {
            let p = pos[0];
            return MatchResult::Exact {
                index: hints[p].index,
                window_id: hints[p].window_id.clone(),
            };
        }
        // Among several prefix matches, an input that spells out a hint in
        // full selects that hint at once.
        let mut j: usize = 0;
        while j < m
            invariant
                j <= m,
                m == pos@.len(),
                forall|k: int|
                    0 <= k < j ==> spec_canonical(hints@[spos[k]].hint) != spec_normalize(input@),
            decreases m - j,
        {
            let p = pos[j];
            if hints[p].hint.equals_input(input) {
                proof {
                    lemma_first_equal(hints@, spos, spec_normalize(input@), j as int);
                }
                return MatchResult::Exact {
                    index: hints[p].index,
                    window_id: hints[p].window_id.clone(),
                };
            }
            j = j + 1;
        }
        let mut out: Vec<usize> = Vec::new();
        let mut j: usize = 0;
        while j < m
            invariant
                j <= m,
                m == pos@.len(),
                out@.len() == j,
                forall|k: int| 0 <= k < j ==> (#[trigger] out@[k]) == hints@[spos[k]].index,
            decreases m - j,
        {
            let p = pos[j];
            out.push(hints[p].index);
            j = j + 1;
        }
        MatchResult::Partial(out)
    }

    /// The hints visible for display under the current input: all of them
    /// for empty input, else those the input matches.
    #[verifier::loop_isolation(false)]
    pub fn filter_hints(&self, input: &str) -> (r: Vec<&'a WindowHint>)
        ensures
            ({
                let pos = spec_matched_pos(self.spec_hints(), input@);
                r@.len() == pos.len() && (forall|j: int|
                    0 <= j < pos.len() ==> *(#[trigger] r@[j]) == self.spec_hints()[pos[j]])
            }),
    {
        let hints = self.hints;
        let n = hints.len();
        if input.unicode_len() == 0 {
            proof {
                lemma_empty_input_matches_all(hints@, input@);
            }
            let mut all: Vec<&'a WindowHint> = Vec::new();
            let mut i: usize = 0;
            while i < n
                invariant
                    i <= n,
                    all@.len() == i,
                    forall|j: int| 0 <= j < i ==> *(#[trigger] all@[j]) == hints@[j],
                decreases n - i,
            {
                all.push(&hints[i]);
                i = i + 1;
            }
            return all;
        }
        let mut out: Vec<&'a WindowHint> = Vec::new();
        let mut i: usize = 0;
        while i < n
            invariant
                i <= n,
                ({
                    let pos = spec_matched_pos(hints@.take(i as int), input@);
                    out@.len() == pos.len() && (forall|j: int|
                        0 <= j < pos.len() ==> *(#[trigger] out@[j]) == hints@[pos[j]])
                }),
            decreases n - i,
        {
            proof {
                assert(hints@.take(i + 1).drop_last() =~= hints@.take(i as int));
                assert(hints@.take(i + 1).last() == hints@[i as int]);
            }
            if hints[i].hint.matches_input(input) {
                out.push(&hints[i]);
            }
            i = i + 1;
        }
        proof {
            assert(hints@.take(n as int) =~= hints@);
        }
        out
    }
}

proof fn lemma_first_equal(hints: Seq<WindowHint>, pos: Seq<int>, norm: Seq<char>, j: int)
    requires
        0 <= j < pos.len(),
        forall|k: int| 0 <= k < j ==> spec_canonical(hints[#[trigger] pos[k]].hint) != norm,
        spec_canonical(hints[pos[j]].hint) == norm,
    ensures
        spec_first_equal(hints, pos, norm) == j,
    decreases j,
{
    if j > 0 {
        lemma_first_equal(hints, pos.drop_first(), norm, j - 1);
    }
}

/// With empty input every hint matches: the normalized empty input is the
/// empty sequence, a prefix of every canonical string.
proof fn lemma_empty_input_matches_all(hints: Seq<WindowHint>, inp: Seq<char>)
    requires
        inp.len() == 0,
    ensures
        spec_matched_pos(hints, inp) =~= Seq::new(hints.len(), |i: int| i),
    decreases hints.len(),
{
    assert(spec_normalize(inp).len() == 0);
    if hints.len() > 0 {
        lemma_empty_input_matches_all(hints.drop_last(), inp);
    }
}

} // verus!
