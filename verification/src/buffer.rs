//! Input buffer for collecting keyboard input.
//!
//! All characters are stored ASCII-lower-cased, so comparisons against
//! hints are case-insensitive; the length is capped to keep input
//! bounded.

use vstd::prelude::*;

use crate::chars::{char_to_lower, spec_lower_seq, spec_to_lower};
use crate::strutil::chars_to_string;

verus! {

/// Maximum number of characters the buffer accepts.
pub const MAX_INPUT_LENGTH: usize = 64;

/// Buffer for collecting keyboard input; characters are stored
/// lower-cased.
#[derive(Debug)]
pub struct InputBuffer {
    chars: Vec<char>,
}

impl View for InputBuffer {
    type V = Seq<char>;

    closed spec fn view(&self) -> Seq<char> {
        self.chars@
    }
}

impl InputBuffer {
    /// A new empty buffer.
    pub fn new() -> (r: Self)
        ensures
            r@ == Seq::<char>::empty(),
    {
        InputBuffer { chars: Vec::new() }
    }

    /// Append a character, lower-cased; refused (returning false) when
    /// the buffer is full.
    pub fn push(&mut self, c: char) -> (r: bool)
        ensures
            if old(self)@.len() >= MAX_INPUT_LENGTH {
                final(self)@ == old(self)@ && r == false
            } else {
                final(self)@ == old(self)@.push(spec_to_lower(c)) && r == true
            },
    {
        if self.chars.len() >= MAX_INPUT_LENGTH {
            return false;
        }
        self.chars.push(char_to_lower(c));
        true
    }

    /// Remove and return the last character.
    pub fn pop(&mut self) -> (r: Option<char>)
        ensures
            if old(self)@.len() == 0 {
                final(self)@ == old(self)@ && r is None
            } else {
                final(self)@ == old(self)@.drop_last() && r == Some(old(self)@.last())
            },
    {
        self.chars.pop()
    }

    /// Empty the buffer.
    pub fn clear(&mut self)
        ensures
            final(self)@ == Seq::<char>::empty(),
    {
        self.chars.clear();
    }

    /// Whether the buffer is empty.
    pub fn is_empty(&self) -> (r: bool)
        ensures
            r == (self@.len() == 0),
    {
        self.chars.len() == 0
    }

    /// Number of characters held.
    pub fn len(&self) -> (r: usize)
        ensures
            r == self@.len(),
    {
        self.chars.len()
    }

    /// The first character, used to pick a launch key.
    pub fn first_char(&self) -> (r: Option<char>)
        ensures
            r == if self@.len() == 0 {
                Option::<char>::None
            } else {
                Some(self@[0])
            },
    {
        if self.chars.len() == 0 {
            None
        } else {
            Some(self.chars[0])
        }
    }

    /// The buffer contents as a string.
    pub fn as_str(&self) -> (r: String)
        ensures
            r@ == self@,
    {
        chars_to_string(&self.chars)
    }

    /// The characters as a slice.
    pub fn chars(&self) -> (r: &[char])
        ensures
            r@ == self@,
    {
        self.chars.as_slice()
    }
}

impl Clone for InputBuffer {
    fn clone(&self) -> (r: Self)
        ensures
            r@ == self@,
    {
        let mut out: Vec<char> = Vec::new();
        let n = self.chars.len();
        let mut i: usize = 0;
        while i < n
            invariant
                i <= n,
                n == self.chars@.len(),
                out@ == self.chars@.take(i as int),
            decreases n - i,
        {
            out.push(self.chars[i]);
            proof {
                assert(out@ =~= self.chars@.take(i + 1));
            }
            i = i + 1;
        }
        proof {
            assert(self.chars@.take(n as int) =~= self.chars@);
        }
        InputBuffer { chars: out }
    }
}

impl Default for InputBuffer {
    /// An empty buffer.
    fn default() -> (r: Self)
        ensures
            r@ == Seq::<char>::empty(),
    {
        InputBuffer::new()
    }
}

impl<'a> From<&'a str> for InputBuffer {
    /// Build a buffer from a string: lower-cased, truncated to the cap.
    fn from(s: &'a str) -> (r: Self)
        ensures
            r@ == spec_lower_seq(s@).take(
                if s@.len() <= MAX_INPUT_LENGTH {
                    s@.len() as int
                } else {
                    MAX_INPUT_LENGTH as int
                },
            ),
    {
        buffer_from_str(s)
    }
}

impl<'a> vstd::std_specs::convert::FromSpecImpl<&'a str> for InputBuffer {
    open spec fn obeys_from_spec() -> bool {
        false
    }

    open spec fn from_spec(s: &'a str) -> Self {
        arbitrary()
    }
}

/// Build a buffer from a string: lower-cased, truncated to the cap.
pub fn buffer_from_str(s: &str) -> (r: InputBuffer)
    ensures
        r@ == spec_lower_seq(s@).take(
            if s@.len() <= MAX_INPUT_LENGTH {
                s@.len() as int
            } else {
                MAX_INPUT_LENGTH as int
            },
        ),
{
    let cs = crate::strutil::str_chars(s);
    let mut out = InputBuffer::new();
    let n = cs.len();
    let cap = if n <= MAX_INPUT_LENGTH {
        n
    } else {
        MAX_INPUT_LENGTH
    };
    let mut i: usize = 0;
    while i < cap
        invariant
            i <= cap,
            cap <= n,
            cap <= MAX_INPUT_LENGTH,
            n == cs@.len(),
            out@.len() == i,
            forall|j: int| 0 <= j < i ==> out@[j] == spec_to_lower(cs@[j]),
        decreases cap - i,
    {
        let _ = out.push(cs[i]);
        i = i + 1;
    }
    proof {
        assert(out@ =~= spec_lower_seq(cs@).take(cap as int));
    }
    out
}

} // verus!
