//! Bridging between `String` and `Vec<char>`.
//!
//! All string computation in this crate happens over `Vec<char>` values,
//! whose contents Verus can reason about directly.  The two functions here
//! convert between that representation and `String`.

use vstd::prelude::*;

verus! {

/// Relies on `core::str::Chars` (via `str::chars`) and
/// `FromIterator<char> for String`: collecting the characters of a string
/// yields exactly the characters of that string, in order.
#[verifier::external_body]
pub fn str_chars(s: &str) -> (r: Vec<char>)
    ensures
        r@ == s@,
{
    s.chars().collect()
}

/// Relies on `FromIterator<char> for String`: a string collected from a
/// sequence of characters consists of exactly those characters, in order.
#[verifier::external_body]
pub fn chars_to_string(v: &Vec<char>) -> (r: String)
    ensures
        r@ == v@,
{
    v.iter().collect()
}

/// The characters of `v` between `lo` and `hi`.
#[verifier::loop_isolation(false)]
pub(crate) fn sub_chars(v: &Vec<char>, lo: usize, hi: usize) -> (r: Vec<char>)
    requires
        lo <= hi <= v@.len(),
    ensures
        r@ == v@.subrange(lo as int, hi as int),
{
    let mut out: Vec<char> = Vec::new();
    let mut i: usize = lo;
    while i < hi
        invariant
            lo <= i <= hi,
            out@ == v@.subrange(lo as int, i as int),
        decreases hi - i,
    {
        out.push(v[i]);
        proof {
            assert(out@ =~= v@.subrange(lo as int, i + 1));
        }
        i = i + 1;
    }
    out
}

/// Append the characters of `s` to `v`.
pub(crate) fn append_str(v: &mut Vec<char>, s: &str)
    ensures
        final(v)@ == old(v)@ + s@,
{
    let mut sv = str_chars(s);
    v.append(&mut sv);
}

} // verus!
