//! Window domain types: identifiers and window descriptions.

use vstd::prelude::*;

use crate::chars::{char_to_lower, spec_lower_seq, spec_to_lower};
use crate::strutil::{chars_to_string, str_chars};
use vstd::string::*;

verus! {

/// Unique identifier for a window, as handed out by the window manager.
#[derive(Debug)]
pub struct WindowId(pub(crate) String);

impl View for WindowId {
    type V = Seq<char>;

    closed spec fn view(&self) -> Seq<char> {
        self.0@
    }
}

impl WindowId {
    /// Create a new `WindowId` from a string identifier.
    pub fn new(id: &str) -> (r: Self)
        ensures
            r@ == id@,
    {
        WindowId(id.to_owned())
    }

    /// The underlying string identifier.
    pub fn as_str(&self) -> (r: &str)
        ensures
            r@ == self@,
    {
        self.0.as_str()
    }
}

impl Clone for WindowId {
    fn clone(&self) -> (r: Self)
        ensures
            r@ == self@,
    {
        WindowId(self.0.clone())
    }
}

impl PartialEq for WindowId {
    fn eq(&self, other: &Self) -> (r: bool) {
        self.0 == other.0
    }
}

impl vstd::std_specs::cmp::PartialEqSpecImpl for WindowId {
    open spec fn obeys_eq_spec() -> bool {
        true
    }

    open spec fn eq_spec(&self, other: &Self) -> bool {
        self@ == other@
    }
}

/// The last dot-separated segment of a sequence of characters; the whole
/// sequence when no dot occurs in it.
pub open spec fn spec_last_segment(s: Seq<char>) -> Seq<char>
    decreases s.len(),
{
    if s.len() == 0 {
        s
    } else if s.last() == '.' {
        Seq::empty()
    } else {
        spec_last_segment(s.drop_last()).push(s.last())
    }
}

proof fn lemma_last_segment(s: Seq<char>, k: int)
    requires
        0 <= k <= s.len(),
        forall|j: int| k <= j < s.len() ==> s[j] != '.',
        k == 0 || s[k - 1] == '.',
    ensures
        spec_last_segment(s) == s.subrange(k, s.len() as int),
    decreases s.len(),
{
    if s.len() == 0 {
        assert(spec_last_segment(s) =~= s.subrange(k, s.len() as int));
    } else if s.last() == '.' {
        assert(k == s.len());
        assert(spec_last_segment(s) =~= s.subrange(k, s.len() as int));
    } else {
        assert(k < s.len());
        lemma_last_segment(s.drop_last(), k);
        assert(spec_last_segment(s) =~= s.subrange(k, s.len() as int));
    }
}

/// Application identifier, typically in reverse-DNS notation.
#[derive(Debug)]
pub struct AppId(pub(crate) String);

impl View for AppId {
    type V = Seq<char>;

    closed spec fn view(&self) -> Seq<char> {
        self.0@
    }
}

impl AppId {
    /// Create a new `AppId`.
    pub fn new(id: &str) -> (r: Self)
        ensures
            r@ == id@,
    {
        AppId(id.to_owned())
    }

    /// The underlying string.
    pub fn as_str(&self) -> (r: &str)
        ensures
            r@ == self@,
    {
        self.0.as_str()
    }

    /// The last segment of a dotted app id ("com.mitchellh.ghostty" gives
    /// "ghostty"); the whole id when it holds no dot.
    pub fn last_segment(&self) -> (r: &str)
        ensures
            r@ == spec_last_segment(self@),
    {
        str_last_segment(self.0.as_str())
    }

    /// A lower-case copy for case-insensitive comparison.  Folds ASCII
    /// letters only.
    pub fn to_lowercase(&self) -> (r: String)
        ensures
            r@ == spec_lower_seq(self@),
    {
        lower_str(self.0.as_str())
    }
}

impl Clone for AppId {
    fn clone(&self) -> (r: Self)
        ensures
            r@ == self@,
    {
        AppId(self.0.clone())
    }
}

/// The last dot-separated segment of a string; the whole string when it
/// holds no dot.
pub fn str_last_segment(s: &str) -> (r: &str)
    ensures
        r@ == spec_last_segment(s@),
{
    let n = s.unicode_len();
    let mut k: usize = n;
    while k > 0 && s.get_char(k - 1) != '.'
        invariant
            k <= n,
            n == s@.len(),
            forall|j: int| k <= j < n ==> s@[j] != '.',
        decreases k,
    {
        k = k - 1;
    }
    proof {
        lemma_last_segment(s@, k as int);
    }
    s.substring_char(k, n)
}

/// A lower-case copy of a string, folding ASCII letters only.
pub fn lower_str(s: &str) -> (r: String)
    ensures
        r@ == spec_lower_seq(s@),
{
    let cs = str_chars(s);
    let folded = lower_chars(&cs);
    chars_to_string(&folded)
}

/// A lower-case copy of a character vector, folding ASCII letters only.
pub fn lower_chars(cs: &Vec<char>) -> (r: Vec<char>)
    ensures
        r@ == spec_lower_seq(cs@),
{
    let mut out: Vec<char> = Vec::new();
    let n = cs.len();
    for i in 0..n
        invariant
            n == cs.len(),
            out@.len() == i,
            forall|j: int| 0 <= j < i ==> out@[j] == spec_to_lower(cs@[j]),
    {
        out.push(char_to_lower(cs[i]));
    }
    proof {
        assert(out@ =~= spec_lower_seq(cs@));
    }
    out
}

/// A window on the desktop.
#[derive(Debug)]
pub struct Window {
    /// Unique identifier for activation.
    pub id: WindowId,
    /// Application identifier.
    pub app_id: AppId,
    /// Window title.
    pub title: String,
    /// Whether this window currently has focus.
    pub is_focused: bool,
}

impl Window {
    /// Create a new window without focus.
    pub fn new(id: &str, app_id: &str, title: &str) -> (r: Self)
        ensures
            r.id@ == id@,
            r.app_id@ == app_id@,
            r.title@ == title@,
            r.is_focused == false,
    {
        Window {
            id: WindowId::new(id),
            app_id: AppId::new(app_id),
            title: title.to_owned(),
            is_focused: false,
        }
    }

    /// Create a new window with the given focus state.
    pub fn with_focus(id: &str, app_id: &str, title: &str, is_focused: bool) -> (r: Self)
        ensures
            r.id@ == id@,
            r.app_id@ == app_id@,
            r.title@ == title@,
            r.is_focused == is_focused,
    {
        Window {
            id: WindowId::new(id),
            app_id: AppId::new(app_id),
            title: title.to_owned(),
            is_focused,
        }
    }

    /// Create a stand-in window whose id is derived from the app id and the
    /// title's length, for use in tests.
    pub fn mock(app_id: &str, title: &str) -> (r: Self)
        ensures
            r.id@ == "mock-"@ + app_id@ + "-"@ + spec_decimal(title@.len() as int),
            r.app_id@ == app_id@,
            r.title@ == title@,
            r.is_focused == false,
    {
        let mut id_chars = str_chars("mock-");
        let mut app_chars = str_chars(app_id);
        let mut dash = str_chars("-");
        let n = title.unicode_len();
        let mut num = decimal_chars(n);
        id_chars.append(&mut app_chars);
        id_chars.append(&mut dash);
        id_chars.append(&mut num);
        let id = chars_to_string(&id_chars);
        Window {
            id: WindowId(id),
            app_id: AppId::new(app_id),
            title: title.to_owned(),
            is_focused: false,
        }
    }
}

impl Clone for Window {
    fn clone(&self) -> (r: Self)
        ensures
            r.id@ == self.id@,
            r.app_id@ == self.app_id@,
            r.title@ == self.title@,
            r.is_focused == self.is_focused,
    {
        Window {
            id: self.id.clone(),
            app_id: self.app_id.clone(),
            title: self.title.clone(),
            is_focused: self.is_focused,
        }
    }
}

/// The decimal digits of a non-negative integer, most significant first.
pub open spec fn spec_decimal(n: int) -> Seq<char>
    decreases n,
{
    if n < 10 {
        seq![(('0' as u8) + n as u8) as char]
    } else {
        spec_decimal(n / 10).push((('0' as u8) + (n % 10) as u8) as char)
    }
}

/// The decimal digits of `n`, most significant first.
pub fn decimal_chars(n: usize) -> (r: Vec<char>)
    ensures
        r@ == spec_decimal(n as int),
    decreases n,
{
    if n < 10 {
        let mut v: Vec<char> = Vec::new();
        v.push((48u8 + n as u8) as char);
        proof {
            assert(v@ =~= spec_decimal(n as int));
        }
        v
    } else {
        let mut v = decimal_chars(n / 10);
        v.push((48u8 + (n % 10) as u8) as char);
        proof {
            assert(v@ =~= spec_decimal(n as int));
        }
        v
    }
}

} // verus!
