//! Parsing of direnv-style environment files.
//!
//! `KEY=value` lines with optional `export` prefixes, quoting and
//! comments.  Reading the files is the caller's business; this module
//! parses their contents.

use vstd::prelude::*;

use crate::hint::spec_is_prefix;
use crate::mru::{spec_first_nl, spec_trim};
use crate::strutil::{chars_to_string, str_chars};

verus! {

/// `s` with every occurrence of `pat` replaced by `rep`, scanning left
/// to right without overlap.
pub open spec fn spec_replace(s: Seq<char>, pat: Seq<char>, rep: Seq<char>) -> Seq<char>
    decreases s.len(),
{
    if pat.len() == 0 || s.len() == 0 {
        s
    } else if spec_is_prefix(pat, s) {
        rep + spec_replace(s.skip(pat.len() as int), pat, rep)
    } else {
        seq![s[0]] + spec_replace(s.drop_first(), pat, rep)
    }
}

/// The unescaped value of a double-quoted string: `\n`, `\t`, `\"` and
/// `\\` rewritten in that order.
pub open spec fn spec_unescape(s: Seq<char>) -> Seq<char> {
    spec_replace(
        spec_replace(spec_replace(spec_replace(s, "\\n"@, "\n"@), "\\t"@, "\t"@), "\\\""@, "\""@),
        "\\\\"@,
        "\\"@,
    )
}

/// The parsed value of the text after `=`: double quotes unescape their
/// contents, single quotes keep theirs verbatim, and an unquoted value
/// loses any ` #` comment tail; everything is trimmed.
pub open spec fn spec_env_value(raw: Seq<char>) -> Seq<char> {
    let t = spec_trim(raw);
    if t.len() >= 2 && t[0] == '"' && t.last() == '"' {
        spec_unescape(t.subrange(1, t.len() - 1))
    } else if t.len() >= 2 && t[0] == '\'' && t.last() == '\'' {
        t.subrange(1, t.len() - 1)
    } else {
        match spec_find_comment(t) {
            Some(p) => spec_trim(t.take(p)),
            Option::None => t,
        }
    }
}

/// Position of the first ` #` in `s`, if any.
pub open spec fn spec_find_comment(s: Seq<char>) -> Option<int>
    decreases s.len(),
{
    if s.len() < 2 {
        Option::None
    } else if s[0] == ' ' && s[1] == '#' {
        Some(0int)
    } else {
        match spec_find_comment(s.drop_first()) {
            Some(p) => Some(p + 1),
            Option::None => Option::None,
        }
    }
}

proof fn lemma_find_comment(s: Seq<char>, i: int)
    requires
        0 <= i,
        i + 1 <= s.len(),
        forall|j: int| 0 <= j < i ==> !(#[trigger] s[j] == ' ' && s[j + 1] == '#'),
        i + 1 == s.len() || (s[i] == ' ' && s[i + 1] == '#'),
    ensures
        spec_find_comment(s) == if i + 1 == s.len() {
            Option::<int>::None
        } else {
            Some(i)
        },
    decreases i,
{
    if i > 0 {
        lemma_find_comment(s.drop_first(), i - 1);
    } else {
        if i + 1 == s.len() {
            assert(spec_find_comment(s) is None);
        }
    }
}

/// Replace every occurrence of `pat` in `v` by `rep`, scanning left to
/// right without overlap.
#[verifier::loop_isolation(false)]
pub fn replace_chars(v: &Vec<char>, pat: &Vec<char>, rep: &Vec<char>) -> (r: Vec<char>)
    requires
        pat@.len() > 0,
    ensures
        r@ == spec_replace(v@, pat@, rep@),
{
    let n = v.len();
    let m = pat.len();
    let mut out: Vec<char> = Vec::new();
    let mut i: usize = 0;
    proof {
        assert(v@.skip(0) =~= v@);
        assert(Seq::<char>::empty() + spec_replace(v@, pat@, rep@) =~= spec_replace(
            v@,
            pat@,
            rep@,
        ));
    }
    while i < n
        invariant
            i <= n,
            spec_replace(v@, pat@, rep@) == out@ + spec_replace(v@.skip(i as int), pat@, rep@),
        decreases n - i,
    {
        let mut hit = m <= n - i;
        if hit {
            let mut t: usize = 0;
            while t < m
                invariant
                    t <= m,
                    m <= n - i,
                    hit ==> (forall|j: int| 0 <= j < t ==> v@[i + j] == pat@[j]),
                    !hit ==> (exists|j: int| 0 <= j < t && v@[i + j] != pat@[j]),
                decreases m - t,
            {
                if v[i + t] != pat[t] {
                    hit = false;
                }
                t = t + 1;
            }
            proof {
                if hit {
                    assert(spec_is_prefix(pat@, v@.skip(i as int)));
                } else {
                    let j = choose|j: int| 0 <= j < m && v@[i + j] != pat@[j];
                    assert(v@.skip(i as int)[j] == v@[i + j]);
                    assert(!spec_is_prefix(pat@, v@.skip(i as int)));
                }
            }
        } else {
            proof {
                assert(pat@.len() > v@.skip(i as int).len());
                assert(!spec_is_prefix(pat@, v@.skip(i as int)));
            }
        }
        if hit {
            let ghost out0 = out@;
            let mut rc: usize = 0;
            let rl = rep.len();
            while rc < rl
                invariant
                    rc <= rl,
                    rl == rep@.len(),
                    out@ == out0 + rep@.take(rc as int),
                decreases rl - rc,
            {
                out.push(rep[rc]);
                proof {
                    assert(out@ =~= out0 + rep@.take(rc + 1));
                }
                rc = rc + 1;
            }
            proof {
                assert(rep@.take(rl as int) =~= rep@);
                assert(out@ =~= out0 + rep@);
                assert(v@.skip(i as int).skip(pat@.len() as int) =~= v@.skip(i + m));
                assert(out0 + rep@ + spec_replace(v@.skip(i + m), pat@, rep@) =~= out0 + (rep@
                    + spec_replace(v@.skip(i + m), pat@, rep@)));
            }
            i = i + m;
        } else {
            proof {
                assert(v@.skip(i as int).drop_first() =~= v@.skip(i + 1));
                assert(seq![v@.skip(i as int)[0]] =~= seq![v@[i as int]]);
                assert(out@.push(v@[i as int]) =~= out@ + seq![v@[i as int]]);
                assert(out@ + seq![v@[i as int]] + spec_replace(v@.skip(i + 1), pat@, rep@)
                    =~= out@ + (seq![v@[i as int]] + spec_replace(v@.skip(i + 1), pat@, rep@)));
            }
            out.push(v[i]);
            i = i + 1;
        }
    }
    proof {
        assert(v@.skip(n as int) =~= Seq::<char>::empty());
        assert(out@ =~= out@ + spec_replace(Seq::<char>::empty(), pat@, rep@));
    }
    out
}

/// Position of the first `'='` in `s`, if any.
pub open spec fn spec_find_eq(s: Seq<char>) -> Option<int>
    decreases s.len(),
{
    if s.len() == 0 {
        Option::None
    } else if s[0] == '=' {
        Some(0int)
    } else {
        match spec_find_eq(s.drop_first()) {
            Some(p) => Some(p + 1),
            Option::None => Option::None,
        }
    }
}

proof fn lemma_find_eq(s: Seq<char>, i: int)
    requires
        0 <= i <= s.len(),
        forall|j: int| 0 <= j < i ==> s[j] != '=',
        i == s.len() || s[i] == '=',
    ensures
        spec_find_eq(s) == if i == s.len() {
            Option::<int>::None
        } else {
            Some(i)
        },
    decreases i,
{
    if i > 0 {
        lemma_find_eq(s.drop_first(), i - 1);
    }
}

/// The key-value pair one line contributes, if any: comments and blank
/// lines give nothing; otherwise an optional `export ` prefix is
/// stripped, the text splits at the first `'='`, and an empty key gives
/// nothing.
pub open spec fn spec_line_pair(line: Seq<char>) -> Option<(Seq<char>, Seq<char>)> {
    let t = spec_trim(line);
    if t.len() == 0 || t[0] == '#' {
        Option::None
    } else {
        let u = if spec_is_prefix("export "@, t) {
            t.skip(7)
        } else {
            t
        };
        match spec_find_eq(u) {
            Some(e) => {
                let key = spec_trim(u.take(e));
                if key.len() == 0 {
                    Option::None
                } else {
                    Some((key, spec_env_value(u.skip(e + 1))))
                }
            },
            Option::None => Option::None,
        }
    }
}

/// The key-value pairs of whole file contents, line by line and in
/// order.  A later pair with the same key overrides an earlier one when
/// the pairs are applied in order.
pub open spec fn spec_env_pairs(s: Seq<char>) -> Seq<(Seq<char>, Seq<char>)>
    decreases s.len(),
    via spec_env_pairs_dec
{
    if s.len() == 0 {
        Seq::empty()
    } else {
        let k = spec_first_nl(s);
        let head = match spec_line_pair(s.take(k)) {
            Some(p) => seq![p],
            Option::None => Seq::<(Seq<char>, Seq<char>)>::empty(),
        };
        if k < s.len() {
            head + spec_env_pairs(s.skip(k + 1))
        } else {
            head
        }
    }
}

pub(crate) proof fn lemma_first_nl_bounds(s: Seq<char>)
    ensures
        0 <= spec_first_nl(s) <= s.len(),
    decreases s.len(),
{
    if s.len() > 0 && s[0] != '\n' {
        lemma_first_nl_bounds(s.drop_first());
    }
}

#[via_fn]
proof fn spec_env_pairs_dec(s: Seq<char>) {
    lemma_first_nl_bounds(s);
}

/// Parse the value part of an environment line, handling quoting.
pub fn parse_env_value(raw: &str) -> (r: String)
    ensures
        r@ == spec_env_value(raw@),
{
    let cs = str_chars(raw);
    let v = env_value_chars(&cs);
    chars_to_string(&v)
}

/// The value a raw `=`-right-hand side denotes, over character vectors.
#[verifier::loop_isolation(false)]
fn env_value_chars(cs: &Vec<char>) -> (r: Vec<char>)
    ensures
        r@ == spec_env_value(cs@),
{
    proof {
        assert(cs@.subrange(0, cs@.len() as int) =~= cs@);
    }
    let t = crate::mru::trim_range(cs, 0, cs.len());
    let n = t.len();
    if n >= 2 && t[0] == '"' && t[n - 1] == '"' {
        let inner = crate::strutil::sub_chars(&t, 1, n - 1);
        proof {
            reveal_strlit("\\n");
            reveal_strlit("\n");
            reveal_strlit("\\t");
            reveal_strlit("\t");
            reveal_strlit("\\\"");
            reveal_strlit("\"");
            reveal_strlit("\\\\");
            reveal_strlit("\\");
        }
        let s1 = replace_chars(&inner, &str_chars("\\n"), &str_chars("\n"));
        let s2 = replace_chars(&s1, &str_chars("\\t"), &str_chars("\t"));
        let s3 = replace_chars(&s2, &str_chars("\\\""), &str_chars("\""));
        let s4 = replace_chars(&s3, &str_chars("\\\\"), &str_chars("\\"));
        s4
    } else if n >= 2 && t[0] == '\'' && t[n - 1] == '\'' {
        crate::strutil::sub_chars(&t, 1, n - 1)
    } else {
        let mut i: usize = 0;
        let mut comment: Option<usize> = None;
        if n >= 2 {
            while i + 1 < n && !(t[i] == ' ' && t[i + 1] == '#')
                invariant
                    i + 1 <= n,
                    forall|j: int| 0 <= j < i ==> !(#[trigger] t@[j] == ' ' && t@[j + 1] == '#'),
                decreases n - i,
            {
                i = i + 1;
            }
            proof {
                lemma_find_comment(t@, i as int);
            }
            if i + 1 < n {
                comment = Some(i);
            }
        } else {
            proof {
                assert(spec_find_comment(t@) is None);
            }
        }
        match comment {
            Some(p) => {
                proof {
                    assert(t@.subrange(0, p as int) =~= t@.take(p as int));
                }
                crate::mru::trim_range(&t, 0, p)
            },
            None => t,
        }
    }
}

/// One line's key-value pair, over the characters of the whole contents.
#[verifier::loop_isolation(false)]
fn parse_env_line(cs: &Vec<char>, lo: usize, hi: usize) -> (r: Option<(String, String)>)
    requires
        lo <= hi <= cs@.len(),
    ensures
        match spec_line_pair(cs@.subrange(lo as int, hi as int)) {
            Some(p) => r matches Some(kv) && kv.0@ == p.0 && kv.1@ == p.1,
            Option::None => r is None,
        },
{
    let t = crate::mru::trim_range(cs, lo, hi);
    let n = t.len();
    if n == 0 {
        return None;
    }
    if t[0] == '#' {
        return None;
    }
    proof {
        reveal_strlit("export ");
    }
    let export_pat = str_chars("export ");
    let has_export = if n >= 7 {
        let mut eq = true;
        let mut j: usize = 0;
        while j < 7
            invariant
                j <= 7,
                n >= 7,
                n == t@.len(),
                export_pat@ == "export "@,
                eq ==> (forall|m: int| 0 <= m < j ==> t@[m] == "export "@[m]),
                !eq ==> (exists|m: int| 0 <= m < j && t@[m] != "export "@[m]),
            decreases 7 - j,
        {
            if t[j] != export_pat[j] {
                eq = false;
            }
            j = j + 1;
        }
        proof {
            if eq {
                assert(spec_is_prefix("export "@, t@));
            } else {
                let m = choose|m: int| 0 <= m < 7 && t@[m] != "export "@[m];
                assert(!spec_is_prefix("export "@, t@));
            }
        }
        eq
    } else {
        proof {
            assert("export "@.len() > t@.len());
            assert(!spec_is_prefix("export "@, t@));
        }
        false
    };
    let u = if has_export {
        proof {
            assert(t@.subrange(7, t@.len() as int) =~= t@.skip(7));
        }
        crate::strutil::sub_chars(&t, 7, n)
    } else {
        t
    };
    let un = u.len();
    let mut e: usize = 0;
    while e < un && u[e] != '='
        invariant
            e <= un,
            un == u@.len(),
            forall|j: int| 0 <= j < e ==> u@[j] != '=',
        decreases un - e,
    {
        e = e + 1;
    }
    proof {
        lemma_find_eq(u@, e as int);
    }
    if e == un {
        return None;
    }
    proof {
        assert(u@.subrange(0, e as int) =~= u@.take(e as int));
    }
    let key = crate::mru::trim_range(&u, 0, e);
    if key.len() == 0 {
        return None;
    }
    proof {
        assert(u@.subrange(e + 1, u@.len() as int) =~= u@.skip(e + 1));
    }
    let val_raw = crate::strutil::sub_chars(&u, e + 1, un);
    let value = env_value_chars(&val_raw);
    Some((chars_to_string(&key), chars_to_string(&value)))
}

/// Parse whole environment-file contents into key-value pairs, in line
/// order; applying them in order lets later lines override earlier ones.
#[verifier::loop_isolation(false)]
pub fn parse_env_contents(contents: &str) -> (r: Vec<(String, String)>)
    ensures
        ({
            let ps = spec_env_pairs(contents@);
            r@.len() == ps.len() && (forall|i: int|
                0 <= i < ps.len() ==> (#[trigger] r@[i]).0@ == ps[i].0 && r@[i].1@ == ps[i].1)
        }),
{
    let cs = str_chars(contents);
    let n = cs.len();
    let mut out: Vec<(String, String)> = Vec::new();
    let mut pos: usize = 0;
    let ghost full = cs@;
    let ghost mut done: Seq<(Seq<char>, Seq<char>)> = Seq::empty();
    proof {
        assert(full.skip(0) =~= full);
        assert(Seq::<(Seq<char>, Seq<char>)>::empty() + spec_env_pairs(full) =~= spec_env_pairs(
            full,
        ));
    }
    while pos < n
        invariant
            pos <= n,
            n == full.len(),
            cs@ == full,
            spec_env_pairs(full) == done + spec_env_pairs(full.skip(pos as int)),
            out@.len() == done.len(),
            forall|i: int|
                0 <= i < done.len() ==> (#[trigger] out@[i]).0@ == done[i].0 && out@[i].1@
                    == done[i].1,
        decreases n - pos,
    {
        let ghost rest = full.skip(pos as int);
        let mut k: usize = pos;
        while k < n && cs[k] != '\n'
            invariant
                pos <= k <= n,
                forall|j: int| pos <= j < k ==> cs@[j] != '\n',
            decreases n - k,
        {
            k = k + 1;
        }
        proof {
            assert(forall|j: int| 0 <= j < k - pos ==> rest[j] == full[j + pos] && rest[j] != '\n');
            if k < n {
                assert(rest[k - pos] == full[k as int]);
            }
            lemma_first_nl_gen(rest, k - pos);
            assert(rest.take(k - pos) =~= full.subrange(pos as int, k as int));
        }
        let line = parse_env_line(&cs, pos, k);
        proof {
            if k < n {
                assert(rest.skip(k - pos + 1) =~= full.skip(k + 1));
            }
        }
        match line {
            Some(kv) => {
                out.push(kv);
                proof {
                    done = done.push((out@[out@.len() - 1].0@, out@[out@.len() - 1].1@));
                }
            },
            None => {},
        }
        if k < n {
            pos = k + 1;
        } else {
            pos = n;
        }
    }
    proof {
        assert(full.skip(n as int) =~= Seq::<char>::empty());
    }
    out
}

pub(crate) proof fn lemma_first_nl_gen(s: Seq<char>, k: int)
    requires
        0 <= k <= s.len(),
        forall|j: int| 0 <= j < k ==> s[j] != '\n',
        k == s.len() || s[k] == '\n',
    ensures
        spec_first_nl(s) == k,
    decreases k,
{
    if k > 0 {
        lemma_first_nl_gen(s.drop_first(), k - 1);
    }
}

} // verus!
