//! Keybinding entries in the desktop's RON shortcuts format.
//!
//! Parses key combos, escapes strings for RON, formats binding entries,
//! and edits shortcuts-file text.  Reading and writing the file is the
//! caller's business.

use vstd::prelude::*;

use crate::chars::spec_lower_seq;
use crate::env::{lemma_first_nl_bounds, lemma_first_nl_gen};
use crate::error::Error;
use crate::hint::spec_is_prefix;
use crate::mru::{spec_first_nl, spec_trim, spec_trim_end};
use crate::strutil::{append_str, chars_to_string, str_chars, sub_chars};
use crate::window::lower_chars;
use vstd::string::*;

verus! {

/// Position of the first `'+'`, or the length when there is none.
pub open spec fn spec_first_plus(s: Seq<char>) -> int
    decreases s.len(),
{
    if s.len() == 0 {
        0
    } else if s[0] == '+' {
        0
    } else {
        1 + spec_first_plus(s.drop_first())
    }
}

proof fn lemma_first_plus_bounds(s: Seq<char>)
    ensures
        0 <= spec_first_plus(s) <= s.len(),
    decreases s.len(),
{
    if s.len() > 0 && s[0] != '+' {
        lemma_first_plus_bounds(s.drop_first());
    }
}

proof fn lemma_first_plus(s: Seq<char>, k: int)
    requires
        0 <= k <= s.len(),
        forall|j: int| 0 <= j < k ==> s[j] != '+',
        k == s.len() || s[k] == '+',
    ensures
        spec_first_plus(s) == k,
    decreases k,
{
    if k > 0 {
        lemma_first_plus(s.drop_first(), k - 1);
    }
}

/// The `'+'`-separated parts of a key combo, each trimmed.
pub open spec fn spec_combo_parts(s: Seq<char>) -> Seq<Seq<char>>
    decreases s.len(),
    via spec_combo_parts_dec
{
    let k = spec_first_plus(s);
    if k < s.len() {
        seq![spec_trim(s.take(k))] + spec_combo_parts(s.skip(k + 1))
    } else {
        seq![spec_trim(s)]
    }
}

#[via_fn]
proof fn spec_combo_parts_dec(s: Seq<char>) {
    lemma_first_plus_bounds(s);
}

/// The RON modifier name a combo part denotes: the well-known modifiers
/// map to their canonical names; anything else stays, lower-cased.
pub open spec fn spec_modifier_name(p: Seq<char>) -> Seq<char> {
    let low = spec_lower_seq(p);
    if low == "super"@ || low == "mod"@ || low == "logo"@ || low == "win"@ {
        "Super"@
    } else if low == "shift"@ {
        "Shift"@
    } else if low == "ctrl"@ || low == "control"@ {
        "Ctrl"@
    } else if low == "alt"@ {
        "Alt"@
    } else {
        low
    }
}

/// Parse a key combo such as "super+space": the last part is the key,
/// the parts before it become modifier names.
#[verifier::loop_isolation(false)]
pub fn parse_key_combo(combo: &str) -> (r: Result<(Vec<String>, String), Error>)
    ensures
        ({
            let parts = spec_combo_parts(combo@);
            r matches Ok(p) && p.1@ == parts.last() && p.0@.len() == parts.len() - 1 && (forall|
                i: int,
            |
                0 <= i < parts.len() - 1 ==> (#[trigger] p.0@[i])@ == spec_modifier_name(
                    parts[i],
                ))
        }),
{
    let cs = str_chars(combo);
    let n = cs.len();
    let mut parts: Vec<String> = Vec::new();
    let ghost full = cs@;
    let ghost mut done: Seq<Seq<char>> = Seq::empty();
    let mut pos: usize = 0;
    let mut finished = false;
    proof {
        assert(full.skip(0) =~= full);
    }
    while !finished
        invariant
            pos <= n,
            n == full.len(),
            cs@ == full,
            !finished ==> spec_combo_parts(full) == done + spec_combo_parts(
                full.skip(pos as int),
            ),
            finished ==> spec_combo_parts(full) == done,
            parts@.len() == done.len(),
            forall|i: int| 0 <= i < done.len() ==> (#[trigger] parts@[i])@ == done[i],
        decreases n - pos + (if finished {
            0int
        } else {
            1int
        }),
    {
        let ghost rest = full.skip(pos as int);
        let mut k: usize = pos;
        while k < n && cs[k] != '+'
            invariant
                pos <= k <= n,
                forall|j: int| pos <= j < k ==> cs@[j] != '+',
            decreases n - k,
        {
            k = k + 1;
        }
        proof {
            assert(forall|j: int| 0 <= j < k - pos ==> rest[j] == full[j + pos] && rest[j] != '+');
            if k < n {
                assert(rest[k - pos] == full[k as int]);
            }
            lemma_first_plus(rest, k - pos);
            assert(rest.take(k - pos) =~= full.subrange(pos as int, k as int));
        }
        let piece = crate::mru::trim_range(&cs, pos, k);
        let piece_str = chars_to_string(&piece);
        parts.push(piece_str);
        proof {
            done = done.push(spec_trim(full.subrange(pos as int, k as int)));
            if k < n {
                assert(rest.skip(k - pos + 1) =~= full.skip(k + 1));
            } else {
                assert(rest =~= full.skip(pos as int));
            }
        }
        if k < n {
            pos = k + 1;
        } else {
            finished = true;
            pos = n;
        }
    }
    if parts.len() == 0 {
        proof {
            assert(spec_combo_parts(full).len() >= 1);
            assert(false);
        }
        return Err(Error::Other("Empty key combo".to_owned()));
    }
    let key = parts[parts.len() - 1].clone();
    let mut modifiers: Vec<String> = Vec::new();
    let m = parts.len() - 1;
    let mut i: usize = 0;
    while i < m
        invariant
            i <= m,
            m == done.len() - 1,
            parts@.len() == done.len(),
            forall|t: int| 0 <= t < done.len() ==> (#[trigger] parts@[t])@ == done[t],
            modifiers@.len() == i,
            forall|t: int|
                0 <= t < i ==> (#[trigger] modifiers@[t])@ == spec_modifier_name(done[t]),
        decreases m - i,
    {
        modifiers.push(modifier_name(parts[i].as_str()));
        i = i + 1;
    }
    Ok((modifiers, key))
}

/// The canonical RON modifier name of one combo part.
fn modifier_name(p: &str) -> (r: String)
    ensures
        r@ == spec_modifier_name(p@),
{
    let low_chars = lower_chars(&str_chars(p));
    let low = chars_to_string(&low_chars);
    if crate::config::str_eq(low.as_str(), "super") || crate::config::str_eq(low.as_str(), "mod")
        || crate::config::str_eq(low.as_str(), "logo") || crate::config::str_eq(
        low.as_str(),
        "win",
    ) {
        "Super".to_owned()
    } else if crate::config::str_eq(low.as_str(), "shift") {
        "Shift".to_owned()
    } else if crate::config::str_eq(low.as_str(), "ctrl") || crate::config::str_eq(
        low.as_str(),
        "control",
    ) {
        "Ctrl".to_owned()
    } else if crate::config::str_eq(low.as_str(), "alt") {
        "Alt".to_owned()
    } else {
        low
    }
}

/// A string escaped for RON: backslashes and double quotes gain a
/// leading backslash, everything else is unchanged.
pub open spec fn spec_escape_ron(s: Seq<char>) -> Seq<char>
    decreases s.len(),
{
    if s.len() == 0 {
        s
    } else {
        (if s[0] == '\\' {
            seq!['\\', '\\']
        } else if s[0] == '"' {
            seq!['\\', '"']
        } else {
            seq![s[0]]
        }) + spec_escape_ron(s.drop_first())
    }
}

/// Escape a string for RON string literals.
#[verifier::loop_isolation(false)]
pub fn escape_ron_string(s: &str) -> (r: String)
    ensures
        r@ == spec_escape_ron(s@),
{
    let cs = str_chars(s);
    let v = escape_ron_chars(&cs);
    chars_to_string(&v)
}

#[verifier::loop_isolation(false)]
fn escape_ron_chars(cs: &Vec<char>) -> (r: Vec<char>)
    ensures
        r@ == spec_escape_ron(cs@),
{
    let n = cs.len();
    let mut out: Vec<char> = Vec::new();
    let mut i: usize = 0;
    proof {
        assert(cs@.skip(0) =~= cs@);
        assert(Seq::<char>::empty() + spec_escape_ron(cs@) =~= spec_escape_ron(cs@));
    }
    while i < n
        invariant
            i <= n,
            spec_escape_ron(cs@) == out@ + spec_escape_ron(cs@.skip(i as int)),
        decreases n - i,
    {
        let ghost pre = out@;
        let c = cs[i];
        if c == '\\' {
            out.push('\\');
            out.push('\\');
            proof {
                assert(out@ =~= pre + seq!['\\', '\\']);
            }
        } else if c == '"' {
            out.push('\\');
            out.push('"');
            proof {
                assert(out@ =~= pre + seq!['\\', '"']);
            }
        } else {
            out.push(c);
            proof {
                assert(out@ =~= pre + seq![cs@[i as int]]);
            }
        }
        proof {
            let casev = if cs@[i as int] == '\\' {
                seq!['\\', '\\']
            } else if cs@[i as int] == '"' {
                seq!['\\', '"']
            } else {
                seq![cs@[i as int]]
            };
            assert(cs@.skip(i as int)[0] == cs@[i as int]);
            assert(cs@.skip(i as int).drop_first() =~= cs@.skip(i + 1));
            assert(spec_escape_ron(cs@.skip(i as int)) == casev + spec_escape_ron(
                cs@.skip(i + 1),
            ));
            assert(pre + casev + spec_escape_ron(cs@.skip(i + 1)) =~= pre + (casev
                + spec_escape_ron(cs@.skip(i + 1))));
        }
        i = i + 1;
    }
    proof {
        assert(cs@.skip(n as int) =~= Seq::<char>::empty());
        assert(out@ =~= out@ + spec_escape_ron(Seq::<char>::empty()));
    }
    out
}

/// The modifier list joined with commas and bracketed.
pub open spec fn spec_mods_text(mods: Seq<Seq<char>>) -> Seq<char>
    decreases mods.len(),
{
    if mods.len() == 0 {
        "[]"@
    } else if mods.len() == 1 {
        seq!['['] + mods[0] + seq![']']
    } else {
        spec_mods_text(mods.drop_last()).drop_last() + ", "@ + mods.last() + seq![']']
    }
}

/// One shortcuts-file entry: the modifiers, the escaped key, and the
/// escaped command to spawn.
pub open spec fn spec_keybinding_text(
    mods: Seq<Seq<char>>,
    key: Seq<char>,
    command: Seq<char>,
) -> Seq<char> {
    "    (modifiers: "@ + spec_mods_text(mods) + ", key: \""@ + spec_escape_ron(key)
        + "\"): Spawn(\""@ + spec_escape_ron(command) + "\"),"@
}

/// Format a keybinding entry in the RON shortcuts format, escaping the
/// key and command.
#[verifier::loop_isolation(false)]
pub fn format_keybinding(modifiers: &[String], key: &str, command: &str) -> (r: String)
    ensures
        r@ == spec_keybinding_text(
            modifiers@.map_values(|m: String| m@),
            key@,
            command@,
        ),
{
    let ghost mseq = modifiers@.map_values(|m: String| m@);
    let mut mods: Vec<char> = Vec::new();
    let n = modifiers.len();
    if n == 0 {
        append_str(&mut mods, "[]");
        proof {
            assert(mods@ =~= spec_mods_text(mseq));
        }
    } else {
        mods.push('[');
        append_str(&mut mods, modifiers[0].as_str());
        proof {
            assert(mseq.take(1).drop_last() =~= Seq::<Seq<char>>::empty());
            assert(mods@ =~= seq!['['] + mseq[0]);
            assert(mods@.push(']') =~= spec_mods_text(mseq.take(1)));
        }
        let mut i: usize = 1;
        while i < n
            invariant
                1 <= i <= n,
                n == mseq.len(),
                mods@.push(']') == spec_mods_text(mseq.take(i as int)),
            decreases n - i,
        {
            let ghost pre = mods@;
            append_str(&mut mods, ", ");
            append_str(&mut mods, modifiers[i].as_str());
            proof {
                assert(mseq.take(i + 1).drop_last() =~= mseq.take(i as int));
                assert(mseq.take(i + 1).last() == mseq[i as int]);
                assert(spec_mods_text(mseq.take(i as int)).drop_last() =~= pre);
                assert(mods@.push(']') =~= spec_mods_text(mseq.take(i as int)).drop_last() + ", "@
                    + mseq[i as int] + seq![']']);
            }
            i = i + 1;
        }
        mods.push(']');
        proof {
            assert(mseq.take(n as int) =~= mseq);
        }
    }
    let mods_str = chars_to_string(&mods);
    let ekey = escape_ron_string(key);
    let ecmd = escape_ron_string(command);
    let mut out: Vec<char> = Vec::new();
    append_str(&mut out, "    (modifiers: ");
    append_str(&mut out, mods_str.as_str());
    append_str(&mut out, ", key: \"");
    append_str(&mut out, ekey.as_str());
    append_str(&mut out, "\"): Spawn(\"");
    append_str(&mut out, ecmd.as_str());
    append_str(&mut out, "\"),");
    chars_to_string(&out)
}

/// `pat` occurs somewhere in `s`.
pub open spec fn spec_contains(s: Seq<char>, pat: Seq<char>) -> bool {
    exists|i: int|
        0 <= i && i + pat.len() <= s.len() && #[trigger] s.subrange(i, i + pat.len()) == pat
}

/// Whether `pat` occurs in `hay`.
#[verifier::loop_isolation(false)]
pub(crate) fn chars_contains(hay: &Vec<char>, pat: &Vec<char>) -> (r: bool)
    ensures
        r == spec_contains(hay@, pat@),
{
    let n = hay.len();
    let m = pat.len();
    if m > n {
        return false;
    }
    let mut i: usize = 0;
    while i <= n - m
        invariant
            m <= n,
            i <= n - m + 1,
            n == hay@.len(),
            m == pat@.len(),
            forall|s: int| 0 <= s < i ==> #[trigger] hay@.subrange(s, s + pat@.len()) != pat@,
        decreases n - i,
    {
        let mut hit = true;
        let mut t: usize = 0;
        while t < m
            invariant
                t <= m,
                i + m <= n,
                hit ==> (forall|j: int| 0 <= j < t ==> hay@[i + j] == pat@[j]),
                !hit ==> (exists|j: int| 0 <= j < t && hay@[i + j] != pat@[j]),
            decreases m - t,
        {
            if hay[i + t] != pat[t] {
                hit = false;
            }
            t = t + 1;
        }
        if hit {
            proof {
                assert(hay@.subrange(i as int, i + pat@.len()) =~= pat@);
            }
            return true;
        }
        proof {
            let j = choose|j: int| 0 <= j < m && hay@[i + j] != pat@[j];
            assert(hay@.subrange(i as int, i + pat@.len())[j] != pat@[j]);
        }
        i = i + 1;
    }
    false
}

/// Whether shortcuts-file contents already mention this switcher.
pub fn has_sesame_binding(content: &str) -> (r: bool)
    ensures
        r == spec_contains(content@, "sesame"@),
{
    proof {
        reveal_strlit("sesame");
    }
    chars_contains(&str_chars(content), &str_chars("sesame"))
}

/// A line as `str::lines` yields it: without a trailing carriage return.
pub open spec fn spec_drop_cr(l: Seq<char>) -> Seq<char> {
    if l.len() > 0 && l.last() == '\r' {
        l.drop_last()
    } else {
        l
    }
}

/// The lines of the contents that do not mention this switcher, in
/// order.
pub open spec fn spec_kept_lines(s: Seq<char>) -> Seq<Seq<char>>
    decreases s.len(),
    via spec_kept_lines_dec
{
    if s.len() == 0 {
        Seq::empty()
    } else {
        let k = spec_first_nl(s);
        let line = spec_drop_cr(s.take(k));
        let rest = if k < s.len() {
            spec_kept_lines(s.skip(k + 1))
        } else {
            Seq::<Seq<char>>::empty()
        };
        if spec_contains(line, "sesame"@) {
            rest
        } else {
            seq![line] + rest
        }
    }
}

#[via_fn]
proof fn spec_kept_lines_dec(s: Seq<char>) {
    lemma_first_nl_bounds(s);
}

/// Lines joined with newlines.
pub open spec fn spec_join_nl(lines: Seq<Seq<char>>) -> Seq<char>
    decreases lines.len(),
{
    if lines.len() == 0 {
        Seq::empty()
    } else if lines.len() == 1 {
        lines[0]
    } else {
        spec_join_nl(lines.drop_last()) + seq!['\n'] + lines.last()
    }
}

/// Remove every line that mentions this switcher, keeping the rest
/// joined by newlines.
#[verifier::loop_isolation(false)]
#[verifier::rlimit(60)]
pub fn remove_sesame_bindings(content: &str) -> (r: String)
    ensures
        r@ == spec_join_nl(spec_kept_lines(content@)),
{
    proof {
        reveal_strlit("sesame");
    }
    let pat = str_chars("sesame");
    let cs = str_chars(content);
    let n = cs.len();
    let ghost full = cs@;
    let mut kept: Vec<Vec<char>> = Vec::new();
    let ghost mut done: Seq<Seq<char>> = Seq::empty();
    let mut pos: usize = 0;
    proof {
        assert(full.skip(0) =~= full);
        assert(Seq::<Seq<char>>::empty() + spec_kept_lines(full) =~= spec_kept_lines(full));
    }
    while pos < n
        invariant
            pos <= n,
            n == full.len(),
            cs@ == full,
            pat@ == "sesame"@,
            spec_kept_lines(full) == done + spec_kept_lines(full.skip(pos as int)),
            kept@.len() == done.len(),
            forall|i: int| 0 <= i < done.len() ==> (#[trigger] kept@[i])@ == done[i],
        decreases n - pos,
    {
        let ghost rest = full.skip(pos as int);
        let mut k: usize = pos;
        while k < n && cs[k] != '\n'
            invariant
                pos <= k <= n,
                forall|j: int| pos <= j < k ==> cs@[j] != '\n',
            decreases n - k,
        {
            k = k + 1;
        }
        proof {
            assert(forall|j: int| 0 <= j < k - pos ==> rest[j] == full[j + pos] && rest[j] != '\n');
            if k < n {
                assert(rest[k - pos] == full[k as int]);
            }
            lemma_first_nl_gen(rest, k - pos);
            assert(rest.take(k - pos) =~= full.subrange(pos as int, k as int));
        }
        let mut line = sub_chars(&cs, pos, k);
        if line.len() > 0 && line[line.len() - 1] == '\r' {
            let _ = line.pop();
        }
        proof {
            assert(line@ == spec_drop_cr(rest.take(k - pos)));
            if k < n {
                assert(rest.skip(k - pos + 1) =~= full.skip(k + 1));
            } else {
                assert(full.skip(n as int) =~= Seq::<char>::empty());
            }
        }
        if !chars_contains(&line, &pat) {
            kept.push(line);
            proof {
                done = done.push(kept@[kept@.len() - 1]@);
            }
        }
        if k < n {
            pos = k + 1;
        } else {
            pos = n;
        }
    }
    proof {
        assert(full.skip(n as int) =~= Seq::<char>::empty());
    }
    let m = kept.len();
    let mut out: Vec<char> = Vec::new();
    let mut i: usize = 0;
    while i < m
        invariant
            i <= m,
            m == done.len(),
            forall|t: int| 0 <= t < done.len() ==> (#[trigger] kept@[t])@ == done[t],
            out@ == spec_join_nl(done.take(i as int)),
        decreases m - i,
    {
        if i > 0 {
            out.push('\n');
        }
        let mut piece = sub_chars(&kept[i], 0, kept[i].len());
        proof {
            assert(piece@ =~= kept@[i as int]@);
        }
        out.append(&mut piece);
        proof {
            assert(done.take(i + 1).drop_last() =~= done.take(i as int));
            assert(done.take(i + 1).last() == done[i as int]);
            if i == 0 {
                assert(out@ =~= spec_join_nl(done.take(1)));
            } else {
                assert(out@ =~= spec_join_nl(done.take(i as int)) + seq!['\n'] + done[i as int]);
            }
        }
        i = i + 1;
    }
    proof {
        assert(done.take(m as int) =~= done);
    }
    chars_to_string(&out)
}

/// Position of the last `'}'`, if any.
pub open spec fn spec_rfind_brace(s: Seq<char>) -> Option<int>
    decreases s.len(),
{
    if s.len() == 0 {
        Option::None
    } else if s.last() == '}' {
        Some(s.len() - 1)
    } else {
        spec_rfind_brace(s.drop_last())
    }
}

proof fn lemma_rfind_brace(s: Seq<char>, b: int)
    requires
        0 <= b <= s.len(),
        forall|j: int| b <= j < s.len() ==> s[j] != '}',
        b == 0 || s[b - 1] == '}',
    ensures
        spec_rfind_brace(s) == if b == 0 {
            Option::<int>::None
        } else {
            Some(b - 1)
        },
    decreases s.len(),
{
    if s.len() > 0 && s.last() != '}' {
        lemma_rfind_brace(s.drop_last(), b);
    }
}

/// The shortcuts-file contents with a binding entry added: empty or
/// bare-brace contents are rebuilt around the entry; otherwise the entry
/// is inserted before the closing brace, with a separating comma when
/// the preceding text needs one.
pub open spec fn spec_add_binding(content: Seq<char>, binding: Seq<char>) -> Seq<char> {
    let t = spec_trim(content);
    if t.len() == 0 || t == "{}"@ || t == "{\n}"@ {
        "{\n"@ + binding + "\n}"@
    } else {
        match spec_rfind_brace(t) {
            Some(p) => {
                let before = spec_trim_end(t.take(p));
                let needs = !(before.len() > 0 && (before.last() == '{' || before.last() == ','));
                before + (if needs {
                    ","@
                } else {
                    Seq::<char>::empty()
                }) + "\n"@ + binding + "\n}"@
            },
            Option::None => "{\n"@ + binding + "\n}"@,
        }
    }
}

/// Add a keybinding entry to shortcuts-file contents.
#[verifier::loop_isolation(false)]
pub fn add_binding(content: &str, binding: &str) -> (r: String)
    ensures
        r@ == spec_add_binding(content@, binding@),
{
    let cs = str_chars(content);
    proof {
        assert(cs@.subrange(0, cs@.len() as int) =~= cs@);
    }
    let t = crate::mru::trim_range(&cs, 0, cs.len());
    let t_str = chars_to_string(&t);
    let empty_braces = crate::config::str_eq(t_str.as_str(), "{}");
    let nl_braces = crate::config::str_eq(t_str.as_str(), "{\n}");
    if t.len() == 0 || empty_braces || nl_braces {
        let mut out: Vec<char> = Vec::new();
        append_str(&mut out, "{\n");
        append_str(&mut out, binding);
        append_str(&mut out, "\n}");
        return chars_to_string(&out);
    }
    let tn = t.len();
    let mut b: usize = tn;
    while b > 0 && t[b - 1] != '}'
        invariant
            b <= tn,
            tn == t@.len(),
            forall|j: int| b <= j < tn ==> t@[j] != '}',
        decreases b,
    {
        b = b - 1;
    }
    proof {
        lemma_rfind_brace(t@, b as int);
    }
    if b == 0 {
        let mut out: Vec<char> = Vec::new();
        append_str(&mut out, "{\n");
        append_str(&mut out, binding);
        append_str(&mut out, "\n}");
        return chars_to_string(&out);
    }
    let p = b - 1;
    let mut e: usize = p;
    while e > 0 && crate::chars::char_is_space(t[e - 1])
        invariant
            e <= p,
            forall|j: int| e <= j < p ==> crate::chars::spec_is_space(#[trigger] t@[j]),
        decreases e,
    {
        e = e - 1;
    }
    proof {
        crate::mru::lemma_trim_end(t@.take(p as int), e as int);
    }
    let before = sub_chars(&t, 0, e);
    proof {
        assert(before@ =~= t@.take(p as int).take(e as int));
    }
    let needs_comma = !(before.len() > 0 && (before[before.len() - 1] == '{' || before[before.len()
        - 1] == ',' ));
    let mut out: Vec<char> = Vec::new();
    let mut before_m = before;
    out.append(&mut before_m);
    if needs_comma {
        append_str(&mut out, ",");
        proof {
            reveal_strlit(",");
            assert(","@ =~= seq![',']);
        }
    }
    append_str(&mut out, "\n");
    append_str(&mut out, binding);
    append_str(&mut out, "\n}");
    proof {
        if needs_comma {
            assert(out@ =~= spec_add_binding(content@, binding@));
        } else {
            assert(spec_trim_end(t@.take(p as int)) + Seq::<char>::empty() + "\n"@ + binding@
                + "\n}"@ =~= spec_trim_end(t@.take(p as int)) + "\n"@ + binding@ + "\n}"@);
            assert(out@ =~= spec_add_binding(content@, binding@));
        }
    }
    chars_to_string(&out)
}

} // verus!
