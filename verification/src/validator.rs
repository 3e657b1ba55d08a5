//! Configuration validation.
//!
//! Checks a configuration for problems and reports each as an issue with
//! a severity and a message.

use vstd::prelude::*;

use crate::config::{Config, KeyBinding, Settings};
use crate::strutil::{append_str, chars_to_string, str_chars};
use crate::window::{lower_str, lower_chars};
use crate::chars::spec_lower_seq;
use vstd::string::*;

verus! {

/// Severity of a validation issue.
#[derive(Debug, Clone, Copy, PartialEq, Eq, Structural)]
pub enum Severity {
    /// The configuration is usable but questionable.
    Warning,
    /// The configuration is invalid.
    Error,
}

/// A configuration validation issue.
#[derive(Debug)]
pub struct ValidationIssue {
    /// Severity of the issue.
    pub severity: Severity,
    /// Human-readable description.
    pub message: String,
}

impl ValidationIssue {
    /// A warning issue.
    pub fn warning(message: String) -> (r: Self)
        ensures
            r.severity == Severity::Warning,
            r.message@ == message@,
    {
        ValidationIssue { severity: Severity::Warning, message }
    }

    /// An error issue.
    pub fn error(message: String) -> (r: Self)
        ensures
            r.severity == Severity::Error,
            r.message@ == message@,
    {
        ValidationIssue { severity: Severity::Error, message }
    }
}

impl Clone for ValidationIssue {
    fn clone(&self) -> (r: Self)
        ensures
            r.severity == self.severity,
            r.message@ == self.message@,
    {
        ValidationIssue { severity: self.severity, message: self.message.clone() }
    }
}

/// The abstract identity of an issue the validator can raise.
pub enum IssueKind {
    /// The activation delay is longer than five seconds.
    SlowActivation,
    /// A binding key is the empty string.
    EmptyKeyName,
    /// A binding key is longer than one character.
    LongKey(Seq<char>),
    /// A binding has neither apps nor a launch command.
    NoAppsNoLaunch(Seq<char>),
    /// An app is claimed by two different keys.
    DupApp(Seq<char>, Seq<char>, Seq<char>),
}

/// Severity each kind of issue carries.
pub open spec fn spec_kind_severity(k: IssueKind) -> Severity {
    match k {
        IssueKind::EmptyKeyName => Severity::Error,
        _ => Severity::Warning,
    }
}

/// The concrete issue a kind stands for: its severity and exact message.
pub open spec fn spec_issue_is(issue: ValidationIssue, kind: IssueKind) -> bool {
    issue.severity == spec_kind_severity(kind) && issue.message@ == spec_kind_message(kind)
}

/// The message text of each kind of issue.
pub open spec fn spec_kind_message(kind: IssueKind) -> Seq<char> {
    match kind {
        IssueKind::SlowActivation => "activation_delay > 5s is very slow"@,
        IssueKind::EmptyKeyName => "Empty key name found"@,
        IssueKind::LongKey(k) => "Key '"@ + k + "' should be a single character"@,
        IssueKind::NoAppsNoLaunch(k) => "Key '"@ + k + "' has no apps and no launch command"@,
        IssueKind::DupApp(app, ek, k) => "App '"@ + app + "' is mapped to both '"@ + ek
            + "' and '"@ + k + "'"@,
    }
}

/// Issues raised by the settings alone.
pub open spec fn spec_settings_kinds(s: Settings) -> Seq<IssueKind> {
    if s.activation_delay > 5000 {
        seq![IssueKind::SlowActivation]
    } else {
        Seq::empty()
    }
}

/// Issues raised by one key binding entry, in report order.
pub open spec fn spec_entry_kinds(key: Seq<char>, b: KeyBinding) -> Seq<IssueKind> {
    (if key.len() == 0 {
        seq![IssueKind::EmptyKeyName]
    } else {
        Seq::<IssueKind>::empty()
    }) + (if key.len() > 1 {
        seq![IssueKind::LongKey(key)]
    } else {
        Seq::<IssueKind>::empty()
    }) + (if b.apps@.len() == 0 && b.launch is None {
        seq![IssueKind::NoAppsNoLaunch(key)]
    } else {
        Seq::<IssueKind>::empty()
    })
}

/// Issues raised by the first `i` key binding entries.
pub open spec fn spec_entries_kinds(entries: Seq<(String, KeyBinding)>, i: int) -> Seq<IssueKind>
    decreases i,
{
    if i <= 0 {
        Seq::empty()
    } else {
        spec_entries_kinds(entries, i - 1) + spec_entry_kinds(
            entries[i - 1].0@,
            entries[i - 1].1,
        )
    }
}

/// Every (key, app) pair of the first `i` entries, in order.
pub open spec fn spec_app_pairs(entries: Seq<(String, KeyBinding)>, i: int) -> Seq<
    (Seq<char>, Seq<char>),
>
    decreases i,
{
    if i <= 0 {
        Seq::empty()
    } else {
        spec_app_pairs(entries, i - 1) + entries[i - 1].1.apps@.map_values(
            |a: String| (entries[i - 1].0@, a@),
        )
    }
}

/// First position in `[from, j)` whose app, lower-cased, equals `low`.
pub open spec fn spec_first_app_from(
    pairs: Seq<(Seq<char>, Seq<char>)>,
    low: Seq<char>,
    from: int,
    j: int,
) -> Option<int>
    decreases j - from,
{
    if from >= j {
        Option::None
    } else if spec_lower_seq(pairs[from].1) == low {
        Some(from)
    } else {
        spec_first_app_from(pairs, low, from + 1, j)
    }
}

/// Duplicate-app issues among the first `j` pairs: a pair warns when an
/// earlier pair first claimed the same app (case-insensitively) under a
/// different key.
pub open spec fn spec_dup_kinds(pairs: Seq<(Seq<char>, Seq<char>)>, j: int) -> Seq<IssueKind>
    decreases j,
{
    if j <= 0 {
        Seq::empty()
    } else {
        spec_dup_kinds(pairs, j - 1) + (match spec_first_app_from(
            pairs,
            spec_lower_seq(pairs[j - 1].1),
            0,
            j - 1,
        ) {
            Some(i0) => if pairs[i0].0 != pairs[j - 1].0 {
                seq![IssueKind::DupApp(pairs[j - 1].1, pairs[i0].0, pairs[j - 1].0)]
            } else {
                Seq::<IssueKind>::empty()
            },
            Option::None => Seq::<IssueKind>::empty(),
        })
    }
}

/// Every issue the validator owes for a configuration, in report order.
pub open spec fn spec_validate_kinds(cfg: Config) -> Seq<IssueKind> {
    spec_settings_kinds(cfg.settings) + spec_entries_kinds(cfg.keys@, cfg.keys@.len() as int)
        + spec_dup_kinds(
        spec_app_pairs(cfg.keys@, cfg.keys@.len() as int),
        spec_app_pairs(cfg.keys@, cfg.keys@.len() as int).len() as int,
    )
}

proof fn lemma_first_app_from(
    pairs: Seq<(Seq<char>, Seq<char>)>,
    low: Seq<char>,
    from: int,
    i: int,
    j: int,
)
    requires
        0 <= from <= i <= j,
        forall|m: int| from <= m < i ==> spec_lower_seq((#[trigger] pairs[m]).1) != low,
        i == j || spec_lower_seq(pairs[i].1) == low,
    ensures
        spec_first_app_from(pairs, low, from, j) == if i == j {
            Option::<int>::None
        } else {
            Some(i)
        },
    decreases i - from,
{
    if from < i {
        lemma_first_app_from(pairs, low, from + 1, i, j);
    }
}

/// The concatenation of three strings.
fn concat3(a: &str, b: &str, c: &str) -> (r: String)
    ensures
        r@ == a@ + b@ + c@,
{
    let mut v: Vec<char> = Vec::new();
    append_str(&mut v, a);
    append_str(&mut v, b);
    append_str(&mut v, c);
    chars_to_string(&v)
}

/// The concatenation of seven strings.
fn concat7(a: &str, b: &str, c: &str, d: &str, e: &str, f: &str, g: &str) -> (r: String)
    ensures
        r@ == a@ + b@ + c@ + d@ + e@ + f@ + g@,
{
    let mut v: Vec<char> = Vec::new();
    append_str(&mut v, a);
    append_str(&mut v, b);
    append_str(&mut v, c);
    append_str(&mut v, d);
    append_str(&mut v, e);
    append_str(&mut v, f);
    append_str(&mut v, g);
    chars_to_string(&v)
}

/// Configuration validator.
#[derive(Debug)]
pub struct ConfigValidator;

impl ConfigValidator {
    /// Validate a configuration and report every issue, in order: the
    /// settings checks, then each binding's checks, then duplicate apps
    /// claimed by different keys.
    #[verifier::loop_isolation(false)]
    pub fn validate(config: &Config) -> (r: Vec<ValidationIssue>)
        ensures
            r@.len() == spec_validate_kinds(*config).len(),
            forall|i: int|
                0 <= i < r@.len() ==> spec_issue_is(
                    #[trigger] r@[i],
                    spec_validate_kinds(*config)[i],
                ),
    {
        let mut issues: Vec<ValidationIssue> = Vec::new();
        if config.settings.activation_delay > 5000 {
            issues.push(
                ValidationIssue::warning("activation_delay > 5s is very slow".to_owned()),
            );
        }
        proof {
            let ks = spec_settings_kinds(config.settings);
            assert(issues@.len() == ks.len());
            assert(forall|i: int|
                0 <= i < issues@.len() ==> spec_issue_is(#[trigger] issues@[i], ks[i]));
        }
        let n = config.keys.len();
        let mut i: usize = 0;
        while i < n
            invariant
                i <= n,
                n == config.keys@.len(),
                ({
                    let ks = spec_settings_kinds(config.settings) + spec_entries_kinds(
                        config.keys@,
                        i as int,
                    );
                    issues@.len() == ks.len() && (forall|m: int|
                        0 <= m < issues@.len() ==> spec_issue_is(#[trigger] issues@[m], ks[m]))
                }),
            decreases n - i,
        {
            let entry = &config.keys[i];
            let key = entry.0.as_str();
            let klen = key.unicode_len();
            if klen == 0 {
                issues.push(ValidationIssue::error("Empty key name found".to_owned()));
            }
            if klen > 1 {
                issues.push(
                    ValidationIssue::warning(
                        concat3("Key '", key, "' should be a single character"),
                    ),
                );
            }
            if entry.1.apps.len() == 0 && entry.1.launch.is_none() {
                issues.push(
                    ValidationIssue::warning(
                        concat3("Key '", key, "' has no apps and no launch command"),
                    ),
                );
            }
            i = i + 1;
        }
        // Flatten (key, app) pairs in order.
        let mut pairs: Vec<(String, String)> = Vec::new();
        let mut e: usize = 0;
        while e < n
            invariant
                e <= n,
                n == config.keys@.len(),
                ({
                    let tgt = spec_app_pairs(config.keys@, e as int);
                    pairs@.len() == tgt.len() && (forall|k: int|
                        0 <= k < tgt.len() ==> (#[trigger] pairs@[k]).0@ == tgt[k].0
                            && pairs@[k].1@ == tgt[k].1)
                }),
            decreases n - e,
        {
            let entry = &config.keys[e];
            let m = entry.1.apps.len();
            let mut j: usize = 0;
            while j < m
                invariant
                    j <= m,
                    m == entry.1.apps@.len(),
                    ({
                        let tgt = spec_app_pairs(config.keys@, e as int)
                            + entry.1.apps@.map_values(|a: String| (entry.0@, a@)).take(j as int);
                        pairs@.len() == tgt.len() && (forall|k: int|
                            0 <= k < tgt.len() ==> (#[trigger] pairs@[k]).0@ == tgt[k].0
                                && pairs@[k].1@ == tgt[k].1)
                    }),
                decreases m - j,
            {
                pairs.push((entry.0.clone(), entry.1.apps[j].clone()));
                j = j + 1;
            }
            proof {
                assert(entry.1.apps@.map_values(|a: String| (entry.0@, a@)).take(m as int)
                    =~= entry.1.apps@.map_values(|a: String| (entry.0@, a@)));
            }
            e = e + 1;
        }
        let ghost spairs = spec_app_pairs(config.keys@, n as int);
        let np = pairs.len();
        // Duplicate detection: warn when an earlier pair first claimed the
        // same app under a different key.
        let mut j: usize = 0;
        while j < np
            invariant
                j <= np,
                np == pairs@.len(),
                spairs.len() == pairs@.len(),
                forall|k: int|
                    0 <= k < spairs.len() ==> (#[trigger] pairs@[k]).0@ == spairs[k].0
                        && pairs@[k].1@ == spairs[k].1,
                ({
                    let ks = spec_settings_kinds(config.settings) + spec_entries_kinds(
                        config.keys@,
                        n as int,
                    ) + spec_dup_kinds(spairs, j as int);
                    issues@.len() == ks.len() && (forall|m: int|
                        0 <= m < issues@.len() ==> spec_issue_is(#[trigger] issues@[m], ks[m]))
                }),
            decreases np - j,
        {
            let this_low = lower_str(pairs[j].1.as_str());
            let mut f: usize = 0;
            while f < j && !crate::config::str_eq(
                lower_str(pairs[f].1.as_str()).as_str(),
                this_low.as_str(),
            )
                invariant
                    f <= j,
                    j < np,
                    this_low@ == spec_lower_seq(spairs[j as int].1),
                    forall|m: int|
                        0 <= m < f ==> spec_lower_seq((#[trigger] spairs[m]).1) != this_low@,
                decreases j - f,
            {
                f = f + 1;
            }
            let found: Option<usize> = if f < j {
                Some(f)
            } else {
                None
            };
            proof {
                match found {
                    Some(i0) => {
                        lemma_first_app_from(spairs, this_low@, 0, i0 as int, j as int);
                    },
                    Option::None => {
                        lemma_first_app_from(spairs, this_low@, 0, j as int, j as int);
                    },
                }
            }
            match found {
                Some(i0) => {
                    if !crate::config::str_eq(pairs[i0].0.as_str(), pairs[j].0.as_str()) {
                        issues.push(
                            ValidationIssue::warning(
                                concat7(
                                    "App '",
                                    pairs[j].1.as_str(),
                                    "' is mapped to both '",
                                    pairs[i0].0.as_str(),
                                    "' and '",
                                    pairs[j].0.as_str(),
                                    "'",
                                ),
                            ),
                        );
                    } else {
                        proof {
                            assert(spairs[i0 as int].0 == spairs[j as int].0);
                        }
                    }
                },
                None => {},
            }
            j = j + 1;
        }
        issues
    }

    /// Whether the configuration is valid: no error-severity issues
    /// (warnings allowed).
    #[verifier::loop_isolation(false)]
    pub fn is_valid(config: &Config) -> (r: bool)
        ensures
            r == (forall|i: int|
                0 <= i < spec_validate_kinds(*config).len() ==> spec_kind_severity(
                    #[trigger] spec_validate_kinds(*config)[i],
                ) != Severity::Error),
    {
        let issues = Self::validate(config);
        let n = issues.len();
        let mut i: usize = 0;
        while i < n
            invariant
                i <= n,
                n == issues@.len(),
                forall|m: int|
                    0 <= m < i ==> spec_kind_severity(
                        #[trigger] spec_validate_kinds(*config)[m],
                    ) != Severity::Error,
            decreases n - i,
        {
            if matches!(issues[i].severity, Severity::Error) {
                proof {
                    assert(spec_kind_severity(spec_validate_kinds(*config)[i as int])
                        == Severity::Error);
                }
                return false;
            }
            i = i + 1;
        }
        true
    }
}

} // verus!
