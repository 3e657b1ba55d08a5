//! Configuration types: colors, launch configuration, key bindings and
//! the timing settings the state machine reads.

use vstd::prelude::*;

use crate::chars::{
    char_hex_digit, char_hex_val, char_is_hex_digit, spec_hex_char, spec_hex_val,
    spec_is_hex_digit, spec_lower_seq,
};
use crate::error::Error;
use crate::launcher::{clone_pairs, clone_strings, LaunchCommand};
use crate::strutil::{chars_to_string, str_chars};
use crate::window::{lower_str, spec_last_segment, str_last_segment};
use vstd::string::*;

verus! {

/// RGBA color.
#[derive(Debug, Clone, Copy, PartialEq, Eq, Structural)]
pub struct Color {
    /// Red channel.
    pub r: u8,
    /// Green channel.
    pub g: u8,
    /// Blue channel.
    pub b: u8,
    /// Alpha channel, 255 fully opaque.
    pub a: u8,
}

/// The input with every leading `'#'` removed.
pub open spec fn spec_strip_hash(s: Seq<char>) -> Seq<char>
    decreases s.len(),
{
    if s.len() > 0 && s[0] == '#' {
        spec_strip_hash(s.drop_first())
    } else {
        s
    }
}

/// Value of the two hexadecimal digits of `t` at positions `i`, `i + 1`.
pub open spec fn spec_hex_pair(t: Seq<char>, i: int) -> int {
    16 * spec_hex_val(t[i]) + spec_hex_val(t[i + 1])
}

/// The two lower-case hexadecimal digits of a byte.
pub open spec fn spec_hex_byte(b: int) -> Seq<char> {
    seq![spec_hex_char(b / 16), spec_hex_char(b % 16)]
}

/// What `Color::from_hex` owes: after the leading hashes are stripped,
/// six or eight hexadecimal digits parse to the channels (alpha 255 when
/// absent); anything else is an invalid-color error naming the stripped
/// input.
pub open spec fn spec_from_hex_ok(s: Seq<char>, r: Result<Color, Error>) -> bool {
    let t = spec_strip_hash(s);
    if (t.len() == 6 || t.len() == 8) && (forall|i: int|
        0 <= i < t.len() ==> spec_is_hex_digit(#[trigger] t[i])) {
        r matches Ok(c) && c.r == spec_hex_pair(t, 0) && c.g == spec_hex_pair(t, 2) && c.b
            == spec_hex_pair(t, 4) && c.a == (if t.len() == 8 {
            spec_hex_pair(t, 6)
        } else {
            255int
        })
    } else {
        r matches Err(Error::InvalidColor { value }) && value@ == t
    }
}

proof fn lemma_strip_hash(s: Seq<char>, h: int)
    requires
        0 <= h <= s.len(),
        forall|j: int| 0 <= j < h ==> s[j] == '#',
        h == s.len() || s[h] != '#',
    ensures
        spec_strip_hash(s) == s.subrange(h, s.len() as int),
    decreases h,
{
    if h == 0 {
        assert(spec_strip_hash(s) =~= s.subrange(0, s.len() as int));
    } else {
        lemma_strip_hash(s.drop_first(), h - 1);
        assert(s.drop_first().subrange(h - 1, s.drop_first().len() as int) =~= s.subrange(
            h,
            s.len() as int,
        ));
    }
}

impl Color {
    /// Create a color from its channels.
    pub fn new(r: u8, g: u8, b: u8, a: u8) -> (c: Self)
        ensures
            c == (Color { r, g, b, a }),
    {
        Color { r, g, b, a }
    }

    /// Parse a color from "#RRGGBB" or "#RRGGBBAA" (the hash optional,
    /// digits in either case).
    #[verifier::loop_isolation(false)]
    pub fn from_hex(s: &str) -> (r: Result<Self, Error>)
        ensures
            spec_from_hex_ok(s@, r),
    {
        let cs = str_chars(s);
        let n = cs.len();
        let mut h: usize = 0;
        while h < n && cs[h] == '#'
            invariant
                h <= n,
                forall|j: int| 0 <= j < h ==> cs@[j] == '#',
            decreases n - h,
        {
            h = h + 1;
        }
        proof {
            lemma_strip_hash(cs@, h as int);
        }
        let stripped = s.substring_char(h, n);
        let m = n - h;
        if m != 6 && m != 8 {
            return Err(Error::InvalidColor { value: stripped.to_owned() });
        }
        let mut i: usize = h;
        while i < n
            invariant
                h <= i <= n,
                forall|j: int| h <= j < i ==> spec_is_hex_digit(#[trigger] cs@[j]),
            decreases n - i,
        {
            if !char_is_hex_digit(cs[i]) {
                proof {
                    assert(spec_strip_hash(s@)[i - h] == cs@[i as int]);
                }
                return Err(Error::InvalidColor { value: stripped.to_owned() });
            }
            i = i + 1;
        }
        let r = 16 * char_hex_val(cs[h]) + char_hex_val(cs[h + 1]);
        let g = 16 * char_hex_val(cs[h + 2]) + char_hex_val(cs[h + 3]);
        let b = 16 * char_hex_val(cs[h + 4]) + char_hex_val(cs[h + 5]);
        let a = if m == 8 {
            16 * char_hex_val(cs[h + 6]) + char_hex_val(cs[h + 7])
        } else {
            255
        };
        Ok(Color { r, g, b, a })
    }

    /// The color as "#rrggbbaa", lower-case, alpha included.
    pub fn to_hex(self) -> (r: String)
        ensures
            r@ == seq!['#'] + spec_hex_byte(self.r as int) + spec_hex_byte(self.g as int)
                + spec_hex_byte(self.b as int) + spec_hex_byte(self.a as int),
    {
        let mut v: Vec<char> = Vec::new();
        v.push('#');
        v.push(char_hex_digit(self.r / 16));
        v.push(char_hex_digit(self.r % 16));
        v.push(char_hex_digit(self.g / 16));
        v.push(char_hex_digit(self.g % 16));
        v.push(char_hex_digit(self.b / 16));
        v.push(char_hex_digit(self.b % 16));
        v.push(char_hex_digit(self.a / 16));
        v.push(char_hex_digit(self.a % 16));
        proof {
            assert(v@ =~= seq!['#'] + spec_hex_byte(self.r as int) + spec_hex_byte(self.g as int)
                + spec_hex_byte(self.b as int) + spec_hex_byte(self.a as int));
        }
        chars_to_string(&v)
    }
}

impl Default for Color {
    /// Soft lavender-purple with partial opacity.
    fn default() -> (r: Self)
        ensures
            r == (Color { r: 180u8, g: 160u8, b: 255u8, a: 180u8 }),
    {
        Color::new(180, 160, 255, 180)
    }
}

/// Launch configuration: a bare command, or a command with arguments and
/// environment configuration.
#[derive(Debug)]
pub enum LaunchConfig {
    /// A bare command.
    Simple(String),
    /// A command with arguments and environment.
    Advanced {
        /// Command to run.
        command: String,
        /// Arguments to pass.
        args: Vec<String>,
        /// Environment files to load.
        env_files: Vec<String>,
        /// Environment variables to set, as key-value pairs.
        env: Vec<(String, String)>,
    },
}

/// The command a launch configuration runs.
pub open spec fn spec_launch_command(lc: LaunchConfig) -> Seq<char> {
    match lc {
        LaunchConfig::Simple(cmd) => cmd@,
        LaunchConfig::Advanced { command, .. } => command@,
    }
}

impl LaunchConfig {
    /// The command to execute.
    pub fn command(&self) -> (r: &str)
        ensures
            r@ == spec_launch_command(*self),
    {
        match self {
            LaunchConfig::Simple(cmd) => cmd.as_str(),
            LaunchConfig::Advanced { command, .. } => command.as_str(),
        }
    }

    /// Command arguments; empty for a bare command.
    pub fn args(&self) -> (r: &[String])
        ensures
            match self {
                LaunchConfig::Simple(_) => r@.len() == 0,
                LaunchConfig::Advanced { args, .. } => r@ == args@,
            },
    {
        match self {
            LaunchConfig::Simple(_) => &[],
            LaunchConfig::Advanced { args, .. } => args.as_slice(),
        }
    }

    /// Environment files to load; empty for a bare command.
    pub fn env_files(&self) -> (r: &[String])
        ensures
            match self {
                LaunchConfig::Simple(_) => r@.len() == 0,
                LaunchConfig::Advanced { env_files, .. } => r@ == env_files@,
            },
    {
        match self {
            LaunchConfig::Simple(_) => &[],
            LaunchConfig::Advanced { env_files, .. } => env_files.as_slice(),
        }
    }

    /// Explicit environment variables; empty for a bare command.
    pub fn env(&self) -> (r: Vec<(String, String)>)
        ensures
            match self {
                LaunchConfig::Simple(_) => r@.len() == 0,
                LaunchConfig::Advanced { env, .. } => r@.len() == env@.len() && (forall|i: int|
                    0 <= i < env@.len() ==> (#[trigger] r@[i]).0@ == env@[i].0@ && r@[i].1@
                        == env@[i].1@),
            },
    {
        match self {
            LaunchConfig::Simple(_) => Vec::new(),
            LaunchConfig::Advanced { env, .. } => clone_pairs(env),
        }
    }

    /// Convert to a `LaunchCommand` for execution.
    pub fn to_launch_command(&self) -> (r: LaunchCommand)
        ensures
            r.command@ == spec_launch_command(*self),
            match self {
                LaunchConfig::Simple(_) => r.args@.len() == 0 && r.env_files@.len() == 0
                    && r.env@.len() == 0,
                LaunchConfig::Advanced { args, env_files, env, .. } => {
                    &&& r.args@.len() == args@.len()
                    &&& (forall|i: int|
                        0 <= i < args@.len() ==> (#[trigger] r.args@[i])@ == args@[i]@)
                    &&& r.env_files@.len() == env_files@.len()
                    &&& (forall|i: int|
                        0 <= i < env_files@.len() ==> (#[trigger] r.env_files@[i])@
                            == env_files@[i]@)
                    &&& r.env@.len() == env@.len()
                    &&& (forall|i: int|
                        0 <= i < env@.len() ==> (#[trigger] r.env@[i]).0@ == env@[i].0@
                            && r.env@[i].1@ == env@[i].1@)
                },
            },
    {
        match self {
            LaunchConfig::Simple(cmd) => LaunchCommand::simple(cmd.as_str()),
            LaunchConfig::Advanced { command, args, env_files, env } => LaunchCommand::advanced(
                command.as_str(),
                clone_strings(args),
                clone_strings(env_files),
                clone_pairs(env),
            ),
        }
    }
}

/// Configuration for a single key binding.
#[derive(Debug)]
pub struct KeyBinding {
    /// App ids that match this key.
    pub apps: Vec<String>,
    /// Launch configuration used when no matching window exists.
    pub launch: Option<LaunchConfig>,
}

impl Default for KeyBinding {
    /// No apps, nothing to launch.
    fn default() -> (r: Self)
        ensures
            r.apps@.len() == 0,
            r.launch is None,
    {
        KeyBinding { apps: Vec::new(), launch: None }
    }
}

/// Timing and appearance settings.
#[derive(Debug)]
pub struct Settings {
    /// Key combination that starts the switcher (informational).
    pub activation_key: String,
    /// Delay in ms before an exact match auto-activates.
    pub activation_delay: u64,
    /// Delay in ms before the full overlay appears.
    pub overlay_delay: u64,
    /// Alt released within this many ms switches to the previous window.
    pub quick_switch_threshold: u64,
    /// Border color of the focus indicator.
    pub border_color: Color,
    /// Background overlay color.
    pub background_color: Color,
    /// Card background color.
    pub card_color: Color,
    /// Text color.
    pub text_color: Color,
    /// Hint badge color.
    pub hint_color: Color,
    /// Matched hint color.
    pub hint_matched_color: Color,
    /// Environment files loaded for every launch.
    pub env_files: Vec<String>,
}

impl Default for Settings {
    /// The stock settings: alt+space activation, 200 ms activation delay,
    /// 720 ms overlay delay, 250 ms quick-switch threshold.
    fn default() -> (r: Self)
        ensures
            r.activation_key@ == "alt+space"@,
            r.activation_delay == 200,
            r.overlay_delay == 720,
            r.quick_switch_threshold == 250,
            r.border_color == (Color { r: 180u8, g: 160u8, b: 255u8, a: 180u8 }),
            r.background_color == (Color { r: 0u8, g: 0u8, b: 0u8, a: 200u8 }),
            r.card_color == (Color { r: 30u8, g: 30u8, b: 30u8, a: 240u8 }),
            r.text_color == (Color { r: 255u8, g: 255u8, b: 255u8, a: 255u8 }),
            r.hint_color == (Color { r: 100u8, g: 100u8, b: 100u8, a: 255u8 }),
            r.hint_matched_color == (Color { r: 76u8, g: 175u8, b: 80u8, a: 255u8 }),
            r.env_files@.len() == 0,
    {
        Settings {
            activation_key: "alt+space".to_owned(),
            activation_delay: 200,
            overlay_delay: 720,
            quick_switch_threshold: 250,
            border_color: Color::default(),
            background_color: Color::new(0, 0, 0, 200),
            card_color: Color::new(30, 30, 30, 240),
            text_color: Color::new(255, 255, 255, 255),
            hint_color: Color::new(100, 100, 100, 255),
            hint_matched_color: Color::new(76, 175, 80, 255),
            env_files: Vec::new(),
        }
    }
}

/// First character of a string, if any.
pub open spec fn spec_first_char(s: Seq<char>) -> Option<char> {
    if s.len() == 0 {
        Option::None
    } else {
        Some(s[0])
    }
}

/// A configured app pattern matches an app id exactly, case-insensitively,
/// or case-insensitively against the app id's last dot-segment.
pub open spec fn spec_pattern_matches(p: Seq<char>, app: Seq<char>) -> bool {
    ||| p == app
    ||| spec_lower_seq(p) == spec_lower_seq(app)
    ||| spec_lower_seq(p) == spec_lower_seq(spec_last_segment(app))
}

/// A binding matches an app id when any of its patterns does.
pub open spec fn spec_binding_matches(b: KeyBinding, app: Seq<char>) -> bool {
    exists|i: int| 0 <= i < b.apps@.len() && spec_pattern_matches((#[trigger] b.apps@[i])@, app)
}

/// The key character for an app id: the first character of the first
/// binding key whose patterns match the app id.
pub open spec fn spec_key_for_app(keys: Seq<(String, KeyBinding)>, app: Seq<char>) -> Option<char>
    decreases keys.len(),
{
    if keys.len() == 0 {
        Option::None
    } else if spec_binding_matches(keys[0].1, app) {
        spec_first_char(keys[0].0@)
    } else {
        spec_key_for_app(keys.drop_first(), app)
    }
}

/// The launch configuration of the first binding for `key`, if any.
pub open spec fn spec_launch_config(keys: Seq<(String, KeyBinding)>, key: Seq<char>) -> Option<
    LaunchConfig,
>
    decreases keys.len(),
{
    if keys.len() == 0 {
        Option::None
    } else if keys[0].0@ == key {
        keys[0].1.launch
    } else {
        spec_launch_config(keys.drop_first(), key)
    }
}

proof fn lemma_key_for_app(keys: Seq<(String, KeyBinding)>, app: Seq<char>, i: int)
    requires
        0 <= i <= keys.len(),
        forall|e: int| 0 <= e < i ==> !spec_binding_matches((#[trigger] keys[e]).1, app),
        i == keys.len() || spec_binding_matches(keys[i].1, app),
    ensures
        spec_key_for_app(keys, app) == if i == keys.len() {
            Option::<char>::None
        } else {
            spec_first_char(keys[i].0@)
        },
    decreases i,
{
    if i > 0 {
        lemma_key_for_app(keys.drop_first(), app, i - 1);
    }
}

proof fn lemma_launch_config(keys: Seq<(String, KeyBinding)>, key: Seq<char>, i: int)
    requires
        0 <= i <= keys.len(),
        forall|e: int| 0 <= e < i ==> (#[trigger] keys[e]).0@ != key,
        i == keys.len() || keys[i].0@ == key,
    ensures
        spec_launch_config(keys, key) == if i == keys.len() {
            Option::<LaunchConfig>::None
        } else {
            keys[i].1.launch
        },
    decreases i,
{
    if i > 0 {
        lemma_launch_config(keys.drop_first(), key, i - 1);
    }
}

/// Main configuration: settings plus per-key bindings, kept in a fixed
/// order.
#[derive(Debug)]
pub struct Config {
    /// Global settings.
    pub settings: Settings,
    /// Key bindings: letter to binding, in lookup order.
    pub keys: Vec<(String, KeyBinding)>,
}

impl Config {
    /// The key binding character for an app id.
    #[verifier::loop_isolation(false)]
    pub fn key_for_app(&self, app_id: &str) -> (r: Option<char>)
        ensures
            r == spec_key_for_app(self.keys@, app_id@),
    {
        let app_lower = lower_str(app_id);
        let seg_lower = lower_str(str_last_segment(app_id));
        let n = self.keys.len();
        let mut i: usize = 0;
        while i < n
            invariant
                i <= n,
                forall|e: int| 0 <= e < i ==> !spec_binding_matches((#[trigger] self.keys@[e]).1, app_id@),
            decreases n - i,
        {
            let entry = &self.keys[i];
            let m = entry.1.apps.len();
            let mut j: usize = 0;
            while j < m
                invariant
                    j <= m,
                    m == entry.1.apps@.len(),
                    forall|e: int|
                        0 <= e < j ==> !spec_pattern_matches(
                            (#[trigger] entry.1.apps@[e])@,
                            app_id@,
                        ),
                decreases m - j,
            {
                let pattern = &entry.1.apps[j];
                let pat_lower = lower_str(pattern.as_str());
                if str_eq(pattern.as_str(), app_id) || str_eq(pat_lower.as_str(), app_lower.as_str())
                    || str_eq(pat_lower.as_str(), seg_lower.as_str()) {
                    proof {
                        assert(spec_pattern_matches(entry.1.apps@[j as int]@, app_id@));
                        assert(spec_binding_matches(self.keys@[i as int].1, app_id@));
                        lemma_key_for_app(self.keys@, app_id@, i as int);
                    }
                    return str_first_char(entry.0.as_str());
                }
                j = j + 1;
            }
            proof {
                assert(!spec_binding_matches(self.keys@[i as int].1, app_id@));
            }
            i = i + 1;
        }
        proof {
            lemma_key_for_app(self.keys@, app_id@, n as int);
        }
        None
    }

    /// The launch configuration for a key, if the key is bound and has
    /// one.
    #[verifier::loop_isolation(false)]
    pub fn launch_config(&self, key: &str) -> (r: Option<&LaunchConfig>)
        ensures
            match spec_launch_config(self.keys@, key@) {
                Some(lc) => r matches Some(x) && *x == lc,
                Option::None => r is None,
            },
    {
        let n = self.keys.len();
        let mut i: usize = 0;
        while i < n
            invariant
                i <= n,
                forall|e: int| 0 <= e < i ==> (#[trigger] self.keys@[e]).0@ != key@,
            decreases n - i,
        {
            let entry = &self.keys[i];
            if str_eq(entry.0.as_str(), key) {
                proof {
                    lemma_launch_config(self.keys@, key@, i as int);
                }
                return match &entry.1.launch {
                    Some(lc) => Some(lc),
                    None => None,
                };
            }
            i = i + 1;
        }
        proof {
            lemma_launch_config(self.keys@, key@, n as int);
        }
        None
    }
}

impl Default for Config {
    /// Stock settings and the stock key bindings.
    fn default() -> (r: Self)
        ensures
            r.settings.activation_key@ == "alt+space"@,
            r.settings.activation_delay == 200,
            r.settings.overlay_delay == 720,
            r.settings.quick_switch_threshold == 250,
            r.settings.env_files@.len() == 0,
            spec_is_default_keys(r.keys@),
    {
        Config { settings: Settings::default(), keys: default_keys() }
    }
}

/// Whether the two strings hold the same characters.
pub fn str_eq(a: &str, b: &str) -> (r: bool)
    ensures
        r == (a@ == b@),
{
    let av = str_chars(a);
    let bv = str_chars(b);
    crate::hint::chars_equal(&av, &bv)
}

/// First character of a string, if any.
pub fn str_first_char(s: &str) -> (r: Option<char>)
    ensures
        r == spec_first_char(s@),
{
    if s.unicode_len() == 0 {
        None
    } else {
        Some(s.get_char(0))
    }
}

/// The stock key bindings, entry for entry.
pub open spec fn spec_is_default_keys(keys: Seq<(String, KeyBinding)>) -> bool {
    &&& keys.len() == 10
    &&& keys[0].0@ == "g"@
    &&& keys[0].1.apps@.len() == 2
    &&& keys[0].1.apps@[0]@ == "ghostty"@
    &&& keys[0].1.apps@[1]@ == "com.mitchellh.ghostty"@
    &&& (keys[0].1.launch matches Some(LaunchConfig::Simple(cmd)) && cmd@ == "ghostty"@)
    &&& keys[1].0@ == "f"@
    &&& keys[1].1.apps@.len() == 2
    &&& keys[1].1.apps@[0]@ == "firefox"@
    &&& keys[1].1.apps@[1]@ == "org.mozilla.firefox"@
    &&& (keys[1].1.launch matches Some(LaunchConfig::Simple(cmd)) && cmd@ == "firefox"@)
    &&& keys[2].0@ == "e"@
    &&& keys[2].1.apps@.len() == 1
    &&& keys[2].1.apps@[0]@ == "microsoft-edge"@
    &&& (keys[2].1.launch matches Some(LaunchConfig::Simple(cmd)) && cmd@ == "microsoft-edge"@)
    &&& keys[3].0@ == "c"@
    &&& keys[3].1.apps@.len() == 2
    &&& keys[3].1.apps@[0]@ == "chromium"@
    &&& keys[3].1.apps@[1]@ == "google-chrome"@
    &&& keys[3].1.launch is None
    &&& keys[4].0@ == "v"@
    &&& keys[4].1.apps@.len() == 4
    &&& keys[4].1.apps@[0]@ == "code"@
    &&& keys[4].1.apps@[1]@ == "Code"@
    &&& keys[4].1.apps@[2]@ == "cursor"@
    &&& keys[4].1.apps@[3]@ == "Cursor"@
    &&& (keys[4].1.launch matches Some(LaunchConfig::Simple(cmd)) && cmd@ == "code"@)
    &&& keys[5].0@ == "n"@
    &&& keys[5].1.apps@.len() == 2
    &&& keys[5].1.apps@[0]@ == "nautilus"@
    &&& keys[5].1.apps@[1]@ == "org.gnome.Nautilus"@
    &&& (keys[5].1.launch matches Some(LaunchConfig::Simple(cmd)) && cmd@ == "nautilus"@)
    &&& keys[6].0@ == "s"@
    &&& keys[6].1.apps@.len() == 2
    &&& keys[6].1.apps@[0]@ == "slack"@
    &&& keys[6].1.apps@[1]@ == "Slack"@
    &&& (keys[6].1.launch matches Some(LaunchConfig::Simple(cmd)) && cmd@ == "slack"@)
    &&& keys[7].0@ == "d"@
    &&& keys[7].1.apps@.len() == 2
    &&& keys[7].1.apps@[0]@ == "discord"@
    &&& keys[7].1.apps@[1]@ == "Discord"@
    &&& (keys[7].1.launch matches Some(LaunchConfig::Simple(cmd)) && cmd@ == "discord"@)
    &&& keys[8].0@ == "m"@
    &&& keys[8].1.apps@.len() == 1
    &&& keys[8].1.apps@[0]@ == "spotify"@
    &&& (keys[8].1.launch matches Some(LaunchConfig::Simple(cmd)) && cmd@ == "spotify"@)
    &&& keys[9].0@ == "t"@
    &&& keys[9].1.apps@.len() == 1
    &&& keys[9].1.apps@[0]@ == "thunderbird"@
    &&& (keys[9].1.launch matches Some(LaunchConfig::Simple(cmd)) && cmd@ == "thunderbird"@)
}

/// Build the stock key bindings.
pub fn default_keys() -> (r: Vec<(String, KeyBinding)>)
    ensures
        spec_is_default_keys(r@),
{
    let mut keys: Vec<(String, KeyBinding)> = Vec::new();
    let mut apps: Vec<String> = Vec::new();
    apps.push("ghostty".to_owned());
    apps.push("com.mitchellh.ghostty".to_owned());
    keys.push(("g".to_owned(), KeyBinding { apps, launch: Some(LaunchConfig::Simple("ghostty".to_owned())) }));
    let mut apps: Vec<String> = Vec::new();
    apps.push("firefox".to_owned());
    apps.push("org.mozilla.firefox".to_owned());
    keys.push(("f".to_owned(), KeyBinding { apps, launch: Some(LaunchConfig::Simple("firefox".to_owned())) }));
    let mut apps: Vec<String> = Vec::new();
    apps.push("microsoft-edge".to_owned());
    keys.push(("e".to_owned(), KeyBinding { apps, launch: Some(LaunchConfig::Simple("microsoft-edge".to_owned())) }));
    let mut apps: Vec<String> = Vec::new();
    apps.push("chromium".to_owned());
    apps.push("google-chrome".to_owned());
    keys.push(("c".to_owned(), KeyBinding { apps, launch: None }));
    let mut apps: Vec<String> = Vec::new();
    apps.push("code".to_owned());
    apps.push("Code".to_owned());
    apps.push("cursor".to_owned());
    apps.push("Cursor".to_owned());
    keys.push(("v".to_owned(), KeyBinding { apps, launch: Some(LaunchConfig::Simple("code".to_owned())) }));
    let mut apps: Vec<String> = Vec::new();
    apps.push("nautilus".to_owned());
    apps.push("org.gnome.Nautilus".to_owned());
    keys.push(("n".to_owned(), KeyBinding { apps, launch: Some(LaunchConfig::Simple("nautilus".to_owned())) }));
    let mut apps: Vec<String> = Vec::new();
    apps.push("slack".to_owned());
    apps.push("Slack".to_owned());
    keys.push(("s".to_owned(), KeyBinding { apps, launch: Some(LaunchConfig::Simple("slack".to_owned())) }));
    let mut apps: Vec<String> = Vec::new();
    apps.push("discord".to_owned());
    apps.push("Discord".to_owned());
    keys.push(("d".to_owned(), KeyBinding { apps, launch: Some(LaunchConfig::Simple("discord".to_owned())) }));
    let mut apps: Vec<String> = Vec::new();
    apps.push("spotify".to_owned());
    keys.push(("m".to_owned(), KeyBinding { apps, launch: Some(LaunchConfig::Simple("spotify".to_owned())) }));
    let mut apps: Vec<String> = Vec::new();
    apps.push("thunderbird".to_owned());
    keys.push(("t".to_owned(), KeyBinding { apps, launch: Some(LaunchConfig::Simple("thunderbird".to_owned())) }));
    keys
}


} // verus!
