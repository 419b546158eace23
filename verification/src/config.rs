//! Configuration model: per-app rules, bucket groups, general settings, and the
//! rule resolution that decides what happens to an idle process.
use vstd::prelude::*;
use crate::find::{first_index, is_first, lemma_first_index_at, lemma_first_index_none};
use crate::icons::{bucket_icon, process_icon, spec_bucket_icon, spec_process_icon};
use crate::text::{ascii_lowercase, eq_ignore_ascii_case_spec, is_ascii_text, lemma_ascii_lowercase_case_blind, lowercase, str_eq, to_lower};

verus! {

/// What to do with a window whose process has been idle too long.
#[derive(Clone, Copy, Debug, PartialEq, Eq, Structural)]
pub enum Action {
    Minimize,
    Close,
}

impl Action {
    /// The name of the action as stored in the configuration file.
    pub open spec fn spec_as_str(self) -> Seq<char> {
        match self {
            Action::Minimize => "minimize"@,
            Action::Close => "close"@,
        }
    }

    /// The action named by a configuration string; anything but `"close"` reads as
    /// minimize.
    pub open spec fn spec_from_str(s: Seq<char>) -> Action {
        if s == "close"@ {
            Action::Close
        } else {
            Action::Minimize
        }
    }

    pub fn as_str(&self) -> (s: &'static str)
        ensures
            s@ == self.spec_as_str(),
    {
        match self {
            Action::Minimize => "minimize",
            Action::Close => "close",
        }
    }

    /// Parses an action name; unknown names fall back to minimize.
    pub fn from_str(s: &str) -> (a: Action)
        ensures
            a == Action::spec_from_str(s@),
    {
        if str_eq(s, "close") {
            Action::Close
        } else {
            Action::Minimize
        }
    }
}

impl Default for Action {
    fn default() -> (a: Action)
        ensures
            a == Action::Minimize,
    {
        Action::Minimize
    }
}

/// Parsing the name of an action gives the action back.
pub proof fn lemma_action_str_roundtrip(a: Action)
    ensures
        Action::spec_from_str(a.spec_as_str()) == a,
{
    assert("minimize"@ != "close"@) by {
        reveal_strlit("minimize");
        reveal_strlit("close");
        assert("minimize"@[0] != "close"@[0]);
    }
}

/// General settings.
#[derive(Clone, Debug)]
pub struct General {
    pub polling_interval_secs: u64,
    pub auto_start: bool,
    pub hidden_processes: Vec<String>,
    /// Window geometry persisted across sessions. None = use preferred.
    pub window_width: Option<u32>,
    pub window_height: Option<u32>,
    pub window_x: Option<i32>,
    pub window_y: Option<i32>,
}

/// The views of a list of strings.
pub open spec fn names(v: Seq<String>) -> Seq<Seq<char>> {
    v.map_values(|s: String| s@)
}

/// The processes hidden from the activity view by default.
pub open spec fn default_hidden_processes() -> Seq<Seq<char>> {
    seq!["SearchHost.exe"@, "StartMenuExperienceHost.exe"@, "ShellExperienceHost.exe"@, "TextInputHost.exe"@]
}

impl General {
    /// The general settings of a fresh installation.
    pub open spec fn is_default(self) -> bool {
        &&& self.polling_interval_secs == 30
        &&& !self.auto_start
        &&& names(self.hidden_processes@) == default_hidden_processes()
        &&& self.window_width is None
        &&& self.window_height is None
        &&& self.window_x is None
        &&& self.window_y is None
    }
}

impl Default for General {
    fn default() -> (g: General)
        ensures
            g.is_default(),
    {
        let hidden = vec![
            String::from_str("SearchHost.exe"),
            String::from_str("StartMenuExperienceHost.exe"),
            String::from_str("ShellExperienceHost.exe"),
            String::from_str("TextInputHost.exe"),
        ];
        let g = General {
            polling_interval_secs: 30,
            auto_start: false,
            hidden_processes: hidden,
            window_width: None,
            window_height: None,
            window_x: None,
            window_y: None,
        };
        assert(names(g.hidden_processes@) =~= default_hidden_processes());
        g
    }
}

/// Polling interval used when the configuration does not give one.
pub fn default_poll() -> (r: u64)
    ensures
        r == 30,
{
    30
}

/// A named group of processes sharing one timeout and action.
#[derive(Clone, Debug)]
pub struct Bucket {
    pub name: String,
    pub processes: Vec<String>,
    pub timeout_mins: u64,
    pub action: Action,
    pub enabled: bool,
    pub expanded: bool,
    pub icon: Option<String>,
}

/// Timeout (minutes) used when a rule does not give one.
pub fn default_timeout() -> (r: u64)
    ensures
        r == 15,
{
    15
}

/// Default for flags that are on unless the configuration says otherwise.
pub fn default_true() -> (r: bool)
    ensures
        r,
{
    true
}

/// A per-process rule.
#[derive(Clone, Debug)]
pub struct AppRule {
    pub process: String,
    pub timeout_mins: u64,
    pub action: Action,
    pub enabled: bool,
    pub icon: Option<String>,
    /// True when the user explicitly clicked "Edit" to customize this app.
    /// Icon-only overrides leave this false.
    pub customized: bool,
}

/// Is this app "customized" in the UI sense (inline slider/combo visible)?
/// True if either the user explicitly asked to customize it, or the rule's
/// timeout/action diverges from the group's current values.
pub fn app_is_customized(bucket: &Bucket, rule: &AppRule) -> (r: bool)
    ensures
        r == (rule.customized || rule.timeout_mins != bucket.timeout_mins || rule.action
            != bucket.action),
{
    rule.customized || rule.timeout_mins != bucket.timeout_mins || rule.action != bucket.action
}

/// The whole configuration.
#[derive(Clone, Debug)]
pub struct Config {
    pub general: General,
    pub bucket: Vec<Bucket>,
    pub app_rule: Vec<AppRule>,
}

/// Whether an effective rule came from an app rule or from a bucket.
#[derive(Clone, Copy, Debug, PartialEq, Eq, Structural)]
pub enum RuleSource {
    AppRule,
    Bucket,
}

impl RuleSource {
    pub open spec fn spec_as_str(self) -> Seq<char> {
        match self {
            RuleSource::AppRule => "app_rule"@,
            RuleSource::Bucket => "bucket"@,
        }
    }

    pub fn as_str(&self) -> (s: &'static str)
        ensures
            s@ == self.spec_as_str(),
    {
        match self {
            RuleSource::AppRule => "app_rule",
            RuleSource::Bucket => "bucket",
        }
    }
}

/// Result of resolving what action to take for a given process.
#[derive(Clone, Copy, Debug, PartialEq, Eq, Structural)]
pub struct ResolvedRule {
    pub timeout_mins: u64,
    pub action: Action,
    pub source: RuleSource,
}

/// An app rule (enabled or not) for the process whose lowercased name is `key`.
pub open spec fn rule_names(key: Seq<char>) -> spec_fn(AppRule) -> bool {
    |r: AppRule| lowercase(r.process@) == key
}

/// Some entry of `procs` names the process whose lowercased name is `key`.
pub open spec fn lists_process(procs: Seq<String>, key: Seq<char>) -> bool {
    exists|k: int| 0 <= k < procs.len() && lowercase(#[trigger] procs[k]@) == key
}

/// An enabled bucket that lists the process whose lowercased name is `key`.
pub open spec fn bucket_governs(key: Seq<char>) -> spec_fn(Bucket) -> bool {
    |b: Bucket| b.enabled && lists_process(b.processes@, key)
}

/// Whether the list `procs` names the process `key`, comparing lowercased names.
pub fn list_has_process(procs: &Vec<String>, key: &String) -> (r: bool)
    ensures
        r == lists_process(procs@, key@),
{
    let mut k: usize = 0;
    while k < procs.len()
        invariant
            k <= procs.len(),
            forall|j: int| 0 <= j < k ==> lowercase(#[trigger] procs@[j]@) != key@,
        decreases procs.len() - k,
    {
        if to_lower(procs[k].as_str()) == *key {
            return true;
        }
        k = k + 1;
    }
    false
}

impl Config {
    /// The effective rule for the process whose lowercased name is `key`: its first
    /// app rule decides (a disabled one switches the process off, even when an
    /// enabled bucket lists it); without an app rule, the first enabled bucket that
    /// lists it.
    pub open spec fn spec_resolve(self, key: Seq<char>) -> Option<ResolvedRule> {
        match first_index(self.app_rule@, rule_names(key)) {
            Some(i) => if self.app_rule@[i].enabled {
                Some(
                    ResolvedRule {
                        timeout_mins: self.app_rule@[i].timeout_mins,
                        action: self.app_rule@[i].action,
                        source: RuleSource::AppRule,
                    },
                )
            } else {
                None
            },
            None => match first_index(self.bucket@, bucket_governs(key)) {
                Some(j) => Some(
                    ResolvedRule {
                        timeout_mins: self.bucket@[j].timeout_mins,
                        action: self.bucket@[j].action,
                        source: RuleSource::Bucket,
                    },
                ),
                None => None,
            },
        }
    }

    /// Look up the effective rule for a process name.
    /// App rules take priority over bucket membership: a disabled app rule excludes
    /// its process even when an enabled bucket lists it.
    /// Returns None if the process is not managed.
    pub fn resolve_process(&self, process: &str) -> (r: Option<ResolvedRule>)
        ensures
            r == self.spec_resolve(lowercase(process@)),
            is_ascii_text(process@) ==> r == self.spec_resolve(ascii_lowercase(process@)),
    {
        let key = to_lower(process);
        let ghost k = key@;
        proof {
            if is_ascii_text(process@) {
                assert(lowercase(process@) == ascii_lowercase(process@));
            }
        }
        let mut i: usize = 0;
        while i < self.app_rule.len()
            invariant
                k == key@,
                k == lowercase(process@),
                is_ascii_text(process@) ==> k == ascii_lowercase(process@),
                i <= self.app_rule.len(),
                forall|j: int| 0 <= j < i ==> !(rule_names(k))(#[trigger] self.app_rule@[j]),
            decreases self.app_rule.len() - i,
        {
            let rule = &self.app_rule[i];
            if to_lower(rule.process.as_str()) == key {
                proof {
                    lemma_first_index_at(self.app_rule@, rule_names(k), i as int);
                }
                if !rule.enabled {
                    return None;
                }
                return Some(
                    ResolvedRule {
                        timeout_mins: rule.timeout_mins,
                        action: rule.action,
                        source: RuleSource::AppRule,
                    },
                );
            }
            i = i + 1;
        }
        proof {
            lemma_first_index_none(self.app_rule@, rule_names(k));
        }
        let mut b: usize = 0;
        while b < self.bucket.len()
            invariant
                k == key@,
                k == lowercase(process@),
                is_ascii_text(process@) ==> k == ascii_lowercase(process@),
                b <= self.bucket.len(),
                first_index(self.app_rule@, rule_names(k)) == None::<int>,
                forall|j: int| 0 <= j < b ==> !(bucket_governs(k))(#[trigger] self.bucket@[j]),
            decreases self.bucket.len() - b,
        {
            let bucket = &self.bucket[b];
            if bucket.enabled && list_has_process(&bucket.processes, &key) {
                proof {
                    lemma_first_index_at(self.bucket@, bucket_governs(k), b as int);
                }
                return Some(
                    ResolvedRule {
                        timeout_mins: bucket.timeout_mins,
                        action: bucket.action,
                        source: RuleSource::Bucket,
                    },
                );
            }
            b = b + 1;
        }
        proof {
            lemma_first_index_none(self.bucket@, bucket_governs(k));
        }
        None
    }

    /// The icon shown for a process: the icon override of the first app rule for it
    /// (enabled or not), else the catalog icon for its name.
    pub open spec fn spec_icon_for_app(self, key: Seq<char>) -> Seq<char> {
        match first_index(self.app_rule@, rule_names(key)) {
            Some(i) => match self.app_rule@[i].icon {
                Some(s) => s@,
                None => spec_process_icon(key),
            },
            None => spec_process_icon(key),
        }
    }

    /// Resolve the icon glyph to display for a process, preferring an override on its
    /// AppRule.
    pub fn icon_for_app(&self, process: &str) -> (r: String)
        ensures
            r@ == self.spec_icon_for_app(lowercase(process@)),
            is_ascii_text(process@) ==> r@ == self.spec_icon_for_app(ascii_lowercase(process@)),
    {
        let key = to_lower(process);
        let ghost k = key@;
        proof {
            if is_ascii_text(process@) {
                assert(lowercase(process@) == ascii_lowercase(process@));
            }
        }
        let mut i: usize = 0;
        while i < self.app_rule.len()
            invariant
                k == key@,
                k == lowercase(process@),
                is_ascii_text(process@) ==> k == ascii_lowercase(process@),
                i <= self.app_rule.len(),
                forall|j: int| 0 <= j < i ==> !(rule_names(k))(#[trigger] self.app_rule@[j]),
            decreases self.app_rule.len() - i,
        {
            let rule = &self.app_rule[i];
            if to_lower(rule.process.as_str()) == key {
                proof {
                    lemma_first_index_at(self.app_rule@, rule_names(k), i as int);
                }
                match &rule.icon {
                    Some(s) => {
                        return s.clone();
                    },
                    None => {
                        return process_icon(process).to_owned();
                    },
                }
            }
            i = i + 1;
        }
        proof {
            lemma_first_index_none(self.app_rule@, rule_names(k));
        }
        process_icon(process).to_owned()
    }

    /// The icon shown for the bucket at `idx`: its override, else the catalog icon for
    /// its name; empty when there is no such bucket.
    pub open spec fn spec_icon_for_bucket(self, idx: int) -> Seq<char> {
        if 0 <= idx < self.bucket@.len() {
            match self.bucket@[idx].icon {
                Some(s) => s@,
                None => spec_bucket_icon(lowercase(self.bucket@[idx].name@)),
            }
        } else {
            Seq::empty()
        }
    }

    /// Resolve the icon glyph to display for a bucket by index.
    pub fn icon_for_bucket(&self, idx: usize) -> (r: String)
        ensures
            r@ == self.spec_icon_for_bucket(idx as int),
    {
        if idx < self.bucket.len() {
            let b = &self.bucket[idx];
            match &b.icon {
                Some(s) => s.clone(),
                None => bucket_icon(b.name.as_str()).to_owned(),
            }
        } else {
            String::new()
        }
    }

    /// Check if a process is in the hidden list (case-insensitive).
    pub fn is_hidden(&self, process: &str) -> (r: bool)
        ensures
            r == lists_process(self.general.hidden_processes@, lowercase(process@)),
            is_ascii_text(process@) ==> r == lists_process(
                self.general.hidden_processes@,
                ascii_lowercase(process@),
            ),
    {
        let key = to_lower(process);
        list_has_process(&self.general.hidden_processes, &key)
    }

    /// Build default config with predefined buckets.
    pub fn default_config() -> (c: Config)
        ensures
            c.is_default(),
    {
        Config { general: General::default(), bucket: default_buckets(), app_rule: Vec::new() }
    }

    /// The configuration of a fresh installation: default general settings, the
    /// predefined buckets, no app rules.
    pub open spec fn is_default(self) -> bool {
        &&& self.general.is_default()
        &&& are_default_buckets(self.bucket@)
        &&& self.app_rule@.len() == 0
    }

    /// Clamp out-of-range values that may have been hand-edited or saved by an
    /// older build: polling interval into [1, 3600] seconds, every timeout into
    /// [1, 10080] minutes. Nothing else changes.
    pub fn clamp_ranges(&mut self)
        ensures
            final(self).is_clamped_from(*old(self)),
    {
        self.general.polling_interval_secs = clamp_u64(self.general.polling_interval_secs, 1, 3600);
        let ghost general1 = self.general;
        let ghost buckets0 = self.bucket@;
        let ghost rules0 = self.app_rule@;
        let mut i: usize = 0;
        while i < self.app_rule.len()
            invariant
                i <= self.app_rule.len(),
                self.general == general1,
                self.bucket@ == buckets0,
                self.app_rule@.len() == rules0.len(),
                forall|j: int|
                    0 <= j < i ==> #[trigger] self.app_rule@[j] == rules0[j].with_timeout(
                        spec_clamp(rules0[j].timeout_mins, 1, MAX_TIMEOUT_MINS),
                    ),
                forall|j: int| i <= j < rules0.len() ==> #[trigger] self.app_rule@[j] == rules0[j],
            decreases self.app_rule.len() - i,
        {
            let t = clamp_u64(self.app_rule[i].timeout_mins, 1, MAX_TIMEOUT_MINS);
            self.app_rule[i].timeout_mins = t;
            i = i + 1;
        }
        let ghost rules1 = self.app_rule@;
        let mut b: usize = 0;
        while b < self.bucket.len()
            invariant
                b <= self.bucket.len(),
                self.general == general1,
                self.app_rule@ == rules1,
                self.bucket@.len() == buckets0.len(),
                forall|j: int|
                    0 <= j < b ==> #[trigger] self.bucket@[j] == buckets0[j].with_timeout(
                        spec_clamp(buckets0[j].timeout_mins, 1, MAX_TIMEOUT_MINS),
                    ),
                forall|j: int| b <= j < buckets0.len() ==> #[trigger] self.bucket@[j] == buckets0[j],
            decreases self.bucket.len() - b,
        {
            let t = clamp_u64(self.bucket[b].timeout_mins, 1, MAX_TIMEOUT_MINS);
            self.bucket[b].timeout_mins = t;
            b = b + 1;
        }
    }

    /// `self` is `old` with the polling interval and every timeout clamped.
    pub open spec fn is_clamped_from(self, old: Config) -> bool {
        &&& self.general == General {
            polling_interval_secs: spec_clamp(old.general.polling_interval_secs, 1, 3600),
            ..old.general
        }
        &&& self.app_rule@.len() == old.app_rule@.len()
        &&& forall|j: int|
            0 <= j < old.app_rule@.len() ==> #[trigger] self.app_rule@[j]
                == old.app_rule@[j].with_timeout(
                spec_clamp(old.app_rule@[j].timeout_mins, 1, MAX_TIMEOUT_MINS),
            )
        &&& self.bucket@.len() == old.bucket@.len()
        &&& forall|j: int|
            0 <= j < old.bucket@.len() ==> #[trigger] self.bucket@[j] == old.bucket@[j].with_timeout(
                spec_clamp(old.bucket@[j].timeout_mins, 1, MAX_TIMEOUT_MINS),
            )
    }

    /// Every polling interval and timeout lies within its allowed range.
    pub open spec fn in_range(self) -> bool {
        &&& 1 <= self.general.polling_interval_secs <= 3600
        &&& forall|j: int|
            0 <= j < self.app_rule@.len() ==> 1 <= #[trigger] self.app_rule@[j].timeout_mins
                <= MAX_TIMEOUT_MINS
        &&& forall|j: int|
            0 <= j < self.bucket@.len() ==> 1 <= #[trigger] self.bucket@[j].timeout_mins
                <= MAX_TIMEOUT_MINS
    }
}

impl AppRule {
    pub open spec fn with_timeout(self, t: u64) -> AppRule {
        AppRule { timeout_mins: t, ..self }
    }
}

impl Bucket {
    pub open spec fn with_timeout(self, t: u64) -> Bucket {
        Bucket { timeout_mins: t, ..self }
    }
}

/// The longest idle timeout a rule may have: one week, in minutes.
pub const MAX_TIMEOUT_MINS: u64 = 10080;

/// `x` limited to the range `[lo, hi]`.
pub open spec fn spec_clamp(x: u64, lo: u64, hi: u64) -> u64 {
    if x < lo {
        lo
    } else if x > hi {
        hi
    } else {
        x
    }
}

fn clamp_u64(x: u64, lo: u64, hi: u64) -> (r: u64)
    requires
        lo <= hi,
    ensures
        r == spec_clamp(x, lo, hi),
{
    if x < lo {
        lo
    } else if x > hi {
        hi
    } else {
        x
    }
}

/// After clamping, every value lies in its allowed range, and clamping again
/// changes nothing.
pub proof fn lemma_clamp_ranges_in_range_and_idempotent(c: Config, d: Config, e: Config)
    requires
        d.is_clamped_from(c),
        e.is_clamped_from(d),
    ensures
        d.in_range(),
        e.general == d.general,
        e.app_rule@ == d.app_rule@,
        e.bucket@ == d.bucket@,
{
    assert forall|j: int| 0 <= j < d.app_rule@.len() implies 1 <= #[trigger] d.app_rule@[j].timeout_mins
        <= MAX_TIMEOUT_MINS by {
        assert(d.app_rule@[j] == c.app_rule@[j].with_timeout(
            spec_clamp(c.app_rule@[j].timeout_mins, 1, MAX_TIMEOUT_MINS),
        ));
    }
    assert forall|j: int| 0 <= j < d.bucket@.len() implies 1 <= #[trigger] d.bucket@[j].timeout_mins
        <= MAX_TIMEOUT_MINS by {
        assert(d.bucket@[j] == c.bucket@[j].with_timeout(
            spec_clamp(c.bucket@[j].timeout_mins, 1, MAX_TIMEOUT_MINS),
        ));
    }
    assert(e.app_rule@ =~= d.app_rule@) by {
        assert forall|j: int| 0 <= j < d.app_rule@.len() implies #[trigger] e.app_rule@[j]
            == d.app_rule@[j] by {
            assert(d.app_rule@[j] == c.app_rule@[j].with_timeout(
                spec_clamp(c.app_rule@[j].timeout_mins, 1, MAX_TIMEOUT_MINS),
            ));
        }
    }
    assert(e.bucket@ =~= d.bucket@) by {
        assert forall|j: int| 0 <= j < d.bucket@.len() implies #[trigger] e.bucket@[j]
            == d.bucket@[j] by {
            assert(d.bucket@[j] == c.bucket@[j].with_timeout(
                spec_clamp(c.bucket@[j].timeout_mins, 1, MAX_TIMEOUT_MINS),
            ));
        }
    }
}

/// `b` is a predefined bucket with the given name, processes and timeout: minimize,
/// disabled (opt-in), expanded, no icon override.
pub open spec fn is_predefined_bucket(
    b: Bucket,
    name: Seq<char>,
    procs: Seq<Seq<char>>,
    timeout: u64,
) -> bool {
    &&& b.name@ == name
    &&& names(b.processes@) == procs
    &&& b.timeout_mins == timeout
    &&& b.action == Action::Minimize
    &&& !b.enabled
    &&& b.expanded
    &&& b.icon is None
}

/// The predefined buckets: Browsing, Communication, Media, Development, Gaming,
/// Utilities.
pub open spec fn are_default_buckets(bs: Seq<Bucket>) -> bool {
    &&& bs.len() == 6
    &&& is_predefined_bucket(
        bs[0],
        "Browsing"@,
        seq![
            "chrome.exe"@,
            "firefox.exe"@,
            "msedge.exe"@,
            "brave.exe"@,
            "opera.exe"@,
            "vivaldi.exe"@,
            "Arc.exe"@,
        ],
        15,
    )
    &&& is_predefined_bucket(
        bs[1],
        "Communication"@,
        seq![
            "slack.exe"@,
            "Discord.exe"@,
            "teams.exe"@,
            "Telegram.exe"@,
            "Signal.exe"@,
            "WhatsApp.exe"@,
        ],
        30,
    )
    &&& is_predefined_bucket(
        bs[2],
        "Media"@,
        seq!["Spotify.exe"@, "vlc.exe"@, "iTunes.exe"@, "foobar2000.exe"@],
        20,
    )
    &&& is_predefined_bucket(
        bs[3],
        "Development"@,
        seq!["Code.exe"@, "idea64.exe"@, "studio64.exe"@, "devenv.exe"@],
        60,
    )
    &&& is_predefined_bucket(
        bs[4],
        "Gaming"@,
        seq!["steam.exe"@, "EpicGamesLauncher.exe"@, "GalaxyClient.exe"@],
        30,
    )
    &&& is_predefined_bucket(
        bs[5],
        "Utilities"@,
        seq!["notepad.exe"@, "notepad++.exe"@, "mstsc.exe"@, "rustdesk.exe"@],
        30,
    )
}

fn predefined_bucket(name: &str, procs: Vec<String>, timeout: u64) -> (b: Bucket)
    ensures
        b.name@ == name@,
        b.processes@ == procs@,
        b.timeout_mins == timeout,
        b.action == Action::Minimize,
        !b.enabled,
        b.expanded,
        b.icon is None,
{
    Bucket {
        name: String::from_str(name),
        processes: procs,
        timeout_mins: timeout,
        action: Action::Minimize,
        enabled: false,
        expanded: true,
        icon: None,
    }
}

/// Predefined bucket definitions.
fn default_buckets() -> (v: Vec<Bucket>)
    ensures
        are_default_buckets(v@),
{
    let browsing = predefined_bucket(
        "Browsing",
        vec![
            String::from_str("chrome.exe"),
            String::from_str("firefox.exe"),
            String::from_str("msedge.exe"),
            String::from_str("brave.exe"),
            String::from_str("opera.exe"),
            String::from_str("vivaldi.exe"),
            String::from_str("Arc.exe"),
        ],
        15,
    );
    assert(names(browsing.processes@) =~= seq![
        "chrome.exe"@,
        "firefox.exe"@,
        "msedge.exe"@,
        "brave.exe"@,
        "opera.exe"@,
        "vivaldi.exe"@,
        "Arc.exe"@,
    ]);
    let communication = predefined_bucket(
        "Communication",
        vec![
            String::from_str("slack.exe"),
            String::from_str("Discord.exe"),
            String::from_str("teams.exe"),
            String::from_str("Telegram.exe"),
            String::from_str("Signal.exe"),
            String::from_str("WhatsApp.exe"),
        ],
        30,
    );
    assert(names(communication.processes@) =~= seq![
        "slack.exe"@,
        "Discord.exe"@,
        "teams.exe"@,
        "Telegram.exe"@,
        "Signal.exe"@,
        "WhatsApp.exe"@,
    ]);
    let media = predefined_bucket(
        "Media",
        vec![
            String::from_str("Spotify.exe"),
            String::from_str("vlc.exe"),
            String::from_str("iTunes.exe"),
            String::from_str("foobar2000.exe"),
        ],
        20,
    );
    assert(names(media.processes@) =~= seq![
        "Spotify.exe"@,
        "vlc.exe"@,
        "iTunes.exe"@,
        "foobar2000.exe"@,
    ]);
    let development = predefined_bucket(
        "Development",
        vec![
            String::from_str("Code.exe"),
            String::from_str("idea64.exe"),
            String::from_str("studio64.exe"),
            String::from_str("devenv.exe"),
        ],
        60,
    );
    assert(names(development.processes@) =~= seq![
        "Code.exe"@,
        "idea64.exe"@,
        "studio64.exe"@,
        "devenv.exe"@,
    ]);
    let gaming = predefined_bucket(
        "Gaming",
        vec![
            String::from_str("steam.exe"),
            String::from_str("EpicGamesLauncher.exe"),
            String::from_str("GalaxyClient.exe"),
        ],
        30,
    );
    assert(names(gaming.processes@) =~= seq![
        "steam.exe"@,
        "EpicGamesLauncher.exe"@,
        "GalaxyClient.exe"@,
    ]);
    let utilities = predefined_bucket(
        "Utilities",
        vec![
            String::from_str("notepad.exe"),
            String::from_str("notepad++.exe"),
            String::from_str("mstsc.exe"),
            String::from_str("rustdesk.exe"),
        ],
        30,
    );
    assert(names(utilities.processes@) =~= seq![
        "notepad.exe"@,
        "notepad++.exe"@,
        "mstsc.exe"@,
        "rustdesk.exe"@,
    ]);
    vec![browsing, communication, media, development, gaming, utilities]
}


/// App rules take priority over bucket membership: the first app rule for a process
/// decides its rule, and a disabled one switches the process off even when an
/// enabled bucket lists it; only when the process has no app rule does the first
/// enabled bucket that lists it decide; disabled buckets never apply, and a process
/// that neither names is not managed.
pub proof fn lemma_resolve_priority(c: Config, key: Seq<char>)
    ensures
        forall|i: int|
            #[trigger] is_first(c.app_rule@, rule_names(key), i) ==> c.spec_resolve(key) == if c.app_rule@[i].enabled {
                Some(
                    ResolvedRule {
                        timeout_mins: c.app_rule@[i].timeout_mins,
                        action: c.app_rule@[i].action,
                        source: RuleSource::AppRule,
                    },
                )
            } else {
                None
            },
        forall|j: int|
            (forall|i: int| 0 <= i < c.app_rule@.len() ==> lowercase((#[trigger] c.app_rule@[i]).process@) != key)
                && #[trigger] is_first(c.bucket@, bucket_governs(key), j) ==> c.spec_resolve(key) == Some(
                ResolvedRule {
                    timeout_mins: c.bucket@[j].timeout_mins,
                    action: c.bucket@[j].action,
                    source: RuleSource::Bucket,
                },
            ),
        (forall|i: int| 0 <= i < c.app_rule@.len() ==> lowercase((#[trigger] c.app_rule@[i]).process@) != key)
            && (forall|j: int| 0 <= j < c.bucket@.len() ==> !(#[trigger] c.bucket@[j]).enabled
            || !lists_process(c.bucket@[j].processes@, key)) ==> c.spec_resolve(key) is None,
{
    assert forall|i: int| #[trigger] is_first(c.app_rule@, rule_names(key), i) implies c.spec_resolve(key)
        == if c.app_rule@[i].enabled {
        Some(
            ResolvedRule {
                timeout_mins: c.app_rule@[i].timeout_mins,
                action: c.app_rule@[i].action,
                source: RuleSource::AppRule,
            },
        )
    } else {
        None
    } by {
        lemma_first_index_at(c.app_rule@, rule_names(key), i);
    }
    if forall|i: int| 0 <= i < c.app_rule@.len() ==> lowercase((#[trigger] c.app_rule@[i]).process@) != key {
        assert forall|i: int| 0 <= i < c.app_rule@.len() implies !(rule_names(key))(
            #[trigger] c.app_rule@[i],
        ) by {}
        lemma_first_index_none(c.app_rule@, rule_names(key));
        assert forall|j: int| #[trigger] is_first(c.bucket@, bucket_governs(key), j) implies c.spec_resolve(key)
            == Some(
            ResolvedRule {
                timeout_mins: c.bucket@[j].timeout_mins,
                action: c.bucket@[j].action,
                source: RuleSource::Bucket,
            },
        ) by {
            lemma_first_index_at(c.bucket@, bucket_governs(key), j);
        }
        if forall|j: int| 0 <= j < c.bucket@.len() ==> !(#[trigger] c.bucket@[j]).enabled
            || !lists_process(c.bucket@[j].processes@, key) {
            assert forall|j: int| 0 <= j < c.bucket@.len() implies !(bucket_governs(key))(
                #[trigger] c.bucket@[j],
            ) by {}
            lemma_first_index_none(c.bucket@, bucket_governs(key));
        }
    }
}

/// The defaults lie within the allowed ranges, so clamping leaves them as they are.
pub proof fn lemma_default_in_range(c: Config)
    requires
        c.is_default(),
    ensures
        c.in_range(),
{
}

/// Rule lookup, icon lookup and the hidden-process test ignore the case of ASCII
/// letters: two ASCII process names equal up to ASCII case get the same rule, the
/// same icon, and the same answer to whether they are hidden.
pub proof fn lemma_lookups_ignore_ascii_case(config: Config, a: Seq<char>, b: Seq<char>)
    requires
        is_ascii_text(a),
        eq_ignore_ascii_case_spec(a, b),
    ensures
        config.spec_resolve(ascii_lowercase(a)) == config.spec_resolve(ascii_lowercase(b)),
        config.spec_icon_for_app(ascii_lowercase(a)) == config.spec_icon_for_app(ascii_lowercase(b)),
        lists_process(config.general.hidden_processes@, ascii_lowercase(a)) == lists_process(
            config.general.hidden_processes@,
            ascii_lowercase(b),
        ),
{
    lemma_ascii_lowercase_case_blind(a, b);
}

} // verus!
