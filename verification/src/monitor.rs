//! Core idle-detection polling logic.
//!
//! Tracks which processes were last in the foreground and decides which windows to
//! minimize or close when their process has been idle longer than its rule allows.
//! Times are milliseconds on a monotonic scale chosen by the caller; wall-clock
//! times are seconds since the UNIX epoch.
use vstd::prelude::*;
use std::collections::VecDeque;
use crate::config::{bucket_governs, lists_process, rule_names, Action, Config, ResolvedRule, RuleSource};
use crate::filter::{is_system_window, spec_is_system_window, WindowInfo};
use crate::find::{
    first_index,
    is_first,
    lemma_first_index_at,
    lemma_first_index_is_first,
    lemma_first_index_none,
    lemma_first_index_push,
    lemma_first_index_same_hits,
};
use crate::text::{lowercase, str_eq, to_lower};

verus! {

/// Abstraction over the window system, implemented by the Win32 layer and by test
/// doubles. Nothing is promised about what its methods return.
pub trait WindowApi {
    /// The process name of the current foreground window.
    fn get_foreground_process(&self) -> Option<String>;

    /// The handle of the current foreground window, or 0 if none. Implementations
    /// that cannot tell keep the provided answer, 0.
    fn get_foreground_hwnd(&self) -> (r: isize)
        default_ensures
            r == 0,
    {
        0
    }

    /// All visible, non-minimized, top-level windows.
    fn enumerate_visible_windows(&self) -> Vec<WindowEntry>;

    /// Minimize a window instantly.
    fn minimize_window(&self, hwnd: isize);

    /// Ask a window to close.
    fn close_window(&self, hwnd: isize);

    /// Whether a window covers its monitor.
    fn is_fullscreen(&self, hwnd: isize) -> bool;

    /// Whether a window still exists.
    fn is_window_valid(&self, hwnd: isize) -> bool;

    /// The creation time of a process in milliseconds since the UNIX epoch, or None if
    /// it is unavailable.
    fn process_start_time(&self, pid: u32) -> Option<u64>;
}

/// A window together with its handle and owning process id.
#[derive(Clone, Debug)]
pub struct WindowEntry {
    pub hwnd: isize,
    pub pid: u32,
    pub info: WindowInfo,
}

/// Snapshot of a tracked window for the activity view.
#[derive(Clone, Debug)]
pub struct ActiveWindowSnapshot {
    pub process: String,
    pub title: String,
    pub idle_secs: u64,
    /// Seconds since the process was started (or first observed).
    pub open_secs: u64,
}

/// One entry in the activity log: an action that was taken.
#[derive(Clone, Debug)]
pub struct ActionLogEntry {
    pub process: String,
    pub title: String,
    pub action: Action,
    /// Seconds since the UNIX epoch.
    pub timestamp: u64,
    pub rule_source: RuleSource,
    /// Timeout (minutes) that was in effect when the action fired.
    pub timeout_mins: u64,
}

/// Most entries the activity log keeps.
pub const ACTION_LOG_CAPACITY: usize = 100;

/// `log` after recording `e`: `e` first, then the older entries, keeping at most
/// `ACTION_LOG_CAPACITY` of them.
pub open spec fn spec_recorded(log: Seq<ActionLogEntry>, e: ActionLogEntry) -> Seq<ActionLogEntry> {
    let l = seq![e] + log;
    if l.len() > ACTION_LOG_CAPACITY {
        l.take(ACTION_LOG_CAPACITY as int)
    } else {
        l
    }
}

/// Record an action at the front of the log, dropping the oldest entries beyond the
/// capacity.
pub fn record_action(log: &mut VecDeque<ActionLogEntry>, e: ActionLogEntry)
    ensures
        final(log)@ == spec_recorded(old(log)@, e),
{
    let ghost l = seq![e] + old(log)@;
    log.push_front(e);
    assert(log@ =~= l);
    while log.len() > ACTION_LOG_CAPACITY
        invariant
            log@.len() <= l.len(),
            log@.len() == l.len() || log@.len() >= ACTION_LOG_CAPACITY,
            log@ == l.take(log@.len() as int),
        decreases log@.len(),
    {
        log.pop_back();
        assert(log@ =~= l.take(log@.len() as int));
    }
    proof {
        if log@.len() == l.len() {
            assert(log@ =~= l);
        }
    }
}

/// The record with key `k`.
pub open spec fn key_is(k: Seq<char>) -> spec_fn((String, u64)) -> bool {
    |e: (String, u64)| e.0@ == k
}

/// Last-foreground times per lowercased process name.
#[derive(Clone, Debug)]
pub struct TimestampTable {
    pub entries: Vec<(String, u64)>,
}

/// The time recorded for `k` in `entries`: that of the first record with that key.
pub open spec fn lookup(entries: Seq<(String, u64)>, k: Seq<char>) -> Option<u64> {
    match first_index(entries, key_is(k)) {
        Some(i) => Some(entries[i].1),
        None => None,
    }
}

/// The keys of the records, in order.
pub open spec fn keys_of(entries: Seq<(String, u64)>) -> Seq<Seq<char>> {
    entries.map_values(|e: (String, u64)| e.0@)
}

impl TimestampTable {
    /// The time recorded for `k`.
    pub open spec fn spec_get(self, k: Seq<char>) -> Option<u64> {
        lookup(self.entries@, k)
    }

    /// The keys of the records, in order.
    pub open spec fn keys(self) -> Seq<Seq<char>> {
        keys_of(self.entries@)
    }

    /// No key is recorded twice.
    pub open spec fn wf(self) -> bool {
        self.keys().no_duplicates()
    }

    pub fn new() -> (t: TimestampTable)
        ensures
            t.wf(),
            t.entries@.len() == 0,
            forall|k: Seq<char>| t.spec_get(k) is None,
    {
        let t = TimestampTable { entries: Vec::new() };
        assert forall|k: Seq<char>| t.spec_get(k) is None by {
            lemma_first_index_none(t.entries@, key_is(k));
        }
        t
    }

    /// The time recorded for `k`, if any.
    pub fn get(&self, k: &str) -> (r: Option<u64>)
        ensures
            r == self.spec_get(k@),
    {
        let mut i: usize = 0;
        while i < self.entries.len()
            invariant
                i <= self.entries.len(),
                forall|j: int| 0 <= j < i ==> !(key_is(k@))(#[trigger] self.entries@[j]),
            decreases self.entries.len() - i,
        {
            if str_eq(self.entries[i].0.as_str(), k) {
                proof {
                    lemma_first_index_at(self.entries@, key_is(k@), i as int);
                }
                return Some(self.entries[i].1);
            }
            i = i + 1;
        }
        proof {
            lemma_first_index_none(self.entries@, key_is(k@));
        }
        None
    }

    /// Record time `t` for key `k`; the times of other keys stay as they were.
    pub fn insert(&mut self, k: String, t: u64)
        ensures
            final(self).spec_get(k@) == Some(t),
            forall|k2: Seq<char>| k2 != k@ ==> final(self).spec_get(k2) == old(self).spec_get(k2),
            final(self).keys().to_set() == old(self).keys().to_set().insert(k@),
            old(self).wf() ==> final(self).wf(),
    {
        let ghost old_entries = self.entries@;
        let mut i: usize = 0;
        while i < self.entries.len()
            invariant
                self.entries@ == old_entries,
                old(self).entries@ == old_entries,
                i <= self.entries.len(),
                forall|j: int| 0 <= j < i ==> !(key_is(k@))(#[trigger] self.entries@[j]),
            decreases self.entries.len() - i,
        {
            if self.entries[i].0 == k {
                proof {
                    lemma_first_index_at(old_entries, key_is(k@), i as int);
                }
                self.entries[i].1 = t;
                proof {
                    let ne = self.entries@;
                    assert(ne.len() == old_entries.len());
                    assert forall|j: int| 0 <= j < ne.len() && j != i implies #[trigger] ne[j]
                        == old_entries[j] by {}
                    assert(ne[i as int].0 == old_entries[i as int].0);
                    assert forall|j: int| 0 <= j < i implies !(key_is(k@))(#[trigger] ne[j]) by {
                        assert(ne[j] == old_entries[j]);
                    }
                    lemma_first_index_at(ne, key_is(k@), i as int);
                    assert forall|k2: Seq<char>| k2 != k@ implies #[trigger] lookup(ne, k2) == lookup(
                        old_entries,
                        k2,
                    ) by {
                        assert forall|j: int| 0 <= j < ne.len() implies (key_is(k2))(
                            #[trigger] ne[j],
                        ) == (key_is(k2))(old_entries[j]) by {
                            if j != i {
                                assert(ne[j] == old_entries[j]);
                            }
                        }
                        lemma_first_index_same_hits(ne, old_entries, key_is(k2));
                        crate::find::lemma_first_index_is_first(ne, key_is(k2));
                        match first_index(ne, key_is(k2)) {
                            Some(m) => {
                                assert(m != i);
                                assert(ne[m] == old_entries[m]);
                            },
                            None => {},
                        }
                    }
                    let nk = keys_of(ne);
                    let ok = keys_of(old_entries);
                    assert(nk.len() == ok.len());
                    assert forall|j: int| 0 <= j < nk.len() implies #[trigger] nk[j] == ok[j] by {
                        if j != i {
                            assert(ne[j] == old_entries[j]);
                        }
                    }
                    assert(nk =~= ok);
                    assert(ok.contains(k@)) by {
                        assert(ok[i as int] == k@);
                    }
                    assert(ok.to_set().insert(k@) =~= ok.to_set());
                    assert(old(self).entries@ == old_entries);
                    assert forall|k2: Seq<char>| k2 != k@ implies #[trigger] self.spec_get(k2)
                        == old(self).spec_get(k2) by {
                        assert(lookup(ne, k2) == lookup(old_entries, k2));
                    }
                    assert(self.keys() == nk);
                    assert(old(self).keys() == ok);
                }
                return;
            }
            i = i + 1;
        }
        proof {
            lemma_first_index_none(old_entries, key_is(k@));
        }
        let ghost kv = k@;
        self.entries.push((k, t));
        proof {
            let ne = self.entries@;
            assert(ne == old_entries.push((ne[old_entries.len() as int].0, t)));
            lemma_first_index_push(old_entries, ne[old_entries.len() as int], key_is(kv));
            assert forall|k2: Seq<char>| k2 != kv implies #[trigger] lookup(ne, k2) == lookup(
                old_entries,
                k2,
            ) by {
                lemma_first_index_push(old_entries, ne[old_entries.len() as int], key_is(k2));
                crate::find::lemma_first_index_is_first(old_entries, key_is(k2));
                match first_index(old_entries, key_is(k2)) {
                    Some(m) => {
                        assert(ne[m] == old_entries[m]);
                    },
                    None => {},
                }
            }
            assert(self.keys() =~= old(self).keys().push(kv));
            assert forall|j: int| 0 <= j < old(self).keys().len() implies #[trigger] old(self).keys()[j] != kv by {
                assert(!(key_is(kv))(old_entries[j]));
            }
            assert(self.keys().to_set() =~= old(self).keys().to_set().insert(kv)) by {
                assert forall|x: Seq<char>| #[trigger] self.keys().contains(x) <==> old(
                    self,
                ).keys().contains(x) || x == kv by {
                    if self.keys().contains(x) {
                        let w = choose|w: int| 0 <= w < self.keys().len() && self.keys()[w] == x;
                        if w < old(self).keys().len() {
                            assert(old(self).keys()[w] == x);
                        }
                    }
                    if old(self).keys().contains(x) {
                        let w = choose|w: int|
                            0 <= w < old(self).keys().len() && old(self).keys()[w] == x;
                        assert(self.keys()[w] == x);
                    }
                    if x == kv {
                        assert(self.keys()[old(self).keys().len() as int] == x);
                    }
                }
            }
        }
    }
}

impl TimestampTable {
    /// Record time `t` for each of `keys`; the times of other keys stay as they were.
    pub fn insert_all(&mut self, keys: &Vec<String>, t: u64)
        ensures
            old(self).wf() ==> final(self).wf(),
            forall|k: Seq<char>| #[trigger] final(self).spec_get(k) == if names_of(keys@).contains(k) {
                Some(t)
            } else {
                old(self).spec_get(k)
            },
    {
        let ghost t0 = *self;
        let mut i: usize = 0;
        while i < keys.len()
            invariant
                i <= keys.len(),
                t0.wf() ==> self.wf(),
                forall|k: Seq<char>| #[trigger] self.spec_get(k) == if names_of(keys@.take(i as int)).contains(k) {
                    Some(t)
                } else {
                    t0.spec_get(k)
                },
            decreases keys.len() - i,
        {
            let ghost before = *self;
            let ghost n0 = names_of(keys@.take(i as int));
            let ghost n1 = names_of(keys@.take(i + 1));
            self.insert(keys[i].clone(), t);
            proof {
                assert(n1 =~= n0.push(keys@[i as int]@));
                assert forall|k: Seq<char>| #[trigger] self.spec_get(k) == if n1.contains(k) {
                    Some(t)
                } else {
                    t0.spec_get(k)
                } by {
                    if k != keys@[i as int]@ {
                        assert(self.spec_get(k) == before.spec_get(k));
                        if n1.contains(k) {
                            let w = choose|w: int| 0 <= w < n1.len() && n1[w] == k;
                            assert(n0[w] == k);
                        }
                        if n0.contains(k) {
                            let w = choose|w: int| 0 <= w < n0.len() && n0[w] == k;
                            assert(n1[w] == k);
                        }
                    } else {
                        assert(n1[n0.len() as int] == k);
                    }
                }
            }
            i = i + 1;
        }
        assert(keys@.take(keys.len() as int) =~= keys@);
    }

    /// Set every recorded time to `t`, keeping the keys.
    pub fn set_all(&mut self, t: u64)
        ensures
            final(self).keys() == old(self).keys(),
            old(self).wf() ==> final(self).wf(),
            forall|k: Seq<char>| #[trigger] final(self).spec_get(k) == (match old(self).spec_get(k) {
                Some(_) => Some(t),
                None => None,
            }),
    {
        let ghost e0 = self.entries@;
        let mut i: usize = 0;
        while i < self.entries.len()
            invariant
                old(self).entries@ == e0,
                i <= self.entries.len(),
                self.entries@.len() == e0.len(),
                forall|j: int| 0 <= j < e0.len() ==> (#[trigger] self.entries@[j]).0 == e0[j].0,
                forall|j: int| 0 <= j < i ==> (#[trigger] self.entries@[j]).1 == t,
            decreases self.entries.len() - i,
        {
            self.entries[i].1 = t;
            i = i + 1;
        }
        proof {
            let ne = self.entries@;
            assert(keys_of(ne) =~= keys_of(e0));
            assert forall|k: Seq<char>| #[trigger] lookup(ne, k) == (match lookup(e0, k) {
                Some(_) => Some(t),
                None => None,
            }) by {
                lemma_first_index_same_hits(ne, e0, key_is(k));
                crate::find::lemma_first_index_is_first(ne, key_is(k));
            }
            assert forall|k: Seq<char>| #[trigger] self.spec_get(k) == (match old(self).spec_get(k) {
                Some(_) => Some(t),
                None => None,
            }) by {
                assert(lookup(ne, k) == (match lookup(e0, k) {
                    Some(_) => Some(t),
                    None => None,
                }));
            }
        }
    }

    /// Keep only the records whose key is in `keep` or equals `also`.
    pub fn retain_keys(&mut self, keep: &Vec<String>, also: &Option<String>)
        ensures
            final(self).entries@ == old(self).entries@.filter(kept_key(names_of(keep@), opt_view(*also))),
            old(self).wf() ==> final(self).wf(),
    {
        proof {
            lemma_filter_keys_distinct(self.entries@, kept_key(names_of(keep@), opt_view(*also)));
        }
        let ghost p = kept_key(names_of(keep@), opt_view(*also));
        let ghost e0 = self.entries@;
        let mut out: Vec<(String, u64)> = Vec::new();
        let mut i: usize = 0;
        while i < self.entries.len()
            invariant
                self.entries@ == e0,
                old(self).entries@ == e0,
                p == kept_key(names_of(keep@), opt_view(*also)),
                i <= e0.len(),
                out@ == e0.take(i as int).filter(p),
            decreases self.entries.len() - i,
        {
            let k = &self.entries[i].0;
            let hit = contains_name(keep, k) || match also {
                Some(a) => *a == *k,
                None => false,
            };
            if hit {
                out.push((k.clone(), self.entries[i].1));
            }
            proof {
                reveal_with_fuel(Seq::<_>::filter, 1);
                let s1 = e0.take(i + 1);
                assert(s1.drop_last() =~= e0.take(i as int));
                assert(s1.last() == e0[i as int]);
                assert(hit == p(e0[i as int]));
            }
            i = i + 1;
        }
        assert(e0.take(e0.len() as int) =~= e0);
        self.entries = out;
    }
}

/// Filtering records keeps their keys distinct.
proof fn lemma_filter_keys_distinct(s: Seq<(String, u64)>, q: spec_fn((String, u64)) -> bool)
    ensures
        keys_of(s).no_duplicates() ==> keys_of(s.filter(q)).no_duplicates(),
    decreases s.len(),
{
    reveal_with_fuel(Seq::<_>::filter, 1);
    if s.len() > 0 && keys_of(s).no_duplicates() {
        let d = s.drop_last();
        let x = s.last();
        assert forall|i: int, j: int| 0 <= i < j < keys_of(d).len() implies keys_of(d)[i] != keys_of(d)[j] by {
            assert(keys_of(d)[i] == keys_of(s)[i]);
            assert(keys_of(d)[j] == keys_of(s)[j]);
        }
        lemma_filter_keys_distinct(d, q);
        let fd = d.filter(q);
        if q(x) {
            assert(s.filter(q) == fd.push(x));
            assert forall|i: int, j: int| 0 <= i < j < keys_of(fd.push(x)).len() implies keys_of(fd.push(x))[i]
                != keys_of(fd.push(x))[j] by {
                if j == fd.len() {
                    assert(fd.contains(fd[i]));
                    d.lemma_filter_contains_rev(q, fd[i]);
                    let m = choose|m: int| 0 <= m < d.len() && d[m] == fd[i];
                    assert(keys_of(s)[m] != keys_of(s)[s.len() - 1]);
                } else {
                    assert(keys_of(fd.push(x))[i] == keys_of(fd)[i]);
                    assert(keys_of(fd.push(x))[j] == keys_of(fd)[j]);
                }
            }
        } else {
            assert(s.filter(q) == fd);
        }
    }
}

/// The views of an optional string.
pub open spec fn opt_view(o: Option<String>) -> Option<Seq<char>> {
    match o {
        Some(s) => Some(s@),
        None => None,
    }
}

/// The views of a list of strings.
pub open spec fn names_of(v: Seq<String>) -> Seq<Seq<char>> {
    v.map_values(|s: String| s@)
}

/// A record is kept when its key is listed in `keep` or equals `also`.
pub open spec fn kept_key(keep: Seq<Seq<char>>, also: Option<Seq<char>>) -> spec_fn((String, u64)) -> bool {
    |e: (String, u64)| keep.contains(e.0@) || also == Some(e.0@)
}

/// Whether `k` is one of the strings of `v`.
pub fn contains_name(v: &Vec<String>, k: &String) -> (r: bool)
    ensures
        r == names_of(v@).contains(k@),
{
    let mut i: usize = 0;
    while i < v.len()
        invariant
            i <= v.len(),
            forall|j: int| 0 <= j < i ==> (#[trigger] v@[j])@ != k@,
        decreases v.len() - i,
    {
        if v[i] == *k {
            assert(names_of(v@)[i as int] == k@);
            return true;
        }
        i = i + 1;
    }
    assert forall|j: int| 0 <= j < names_of(v@).len() implies names_of(v@)[j] != k@ by {
        assert(names_of(v@)[j] == v@[j]@);
    }
    false
}

/// Some app rule names the process `x` (compared lowercased).
pub open spec fn named_by_rule(config: Config, x: Seq<char>) -> bool {
    exists|i: int| 0 <= i < config.app_rule@.len() && lowercase(#[trigger] config.app_rule@[i].process@) == x
}

/// Some bucket lists the process `x` (compared lowercased).
pub open spec fn named_by_bucket(config: Config, x: Seq<char>) -> bool {
    exists|b: int, k: int|
        0 <= b < config.bucket@.len() && 0 <= k < config.bucket@[b].processes@.len() && lowercase(
            #[trigger] config.bucket@[b].processes@[k]@,
        ) == x
}

/// `x` is a lowercased process name that the configuration mentions and that has an
/// effective rule: a process the monitor currently manages.
pub open spec fn is_managed(config: Config, x: Seq<char>) -> bool {
    (named_by_rule(config, x) || named_by_bucket(config, x)) && config.spec_resolve(lowercase(x)) is Some
}

/// Which processes are managed: a process listed by an enabled group and named by no
/// app rule is managed by that group; a process whose first app rule is enabled is
/// managed; a process whose first app rule is disabled is not, even when an enabled
/// group lists it. (Names are taken as lowercasing leaves them.)
pub proof fn lemma_managed_members(config: Config, x: Seq<char>)
    requires
        lowercase(x) == x,
    ensures
        (exists|b: int| 0 <= b < config.bucket@.len() && #[trigger] config.bucket@[b].enabled
            && lists_process(config.bucket@[b].processes@, x)) && !named_by_rule(config, x)
            ==> is_managed(config, x),
        forall|i: int|
            0 <= i < config.app_rule@.len() && is_first(config.app_rule@, rule_names(x), i) ==> (
            is_managed(config, x) <==> (#[trigger] config.app_rule@[i]).enabled),
        !named_by_rule(config, x) && !named_by_bucket(config, x) ==> !is_managed(config, x),
{
    if (exists|b: int| 0 <= b < config.bucket@.len() && #[trigger] config.bucket@[b].enabled
        && lists_process(config.bucket@[b].processes@, x)) && !named_by_rule(config, x) {
        let b = choose|b: int| 0 <= b < config.bucket@.len() && #[trigger] config.bucket@[b].enabled
            && lists_process(config.bucket@[b].processes@, x);
        assert forall|j: int| 0 <= j < config.app_rule@.len() implies !(rule_names(x))(
            #[trigger] config.app_rule@[j],
        ) by {
            if lowercase(config.app_rule@[j].process@) == x {
                assert(named_by_rule(config, x));
            }
        }
        lemma_first_index_none(config.app_rule@, rule_names(x));
        lemma_first_index_is_first(config.bucket@, bucket_governs(x));
        assert((bucket_governs(x))(config.bucket@[b]));
        let k = choose|k: int| 0 <= k < config.bucket@[b].processes@.len() && lowercase(
            #[trigger] config.bucket@[b].processes@[k]@,
        ) == x;
        assert(named_by_bucket(config, x));
    }
    assert forall|i: int|
        0 <= i < config.app_rule@.len() && is_first(config.app_rule@, rule_names(x), i) implies (
        is_managed(config, x) <==> (#[trigger] config.app_rule@[i]).enabled) by {
        lemma_first_index_at(config.app_rule@, rule_names(x), i);
        assert(named_by_rule(config, x));
    }
}

/// The lowercased names of all processes the configuration manages, each once.
pub fn managed_processes(config: &Config) -> (r: Vec<String>)
    ensures
        forall|x: Seq<char>| #[trigger] names_of(r@).contains(x) <==> is_managed(*config, x),
{
    let mut out: Vec<String> = Vec::new();
    let mut i: usize = 0;
    while i < config.app_rule.len()
        invariant
            i <= config.app_rule.len(),
            forall|x: Seq<char>| #[trigger] names_of(out@).contains(x) <==> ((exists|j: int|
                0 <= j < i && lowercase(#[trigger] config.app_rule@[j].process@) == x)
                && config.spec_resolve(lowercase(x)) is Some),
        decreases config.app_rule.len() - i,
    {
        let lower = to_lower(config.app_rule[i].process.as_str());
        let ghost before = names_of(out@);
        if !contains_name(&out, &lower) && config.resolve_process(lower.as_str()).is_some() {
            out.push(lower);
        }
        proof {
            assert forall|x: Seq<char>| #[trigger] names_of(out@).contains(x) <==> ((exists|j: int|
                0 <= j < i + 1 && lowercase(#[trigger] config.app_rule@[j].process@) == x)
                && config.spec_resolve(lowercase(x)) is Some) by {
                if names_of(out@).contains(x) {
                    if !before.contains(x) {
                        assert(names_of(out@) == before.push(lower@));
                        assert(x == lower@);
                        assert(lowercase(config.app_rule@[i as int].process@) == x);
                    }
                }
                if (exists|j: int|
                    0 <= j < i + 1 && lowercase(#[trigger] config.app_rule@[j].process@) == x)
                    && config.spec_resolve(lowercase(x)) is Some {
                    let j = choose|j: int|
                        0 <= j < i + 1 && lowercase(#[trigger] config.app_rule@[j].process@) == x;
                    if j < i {
                        assert(before.contains(x));
                        assert(names_of(out@).contains(x)) by {
                            if names_of(out@) != before {
                                assert(names_of(out@) == before.push(lower@));
                                let w = choose|w: int| 0 <= w < before.len() && before[w] == x;
                                assert(names_of(out@)[w] == x);
                            }
                        }
                    } else {
                        assert(x == lower@);
                        if !before.contains(x) {
                            assert(names_of(out@) == before.push(lower@));
                            assert(names_of(out@)[before.len() as int] == x);
                        } else {
                            let w = choose|w: int| 0 <= w < before.len() && before[w] == x;
                            assert(names_of(out@) == before);
                            assert(names_of(out@)[w] == x);
                        }
                    }
                }
            }
        }
        i = i + 1;
    }
    let mut b: usize = 0;
    while b < config.bucket.len()
        invariant
            i == config.app_rule.len(),
            b <= config.bucket.len(),
            forall|x: Seq<char>| #[trigger] names_of(out@).contains(x) <==> ((named_by_rule(*config, x)
                || exists|c: int, k: int|
                0 <= c < b && 0 <= k < config.bucket@[c].processes@.len() && lowercase(
                    #[trigger] config.bucket@[c].processes@[k]@,
                ) == x) && config.spec_resolve(lowercase(x)) is Some),
        decreases config.bucket.len() - b,
    {
        let procs = &config.bucket[b].processes;
        let mut m: usize = 0;
        while m < procs.len()
            invariant
                i == config.app_rule.len(),
                b < config.bucket.len(),
                procs@ == config.bucket@[b as int].processes@,
                m <= procs.len(),
                forall|x: Seq<char>| #[trigger] names_of(out@).contains(x) <==> ((named_by_rule(
                    *config,
                    x,
                ) || (exists|c: int, k: int|
                    0 <= c < b && 0 <= k < config.bucket@[c].processes@.len() && lowercase(
                        #[trigger] config.bucket@[c].processes@[k]@,
                    ) == x) || (exists|k: int| 0 <= k < m && lowercase(#[trigger] procs@[k]@) == x))
                    && config.spec_resolve(lowercase(x)) is Some),
            decreases procs.len() - m,
        {
            let lower = to_lower(procs[m].as_str());
            let ghost before = names_of(out@);
            if !contains_name(&out, &lower) && config.resolve_process(lower.as_str()).is_some() {
                out.push(lower);
            }
            proof {
                assert forall|x: Seq<char>| #[trigger] names_of(out@).contains(x) <==> ((
                named_by_rule(*config, x) || (exists|c: int, k: int|
                    0 <= c < b && 0 <= k < config.bucket@[c].processes@.len() && lowercase(
                        #[trigger] config.bucket@[c].processes@[k]@,
                    ) == x) || (exists|k: int| 0 <= k < m + 1 && lowercase(#[trigger] procs@[k]@) == x))
                    && config.spec_resolve(lowercase(x)) is Some) by {
                    if names_of(out@) != before {
                        assert(names_of(out@) == before.push(lower@));
                    }
                    if names_of(out@).contains(x) && !before.contains(x) {
                        assert(x == lower@);
                        assert(lowercase(procs@[m as int]@) == x);
                    }
                    if before.contains(x) {
                        let w = choose|w: int| 0 <= w < before.len() && before[w] == x;
                        assert(names_of(out@)[w] == x);
                    }
                    if x == lower@ && config.spec_resolve(lowercase(x)) is Some && !before.contains(
                        x,
                    ) {
                        assert(names_of(out@)[before.len() as int] == x);
                    }
                }
            }
            m = m + 1;
        }
        proof {
            assert forall|x: Seq<char>| #[trigger] names_of(out@).contains(x) <==> ((named_by_rule(
                *config,
                x,
            ) || exists|c: int, k: int|
                0 <= c < b + 1 && 0 <= k < config.bucket@[c].processes@.len() && lowercase(
                    #[trigger] config.bucket@[c].processes@[k]@,
                ) == x) && config.spec_resolve(lowercase(x)) is Some) by {
                if exists|c: int, k: int|
                    0 <= c < b + 1 && 0 <= k < config.bucket@[c].processes@.len() && lowercase(
                        #[trigger] config.bucket@[c].processes@[k]@,
                    ) == x {
                    let (c, k) = choose|c: int, k: int|
                        0 <= c < b + 1 && 0 <= k < config.bucket@[c].processes@.len() && lowercase(
                            #[trigger] config.bucket@[c].processes@[k]@,
                        ) == x;
                    if c == b {
                        assert(lowercase(procs@[k]@) == x);
                    }
                }
                if exists|k: int| 0 <= k < procs.len() && lowercase(#[trigger] procs@[k]@) == x {
                    let k = choose|k: int| 0 <= k < procs.len() && lowercase(#[trigger] procs@[k]@) == x;
                    assert(lowercase(config.bucket@[b as int].processes@[k]@) == x);
                }
            }
        }
        b = b + 1;
    }
    out
}

/// The names of `current` that are not in `previous`.
pub fn newly_managed(current: &Vec<String>, previous: &Vec<String>) -> (r: Vec<String>)
    ensures
        forall|x: Seq<char>| #[trigger] names_of(r@).contains(x) <==> (names_of(current@).contains(x)
            && !names_of(previous@).contains(x)),
{
    let mut out: Vec<String> = Vec::new();
    let mut i: usize = 0;
    while i < current.len()
        invariant
            i <= current.len(),
            forall|x: Seq<char>| #[trigger] names_of(out@).contains(x) <==> ((exists|j: int|
                0 <= j < i && (#[trigger] current@[j])@ == x) && !names_of(previous@).contains(x)),
        decreases current.len() - i,
    {
        let ghost before = names_of(out@);
        if !contains_name(previous, &current[i]) {
            out.push(current[i].clone());
        }
        proof {
            assert forall|x: Seq<char>| #[trigger] names_of(out@).contains(x) <==> ((exists|j: int|
                0 <= j < i + 1 && (#[trigger] current@[j])@ == x) && !names_of(previous@).contains(
                x,
            )) by {
                if names_of(out@) != before {
                    assert(names_of(out@) == before.push(current@[i as int]@));
                }
                if before.contains(x) {
                    let w = choose|w: int| 0 <= w < before.len() && before[w] == x;
                    assert(names_of(out@)[w] == x);
                }
                if names_of(out@).contains(x) && !before.contains(x) {
                    assert(x == current@[i as int]@);
                }
                if x == current@[i as int]@ && !names_of(previous@).contains(x) {
                    assert(names_of(out@)[before.len() as int] == x);
                }
            }
        }
        i = i + 1;
    }
    assert forall|x: Seq<char>| #[trigger] names_of(current@).contains(x) <==> (exists|j: int|
        0 <= j < current.len() && (#[trigger] current@[j])@ == x) by {
        if names_of(current@).contains(x) {
            let w = choose|w: int| 0 <= w < current.len() && names_of(current@)[w] == x;
            assert(current@[w]@ == x);
        }
        if exists|j: int| 0 <= j < current.len() && (#[trigger] current@[j])@ == x {
            let j = choose|j: int| 0 <= j < current.len() && (#[trigger] current@[j])@ == x;
            assert(names_of(current@)[j] == x);
        }
    }
    out
}

/// Some window of `windows` is an application-modal dialog (it disables its owner)
/// whose process, or whose owner's process, is `pid`.
pub open spec fn modal_shielded(windows: Seq<WindowEntry>, pid: u32) -> bool {
    exists|i: int|
        0 <= i < windows.len() && (#[trigger] windows[i]).info.disables_owner && (windows[i].pid
            == pid || windows[i].info.owner_pid == Some(pid))
}

/// The process ids shielded from idle actions by an open application-modal dialog.
pub fn modal_pids(windows: &Vec<WindowEntry>) -> (r: Vec<u32>)
    ensures
        forall|pid: u32| #[trigger] r@.contains(pid) <==> modal_shielded(windows@, pid),
{
    let mut out: Vec<u32> = Vec::new();
    let mut i: usize = 0;
    while i < windows.len()
        invariant
            i <= windows.len(),
            forall|pid: u32| #[trigger] out@.contains(pid) <==> modal_shielded(windows@.take(i as int), pid),
        decreases windows.len() - i,
    {
        let w = &windows[i];
        let ghost before = out@;
        if w.info.disables_owner {
            out.push(w.pid);
            match w.info.owner_pid {
                Some(opid) => {
                    out.push(opid);
                },
                None => {},
            }
        }
        proof {
            let t1 = windows@.take(i + 1);
            let t0 = windows@.take(i as int);
            assert forall|m: int| 0 <= m < i implies #[trigger] t1[m] == t0[m] by {}
            assert(t1[i as int] == windows@[i as int]);
            assert forall|pid: u32| #[trigger] out@.contains(pid) <==> modal_shielded(t1, pid) by {
                assert(before.contains(pid) <==> modal_shielded(t0, pid));
                if modal_shielded(t0, pid) {
                    let m = choose|m: int|
                        0 <= m < t0.len() && (#[trigger] t0[m]).info.disables_owner && (t0[m].pid
                            == pid || t0[m].info.owner_pid == Some(pid));
                    assert(t1[m] == t0[m]);
                }
                if modal_shielded(t1, pid) && !modal_shielded(t0, pid) {
                    let m = choose|m: int|
                        0 <= m < t1.len() && (#[trigger] t1[m]).info.disables_owner && (t1[m].pid
                            == pid || t1[m].info.owner_pid == Some(pid));
                    if m < i {
                        assert(t1[m] == t0[m]);
                    }
                    assert(m == i);
                }
                if w.info.disables_owner {
                    match w.info.owner_pid {
                        Some(opid) => {
                            assert(out@ == before.push(w.pid).push(opid));
                        },
                        None => {
                            assert(out@ == before.push(w.pid));
                        },
                    }
                } else {
                    assert(out@ == before);
                }
                if before.contains(pid) {
                    let w2 = choose|w2: int| 0 <= w2 < before.len() && before[w2] == pid;
                    assert(out@[w2] == pid);
                }
                if out@.contains(pid) && !before.contains(pid) {
                    let w2 = choose|w2: int| 0 <= w2 < out@.len() && out@[w2] == pid;
                    assert(w2 >= before.len());
                    assert(t1[i as int].info.disables_owner);
                }
                if w.info.disables_owner && (w.pid == pid || w.info.owner_pid == Some(pid)) {
                    if w.pid == pid {
                        assert(out@[before.len() as int] == pid);
                    } else {
                        assert(out@[before.len() as int + 1] == pid);
                    }
                }
            }
        }
        i = i + 1;
    }
    assert(windows@.take(windows.len() as int) =~= windows@);
    out
}

/// Milliseconds from `t` to `now`, zero when `t` is not earlier.
pub open spec fn elapsed_ms(now: u64, t: u64) -> int {
    if now >= t {
        now - t
    } else {
        0
    }
}

/// A timeout in minutes, in milliseconds.
pub open spec fn timeout_ms(mins: u64) -> int {
    mins * 60000
}

/// The checks a window must pass before its idle time matters: not the foreground
/// process, not a system window, not an owned window, not shielded by a modal
/// dialog, not newly managed, and governed by an effective rule.
pub open spec fn passes_guards(
    config: Config,
    windows: Seq<WindowEntry>,
    w: WindowEntry,
    fg: Option<Seq<char>>,
    newly: Seq<Seq<char>>,
) -> bool {
    let p = lowercase(w.info.process_name@);
    &&& fg != Some(p)
    &&& !spec_is_system_window(w.info)
    &&& !w.info.is_owned
    &&& !modal_shielded(windows, w.pid)
    &&& !newly.contains(p)
    &&& config.spec_resolve(lowercase(p)) is Some
}

/// A window that passes the guards but whose process has no recorded foreground
/// time: it is being seen for the first time.
pub open spec fn first_sighting(
    config: Config,
    windows: Seq<WindowEntry>,
    fg: Option<Seq<char>>,
    newly: Seq<Seq<char>>,
    ts: Seq<(String, u64)>,
) -> spec_fn(WindowEntry) -> bool {
    |w: WindowEntry|
        passes_guards(config, windows, w, fg, newly) && lookup(
            ts,
            lowercase(w.info.process_name@),
        ) is None
}

/// A window that passes the guards and whose process has been out of the foreground
/// for at least its rule's timeout.
pub open spec fn idle_candidate(
    config: Config,
    windows: Seq<WindowEntry>,
    fg: Option<Seq<char>>,
    newly: Seq<Seq<char>>,
    ts: Seq<(String, u64)>,
    now: u64,
) -> spec_fn(WindowEntry) -> bool {
    |w: WindowEntry|
        passes_guards(config, windows, w, fg, newly) && match lookup(
            ts,
            lowercase(w.info.process_name@),
        ) {
            Some(t) => elapsed_ms(now, t) >= timeout_ms(
                config.spec_resolve(lowercase(lowercase(w.info.process_name@)))->0.timeout_mins,
            ),
            None => false,
        }
}

/// A window that may be acted on, with the rule that applies to it.
#[derive(Clone, Debug)]
pub struct Candidate {
    pub hwnd: isize,
    /// Lowercased process name.
    pub key: String,
    pub process: String,
    pub title: String,
    pub rule: ResolvedRule,
    /// How long the process has been out of the foreground.
    pub idle_ms: u64,
}

/// `c` describes window `w` under `config`, with idle time measured against `ts`.
pub open spec fn describes(c: Candidate, w: WindowEntry, config: Config, ts: Seq<(String, u64)>, now: u64) -> bool {
    let p = lowercase(w.info.process_name@);
    &&& c.hwnd == w.hwnd
    &&& c.key@ == p
    &&& c.process@ == w.info.process_name@
    &&& c.title@ == w.info.title@
    &&& Some(c.rule) == config.spec_resolve(lowercase(p))
    &&& lookup(ts, p) is Some
    &&& c.idle_ms == elapsed_ms(now, lookup(ts, p)->0)
}

/// The windows to act on (each described by a candidate, in window order) and the
/// processes seen for the first time (whose idle clock starts now).
pub fn select_candidates(
    config: &Config,
    windows: &Vec<WindowEntry>,
    fg: &Option<String>,
    newly: &Vec<String>,
    ts: &TimestampTable,
    now: u64,
) -> (r: (Vec<Candidate>, Vec<String>))
    ensures
        ({
            let f = windows@.filter(
                idle_candidate(*config, windows@, opt_view(*fg), names_of(newly@), ts.entries@, now),
            );
            &&& r.0@.len() == f.len()
            &&& forall|k: int| 0 <= k < f.len() ==> describes(#[trigger] r.0@[k], f[k], *config, ts.entries@, now)
        }),
        names_of(r.1@) == windows@.filter(
            first_sighting(*config, windows@, opt_view(*fg), names_of(newly@), ts.entries@),
        ).map_values(|w: WindowEntry| lowercase(w.info.process_name@)),
{
    let ghost pi = idle_candidate(*config, windows@, opt_view(*fg), names_of(newly@), ts.entries@, now);
    let ghost pf = first_sighting(*config, windows@, opt_view(*fg), names_of(newly@), ts.entries@);
    let ghost lw = |w: WindowEntry| lowercase(w.info.process_name@);
    let shield = modal_pids(windows);
    let mut cands: Vec<Candidate> = Vec::new();
    let mut first: Vec<String> = Vec::new();
    let mut i: usize = 0;
    while i < windows.len()
        invariant
            i <= windows.len(),
            pi == idle_candidate(*config, windows@, opt_view(*fg), names_of(newly@), ts.entries@, now),
            pf == first_sighting(*config, windows@, opt_view(*fg), names_of(newly@), ts.entries@),
            lw == (|w: WindowEntry| lowercase(w.info.process_name@)),
            forall|pid: u32| #[trigger] shield@.contains(pid) <==> modal_shielded(windows@, pid),
            cands@.len() == windows@.take(i as int).filter(pi).len(),
            forall|k: int|
                0 <= k < cands@.len() ==> describes(
                    #[trigger] cands@[k],
                    windows@.take(i as int).filter(pi)[k],
                    *config,
                    ts.entries@,
                    now,
                ),
            names_of(first@) == windows@.take(i as int).filter(pf).map_values(lw),
        decreases windows.len() - i,
    {
        let w = &windows[i];
        let key = to_lower(w.info.process_name.as_str());
        let is_fg = match fg {
            Some(f) => *f == key,
            None => false,
        };
        let ghost cands0 = cands@;
        let ghost first0 = first@;
        let mut took_first = false;
        let mut took_cand = false;
        if !is_fg && !is_system_window(&w.info) && !w.info.is_owned && !vec_has_u32(&shield, w.pid)
            && !contains_name(newly, &key) {
            match config.resolve_process(key.as_str()) {
                Some(rule) => {
                    match ts.get(key.as_str()) {
                        None => {
                            first.push(key);
                            took_first = true;
                        },
                        Some(t) => {
                            let idle: u64 = if now >= t {
                                now - t
                            } else {
                                0
                            };
                            if (idle as u128) >= (rule.timeout_mins as u128) * 60000 {
                                cands.push(
                                    Candidate {
                                        hwnd: w.hwnd,
                                        key: key,
                                        process: w.info.process_name.clone(),
                                        title: w.info.title.clone(),
                                        rule: rule,
                                        idle_ms: idle,
                                    },
                                );
                                took_cand = true;
                            }
                        },
                    }
                },
                None => {},
            }
        }
        proof {
            reveal_with_fuel(Seq::<_>::filter, 1);
            let t1 = windows@.take(i + 1);
            let t0 = windows@.take(i as int);
            let wv = windows@[i as int];
            assert(t1.drop_last() =~= t0);
            assert(t1.last() == wv);
            assert(took_cand == pi(wv));
            assert(took_first == pf(wv));
            if took_cand {
                assert(t1.filter(pi) == t0.filter(pi).push(wv));
                assert(describes(cands@[cands0.len() as int], wv, *config, ts.entries@, now));
                assert forall|k: int| 0 <= k < cands@.len() implies describes(
                    #[trigger] cands@[k],
                    t1.filter(pi)[k],
                    *config,
                    ts.entries@,
                    now,
                ) by {
                    if k < cands0.len() {
                        assert(cands@[k] == cands0[k]);
                        assert(t1.filter(pi)[k] == t0.filter(pi)[k]);
                    }
                }
            } else {
                assert(t1.filter(pi) == t0.filter(pi));
            }
            if took_first {
                assert(t1.filter(pf) == t0.filter(pf).push(wv));
                assert(t1.filter(pf).map_values(lw) =~= t0.filter(pf).map_values(lw).push(lw(wv)));
                assert(names_of(first@) =~= names_of(first0).push(lw(wv)));
            } else {
                assert(t1.filter(pf) == t0.filter(pf));
            }
        }
        i = i + 1;
    }
    assert(windows@.take(windows.len() as int) =~= windows@);
    (cands, first)
}

/// Whether `x` occurs in `v`.
pub fn vec_has_u32(v: &Vec<u32>, x: u32) -> (r: bool)
    ensures
        r == v@.contains(x),
{
    let mut i: usize = 0;
    while i < v.len()
        invariant
            i <= v.len(),
            forall|j: int| 0 <= j < i ==> v@[j] != x,
        decreases v.len() - i,
    {
        if v[i] == x {
            return true;
        }
        i = i + 1;
    }
    false
}

/// `perm` shows `out` to be `inp` sorted by idle time, longest first, with snapshots
/// of equal idle time kept in their input order: `out[k]` is `inp[perm[k]]`, `perm`
/// is one-to-one, `out` is non-increasing in idle time, and equal idle times keep
/// their relative order.
pub open spec fn stable_sort_witness(
    out: Seq<ActiveWindowSnapshot>,
    inp: Seq<ActiveWindowSnapshot>,
    perm: Seq<int>,
) -> bool {
    &&& out.len() == inp.len()
    &&& perm.len() == out.len()
    &&& forall|k: int| 0 <= k < out.len() ==> 0 <= #[trigger] perm[k] < inp.len() && out[k] == inp[perm[k]]
    &&& forall|k: int, l: int| 0 <= k < l < out.len() ==> #[trigger] perm[k] != #[trigger] perm[l]
    &&& forall|k: int, l: int|
        0 <= k < l < out.len() ==> (#[trigger] out[k]).idle_secs >= (#[trigger] out[l]).idle_secs
    &&& forall|k: int, l: int|
        0 <= k < l < out.len() && (#[trigger] out[k]).idle_secs == (#[trigger] out[l]).idle_secs
            ==> perm[k] < perm[l]
}

/// `out` is `inp` stably sorted by idle time, longest first.
pub open spec fn is_stable_sort_desc(out: Seq<ActiveWindowSnapshot>, inp: Seq<ActiveWindowSnapshot>) -> bool {
    exists|perm: Seq<int>| #[trigger] stable_sort_witness(out, inp, perm)
}

/// Sort snapshots by idle time, longest idle first, keeping the input order among
/// equal idle times.
pub fn sort_by_idle_desc(inp: Vec<ActiveWindowSnapshot>) -> (out: Vec<ActiveWindowSnapshot>)
    ensures
        is_stable_sort_desc(out@, inp@),
{
    let mut out: Vec<ActiveWindowSnapshot> = Vec::new();
    let ghost mut perm: Seq<int> = Seq::empty();
    let mut n: usize = 0;
    while n < inp.len()
        invariant
            n <= inp.len(),
            stable_sort_witness(out@, inp@.take(n as int), perm),
        decreases inp.len() - n,
    {
        let x = copy_snapshot(&inp[n]);
        let mut p: usize = 0;
        while p < out.len() && out[p].idle_secs >= x.idle_secs
            invariant
                p <= out.len(),
                forall|k: int| 0 <= k < p ==> (#[trigger] out@[k]).idle_secs >= x.idle_secs,
            decreases out.len() - p,
        {
            p = p + 1;
        }
        let ghost out0 = out@;
        let ghost perm0 = perm;
        let ghost i0 = inp@.take(n as int);
        out.insert(p, x);
        proof {
            perm = perm0.insert(p as int, n as int);
            let i1 = inp@.take(n + 1);
            let o1 = out@;
            assert(o1 == out0.insert(p as int, x));
            assert forall|k: int| 0 <= k < i0.len() implies #[trigger] i1[k] == i0[k] by {}
            assert(x == inp@[n as int]);
            assert(i1[n as int] == x);
            // elements after the insertion point are strictly less idle than x
            assert forall|k: int| p <= k < out0.len() implies (#[trigger] out0[k]).idle_secs < x.idle_secs by {
                if p < out0.len() {
                    assert(out0[p as int].idle_secs < x.idle_secs);
                    if k > p {
                        assert(out0[p as int].idle_secs >= out0[k].idle_secs);
                    }
                }
            }
            assert forall|k: int| 0 <= k < o1.len() implies 0 <= #[trigger] perm[k] < i1.len() && o1[k]
                == i1[perm[k]] by {
                if k < p {
                    assert(o1[k] == out0[k] && perm[k] == perm0[k]);
                } else if k == p {
                } else {
                    assert(o1[k] == out0[k - 1] && perm[k] == perm0[k - 1]);
                }
            }
            assert forall|k: int, l: int| 0 <= k < l < o1.len() implies #[trigger] perm[k]
                != #[trigger] perm[l] by {
                if k < p && l < p {
                    assert(perm0[k] != perm0[l]);
                } else if k < p && l == p {
                } else if k < p && l > p {
                    assert(perm0[k] != perm0[l - 1]);
                } else if k == p {
                    assert(0 <= perm0[l - 1] < n);
                } else {
                    assert(perm0[k - 1] != perm0[l - 1]);
                }
            }
            assert forall|k: int, l: int| 0 <= k < l < o1.len() implies (#[trigger] o1[k]).idle_secs
                >= (#[trigger] o1[l]).idle_secs by {
                if k < p && l < p {
                    assert(out0[k].idle_secs >= out0[l].idle_secs);
                } else if k < p && l == p {
                } else if k < p && l > p {
                    assert(out0[k].idle_secs >= out0[l - 1].idle_secs);
                } else if k == p {
                    assert(out0[l - 1].idle_secs < x.idle_secs);
                } else {
                    assert(out0[k - 1].idle_secs >= out0[l - 1].idle_secs);
                }
            }
            assert forall|k: int, l: int|
                0 <= k < l < o1.len() && (#[trigger] o1[k]).idle_secs == (#[trigger] o1[l]).idle_secs
                    implies perm[k] < perm[l] by {
                if k < p && l < p {
                    assert(out0[k].idle_secs == out0[l].idle_secs);
                } else if k < p && l == p {
                    assert(0 <= perm0[k] < n);
                } else if k < p && l > p {
                    assert(out0[k].idle_secs == out0[l - 1].idle_secs);
                } else if k == p {
                    assert(out0[l - 1].idle_secs < x.idle_secs);
                } else {
                    assert(out0[k - 1].idle_secs == out0[l - 1].idle_secs);
                }
            }
            assert(stable_sort_witness(o1, i1, perm));
        }
        n = n + 1;
    }
    assert(inp@.take(inp.len() as int) =~= inp@);
    assert(stable_sort_witness(out@, inp@, perm));
    out
}

/// A field-by-field copy of a snapshot.
pub fn copy_snapshot(s: &ActiveWindowSnapshot) -> (r: ActiveWindowSnapshot)
    ensures
        r == *s,
{
    ActiveWindowSnapshot {
        process: s.process.clone(),
        title: s.title.clone(),
        idle_secs: s.idle_secs,
        open_secs: s.open_secs,
    }
}

/// When a (lowercased process name, pid) pair was first observed.
#[derive(Clone, Debug)]
pub struct SeenEntry {
    pub process: String,
    pub pid: u32,
    pub at: u64,
}

/// The record for (`k`, `pid`).
pub open spec fn seen_key_is(k: Seq<char>, pid: u32) -> spec_fn(SeenEntry) -> bool {
    |e: SeenEntry| e.process@ == k && e.pid == pid
}

/// When (`k`, `pid`) was first observed, according to `entries`.
pub open spec fn seen_at(entries: Seq<SeenEntry>, k: Seq<char>, pid: u32) -> Option<u64> {
    match first_index(entries, seen_key_is(k, pid)) {
        Some(i) => Some(entries[i].at),
        None => None,
    }
}

/// The record for process id `pid`.
pub open spec fn pid_is(pid: u32) -> spec_fn((u32, Option<u64>)) -> bool {
    |e: (u32, Option<u64>)| e.0 == pid
}

/// The cached start time lookup for `pid`: `None` when nothing is cached, `Some(None)`
/// when the lookup was made and failed.
pub open spec fn cached_start(entries: Seq<(u32, Option<u64>)>, pid: u32) -> Option<Option<u64>> {
    match first_index(entries, pid_is(pid)) {
        Some(i) => Some(entries[i].1),
        None => None,
    }
}

/// Windows that are not system windows.
pub open spec fn user_window() -> spec_fn(WindowEntry) -> bool {
    |w: WindowEntry| !spec_is_system_window(w.info)
}

/// Some user window of `windows` belongs to process `pid` named `k` (lowercased).
pub open spec fn is_current_key(windows: Seq<WindowEntry>, k: Seq<char>, pid: u32) -> bool {
    exists|i: int|
        0 <= i < windows.len() && !spec_is_system_window((#[trigger] windows[i]).info) && lowercase(
            windows[i].info.process_name@,
        ) == k && windows[i].pid == pid
}

/// Some user window of `windows` belongs to process `pid`.
pub open spec fn is_current_pid(windows: Seq<WindowEntry>, pid: u32) -> bool {
    exists|i: int|
        0 <= i < windows.len() && !spec_is_system_window((#[trigger] windows[i]).info) && windows[i].pid
            == pid
}

/// Refresh the first-seen records for the user windows of `windows`: pairs seen
/// before keep their time, new pairs get `now`, pairs no longer present are dropped.
pub fn refresh_first_seen(old: &Vec<SeenEntry>, windows: &Vec<WindowEntry>, now: u64) -> (r: Vec<SeenEntry>)
    ensures
        forall|k: Seq<char>, pid: u32| #[trigger] seen_at(r@, k, pid) == (if is_current_key(windows@, k, pid) {
            Some(
                match seen_at(old@, k, pid) {
                    Some(t) => t,
                    None => now,
                },
            )
        } else {
            None
        }),
{
    let mut out: Vec<SeenEntry> = Vec::new();
    let mut i: usize = 0;
    while i < windows.len()
        invariant
            i <= windows.len(),
            forall|k: Seq<char>, pid: u32| #[trigger] seen_at(out@, k, pid) == (if is_current_key(
                windows@.take(i as int),
                k,
                pid,
            ) {
                Some(
                    match seen_at(old@, k, pid) {
                        Some(t) => t,
                        None => now,
                    },
                )
            } else {
                None
            }),
        decreases windows.len() - i,
    {
        let w = &windows[i];
        let ghost t0 = windows@.take(i as int);
        let ghost t1 = windows@.take(i + 1);
        proof {
            assert forall|m: int| 0 <= m < i implies #[trigger] t1[m] == t0[m] by {}
            assert(t1[i as int] == windows@[i as int]);
        }
        if !is_system_window(&w.info) {
            let key = to_lower(w.info.process_name.as_str());
            let present = seen_find(&out, &key, w.pid);
            if present.is_none() {
                let at = match seen_find(old, &key, w.pid) {
                    Some(j) => old[j].at,
                    None => now,
                };
                let ghost out0 = out@;
                let ghost kv = key@;
                let ghost wpid = w.pid;
                proof {
                    assert(at == match seen_at(old@, kv, wpid) {
                        Some(t) => t,
                        None => now,
                    });
                }
                out.push(SeenEntry { process: key, pid: w.pid, at: at });
                proof {
                    lemma_first_index_push(out0, out@[out0.len() as int], seen_key_is(kv, wpid));
                    assert(seen_at(out@, kv, wpid) == Some(at));
                    assert forall|k: Seq<char>, pid: u32| #[trigger] seen_at(out@, k, pid) == (if is_current_key(t1, k, pid) {
                        Some(
                            match seen_at(old@, k, pid) {
                                Some(t) => t,
                                None => now,
                            },
                        )
                    } else {
                        None
                    }) by {
                        lemma_first_index_push(out0, out@[out0.len() as int], seen_key_is(k, pid));
                        crate::find::lemma_first_index_is_first(out0, seen_key_is(k, pid));
                        assert(seen_at(out0, kv, w.pid) is None);
                        let before = seen_at(out0, k, pid);
                        if k == kv && pid == wpid {
                            assert(is_current_key(t1, k, pid)) by {
                                assert(!spec_is_system_window(t1[i as int].info));
                            }
                            assert(!is_current_key(t0, k, pid));
                        } else {
                            if is_current_key(t1, k, pid) {
                                let m = choose|m: int|
                                    0 <= m < t1.len() && !spec_is_system_window(
                                        (#[trigger] t1[m]).info,
                                    ) && lowercase(t1[m].info.process_name@) == k && t1[m].pid == pid;
                                assert(m != i);
                                assert(t0[m] == t1[m]);
                            }
                            if is_current_key(t0, k, pid) {
                                let m = choose|m: int|
                                    0 <= m < t0.len() && !spec_is_system_window(
                                        (#[trigger] t0[m]).info,
                                    ) && lowercase(t0[m].info.process_name@) == k && t0[m].pid == pid;
                                assert(t1[m] == t0[m]);
                            }
                            match first_index(out0, seen_key_is(k, pid)) {
                                Some(m) => {
                                    assert(out@[m] == out0[m]);
                                },
                                None => {},
                            }
                        }
                    }
                }
            } else {
                proof {
                    assert forall|k: Seq<char>, pid: u32| #[trigger] is_current_key(t1, k, pid) == is_current_key(
                        t0,
                        k,
                        pid,
                    ) by {
                        if is_current_key(t1, k, pid) {
                            let m = choose|m: int|
                                0 <= m < t1.len() && !spec_is_system_window((#[trigger] t1[m]).info)
                                    && lowercase(t1[m].info.process_name@) == k && t1[m].pid == pid;
                            if m == i {
                                assert(seen_at(out@, k, pid) is Some);
                            } else {
                                assert(t0[m] == t1[m]);
                            }
                        }
                        if is_current_key(t0, k, pid) {
                            let m = choose|m: int|
                                0 <= m < t0.len() && !spec_is_system_window((#[trigger] t0[m]).info)
                                    && lowercase(t0[m].info.process_name@) == k && t0[m].pid == pid;
                            assert(t1[m] == t0[m]);
                        }
                    }
                }
            }
        } else {
            proof {
                assert forall|k: Seq<char>, pid: u32| #[trigger] is_current_key(t1, k, pid) == is_current_key(
                    t0,
                    k,
                    pid,
                ) by {
                    if is_current_key(t1, k, pid) {
                        let m = choose|m: int|
                            0 <= m < t1.len() && !spec_is_system_window((#[trigger] t1[m]).info)
                                && lowercase(t1[m].info.process_name@) == k && t1[m].pid == pid;
                        assert(m != i);
                        assert(t0[m] == t1[m]);
                    }
                    if is_current_key(t0, k, pid) {
                        let m = choose|m: int|
                            0 <= m < t0.len() && !spec_is_system_window((#[trigger] t0[m]).info)
                                && lowercase(t0[m].info.process_name@) == k && t0[m].pid == pid;
                        assert(t1[m] == t0[m]);
                    }
                }
            }
        }
        i = i + 1;
    }
    assert(windows@.take(windows.len() as int) =~= windows@);
    out
}

/// The position of the record for (`k`, `pid`) in `v`, if any.
pub fn seen_find(v: &Vec<SeenEntry>, k: &String, pid: u32) -> (r: Option<usize>)
    ensures
        match r {
            Some(j) => first_index(v@, seen_key_is(k@, pid)) == Some(j as int) && j < v@.len(),
            None => first_index(v@, seen_key_is(k@, pid)) == None::<int>,
        },
{
    let mut i: usize = 0;
    while i < v.len()
        invariant
            i <= v.len(),
            forall|j: int| 0 <= j < i ==> !(seen_key_is(k@, pid))(#[trigger] v@[j]),
        decreases v.len() - i,
    {
        if v[i].pid == pid && v[i].process == *k {
            proof {
                lemma_first_index_at(v@, seen_key_is(k@, pid), i as int);
            }
            return Some(i);
        }
        i = i + 1;
    }
    proof {
        lemma_first_index_none(v@, seen_key_is(k@, pid));
    }
    None
}

/// Filtering records by a test that only looks at keys either keeps the time of `k`
/// as it was or drops it.
pub proof fn lemma_lookup_filter(s: Seq<(String, u64)>, q: spec_fn((String, u64)) -> bool, k: Seq<char>, qk: bool)
    requires
        forall|e: (String, u64)| e.0@ == k ==> #[trigger] q(e) == qk,
    ensures
        lookup(s.filter(q), k) == (if qk {
            lookup(s, k)
        } else {
            None
        }),
    decreases s.len(),
{
    reveal_with_fuel(Seq::<_>::filter, 1);
    if s.len() == 0 {
        lemma_first_index_none(s.filter(q), key_is(k));
        lemma_first_index_none(s, key_is(k));
    } else {
        let s0 = s.drop_last();
        let x = s.last();
        assert(s =~= s0.push(x));
        lemma_lookup_filter(s0, q, k, qk);
        let f0 = s0.filter(q);
        lemma_first_index_push(s0, x, key_is(k));
        crate::find::lemma_first_index_is_first(s0, key_is(k));
        crate::find::lemma_first_index_is_first(f0, key_is(k));
        if q(x) {
            assert(s.filter(q) == f0.push(x));
            lemma_first_index_push(f0, x, key_is(k));
            match first_index(f0, key_is(k)) {
                Some(m) => {
                    assert(f0.push(x)[m] == f0[m]);
                },
                None => {},
            }
        } else {
            assert(s.filter(q) == f0);
        }
        match first_index(s0, key_is(k)) {
            Some(m) => {
                assert(s[m] == s0[m]);
            },
            None => {},
        }
    }
}

/// The time since the previous poll (if any) exceeds the suspend threshold.
pub open spec fn resumed_after_gap(last: Option<u64>, now: u64, interval_secs: u64) -> bool {
    match last {
        Some(prev) => elapsed_ms(now, prev) > gap_threshold_ms(interval_secs),
        None => false,
    }
}



/// Whole seconds of idle time for the process `p`: zero when no foreground time is
/// recorded.
pub open spec fn idle_secs_of(ts: Seq<(String, u64)>, p: Seq<char>, now: u64) -> u64 {
    match lookup(ts, p) {
        Some(t) => (elapsed_ms(now, t) / 1000) as u64,
        None => 0,
    }
}

/// Whole seconds since the process started: from its start time when that is known,
/// else from when it was first observed, else zero.
pub open spec fn open_secs_of(
    seen: Seq<SeenEntry>,
    cache: Seq<(u32, Option<u64>)>,
    p: Seq<char>,
    pid: u32,
    now: u64,
    wall_ms: u64,
) -> u64 {
    match cached_start(cache, pid) {
        Some(Some(start)) => (elapsed_ms(wall_ms, start) / 1000) as u64,
        _ => match seen_at(seen, p, pid) {
            Some(t) => (elapsed_ms(now, t) / 1000) as u64,
            None => 0,
        },
    }
}

/// The activity-view snapshot of window `w`.
pub open spec fn snapshot_of(
    w: WindowEntry,
    ts: Seq<(String, u64)>,
    seen: Seq<SeenEntry>,
    cache: Seq<(u32, Option<u64>)>,
    now: u64,
    wall_ms: u64,
) -> ActiveWindowSnapshot {
    let p = lowercase(w.info.process_name@);
    ActiveWindowSnapshot {
        process: w.info.process_name,
        title: w.info.title,
        idle_secs: idle_secs_of(ts, p, now),
        open_secs: open_secs_of(seen, cache, p, w.pid, now, wall_ms),
    }
}

/// The position of the cached start time of `pid` in `v`, if any.
pub fn cache_find(v: &Vec<(u32, Option<u64>)>, pid: u32) -> (r: Option<usize>)
    ensures
        match r {
            Some(j) => first_index(v@, pid_is(pid)) == Some(j as int) && j < v@.len(),
            None => first_index(v@, pid_is(pid)) == None::<int>,
        },
{
    let mut i: usize = 0;
    while i < v.len()
        invariant
            i <= v.len(),
            forall|j: int| 0 <= j < i ==> !(pid_is(pid))(#[trigger] v@[j]),
        decreases v.len() - i,
    {
        if v[i].0 == pid {
            proof {
                lemma_first_index_at(v@, pid_is(pid), i as int);
            }
            return Some(i);
        }
        i = i + 1;
    }
    proof {
        lemma_first_index_none(v@, pid_is(pid));
    }
    None
}

fn secs_between(later: u64, earlier: u64) -> (r: u64)
    ensures
        r == (elapsed_ms(later, earlier) / 1000) as u64,
{
    if later >= earlier {
        (later - earlier) / 1000
    } else {
        0
    }
}

/// Snapshots of the user windows of `windows`, longest idle first (stable among
/// equal idle times).
pub fn active_windows_snapshot(
    windows: &Vec<WindowEntry>,
    ts: &TimestampTable,
    seen: &Vec<SeenEntry>,
    cache: &Vec<(u32, Option<u64>)>,
    now: u64,
    wall_ms: u64,
) -> (r: Vec<ActiveWindowSnapshot>)
    ensures
        is_stable_sort_desc(
            r@,
            windows@.filter(user_window()).map_values(
                |w: WindowEntry| snapshot_of(w, ts.entries@, seen@, cache@, now, wall_ms),
            ),
        ),
{
    let ghost f = |w: WindowEntry| snapshot_of(w, ts.entries@, seen@, cache@, now, wall_ms);
    let mut out: Vec<ActiveWindowSnapshot> = Vec::new();
    let mut i: usize = 0;
    while i < windows.len()
        invariant
            i <= windows.len(),
            f == (|w: WindowEntry| snapshot_of(w, ts.entries@, seen@, cache@, now, wall_ms)),
            out@ == windows@.take(i as int).filter(user_window()).map_values(f),
        decreases windows.len() - i,
    {
        let w = &windows[i];
        let sys = is_system_window(&w.info);
        let ghost out0 = out@;
        if !sys {
            let key = to_lower(w.info.process_name.as_str());
            let idle_secs = match ts.get(key.as_str()) {
                Some(t) => secs_between(now, t),
                None => 0,
            };
            let open_secs = match cache_find(cache, w.pid) {
                Some(j) if cache[j].1.is_some() => {
                    let start = cache[j].1.unwrap();
                    secs_between(wall_ms, start)
                },
                _ => match seen_find(seen, &key, w.pid) {
                    Some(j) => secs_between(now, seen[j].at),
                    None => 0,
                },
            };
            out.push(
                ActiveWindowSnapshot {
                    process: w.info.process_name.clone(),
                    title: w.info.title.clone(),
                    idle_secs: idle_secs,
                    open_secs: open_secs,
                },
            );
            proof {
                assert(out@.last() == f(windows@[i as int]));
            }
        }
        proof {
            reveal_with_fuel(Seq::<_>::filter, 1);
            let t1 = windows@.take(i + 1);
            let t0 = windows@.take(i as int);
            assert(t1.drop_last() =~= t0);
            assert(t1.last() == windows@[i as int]);
            if !sys {
                assert(t1.filter(user_window()) == t0.filter(user_window()).push(windows@[i as int]));
                assert(t1.filter(user_window()).map_values(f) =~= t0.filter(user_window()).map_values(
                    f,
                ).push(f(windows@[i as int])));
            } else {
                assert(t1.filter(user_window()) == t0.filter(user_window()));
            }
        }
        i = i + 1;
    }
    assert(windows@.take(windows.len() as int) =~= windows@);
    sort_by_idle_desc(out)
}

/// Milliseconds of silence after which a poll is taken to follow a suspend or
/// lock: five polling intervals (the interval taken as at least one second), but no
/// less than a minute.
pub open spec fn gap_threshold_ms(interval_secs: u64) -> int {
    let i: int = if interval_secs < 1 {
        1
    } else {
        interval_secs as int
    };
    (if i * 5 > 60 {
        i * 5
    } else {
        60
    }) * 1000
}

/// Whether the time since the previous poll exceeds the suspend threshold.
pub fn resumed_from_gap(last: Option<u64>, now: u64, interval_secs: u64) -> (r: bool)
    ensures
        r == resumed_after_gap(last, now, interval_secs),
{
    match last {
        Some(prev) => {
            let i: u128 = if interval_secs < 1 {
                1
            } else {
                interval_secs as u128
            };
            let five: u128 = i * 5;
            let secs: u128 = if five > 60 {
                five
            } else {
                60
            };
            let gap: u128 = if now >= prev {
                (now - prev) as u128
            } else {
                0
            };
            gap > secs * 1000
        },
        None => false,
    }
}

/// The entry the activity log gets for acting on candidate `c` at wall time `wall_ms`.
pub open spec fn log_entry_of(c: Candidate, wall_ms: u64) -> ActionLogEntry {
    ActionLogEntry {
        process: c.process,
        title: c.title,
        action: c.rule.action,
        timestamp: wall_ms / 1000,
        rule_source: c.rule.source,
        timeout_mins: c.rule.timeout_mins,
    }
}

/// `log` after recording each of `es` in turn.
pub open spec fn record_all(log: Seq<ActionLogEntry>, es: Seq<ActionLogEntry>) -> Seq<ActionLogEntry>
    decreases es.len(),
{
    if es.len() == 0 {
        log
    } else {
        spec_recorded(record_all(log, es.drop_last()), es.last())
    }
}

/// The monitor: the window system it works with, and what it remembers between
/// polls and between the steps of one poll.
///
/// A poll runs in steps, with the window system consulted in between by the caller:
/// `start_poll`; then `observe` with the foreground process and the visible windows;
/// then `select` with the start times of the process ids `observe` asked for; then
/// `conclude_poll` with the window system's last-moment answers for each candidate
/// `select` returned. The minimize and close requests that `conclude_poll` returns
/// are for the caller to issue, in order.
pub struct Monitor<W: WindowApi> {
    pub api: W,
    /// Lowercased names of the processes that had an effective rule at the last poll.
    pub previously_managed: Vec<String>,
    /// Lowercased names of the processes that became managed at the current poll.
    pub newly: Vec<String>,
    /// The lowercased foreground process seen at the current poll.
    pub foreground: Option<String>,
    /// The windows enumerated by the last poll.
    pub current_windows: Vec<WindowEntry>,
    /// When each (process, pid) pair currently visible was first observed.
    pub first_seen: Vec<SeenEntry>,
    /// Process start times per pid (`None` when the lookup failed).
    pub process_start_cache: Vec<(u32, Option<u64>)>,
    /// When the previous poll ran.
    pub last_poll_at: Option<u64>,
}

/// What the window system answered just before acting on a candidate: whether its
/// window is fullscreen and still exists, and which window and process are in front.
#[derive(Clone, Debug)]
pub struct FrontCheck {
    pub fullscreen: bool,
    pub valid: bool,
    pub fg_hwnd: isize,
    pub fg_process: Option<String>,
}

/// The decision on a candidate after the last-moment check: leave it, restart its
/// idle clock (it is in front after all), or act on it.
#[derive(Clone, Copy, Debug, PartialEq, Eq, Structural)]
pub enum Recheck {
    Skip,
    Touch,
    Act,
}

/// Fullscreen and vanished windows are left alone; a candidate whose window or
/// process is now in front has its idle clock restarted; any other is acted on.
pub open spec fn spec_recheck(c: Candidate, k: FrontCheck) -> Recheck {
    if k.fullscreen || !k.valid {
        Recheck::Skip
    } else if k.fg_hwnd != 0 && k.fg_hwnd == c.hwnd {
        Recheck::Touch
    } else if (match k.fg_process {
        Some(p) => lowercase(p@) == c.key@,
        None => false,
    }) {
        Recheck::Touch
    } else {
        Recheck::Act
    }
}

/// Decide on a candidate from the window system's last-moment answers.
pub fn recheck(c: &Candidate, k: &FrontCheck) -> (r: Recheck)
    ensures
        r == spec_recheck(*c, *k),
{
    if k.fullscreen || !k.valid {
        return Recheck::Skip;
    }
    if k.fg_hwnd != 0 && k.fg_hwnd == c.hwnd {
        return Recheck::Touch;
    }
    match &k.fg_process {
        Some(p) => {
            if to_lower(p.as_str()) == c.key {
                Recheck::Touch
            } else {
                Recheck::Act
            }
        },
        None => Recheck::Act,
    }
}

/// A request to the window system: minimize or close the window with this handle.
#[derive(Clone, Copy, Debug, PartialEq, Eq, Structural)]
pub enum WindowRequest {
    Minimize(isize),
    Close(isize),
}

/// The request that carries out candidate `c`'s rule.
pub open spec fn request_of(c: Candidate) -> WindowRequest {
    match c.rule.action {
        Action::Minimize => WindowRequest::Minimize(c.hwnd),
        Action::Close => WindowRequest::Close(c.hwnd),
    }
}

/// The request that carries out a candidate's rule.
pub fn request_for(c: &Candidate) -> (r: WindowRequest)
    ensures
        r == request_of(*c),
{
    match c.rule.action {
        Action::Minimize => WindowRequest::Minimize(c.hwnd),
        Action::Close => WindowRequest::Close(c.hwnd),
    }
}

/// The candidates of `cs` that have a check in `ks` (same position) saying to act, in
/// order.
pub open spec fn acted_of(cs: Seq<Candidate>, ks: Seq<FrontCheck>) -> Seq<Candidate>
    decreases cs.len(),
{
    if cs.len() == 0 {
        Seq::empty()
    } else {
        let n = cs.len() - 1;
        let r = acted_of(cs.take(n), ks);
        if n < ks.len() && spec_recheck(cs[n], ks[n]) == Recheck::Act {
            r.push(cs[n])
        } else {
            r
        }
    }
}

/// Candidate `i` of `cs` has a check in `ks` with decision `d`.
pub open spec fn decided(cs: Seq<Candidate>, ks: Seq<FrontCheck>, i: int, d: Recheck) -> bool {
    0 <= i < cs.len() && i < ks.len() && spec_recheck(cs[i], ks[i]) == d
}

/// Some candidate of `cs` with key `k` is found in front by its check in `ks`.
pub open spec fn touched_by(cs: Seq<Candidate>, ks: Seq<FrontCheck>, k: Seq<char>) -> bool {
    exists|i: int| #[trigger] decided(cs, ks, i, Recheck::Touch) && cs[i].key@ == k
}

/// Candidate `x` is some candidate of `cs` whose check in `ks` says to act.
pub open spec fn acted_candidate(cs: Seq<Candidate>, ks: Seq<FrontCheck>, x: Candidate) -> bool {
    exists|i: int| #[trigger] decided(cs, ks, i, Recheck::Act) && cs[i] == x
}

/// Every candidate acted on is a candidate whose check says to act.
pub proof fn lemma_acted_in(cs: Seq<Candidate>, ks: Seq<FrontCheck>)
    ensures
        forall|a: int| 0 <= a < acted_of(cs, ks).len() ==> #[trigger] acted_candidate(cs, ks, acted_of(cs, ks)[a]),
    decreases cs.len(),
{
    if cs.len() > 0 {
        let n = cs.len() - 1;
        let d = cs.take(n);
        lemma_acted_in(d, ks);
        let r = acted_of(d, ks);
        assert forall|a: int| 0 <= a < acted_of(cs, ks).len() implies #[trigger] acted_candidate(
            cs,
            ks,
            acted_of(cs, ks)[a],
        ) by {
            if a < r.len() {
                assert(acted_of(cs, ks)[a] == r[a]);
                assert(acted_candidate(d, ks, r[a]));
                let i = choose|i: int| #[trigger] decided(d, ks, i, Recheck::Act) && d[i] == r[a];
                assert(cs[i] == d[i]);
                assert(decided(cs, ks, i, Recheck::Act));
            } else {
                assert(decided(cs, ks, n, Recheck::Act));
                assert(acted_of(cs, ks)[a] == cs[n]);
            }
        }
    }
}

/// A process name of a user window of `ws`.
pub open spec fn is_user_process(ws: Seq<WindowEntry>, k: Seq<char>) -> bool {
    exists|i: int| 0 <= i < ws.len() && !spec_is_system_window((#[trigger] ws[i]).info) && lowercase(ws[i].info.process_name@) == k
}

/// The lowercased form of an optional name.
pub open spec fn lowered(o: Option<String>) -> Option<Seq<char>> {
    match o {
        Some(s) => Some(lowercase(s@)),
        None => None,
    }
}

/// The start time looked up for `pid` in `lookups` (`None` when it was not looked up
/// or the lookup failed).
pub open spec fn looked_up(lookups: Seq<(u32, Option<u64>)>, pid: u32) -> Option<u64> {
    match cached_start(lookups, pid) {
        Some(v) => v,
        None => None,
    }
}

/// What concluding a poll decided: the candidates acted on, and the minimize and
/// close requests that carry those actions out, in the same order.
pub struct PollActions {
    pub acted: Vec<Candidate>,
    pub requests: Vec<WindowRequest>,
}

impl<W: WindowApi> Monitor<W> {
    /// A monitor working with `api` that has not polled yet.
    pub fn new(api: W) -> (m: Self)
        ensures
            m.api == api,
            m.previously_managed@.len() == 0,
            m.newly@.len() == 0,
            m.foreground is None,
            m.current_windows@.len() == 0,
            m.first_seen@.len() == 0,
            m.process_start_cache@.len() == 0,
            m.last_poll_at is None,
    {
        Monitor {
            api,
            previously_managed: Vec::new(),
            newly: Vec::new(),
            foreground: None,
            current_windows: Vec::new(),
            first_seen: Vec::new(),
            process_start_cache: Vec::new(),
            last_poll_at: None,
        }
    }

    /// Begin a poll at monotonic time `now`: nothing happens while `paused` (the
    /// result is then `false`). Otherwise a long silence since the previous poll (a
    /// suspend or lock) restarts every recorded idle clock, and the processes that
    /// just became managed get a fresh idle clock; the result is `true`.
    pub fn start_poll(&mut self, config: &Config, paused: bool, now: u64, ts: &mut TimestampTable) -> (go: bool)
        ensures
            go == !paused,
            old(ts).wf() ==> final(ts).wf(),
            paused ==> *final(self) == *old(self) && *final(ts) == *old(ts),
            !paused ==> {
                let gap = resumed_after_gap(old(self).last_poll_at, now, config.general.polling_interval_secs);
                &&& final(self).last_poll_at == Some(now)
                &&& final(self).api == old(self).api
                &&& final(self).current_windows == old(self).current_windows
                &&& final(self).first_seen == old(self).first_seen
                &&& final(self).process_start_cache == old(self).process_start_cache
                &&& final(self).foreground == old(self).foreground
                &&& forall|x: Seq<char>| #[trigger] names_of(final(self).previously_managed@).contains(x)
                    <==> is_managed(*config, x)
                &&& forall|x: Seq<char>| #[trigger] names_of(final(self).newly@).contains(x) <==> (
                is_managed(*config, x) && !names_of(old(self).previously_managed@).contains(x))
                &&& forall|k: Seq<char>| #[trigger] lookup(final(ts).entries@, k) == if names_of(
                    final(self).newly@,
                ).contains(k) {
                    Some(now)
                } else {
                    match lookup(old(ts).entries@, k) {
                        Some(t) => Some(
                            if gap {
                                now
                            } else {
                                t
                            },
                        ),
                        None => None,
                    }
                }
            },
    {
        if paused {
            return false;
        }
        let ghost t_before = *ts;
        let gap = resumed_from_gap(self.last_poll_at, now, config.general.polling_interval_secs);
        if gap {
            ts.set_all(now);
        }
        let ghost after_gap = *ts;
        assert forall|k: Seq<char>| #[trigger] after_gap.spec_get(k) == match t_before.spec_get(k) {
            Some(t) => Some(
                if gap {
                    now
                } else {
                    t
                },
            ),
            None => None,
        } by {}
        self.last_poll_at = Some(now);
        let managed = managed_processes(config);
        let newly = newly_managed(&managed, &self.previously_managed);
        ts.insert_all(&newly, now);
        assert forall|k: Seq<char>| #[trigger] lookup(ts.entries@, k) == if names_of(newly@).contains(k) {
            Some(now)
        } else {
            match lookup(t_before.entries@, k) {
                Some(t) => Some(
                    if gap {
                        now
                    } else {
                        t
                    },
                ),
                None => None,
            }
        } by {
            assert(ts.spec_get(k) == if names_of(newly@).contains(k) {
                Some(now)
            } else {
                after_gap.spec_get(k)
            });
            assert(after_gap.spec_get(k) == match t_before.spec_get(k) {
                Some(t) => Some(
                    if gap {
                        now
                    } else {
                        t
                    },
                ),
                None => None,
            });
        }
        self.previously_managed = managed;
        self.newly = newly;
        true
    }

    /// Take in what the window system shows at time `now`: the `foreground` process
    /// (active now) and the visible `windows`. Foreground times of processes that
    /// are neither visible nor in front are forgotten. Returns the ids of the
    /// processes whose start time is not known yet, each once, for the caller to look
    /// up.
    pub fn observe(
        &mut self,
        now: u64,
        foreground: Option<String>,
        windows: Vec<WindowEntry>,
        ts: &mut TimestampTable,
    ) -> (pids: Vec<u32>)
        ensures
            old(ts).wf() ==> final(ts).wf(),
            final(self).api == old(self).api,
            final(self).previously_managed == old(self).previously_managed,
            final(self).newly == old(self).newly,
            final(self).last_poll_at == old(self).last_poll_at,
            final(self).process_start_cache == old(self).process_start_cache,
            final(self).current_windows@ == windows@,
            opt_view(final(self).foreground) == lowered(foreground),
            forall|k: Seq<char>, pid: u32| #[trigger] seen_at(final(self).first_seen@, k, pid) == (if is_current_key(
                windows@,
                k,
                pid,
            ) {
                Some(
                    match seen_at(old(self).first_seen@, k, pid) {
                        Some(t) => t,
                        None => now,
                    },
                )
            } else {
                None
            }),
            forall|k: Seq<char>| #[trigger] lookup(final(ts).entries@, k) == if !(is_user_process(windows@, k)
                || lowered(foreground) == Some(k)) {
                None
            } else if lowered(foreground) == Some(k) {
                Some(now)
            } else {
                lookup(old(ts).entries@, k)
            },
            forall|pid: u32| #[trigger] pids@.contains(pid) <==> (is_current_pid(windows@, pid)
                && cached_start(old(self).process_start_cache@, pid) is None),
            pids@.no_duplicates(),
    {
        let fg_lower: Option<String> = match &foreground {
            Some(f) => Some(to_lower(f.as_str())),
            None => None,
        };
        let ghost fgv = opt_view(fg_lower);
        let ghost t0 = *ts;
        match &fg_lower {
            Some(f) => {
                ts.insert(f.clone(), now);
            },
            None => {},
        }
        let ghost after_fg = *ts;
        assert forall|k: Seq<char>| #[trigger] after_fg.spec_get(k) == if fgv == Some(k) {
            Some(now)
        } else {
            t0.spec_get(k)
        } by {
            match fg_lower {
                Some(f) => {
                    if k != f@ {
                        assert(after_fg.spec_get(k) == t0.spec_get(k));
                    }
                },
                None => {},
            }
        }
        self.current_windows = windows;
        let ghost ws = self.current_windows@;
        self.first_seen = refresh_first_seen(&self.first_seen, &self.current_windows, now);
        let current_procs = user_process_names(&self.current_windows);
        let ghost before_prune = ts.entries@;
        ts.retain_keys(&current_procs, &fg_lower);
        proof {
            let q = kept_key(names_of(current_procs@), fgv);
            assert forall|k: Seq<char>| #[trigger] lookup(ts.entries@, k) == if !(is_user_process(ws, k)
                || fgv == Some(k)) {
                None
            } else if fgv == Some(k) {
                Some(now)
            } else {
                lookup(t0.entries@, k)
            } by {
                let qk = names_of(current_procs@).contains(k) || fgv == Some(k);
                lemma_lookup_filter(before_prune, q, k, qk);
                assert(names_of(current_procs@).contains(k) == is_user_process(ws, k));
                assert(after_fg.spec_get(k) == lookup(before_prune, k));
            }
        }
        self.foreground = fg_lower;
        self.pids_to_look_up()
    }

    /// The ids of the processes with a user window whose start time is not cached,
    /// each once.
    fn pids_to_look_up(&self) -> (pids: Vec<u32>)
        ensures
            forall|pid: u32| #[trigger] pids@.contains(pid) <==> (is_current_pid(self.current_windows@, pid)
                && cached_start(self.process_start_cache@, pid) is None),
            pids@.no_duplicates(),
    {
        let ghost ws = self.current_windows@;
        let mut out: Vec<u32> = Vec::new();
        let mut i: usize = 0;
        while i < self.current_windows.len()
            invariant
                ws == self.current_windows@,
                i <= ws.len(),
                out@.no_duplicates(),
                forall|pid: u32| #[trigger] out@.contains(pid) <==> (is_current_pid(ws.take(i as int), pid)
                    && cached_start(self.process_start_cache@, pid) is None),
            decreases ws.len() - i,
        {
            let ghost t0 = ws.take(i as int);
            let ghost t1 = ws.take(i + 1);
            proof {
                assert forall|m: int| 0 <= m < i implies #[trigger] t1[m] == t0[m] by {}
                assert(t1[i as int] == ws[i as int]);
            }
            let pid = self.current_windows[i].pid;
            let sys = is_system_window(&self.current_windows[i].info);
            let ghost out0 = out@;
            let known = cache_find(&self.process_start_cache, pid);
            if !sys && known.is_none() && !vec_has_u32(&out, pid) {
                out.push(pid);
                proof {
                    assert forall|a: int, b: int| 0 <= a < b < out@.len() implies out@[a] != out@[b] by {
                        if b == out0.len() {
                            assert(out0.contains(out0[a]));
                        }
                    }
                }
            }
            proof {
                assert forall|p2: u32| #[trigger] is_current_pid(t1, p2) == (is_current_pid(t0, p2) || (
                !sys && p2 == pid)) by {
                    if is_current_pid(t1, p2) {
                        let m = choose|m: int|
                            0 <= m < t1.len() && !spec_is_system_window((#[trigger] t1[m]).info)
                                && t1[m].pid == p2;
                        if m < i {
                            assert(t0[m] == t1[m]);
                        }
                    }
                    if is_current_pid(t0, p2) {
                        let m = choose|m: int|
                            0 <= m < t0.len() && !spec_is_system_window((#[trigger] t0[m]).info)
                                && t0[m].pid == p2;
                        assert(t1[m] == t0[m]);
                    }
                    if !sys && p2 == pid {
                        assert(!spec_is_system_window(t1[i as int].info));
                    }
                }
                assert forall|p2: u32| #[trigger] out@.contains(p2) <==> (is_current_pid(t1, p2)
                    && cached_start(self.process_start_cache@, p2) is None) by {
                    if out@.contains(p2) && !out0.contains(p2) {
                        let w = choose|w: int| 0 <= w < out@.len() && out@[w] == p2;
                        assert(w == out0.len());
                    }
                    if out0.contains(p2) {
                        let w = choose|w: int| 0 <= w < out0.len() && out0[w] == p2;
                        assert(out@[w] == p2);
                    }
                    if !sys && p2 == pid && known.is_none() && !out0.contains(p2) {
                        assert(out@[out0.len() as int] == p2);
                    }
                }
            }
            i = i + 1;
        }
        assert(ws.take(ws.len() as int) =~= ws);
        out
    }

    /// Keep the cached start time of every pid that still has a user window, and take
    /// the start time of each new one from `lookups`.
    fn refresh_start_cache(&mut self, lookups: &Vec<(u32, Option<u64>)>)
        ensures
            final(self).api == old(self).api,
            final(self).current_windows == old(self).current_windows,
            final(self).first_seen == old(self).first_seen,
            final(self).previously_managed == old(self).previously_managed,
            final(self).newly == old(self).newly,
            final(self).foreground == old(self).foreground,
            final(self).last_poll_at == old(self).last_poll_at,
            forall|pid: u32| #[trigger] cached_start(final(self).process_start_cache@, pid) == if is_current_pid(
                old(self).current_windows@,
                pid,
            ) {
                if cached_start(old(self).process_start_cache@, pid) is Some {
                    cached_start(old(self).process_start_cache@, pid)
                } else {
                    Some(looked_up(lookups@, pid))
                }
            } else {
                None
            },
    {
        let ghost old_cache = self.process_start_cache@;
        let ghost ws = self.current_windows@;
        let mut out: Vec<(u32, Option<u64>)> = Vec::new();
        let mut i: usize = 0;
        while i < self.current_windows.len()
            invariant
                ws == self.current_windows@,
                ws == old(self).current_windows@,
                old_cache == self.process_start_cache@,
                old_cache == old(self).process_start_cache@,
                *self == *old(self),
                i <= ws.len(),
                forall|pid: u32| #[trigger] cached_start(out@, pid) == if is_current_pid(ws.take(i as int), pid) {
                    if cached_start(old_cache, pid) is Some {
                        cached_start(old_cache, pid)
                    } else {
                        Some(looked_up(lookups@, pid))
                    }
                } else {
                    None
                },
            decreases ws.len() - i,
        {
            let ghost t0 = ws.take(i as int);
            let ghost t1 = ws.take(i + 1);
            proof {
                assert forall|m: int| 0 <= m < i implies #[trigger] t1[m] == t0[m] by {}
                assert(t1[i as int] == ws[i as int]);
            }
            let pid = self.current_windows[i].pid;
            let sys = is_system_window(&self.current_windows[i].info);
            let ghost out0 = out@;
            let in_out = cache_find(&out, pid);
            if !sys && in_out.is_none() {
                let v = match cache_find(&self.process_start_cache, pid) {
                    Some(j) => self.process_start_cache[j].1,
                    None => match cache_find(lookups, pid) {
                        Some(j) => lookups[j].1,
                        None => None,
                    },
                };
                out.push((pid, v));
                proof {
                    assert forall|p2: u32| #[trigger] cached_start(out@, p2) == (if p2 == pid {
                        Some(v)
                    } else {
                        cached_start(out0, p2)
                    }) by {
                        lemma_first_index_push(out0, (pid, v), pid_is(p2));
                        crate::find::lemma_first_index_is_first(out0, pid_is(p2));
                        match first_index(out0, pid_is(p2)) {
                            Some(m) => {
                                assert(out@[m] == out0[m]);
                            },
                            None => {},
                        }
                    }
                }
            }
            proof {
                assert forall|p2: u32| #[trigger] is_current_pid(t1, p2) == (is_current_pid(t0, p2) || (
                !sys && p2 == pid)) by {
                    if is_current_pid(t1, p2) {
                        let m = choose|m: int|
                            0 <= m < t1.len() && !spec_is_system_window((#[trigger] t1[m]).info)
                                && t1[m].pid == p2;
                        if m < i {
                            assert(t0[m] == t1[m]);
                        }
                    }
                    if is_current_pid(t0, p2) {
                        let m = choose|m: int|
                            0 <= m < t0.len() && !spec_is_system_window((#[trigger] t0[m]).info)
                                && t0[m].pid == p2;
                        assert(t1[m] == t0[m]);
                    }
                    if !sys && p2 == pid {
                        assert(!spec_is_system_window(t1[i as int].info));
                    }
                }
                assert forall|p2: u32| #[trigger] cached_start(out@, p2) == if is_current_pid(t1, p2) {
                    if cached_start(old_cache, p2) is Some {
                        cached_start(old_cache, p2)
                    } else {
                        Some(looked_up(lookups@, p2))
                    }
                } else {
                    None
                } by {
                    assert(cached_start(out0, p2) == if is_current_pid(t0, p2) {
                        if cached_start(old_cache, p2) is Some {
                            cached_start(old_cache, p2)
                        } else {
                            Some(looked_up(lookups@, p2))
                        }
                    } else {
                        None
                    });
                }
            }
            i = i + 1;
        }
        assert(ws.take(ws.len() as int) =~= ws);
        self.process_start_cache = out;
    }

    /// Choose the candidates of the current poll at time `now`: the user windows,
    /// not in front, owned or shielded by a modal dialog, of processes that did not
    /// just become managed, whose process has been out of the foreground for at least
    /// its rule's timeout, in window order. The start times in `lookups` fill the
    /// cache; processes seen for the first time get a fresh idle clock.
    pub fn select(
        &mut self,
        config: &Config,
        now: u64,
        lookups: &Vec<(u32, Option<u64>)>,
        ts: &mut TimestampTable,
    ) -> (cands: Vec<Candidate>)
        ensures
            old(ts).wf() ==> final(ts).wf(),
            final(self).api == old(self).api,
            final(self).current_windows == old(self).current_windows,
            final(self).first_seen == old(self).first_seen,
            final(self).previously_managed == old(self).previously_managed,
            final(self).newly == old(self).newly,
            final(self).foreground == old(self).foreground,
            final(self).last_poll_at == old(self).last_poll_at,
            forall|pid: u32| #[trigger] cached_start(final(self).process_start_cache@, pid) == if is_current_pid(
                old(self).current_windows@,
                pid,
            ) {
                if cached_start(old(self).process_start_cache@, pid) is Some {
                    cached_start(old(self).process_start_cache@, pid)
                } else {
                    Some(looked_up(lookups@, pid))
                }
            } else {
                None
            },
            ({
                let ws = old(self).current_windows@;
                let fg = opt_view(old(self).foreground);
                let newly = names_of(old(self).newly@);
                let f = ws.filter(idle_candidate(*config, ws, fg, newly, old(ts).entries@, now));
                &&& cands@.len() == f.len()
                &&& forall|k: int|
                    0 <= k < f.len() ==> describes(#[trigger] cands@[k], f[k], *config, old(ts).entries@, now)
                &&& forall|k: Seq<char>| #[trigger] lookup(final(ts).entries@, k) == if exists|j: int|
                    0 <= j < ws.len() && (first_sighting(*config, ws, fg, newly, old(ts).entries@))(
                        #[trigger] ws[j],
                    ) && lowercase(ws[j].info.process_name@) == k {
                    Some(now)
                } else {
                    lookup(old(ts).entries@, k)
                }
            }),
    {
        self.refresh_start_cache(lookups);
        let ghost ws = self.current_windows@;
        let ghost fgv = opt_view(self.foreground);
        let ghost nv = names_of(self.newly@);
        let ghost times = ts.entries@;
        let (cands, first) = select_candidates(config, &self.current_windows, &self.foreground, &self.newly, ts, now);
        let ghost before_first = *ts;
        ts.insert_all(&first, now);
        proof {
            let pf = first_sighting(*config, ws, fgv, nv, times);
            let lw = |w: WindowEntry| lowercase(w.info.process_name@);
            let fl = ws.filter(pf);
            assert forall|k: Seq<char>| #[trigger] names_of(first@).contains(k) <==> exists|j: int|
                0 <= j < ws.len() && pf(#[trigger] ws[j]) && lowercase(ws[j].info.process_name@) == k by {
                if names_of(first@).contains(k) {
                    let idx = choose|idx: int| 0 <= idx < names_of(first@).len() && names_of(first@)[idx] == k;
                    assert(fl.map_values(lw)[idx] == lw(fl[idx]));
                    ws.lemma_filter_pred(pf, idx);
                    assert(fl.contains(fl[idx]));
                    ws.lemma_filter_contains_rev(pf, fl[idx]);
                    let j = choose|j: int| 0 <= j < ws.len() && ws[j] == fl[idx];
                    assert(pf(ws[j]) && lowercase(ws[j].info.process_name@) == k);
                }
                if exists|j: int|
                    0 <= j < ws.len() && pf(#[trigger] ws[j]) && lowercase(ws[j].info.process_name@) == k {
                    let j = choose|j: int|
                        0 <= j < ws.len() && pf(#[trigger] ws[j]) && lowercase(ws[j].info.process_name@) == k;
                    ws.lemma_filter_contains(pf, j);
                    let idx = choose|idx: int| 0 <= idx < fl.len() && fl[idx] == ws[j];
                    assert(fl.map_values(lw)[idx] == lw(fl[idx]));
                    assert(names_of(first@)[idx] == k);
                }
            }
            assert forall|k: Seq<char>| #[trigger] lookup(ts.entries@, k) == if exists|j: int|
                0 <= j < ws.len() && pf(#[trigger] ws[j]) && lowercase(ws[j].info.process_name@) == k {
                Some(now)
            } else {
                lookup(times, k)
            } by {
                assert(ts.spec_get(k) == if names_of(first@).contains(k) {
                    Some(now)
                } else {
                    before_first.spec_get(k)
                });
            }
        }
        cands
    }

    /// Snapshots of the user windows seen at the last poll, longest idle first.
    pub fn get_active_windows_snapshot(&self, ts: &TimestampTable, now: u64, wall_ms: u64) -> (r: Vec<
        ActiveWindowSnapshot,
    >)
        ensures
            is_stable_sort_desc(
                r@,
                self.current_windows@.filter(user_window()).map_values(
                    |w: WindowEntry|
                        snapshot_of(
                            w,
                            ts.entries@,
                            self.first_seen@,
                            self.process_start_cache@,
                            now,
                            wall_ms,
                        ),
                ),
            ),
    {
        active_windows_snapshot(
            &self.current_windows,
            ts,
            &self.first_seen,
            &self.process_start_cache,
            now,
            wall_ms,
        )
    }

}

/// Conclude a poll: decide on each candidate of `cands` from the window system's
/// last-moment answer at the same position of `checks` (a candidate without one is
/// left alone). Candidates found in front get a fresh idle clock at `now`; each
/// action is recorded in `log` at wall-clock time `wall_ms`; the result holds the
/// candidates acted on and the requests that carry the actions out, in order.
pub fn conclude_poll(
    now: u64,
    wall_ms: u64,
    cands: &Vec<Candidate>,
    checks: &Vec<FrontCheck>,
    ts: &mut TimestampTable,
    log: &mut VecDeque<ActionLogEntry>,
) -> (out: PollActions)
    ensures
        old(ts).wf() ==> final(ts).wf(),
        out.acted@ == acted_of(cands@, checks@),
        out.requests@ == out.acted@.map_values(|c: Candidate| request_of(c)),
        forall|k: Seq<char>| #[trigger] lookup(final(ts).entries@, k) == if touched_by(cands@, checks@, k) {
            Some(now)
        } else {
            lookup(old(ts).entries@, k)
        },
        final(log)@ == record_all(old(log)@, out.acted@.map_values(|c: Candidate| log_entry_of(c, wall_ms))),
{
    let mut acted: Vec<Candidate> = Vec::new();
    let mut touch: Vec<String> = Vec::new();
    let mut c: usize = 0;
    while c < cands.len()
        invariant
            c <= cands.len(),
            acted@ == acted_of(cands@.take(c as int), checks@),
            forall|k: Seq<char>| #[trigger] names_of(touch@).contains(k) <==> touched_by(
                cands@.take(c as int),
                checks@,
                k,
            ),
        decreases cands.len() - c,
    {
        let cand = &cands[c];
        let d = if c < checks.len() {
            recheck(cand, &checks[c])
        } else {
            Recheck::Skip
        };
        let ghost cs0 = cands@.take(c as int);
        let ghost t0 = names_of(touch@);
        match d {
            Recheck::Act => {
                acted.push(copy_candidate(cand));
            },
            Recheck::Touch => {
                touch.push(cand.key.clone());
            },
            Recheck::Skip => {},
        }
        proof {
            let cs1 = cands@.take(c + 1);
            let ks = checks@;
            assert(cs1.take(c as int) =~= cs0);
            assert(cs1[c as int] == cands@[c as int]);
            assert(acted@ == acted_of(cs1, ks));
            if d == Recheck::Touch {
                assert(names_of(touch@) =~= t0.push(cand.key@));
            } else {
                assert(names_of(touch@) =~= t0);
            }
            assert forall|k: Seq<char>| #[trigger] names_of(touch@).contains(k) <==> touched_by(cs1, ks, k) by {
                if touched_by(cs0, ks, k) {
                    let i = choose|i: int| #[trigger] decided(cs0, ks, i, Recheck::Touch) && cs0[i].key@ == k;
                    assert(cs1[i] == cs0[i]);
                    assert(decided(cs1, ks, i, Recheck::Touch));
                }
                if touched_by(cs1, ks, k) {
                    let i = choose|i: int| #[trigger] decided(cs1, ks, i, Recheck::Touch) && cs1[i].key@ == k;
                    if i < c {
                        assert(cs1[i] == cs0[i]);
                        assert(decided(cs0, ks, i, Recheck::Touch));
                    } else {
                        assert(d == Recheck::Touch && cand.key@ == k);
                    }
                }
                if t0.contains(k) {
                    let w = choose|w: int| 0 <= w < t0.len() && t0[w] == k;
                    assert(names_of(touch@)[w] == k);
                }
                if names_of(touch@).contains(k) && !t0.contains(k) {
                    assert(d == Recheck::Touch && cand.key@ == k);
                    assert(decided(cs1, ks, c as int, Recheck::Touch));
                }
                if d == Recheck::Touch && cand.key@ == k {
                    assert(names_of(touch@)[t0.len() as int] == k);
                }
            }
        }
        c = c + 1;
    }
    assert(cands@.take(cands.len() as int) =~= cands@);
    let ghost before = *ts;
    ts.insert_all(&touch, now);
    assert forall|k: Seq<char>| #[trigger] lookup(ts.entries@, k) == if touched_by(cands@, checks@, k) {
        Some(now)
    } else {
        lookup(before.entries@, k)
    } by {
        assert(ts.spec_get(k) == if names_of(touch@).contains(k) {
            Some(now)
        } else {
            before.spec_get(k)
        });
    }
    let ghost log0 = log@;
    let ghost entries = acted@.map_values(|c: Candidate| log_entry_of(c, wall_ms));
    let mut requests: Vec<WindowRequest> = Vec::new();
    let mut a: usize = 0;
    while a < acted.len()
        invariant
            a <= acted.len(),
            entries == acted@.map_values(|c: Candidate| log_entry_of(c, wall_ms)),
            log@ == record_all(log0, entries.take(a as int)),
            requests@ == acted@.take(a as int).map_values(|c: Candidate| request_of(c)),
        decreases acted.len() - a,
    {
        let item = &acted[a];
        record_action(
            log,
            ActionLogEntry {
                process: item.process.clone(),
                title: item.title.clone(),
                action: item.rule.action,
                timestamp: wall_ms / 1000,
                rule_source: item.rule.source,
                timeout_mins: item.rule.timeout_mins,
            },
        );
        requests.push(request_for(item));
        proof {
            assert(entries.take(a + 1).drop_last() =~= entries.take(a as int));
            assert(entries.take(a + 1).last() == entries[a as int]);
            assert(acted@.take(a + 1).map_values(|c: Candidate| request_of(c)) =~= acted@.take(
                a as int,
            ).map_values(|c: Candidate| request_of(c)).push(request_of(acted@[a as int])));
        }
        a = a + 1;
    }
    assert(entries.take(acted.len() as int) =~= entries);
    assert(acted@.take(acted.len() as int) =~= acted@);
    PollActions { acted, requests }
}

/// Seconds to wait before the next poll: the configured polling interval, at least
/// one second.
pub fn next_poll_delay_secs(config: &Config) -> (r: u64)
    ensures
        r == if config.general.polling_interval_secs < 1 {
            1
        } else {
            config.general.polling_interval_secs
        },
{
    if config.general.polling_interval_secs < 1 {
        1
    } else {
        config.general.polling_interval_secs
    }
}

/// A field-by-field copy of a candidate.
pub fn copy_candidate(c: &Candidate) -> (r: Candidate)
    ensures
        r == *c,
{
    Candidate {
        hwnd: c.hwnd,
        key: c.key.clone(),
        process: c.process.clone(),
        title: c.title.clone(),
        rule: c.rule,
        idle_ms: c.idle_ms,
    }
}

/// The lowercased process names of the user windows of `windows`.
pub fn user_process_names(windows: &Vec<WindowEntry>) -> (r: Vec<String>)
    ensures
        forall|x: Seq<char>| #[trigger] names_of(r@).contains(x) <==> exists|i: int|
            0 <= i < windows@.len() && !spec_is_system_window((#[trigger] windows@[i]).info)
                && lowercase(windows@[i].info.process_name@) == x,
{
    let mut out: Vec<String> = Vec::new();
    let mut i: usize = 0;
    while i < windows.len()
        invariant
            i <= windows.len(),
            forall|x: Seq<char>| #[trigger] names_of(out@).contains(x) <==> exists|j: int|
                0 <= j < i && !spec_is_system_window((#[trigger] windows@[j]).info) && lowercase(
                    windows@[j].info.process_name@,
                ) == x,
        decreases windows.len() - i,
    {
        let ghost before = names_of(out@);
        let sys = is_system_window(&windows[i].info);
        if !sys {
            out.push(to_lower(windows[i].info.process_name.as_str()));
        }
        proof {
            assert forall|x: Seq<char>| #[trigger] names_of(out@).contains(x) <==> exists|j: int|
                0 <= j < i + 1 && !spec_is_system_window((#[trigger] windows@[j]).info) && lowercase(
                    windows@[j].info.process_name@,
                ) == x by {
                if !sys {
                    assert(names_of(out@) == before.push(lowercase(windows@[i as int].info.process_name@)));
                    if before.contains(x) {
                        let w = choose|w: int| 0 <= w < before.len() && before[w] == x;
                        assert(names_of(out@)[w] == x);
                    }
                    if x == lowercase(windows@[i as int].info.process_name@) {
                        assert(names_of(out@)[before.len() as int] == x);
                    }
                } else {
                    assert(names_of(out@) == before);
                }
            }
        }
        i = i + 1;
    }
    out
}


/// Acting on window `w` for candidate `c` is justified: `c` describes `w`, which is
/// not the foreground process, not a system window, not an owned window, not
/// shielded by a modal dialog, not a process that just became managed or is seen for
/// the first time, has an effective rule, and has been out of the foreground for at
/// least that rule's timeout.
pub open spec fn justified_action(
    c: Candidate,
    w: WindowEntry,
    config: Config,
    ws: Seq<WindowEntry>,
    fg: Option<Seq<char>>,
    newly: Seq<Seq<char>>,
    times: Seq<(String, u64)>,
    now: u64,
) -> bool {
    &&& c.hwnd == w.hwnd
    &&& c.key@ == lowercase(w.info.process_name@)
    &&& fg != Some(c.key@)
    &&& !spec_is_system_window(w.info)
    &&& !w.info.is_owned
    &&& !modal_shielded(ws, w.pid)
    &&& !newly.contains(c.key@)
    &&& lookup(times, c.key@) is Some
    &&& config.spec_resolve(lowercase(c.key@)) == Some(c.rule)
    &&& c.idle_ms >= timeout_ms(c.rule.timeout_mins)
}

/// Some window of `ws` justifies acting for candidate `c`.
pub open spec fn justified_by_some(
    c: Candidate,
    config: Config,
    ws: Seq<WindowEntry>,
    fg: Option<Seq<char>>,
    newly: Seq<Seq<char>>,
    times: Seq<(String, u64)>,
    now: u64,
) -> bool {
    exists|w: WindowEntry| ws.contains(w) && #[trigger] justified_action(c, w, config, ws, fg, newly, times, now)
}

/// Request `r` is justified: it carries out the rule of candidate `i`, whose
/// last-moment check says to act (its window is not fullscreen, still exists, and
/// neither it nor its process is in front), and which describes a justified window.
pub open spec fn justified_request(
    r: WindowRequest,
    cands: Seq<Candidate>,
    checks: Seq<FrontCheck>,
    config: Config,
    ws: Seq<WindowEntry>,
    fg: Option<Seq<char>>,
    newly: Seq<Seq<char>>,
    times: Seq<(String, u64)>,
    now: u64,
) -> bool {
    exists|i: int|
        #[trigger] decided(cands, checks, i, Recheck::Act) && r == request_of(cands[i]) && justified_by_some(
            cands[i],
            config,
            ws,
            fg,
            newly,
            times,
            now,
        )
}

/// A poll only ever asks to minimize or close, by its rule's action, a window it
/// enumerated whose process has been idle for at least its rule's timeout and that
/// the last-moment check did not find fullscreen, gone, or in front; it never touches
/// the foreground process, system windows, owned windows, windows behind a modal
/// dialog, processes that just became managed (their grace period), processes seen
/// for the first time, or unmanaged processes.
pub proof fn lemma_poll_acts_only_on_idle_windows(
    cands: Seq<Candidate>,
    checks: Seq<FrontCheck>,
    ws: Seq<WindowEntry>,
    config: Config,
    fg: Option<Seq<char>>,
    newly: Seq<Seq<char>>,
    times: Seq<(String, u64)>,
    now: u64,
)
    requires
        cands.len() == ws.filter(idle_candidate(config, ws, fg, newly, times, now)).len(),
        forall|k: int|
            0 <= k < cands.len() ==> describes(
                #[trigger] cands[k],
                ws.filter(idle_candidate(config, ws, fg, newly, times, now))[k],
                config,
                times,
                now,
            ),
    ensures
        forall|r: int|
            0 <= r < acted_of(cands, checks).len() ==> #[trigger] justified_request(
                request_of(acted_of(cands, checks)[r]),
                cands,
                checks,
                config,
                ws,
                fg,
                newly,
                times,
                now,
            ),
{
    let pred = idle_candidate(config, ws, fg, newly, times, now);
    let f = ws.filter(pred);
    let acted = acted_of(cands, checks);
    lemma_acted_in(cands, checks);
    assert forall|r: int| 0 <= r < acted.len() implies #[trigger] justified_request(
        request_of(acted[r]),
        cands,
        checks,
        config,
        ws,
        fg,
        newly,
        times,
        now,
    ) by {
        assert(acted_candidate(cands, checks, acted[r]));
        let i = choose|i: int| #[trigger] decided(cands, checks, i, Recheck::Act) && cands[i] == acted[r];
        assert(describes(cands[i], f[i], config, times, now));
        let w = f[i];
        ws.lemma_filter_pred(pred, i);
        assert(f.contains(w));
        ws.lemma_filter_contains_rev(pred, w);
        assert(justified_action(cands[i], w, config, ws, fg, newly, times, now));
        assert(justified_by_some(cands[i], config, ws, fg, newly, times, now));
    }
}

/// Grace period: a process that became managed at this poll is never chosen as a
/// candidate, and when it is visible or in front its idle clock reads `now` once the
/// poll has observed the windows (`before` is the table after `start_poll`, `after`
/// the one after `observe`), so a later poll measures its idleness from this one.
pub proof fn lemma_grace_period(
    before: Seq<(String, u64)>,
    after: Seq<(String, u64)>,
    config: Config,
    ws: Seq<WindowEntry>,
    fg: Option<Seq<char>>,
    newly: Seq<Seq<char>>,
    now: u64,
    k: Seq<char>,
)
    requires
        newly.contains(k),
        lookup(before, k) == Some(now),
        lookup(after, k) == if !(is_user_process(ws, k) || fg == Some(k)) {
            None
        } else if fg == Some(k) {
            Some(now)
        } else {
            lookup(before, k)
        },
    ensures
        is_user_process(ws, k) || fg == Some(k) ==> lookup(after, k) == Some(now),
        forall|j: int|
            0 <= j < ws.len() && lowercase(ws[j].info.process_name@) == k ==> !(#[trigger] (idle_candidate(
                config,
                ws,
                fg,
                newly,
                after,
                now,
            ))(ws[j])),
{
}

/// The activity log never holds more than `ACTION_LOG_CAPACITY` entries, and the
/// action recorded last comes first.
pub proof fn lemma_log_bounded(log: Seq<ActionLogEntry>, es: Seq<ActionLogEntry>)
    requires
        log.len() <= ACTION_LOG_CAPACITY,
    ensures
        record_all(log, es).len() <= ACTION_LOG_CAPACITY,
        es.len() > 0 ==> record_all(log, es)[0] == es.last(),
    decreases es.len(),
{
    if es.len() > 0 {
        lemma_log_bounded(log, es.drop_last());
    }
}

} // verus!
