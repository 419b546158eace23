//! The data the settings window shows: groups with their apps, rules for apps that
//! belong to no group, the managed-app count, and the active-process list.
use vstd::prelude::*;
use crate::config::{
    app_is_customized,
    lists_process,
    list_has_process,
    rule_names,
    Action,
    AppRule,
    Bucket,
    Config,
};
use crate::find::{first_index, is_first, lemma_first_index_at, lemma_first_index_is_first, lemma_first_index_none};
use crate::icons::{process_icon, spec_process_icon};
use crate::monitor::{contains_name, names_of, ActiveWindowSnapshot};
use crate::text::{contains_seq, contains_str, lowercase, to_lower, trim, trimmed};

verus! {

/// Some bucket lists `key` (a lowercased process name).
pub open spec fn in_some_bucket(buckets: Seq<Bucket>, key: Seq<char>) -> bool {
    exists|b: int| 0 <= b < buckets.len() && lists_process((#[trigger] buckets[b]).processes@, key)
}

/// Check if a process exists in any bucket (case-insensitive).
pub fn process_in_any_bucket(config: &Config, process: &str) -> (r: bool)
    ensures
        r == in_some_bucket(config.bucket@, lowercase(process@)),
{
    let lower = to_lower(process);
    let mut b: usize = 0;
    while b < config.bucket.len()
        invariant
            b <= config.bucket.len(),
            lower@ == lowercase(process@),
            forall|j: int| 0 <= j < b ==> !lists_process((#[trigger] config.bucket@[j]).processes@, lower@),
        decreases config.bucket.len() - b,
    {
        if list_has_process(&config.bucket[b].processes, &lower) {
            return true;
        }
        b = b + 1;
    }
    false
}

/// Find the app rule for a process (case-insensitive), if any: the first one.
pub fn find_app_rule<'a>(config: &'a Config, process: &str) -> (r: Option<&'a AppRule>)
    ensures
        match first_index(config.app_rule@, rule_names(lowercase(process@))) {
            Some(i) => r is Some && *r->0 == config.app_rule@[i],
            None => r is None,
        },
{
    match find_app_rule_index(config, process) {
        Some(i) => Some(&config.app_rule[i]),
        None => None,
    }
}

/// The position of the first app rule for a process (case-insensitive), if any.
pub fn find_app_rule_index(config: &Config, process: &str) -> (r: Option<usize>)
    ensures
        match r {
            Some(i) => first_index(config.app_rule@, rule_names(lowercase(process@))) == Some(i as int)
                && i < config.app_rule@.len(),
            None => first_index(config.app_rule@, rule_names(lowercase(process@))) == None::<int>,
        },
{
    let key = to_lower(process);
    let ghost k = key@;
    let mut i: usize = 0;
    while i < config.app_rule.len()
        invariant
            k == key@,
            k == lowercase(process@),
            i <= config.app_rule.len(),
            forall|j: int| 0 <= j < i ==> !(rule_names(k))(#[trigger] config.app_rule@[j]),
        decreases config.app_rule.len() - i,
    {
        if to_lower(config.app_rule[i].process.as_str()) == key {
            proof {
                lemma_first_index_at(config.app_rule@, rule_names(k), i as int);
            }
            return Some(i);
        }
        i = i + 1;
    }
    proof {
        lemma_first_index_none(config.app_rule@, rule_names(k));
    }
    None
}

/// One app row inside a group.
#[derive(Clone, Debug)]
pub struct GroupAppModel {
    pub icon: String,
    pub process: String,
    pub customized: bool,
    pub enabled: bool,
    pub timeout_mins: i32,
    pub action: String,
}

/// One group card.
#[derive(Clone, Debug)]
pub struct GroupModel {
    pub icon: String,
    pub name: String,
    pub enabled: bool,
    pub timeout_mins: i32,
    pub action: String,
    pub apps: Vec<GroupAppModel>,
    pub expanded: bool,
}

/// One rule for an app that no group lists.
#[derive(Clone, Debug)]
pub struct UnassignedRuleModel {
    pub icon: String,
    pub process: String,
    pub timeout_mins: i32,
    pub action: String,
    pub enabled: bool,
}

/// The normalized search text: trimmed, then lowercased.
pub open spec fn search_key(search: Seq<char>) -> Seq<char> {
    lowercase(trimmed(search))
}

/// The group's name matches the search (a blank search matches everything).
pub open spec fn name_matches(b: Bucket, q: Seq<char>) -> bool {
    q.len() == 0 || contains_seq(lowercase(b.name@), q)
}

/// A process of a group is shown: the search is blank, the group's name matches, or
/// the process name contains the search.
pub open spec fn app_shown(name_match: bool, q: Seq<char>) -> spec_fn(String) -> bool {
    |p: String| q.len() == 0 || name_match || contains_seq(lowercase(p@), q)
}

/// The processes of group `b` that are shown for the search `q`.
pub open spec fn shown_apps(b: Bucket, q: Seq<char>) -> Seq<String> {
    b.processes@.filter(app_shown(name_matches(b, q), q))
}

/// The group is shown: the search is blank, its name matches, or one of its apps is
/// shown.
pub open spec fn group_shown(b: Bucket, q: Seq<char>) -> bool {
    q.len() == 0 || name_matches(b, q) || shown_apps(b, q).len() > 0
}

/// `m` is the row for process `p` of group `b`: its own rule's settings if it has
/// one, else the group's; customized only when it has a rule that the group view
/// counts as customized.
pub open spec fn app_row_ok(m: GroupAppModel, config: Config, b: Bucket, p: String) -> bool {
    let key = lowercase(p@);
    &&& m.icon@ == config.spec_icon_for_app(key)
    &&& m.process@ == p@
    &&& match first_index(config.app_rule@, rule_names(key)) {
        Some(i) => {
            let r = config.app_rule@[i];
            &&& m.customized == (r.customized || r.timeout_mins != b.timeout_mins || r.action
                != b.action)
            &&& m.enabled == r.enabled
            &&& m.timeout_mins == r.timeout_mins as i32
            &&& m.action@ == r.action.spec_as_str()
        },
        None => {
            &&& !m.customized
            &&& m.enabled == b.enabled
            &&& m.timeout_mins == b.timeout_mins as i32
            &&& m.action@ == b.action.spec_as_str()
        },
    }
}

/// `m` is the card for group `g` of `config` under search `q`.
pub open spec fn group_card_ok(m: GroupModel, config: Config, g: int, q: Seq<char>) -> bool {
    let b = config.bucket@[g];
    let shown = shown_apps(b, q);
    &&& m.icon@ == config.spec_icon_for_bucket(g)
    &&& m.name@ == b.name@
    &&& m.enabled == b.enabled
    &&& m.timeout_mins == b.timeout_mins as i32
    &&& m.action@ == b.action.spec_as_str()
    &&& m.expanded == b.expanded
    &&& m.apps@.len() == shown.len()
    &&& forall|k: int| 0 <= k < shown.len() ==> app_row_ok(#[trigger] m.apps@[k], config, b, shown[k])
}

/// The positions of the groups shown for the search `q`, in order.
pub open spec fn shown_group_indices(config: Config, q: Seq<char>) -> Seq<int> {
    Seq::new(config.bucket@.len(), |g: int| g).filter(
        |g: int| group_shown(config.bucket@[g], q),
    )
}

fn app_row(config: &Config, b: &Bucket, p: &String) -> (m: GroupAppModel)
    ensures
        app_row_ok(m, *config, *b, *p),
{
    let icon = config.icon_for_app(p.as_str());
    match find_app_rule(config, p.as_str()) {
        Some(r) => GroupAppModel {
            icon,
            process: p.clone(),
            customized: app_is_customized(b, r),
            enabled: r.enabled,
            timeout_mins: r.timeout_mins as i32,
            action: r.action.as_str().to_owned(),
        },
        None => GroupAppModel {
            icon,
            process: p.clone(),
            customized: false,
            enabled: b.enabled,
            timeout_mins: b.timeout_mins as i32,
            action: b.action.as_str().to_owned(),
        },
    }
}

/// Build the group cards for the search text `search`.
pub fn build_groups(config: &Config, search: &str) -> (r: Vec<GroupModel>)
    ensures
        ({
            let q = search_key(search@);
            let idx = shown_group_indices(*config, q);
            &&& r@.len() == idx.len()
            &&& forall|k: int| 0 <= k < idx.len() ==> group_card_ok(#[trigger] r@[k], *config, idx[k], q)
        }),
{
    let q = to_lower(trim(search));
    let ghost qv = q@;
    let ghost all = Seq::new(config.bucket@.len(), |g: int| g);
    let ghost keep = |g: int| group_shown(config.bucket@[g], qv);
    let blank = q.as_str().is_empty();
    let mut out: Vec<GroupModel> = Vec::new();
    let mut g: usize = 0;
    while g < config.bucket.len()
        invariant
            g <= config.bucket.len(),
            qv == q@,
            qv == search_key(search@),
            blank == (qv.len() == 0),
            all == Seq::new(config.bucket@.len(), |g: int| g),
            keep == (|g: int| group_shown(config.bucket@[g], qv)),
            out@.len() == all.take(g as int).filter(keep).len(),
            forall|k: int|
                0 <= k < out@.len() ==> group_card_ok(
                    #[trigger] out@[k],
                    *config,
                    all.take(g as int).filter(keep)[k],
                    qv,
                ),
        decreases config.bucket.len() - g,
    {
        let b = &config.bucket[g];
        let name_match = blank || contains_str(to_lower(b.name.as_str()).as_str(), q.as_str());
        let ghost sp = app_shown(name_match, qv);
        let mut apps: Vec<GroupAppModel> = Vec::new();
        let mut a: usize = 0;
        while a < b.processes.len()
            invariant
                a <= b.processes.len(),
                g < config.bucket.len(),
                *b == config.bucket@[g as int],
                qv == q@,
                blank == (qv.len() == 0),
                name_match == name_matches(*b, qv),
                sp == app_shown(name_match, qv),
                apps@.len() == b.processes@.take(a as int).filter(sp).len(),
                forall|k: int|
                    0 <= k < apps@.len() ==> app_row_ok(
                        #[trigger] apps@[k],
                        *config,
                        *b,
                        b.processes@.take(a as int).filter(sp)[k],
                    ),
            decreases b.processes.len() - a,
        {
            let p = &b.processes[a];
            let show = blank || name_match || contains_str(to_lower(p.as_str()).as_str(), q.as_str());
            let ghost apps0 = apps@;
            if show {
                apps.push(app_row(config, b, p));
            }
            proof {
                reveal_with_fuel(Seq::<_>::filter, 1);
                let t1 = b.processes@.take(a + 1);
                let t0 = b.processes@.take(a as int);
                assert(t1.drop_last() =~= t0);
                assert(t1.last() == *p);
                assert(show == sp(*p));
                if show {
                    assert(t1.filter(sp) == t0.filter(sp).push(*p));
                    assert forall|k: int| 0 <= k < apps@.len() implies app_row_ok(
                        #[trigger] apps@[k],
                        *config,
                        *b,
                        t1.filter(sp)[k],
                    ) by {
                        if k < apps0.len() {
                            assert(apps@[k] == apps0[k]);
                            assert(t1.filter(sp)[k] == t0.filter(sp)[k]);
                        }
                    }
                } else {
                    assert(t1.filter(sp) == t0.filter(sp));
                }
            }
            a = a + 1;
        }
        proof {
            assert(b.processes@.take(b.processes.len() as int) =~= b.processes@);
            assert(shown_apps(*b, qv) == b.processes@.filter(sp));
        }
        let ghost out0 = out@;
        let shown = blank || name_match || apps.len() > 0;
        if shown {
            out.push(
                GroupModel {
                    icon: config.icon_for_bucket(g),
                    name: b.name.clone(),
                    enabled: b.enabled,
                    timeout_mins: b.timeout_mins as i32,
                    action: b.action.as_str().to_owned(),
                    apps: apps,
                    expanded: b.expanded,
                },
            );
        }
        proof {
            reveal_with_fuel(Seq::<_>::filter, 1);
            let t1 = all.take(g + 1);
            let t0 = all.take(g as int);
            assert(t1.drop_last() =~= t0);
            assert(t1.last() == g as int);
            assert(shown == keep(g as int));
            if shown {
                assert(t1.filter(keep) == t0.filter(keep).push(g as int));
                assert(group_card_ok(out@[out0.len() as int], *config, g as int, qv));
                assert forall|k: int| 0 <= k < out@.len() implies group_card_ok(
                    #[trigger] out@[k],
                    *config,
                    t1.filter(keep)[k],
                    qv,
                ) by {
                    if k < out0.len() {
                        assert(out@[k] == out0[k]);
                        assert(t1.filter(keep)[k] == t0.filter(keep)[k]);
                    }
                }
            } else {
                assert(t1.filter(keep) == t0.filter(keep));
            }
        }
        g = g + 1;
    }
    assert(all.take(config.bucket.len() as int) =~= all);
    out
}

/// An app rule whose process no group lists.
pub open spec fn unassigned(config: Config) -> spec_fn(AppRule) -> bool {
    |r: AppRule| !in_some_bucket(config.bucket@, lowercase(r.process@))
}

/// The app rules whose process no group lists, in order.
pub open spec fn unassigned_rules(config: Config) -> Seq<AppRule> {
    config.app_rule@.filter(unassigned(config))
}

/// An unassigned rule shown for the search `q`.
pub open spec fn unassigned_shown(config: Config, q: Seq<char>) -> spec_fn(AppRule) -> bool {
    |r: AppRule|
        !in_some_bucket(config.bucket@, lowercase(r.process@)) && (q.len() == 0 || contains_seq(
            lowercase(r.process@),
            q,
        ))
}

/// `m` is the row for unassigned rule `r`.
pub open spec fn unassigned_row_ok(m: UnassignedRuleModel, config: Config, r: AppRule) -> bool {
    &&& m.icon@ == config.spec_icon_for_app(lowercase(r.process@))
    &&& m.process@ == r.process@
    &&& m.timeout_mins == r.timeout_mins as i32
    &&& m.action@ == r.action.spec_as_str()
    &&& m.enabled == r.enabled
}

/// Build the rows for app rules whose process no group lists, for the search text
/// `search`.
pub fn build_unassigned_rules(config: &Config, search: &str) -> (r: Vec<UnassignedRuleModel>)
    ensures
        ({
            let sel = config.app_rule@.filter(unassigned_shown(*config, search_key(search@)));
            &&& r@.len() == sel.len()
            &&& forall|k: int| 0 <= k < sel.len() ==> unassigned_row_ok(#[trigger] r@[k], *config, sel[k])
        }),
{
    let q = to_lower(trim(search));
    let ghost p = unassigned_shown(*config, q@);
    let blank = q.as_str().is_empty();
    let mut out: Vec<UnassignedRuleModel> = Vec::new();
    let mut i: usize = 0;
    while i < config.app_rule.len()
        invariant
            i <= config.app_rule.len(),
            q@ == search_key(search@),
            blank == (q@.len() == 0),
            p == unassigned_shown(*config, q@),
            out@.len() == config.app_rule@.take(i as int).filter(p).len(),
            forall|k: int|
                0 <= k < out@.len() ==> unassigned_row_ok(
                    #[trigger] out@[k],
                    *config,
                    config.app_rule@.take(i as int).filter(p)[k],
                ),
        decreases config.app_rule.len() - i,
    {
        let r = &config.app_rule[i];
        let show = !process_in_any_bucket(config, r.process.as_str()) && (blank || contains_str(
            to_lower(r.process.as_str()).as_str(),
            q.as_str(),
        ));
        let ghost out0 = out@;
        if show {
            out.push(
                UnassignedRuleModel {
                    icon: config.icon_for_app(r.process.as_str()),
                    process: r.process.clone(),
                    timeout_mins: r.timeout_mins as i32,
                    action: r.action.as_str().to_owned(),
                    enabled: r.enabled,
                },
            );
        }
        proof {
            reveal_with_fuel(Seq::<_>::filter, 1);
            let t1 = config.app_rule@.take(i + 1);
            let t0 = config.app_rule@.take(i as int);
            assert(t1.drop_last() =~= t0);
            assert(t1.last() == *r);
            assert(show == p(*r));
            if show {
                assert(t1.filter(p) == t0.filter(p).push(*r));
                assert forall|k: int| 0 <= k < out@.len() implies unassigned_row_ok(
                    #[trigger] out@[k],
                    *config,
                    t1.filter(p)[k],
                ) by {
                    if k < out0.len() {
                        assert(out@[k] == out0[k]);
                        assert(t1.filter(p)[k] == t0.filter(p)[k]);
                    }
                }
            } else {
                assert(t1.filter(p) == t0.filter(p));
            }
        }
        i = i + 1;
    }
    assert(config.app_rule@.take(config.app_rule.len() as int) =~= config.app_rule@);
    out
}

/// A process of an enabled group counts as managed unless its own rule is disabled.
pub open spec fn counted_app(config: Config) -> spec_fn(String) -> bool {
    |p: String|
        match first_index(config.app_rule@, rule_names(lowercase(p@))) {
            Some(i) => config.app_rule@[i].enabled,
            None => true,
        }
}

/// The managed count agrees with rule resolution: a process listed by an enabled
/// group is counted exactly when it has an effective rule (its first app rule, when
/// it has one, is enabled).
pub proof fn lemma_counted_iff_managed(config: Config, b: int, k: int)
    requires
        0 <= b < config.bucket@.len(),
        config.bucket@[b].enabled,
        0 <= k < config.bucket@[b].processes@.len(),
    ensures
        (counted_app(config))(config.bucket@[b].processes@[k]) == config.spec_resolve(
            lowercase(config.bucket@[b].processes@[k]@),
        ) is Some,
{
    let key = lowercase(config.bucket@[b].processes@[k]@);
    assert(lists_process(config.bucket@[b].processes@, key));
    assert((crate::config::bucket_governs(key))(config.bucket@[b]));
}

/// The number of counted apps in the first `n` groups (disabled groups count none).
pub open spec fn group_app_count(config: Config, n: int) -> int
    decreases n,
{
    if n <= 0 {
        0
    } else {
        group_app_count(config, n - 1) + if config.bucket@[n - 1].enabled {
            config.bucket@[n - 1].processes@.filter(counted_app(config)).len() as int
        } else {
            0
        }
    }
}

/// The enabled rules whose process no group lists.
pub open spec fn counted_unassigned(config: Config) -> spec_fn(AppRule) -> bool {
    |r: AppRule| r.enabled && !in_some_bucket(config.bucket@, lowercase(r.process@))
}

/// A rule counts as an unassigned managed app only when it is enabled and no group
/// lists its process; for the first rule naming a process no group lists, that is
/// exactly when the process has an effective rule. So disabled rules never add to the
/// managed count.
pub proof fn lemma_unassigned_counted_iff_enabled(config: Config, i: int)
    requires
        0 <= i < config.app_rule@.len(),
    ensures
        (counted_unassigned(config))(config.app_rule@[i]) ==> config.app_rule@[i].enabled,
        (counted_unassigned(config))(config.app_rule@[i]) ==> !in_some_bucket(
            config.bucket@,
            lowercase(config.app_rule@[i].process@),
        ),
        is_first(config.app_rule@, rule_names(lowercase(config.app_rule@[i].process@)), i) ==> (
        (counted_unassigned(config))(config.app_rule@[i]) <==> (!in_some_bucket(
            config.bucket@,
            lowercase(config.app_rule@[i].process@),
        ) && config.spec_resolve(lowercase(config.app_rule@[i].process@)) is Some)),
{
    let key = lowercase(config.app_rule@[i].process@);
    if is_first(config.app_rule@, rule_names(key), i) {
        lemma_first_index_at(config.app_rule@, rule_names(key), i);
    }
}

/// Total managed apps: counted apps of enabled groups plus enabled unassigned rules.
pub open spec fn spec_count_managed(config: Config) -> int {
    group_app_count(config, config.bucket@.len() as int) + config.app_rule@.filter(
        counted_unassigned(config),
    ).len()
}

/// Count total managed apps (enabled bucket apps + enabled unassigned rules), as
/// shown in the window (truncated to an `i32`).
pub fn count_managed(config: &Config) -> (r: i32)
    ensures
        r == spec_count_managed(*config) as i32,
{
    let mut total: u128 = 0;
    let mut b: usize = 0;
    while b < config.bucket.len()
        invariant
            b <= config.bucket.len(),
            total == group_app_count(*config, b as int),
            total <= b * (usize::MAX as int),
        decreases config.bucket.len() - b,
    {
        let bucket = &config.bucket[b];
        if bucket.enabled {
            let ghost p = counted_app(*config);
            let mut n: usize = 0;
            let mut k: usize = 0;
            while k < bucket.processes.len()
                invariant
                    k <= bucket.processes.len(),
                    b < config.bucket.len(),
                    *bucket == config.bucket@[b as int],
                    p == counted_app(*config),
                    n == bucket.processes@.take(k as int).filter(p).len(),
                    n <= k,
                decreases bucket.processes.len() - k,
            {
                let counted = match find_app_rule(config, bucket.processes[k].as_str()) {
                    Some(rule) => rule.enabled,
                    None => true,
                };
                proof {
                    reveal_with_fuel(Seq::<_>::filter, 1);
                    let t1 = bucket.processes@.take(k + 1);
                    let t0 = bucket.processes@.take(k as int);
                    assert(t1.drop_last() =~= t0);
                    assert(t1.last() == bucket.processes@[k as int]);
                    assert(counted == p(bucket.processes@[k as int]));
                }
                if counted {
                    n = n + 1;
                }
                k = k + 1;
            }
            assert(bucket.processes@.take(bucket.processes.len() as int) =~= bucket.processes@);
            total = total + n as u128;
        }
        b = b + 1;
    }
    let ghost pu = counted_unassigned(*config);
    let mut u: usize = 0;
    let mut i: usize = 0;
    while i < config.app_rule.len()
        invariant
            i <= config.app_rule.len(),
            pu == counted_unassigned(*config),
            u == config.app_rule@.take(i as int).filter(pu).len(),
            u <= i,
        decreases config.app_rule.len() - i,
    {
        let r = &config.app_rule[i];
        let counted = r.enabled && !process_in_any_bucket(config, r.process.as_str());
        proof {
            reveal_with_fuel(Seq::<_>::filter, 1);
            let t1 = config.app_rule@.take(i + 1);
            let t0 = config.app_rule@.take(i as int);
            assert(t1.drop_last() =~= t0);
            assert(t1.last() == *r);
            assert(counted == pu(*r));
        }
        if counted {
            u = u + 1;
        }
        i = i + 1;
    }
    assert(config.app_rule@.take(config.app_rule.len() as int) =~= config.app_rule@);
    let sum: u128 = total + u as u128;
    sum as i32
}

/// One row of the active-process list.
#[derive(Clone, Debug)]
pub struct ActiveProcessModel {
    pub icon: String,
    pub process: String,
    pub managed: bool,
}

/// The snapshot's process is on the hidden list.
pub open spec fn hidden_snapshot(config: Config, s: ActiveWindowSnapshot) -> bool {
    lists_process(config.general.hidden_processes@, lowercase(s.process@))
}

/// Snapshot `i` is listed: its process is not hidden, and no earlier visible snapshot
/// has the same (lowercased) process name.
pub open spec fn listed_snapshot(config: Config, snaps: Seq<ActiveWindowSnapshot>, i: int) -> bool {
    &&& !hidden_snapshot(config, snaps[i])
    &&& forall|j: int|
        0 <= j < i ==> !(!hidden_snapshot(config, #[trigger] snaps[j]) && lowercase(snaps[j].process@)
            == lowercase(snaps[i].process@))
}

/// The positions of the listed snapshots, in order.
pub open spec fn listed_indices(config: Config, snaps: Seq<ActiveWindowSnapshot>) -> Seq<int> {
    Seq::new(snaps.len(), |i: int| i).filter(|i: int| listed_snapshot(config, snaps, i))
}

/// `m` is the row for snapshot `s`.
pub open spec fn active_row_ok(m: ActiveProcessModel, config: Config, s: ActiveWindowSnapshot) -> bool {
    &&& m.icon@ == spec_process_icon(lowercase(s.process@))
    &&& m.process@ == s.process@
    &&& m.managed == config.spec_resolve(lowercase(s.process@)) is Some
}

/// The active-process list: snapshots whose process is not hidden, one row per
/// process (the first snapshot of each, compared lowercased).
pub fn active_process_models(config: &Config, snaps: &Vec<ActiveWindowSnapshot>) -> (r: Vec<
    ActiveProcessModel,
>)
    ensures
        ({
            let idx = listed_indices(*config, snaps@);
            &&& r@.len() == idx.len()
            &&& forall|k: int| 0 <= k < idx.len() ==> active_row_ok(#[trigger] r@[k], *config, snaps@[idx[k]])
        }),
{
    let ghost all = Seq::new(snaps@.len(), |i: int| i);
    let ghost keep = |i: int| listed_snapshot(*config, snaps@, i);
    let mut seen: Vec<String> = Vec::new();
    let mut out: Vec<ActiveProcessModel> = Vec::new();
    let mut i: usize = 0;
    while i < snaps.len()
        invariant
            i <= snaps.len(),
            all == Seq::new(snaps@.len(), |i: int| i),
            keep == (|i: int| listed_snapshot(*config, snaps@, i)),
            forall|x: Seq<char>| #[trigger] names_of(seen@).contains(x) <==> exists|j: int|
                0 <= j < i && !hidden_snapshot(*config, #[trigger] snaps@[j]) && lowercase(
                    snaps@[j].process@,
                ) == x,
            out@.len() == all.take(i as int).filter(keep).len(),
            forall|k: int|
                0 <= k < out@.len() ==> active_row_ok(
                    #[trigger] out@[k],
                    *config,
                    snaps@[all.take(i as int).filter(keep)[k]],
                ),
        decreases snaps.len() - i,
    {
        let sn = &snaps[i];
        let ghost out0 = out@;
        let ghost seen0 = names_of(seen@);
        let hidden = config.is_hidden(sn.process.as_str());
        let key = to_lower(sn.process.as_str());
        let mut listed = false;
        if !hidden && !contains_name(&seen, &key) {
            seen.push(key);
            out.push(
                ActiveProcessModel {
                    icon: process_icon(sn.process.as_str()).to_owned(),
                    process: sn.process.clone(),
                    managed: config.resolve_process(sn.process.as_str()).is_some(),
                },
            );
            listed = true;
        }
        proof {
            let lk = lowercase(sn.process@);
            assert(hidden == hidden_snapshot(*config, snaps@[i as int]));
            assert(listed == keep(i as int)) by {
                if !hidden && seen0.contains(lk) {
                    let j = choose|j: int|
                        0 <= j < i && !hidden_snapshot(*config, #[trigger] snaps@[j]) && lowercase(
                            snaps@[j].process@,
                        ) == lk;
                    assert(!listed_snapshot(*config, snaps@, i as int));
                }
                if !hidden && !seen0.contains(lk) {
                    assert forall|j: int| 0 <= j < i implies !(!hidden_snapshot(
                        *config,
                        #[trigger] snaps@[j],
                    ) && lowercase(snaps@[j].process@) == lowercase(snaps@[i as int].process@)) by {}
                }
            }
            assert forall|x: Seq<char>| #[trigger] names_of(seen@).contains(x) <==> exists|j: int|
                0 <= j < i + 1 && !hidden_snapshot(*config, #[trigger] snaps@[j]) && lowercase(
                    snaps@[j].process@,
                ) == x by {
                if listed {
                    assert(names_of(seen@) == seen0.push(lk));
                    if seen0.contains(x) {
                        let w = choose|w: int| 0 <= w < seen0.len() && seen0[w] == x;
                        assert(names_of(seen@)[w] == x);
                    }
                    if x == lk {
                        assert(names_of(seen@)[seen0.len() as int] == x);
                    }
                } else {
                    assert(names_of(seen@) == seen0);
                    if !hidden && x == lk {
                        assert(seen0.contains(x));
                    }
                }
            }
            reveal_with_fuel(Seq::<_>::filter, 1);
            let t1 = all.take(i + 1);
            let t0 = all.take(i as int);
            assert(t1.drop_last() =~= t0);
            assert(t1.last() == i as int);
            if listed {
                assert(t1.filter(keep) == t0.filter(keep).push(i as int));
                assert forall|k: int| 0 <= k < out@.len() implies active_row_ok(
                    #[trigger] out@[k],
                    *config,
                    snaps@[t1.filter(keep)[k]],
                ) by {
                    if k < out0.len() {
                        assert(out@[k] == out0[k]);
                        assert(t1.filter(keep)[k] == t0.filter(keep)[k]);
                    }
                }
            } else {
                assert(t1.filter(keep) == t0.filter(keep));
            }
        }
        i = i + 1;
    }
    assert(all.take(snaps.len() as int) =~= all);
    out
}

} // verus!
