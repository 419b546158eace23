//! Edits the settings window makes to the configuration. Each returns whether the
//! configuration changed (and so must be saved); the window refreshes as it did
//! before.
use vstd::prelude::*;
use crate::config::{bucket_governs, lists_process, rule_names, Action, AppRule, Bucket, Config, ResolvedRule, RuleSource};
use crate::find::{first_index, lemma_first_index_push};
use crate::overview::{find_app_rule_index, process_in_any_bucket, unassigned, unassigned_rules, in_some_bucket};
use crate::text::{eq_ignore_ascii_case, eq_ignore_ascii_case_spec, lowercase, to_lower, trim, trimmed};

verus! {

/// Some entry of `procs` equals `p` up to ASCII case.
pub open spec fn has_ascii_match(procs: Seq<String>, p: Seq<char>) -> bool {
    exists|k: int| 0 <= k < procs.len() && eq_ignore_ascii_case_spec((#[trigger] procs[k])@, p)
}

/// Whether some entry of `procs` equals `p` up to ASCII case.
pub fn any_ascii_match(procs: &Vec<String>, p: &str) -> (r: bool)
    ensures
        r == has_ascii_match(procs@, p@),
{
    let mut k: usize = 0;
    while k < procs.len()
        invariant
            k <= procs.len(),
            forall|j: int| 0 <= j < k ==> !eq_ignore_ascii_case_spec((#[trigger] procs@[j])@, p@),
        decreases procs.len() - k,
    {
        if eq_ignore_ascii_case(procs[k].as_str(), p) {
            return true;
        }
        k = k + 1;
    }
    false
}

/// Some app rule's process equals `p` up to ASCII case.
pub open spec fn has_rule_ascii_match(rules: Seq<AppRule>, p: Seq<char>) -> bool {
    exists|k: int| 0 <= k < rules.len() && eq_ignore_ascii_case_spec((#[trigger] rules[k]).process@, p)
}

fn any_rule_ascii_match(rules: &Vec<AppRule>, p: &str) -> (r: bool)
    ensures
        r == has_rule_ascii_match(rules@, p@),
{
    let mut k: usize = 0;
    while k < rules.len()
        invariant
            k <= rules.len(),
            forall|j: int| 0 <= j < k ==> !eq_ignore_ascii_case_spec((#[trigger] rules@[j]).process@, p@),
        decreases rules.len() - k,
    {
        if eq_ignore_ascii_case(rules[k].process.as_str(), p) {
            return true;
        }
        k = k + 1;
    }
    false
}

/// An app rule whose process is not `key` (compared lowercased).
pub open spec fn not_named(key: Seq<char>) -> spec_fn(AppRule) -> bool {
    |r: AppRule| lowercase(r.process@) != key
}

/// `r` is a fresh app rule for process `p` with the given settings, no icon.
pub open spec fn is_new_rule(r: AppRule, p: String, timeout: u64, action: Action, enabled: bool, customized: bool) -> bool {
    &&& r.process == p
    &&& r.timeout_mins == timeout
    &&& r.action == action
    &&& r.enabled == enabled
    &&& r.icon is None
    &&& r.customized == customized
}

/// `new` is `old` with `r` appended.
pub open spec fn appended(new: Seq<AppRule>, old: Seq<AppRule>) -> bool {
    new.len() == old.len() + 1 && new.take(old.len() as int) == old
}

/// The app rules after customizing process `p` of group `b`: its first rule (compared
/// lowercased) is flagged as customized, or, when it has none, a customized rule with
/// the group's timeout and action is appended.
pub open spec fn customized_rules(rules: Seq<AppRule>, b: Bucket, p: String) -> Seq<AppRule> {
    match first_index(rules, rule_names(lowercase(p@))) {
        Some(i) => rules.update(i, AppRule { customized: true, ..rules[i] }),
        None => rules.push(
            AppRule {
                process: p,
                timeout_mins: b.timeout_mins,
                action: b.action,
                enabled: true,
                icon: None,
                customized: true,
            },
        ),
    }
}

impl Config {
    /// Enable or disable group `idx` (nothing happens when there is no such group).
    pub fn toggle_group(&mut self, idx: usize, enabled: bool) -> (changed: bool)
        ensures
            changed == (idx < old(self).bucket@.len()),
            final(self).general == old(self).general,
            final(self).app_rule == old(self).app_rule,
            final(self).bucket@ == if changed {
                old(self).bucket@.update(idx as int, Bucket { enabled, ..old(self).bucket@[idx as int] })
            } else {
                old(self).bucket@
            },
    {
        if idx < self.bucket.len() {
            self.bucket[idx].enabled = enabled;
            true
        } else {
            false
        }
    }

    /// Set the timeout (minutes) of group `idx`.
    pub fn update_group_timeout(&mut self, idx: usize, mins: u64) -> (changed: bool)
        ensures
            changed == (idx < old(self).bucket@.len()),
            final(self).general == old(self).general,
            final(self).app_rule == old(self).app_rule,
            final(self).bucket@ == if changed {
                old(self).bucket@.update(
                    idx as int,
                    Bucket { timeout_mins: mins, ..old(self).bucket@[idx as int] },
                )
            } else {
                old(self).bucket@
            },
    {
        if idx < self.bucket.len() {
            self.bucket[idx].timeout_mins = mins;
            true
        } else {
            false
        }
    }

    /// Set the action of group `idx` from its name.
    pub fn update_group_action(&mut self, idx: usize, action: &str) -> (changed: bool)
        ensures
            changed == (idx < old(self).bucket@.len()),
            final(self).general == old(self).general,
            final(self).app_rule == old(self).app_rule,
            final(self).bucket@ == if changed {
                old(self).bucket@.update(
                    idx as int,
                    Bucket { action: Action::spec_from_str(action@), ..old(self).bucket@[idx as int] },
                )
            } else {
                old(self).bucket@
            },
    {
        if idx < self.bucket.len() {
            self.bucket[idx].action = Action::from_str(action);
            true
        } else {
            false
        }
    }

    /// Flip whether group `idx` is shown expanded.
    pub fn toggle_group_expanded(&mut self, idx: usize) -> (changed: bool)
        ensures
            changed == (idx < old(self).bucket@.len()),
            final(self).general == old(self).general,
            final(self).app_rule == old(self).app_rule,
            final(self).bucket@ == if changed {
                old(self).bucket@.update(
                    idx as int,
                    Bucket {
                        expanded: !old(self).bucket@[idx as int].expanded,
                        ..old(self).bucket@[idx as int]
                    },
                )
            } else {
                old(self).bucket@
            },
    {
        if idx < self.bucket.len() {
            let e = self.bucket[idx].expanded;
            self.bucket[idx].expanded = !e;
            true
        } else {
            false
        }
    }

    /// Set the icon override of group `idx`.
    pub fn set_group_icon(&mut self, idx: usize, glyph: &str) -> (changed: bool)
        ensures
            changed == (idx < old(self).bucket@.len()),
            final(self).general == old(self).general,
            final(self).app_rule == old(self).app_rule,
            final(self).bucket@.len() == old(self).bucket@.len(),
            forall|j: int| 0 <= j < old(self).bucket@.len() && j != idx ==> #[trigger] final(self).bucket@[j] == old(self).bucket@[j],
            changed ==> {
                let nb = final(self).bucket@[idx as int];
                let ob = old(self).bucket@[idx as int];
                &&& nb.icon matches Some(s) && s@ == glyph@
                &&& nb == Bucket { icon: nb.icon, ..ob }
            },
    {
        if idx < self.bucket.len() {
            self.bucket[idx].icon = Some(glyph.to_owned());
            true
        } else {
            false
        }
    }

    /// Rename group `idx` to `new_name` with surrounding white space removed; a blank
    /// name is refused.
    pub fn rename_group(&mut self, idx: usize, new_name: &str) -> (changed: bool)
        ensures
            changed == (idx < old(self).bucket@.len() && trimmed(new_name@).len() > 0),
            final(self).general == old(self).general,
            final(self).app_rule == old(self).app_rule,
            final(self).bucket@.len() == old(self).bucket@.len(),
            forall|j: int| 0 <= j < old(self).bucket@.len() && (j != idx || !changed) ==> #[trigger] final(self).bucket@[j] == old(self).bucket@[j],
            changed ==> {
                let nb = final(self).bucket@[idx as int];
                let ob = old(self).bucket@[idx as int];
                &&& nb.name@ == trimmed(new_name@)
                &&& nb == Bucket { name: nb.name, ..ob }
            },
    {
        let t = trim(new_name);
        if t.is_empty() {
            return false;
        }
        if idx < self.bucket.len() {
            self.bucket[idx].name = t.to_owned();
            true
        } else {
            false
        }
    }

    /// Remove process `a` from group `g`.
    pub fn remove_from_group(&mut self, g: usize, a: usize) -> (changed: bool)
        ensures
            changed == (g < old(self).bucket@.len() && a < old(self).bucket@[g as int].processes@.len()),
            final(self).general == old(self).general,
            final(self).app_rule == old(self).app_rule,
            final(self).bucket@.len() == old(self).bucket@.len(),
            forall|j: int| 0 <= j < old(self).bucket@.len() && (j != g || !changed) ==> #[trigger] final(self).bucket@[j] == old(self).bucket@[j],
            changed ==> {
                let nb = final(self).bucket@[g as int];
                let ob = old(self).bucket@[g as int];
                &&& nb.processes@ == ob.processes@.remove(a as int)
                &&& nb == Bucket { processes: nb.processes, ..ob }
            },
    {
        if g >= self.bucket.len() || a >= self.bucket[g].processes.len() {
            return false;
        }
        let _ = self.bucket[g].processes.remove(a);
        true
    }

    /// Move process `a` of group `from` to group `to`: it leaves `from`, and joins `to`
    /// unless `to` already lists it (compared up to ASCII case).
    pub fn move_app(&mut self, from: usize, a: usize, to: usize) -> (changed: bool)
        ensures
            changed == (from != to && from < old(self).bucket@.len() && to < old(self).bucket@.len()
                && a < old(self).bucket@[from as int].processes@.len()),
            final(self).general == old(self).general,
            final(self).app_rule == old(self).app_rule,
            final(self).bucket@.len() == old(self).bucket@.len(),
            forall|j: int| 0 <= j < old(self).bucket@.len() && (!changed || (j != from && j != to)) ==> #[trigger] final(self).bucket@[j] == old(self).bucket@[j],
            changed ==> {
                let ob_from = old(self).bucket@[from as int];
                let ob_to = old(self).bucket@[to as int];
                let nb_from = final(self).bucket@[from as int];
                let nb_to = final(self).bucket@[to as int];
                let p = ob_from.processes@[a as int];
                &&& nb_from.processes@ == ob_from.processes@.remove(a as int)
                &&& nb_from == Bucket { processes: nb_from.processes, ..ob_from }
                &&& nb_to.processes@ == if has_ascii_match(ob_to.processes@, p@) {
                    ob_to.processes@
                } else {
                    ob_to.processes@.push(p)
                }
                &&& nb_to == Bucket { processes: nb_to.processes, ..ob_to }
            },
    {
        if from == to {
            return false;
        }
        if from >= self.bucket.len() || to >= self.bucket.len() {
            return false;
        }
        if a >= self.bucket[from].processes.len() {
            return false;
        }
        let process = self.bucket[from].processes.remove(a);
        let already_there = any_ascii_match(&self.bucket[to].processes, process.as_str());
        if !already_there {
            self.bucket[to].processes.push(process);
        }
        true
    }

    /// Add `process` to group `g` unless it is blank or the group already lists it
    /// (compared up to ASCII case).
    pub fn add_app_to_group(&mut self, g: usize, process: &str) -> (changed: bool)
        ensures
            changed == (process@.len() > 0 && g < old(self).bucket@.len() && !has_ascii_match(
                old(self).bucket@[g as int].processes@,
                process@,
            )),
            final(self).general == old(self).general,
            final(self).app_rule == old(self).app_rule,
            final(self).bucket@.len() == old(self).bucket@.len(),
            forall|j: int| 0 <= j < old(self).bucket@.len() && (j != g || !changed) ==> #[trigger] final(self).bucket@[j] == old(self).bucket@[j],
            changed ==> {
                let nb = final(self).bucket@[g as int];
                let ob = old(self).bucket@[g as int];
                &&& nb.processes@.len() == ob.processes@.len() + 1
                &&& nb.processes@.take(ob.processes@.len() as int) == ob.processes@
                &&& nb.processes@.last()@ == process@
                &&& nb == Bucket { processes: nb.processes, ..ob }
            },
    {
        if process.is_empty() {
            return false;
        }
        if g < self.bucket.len() {
            let already = any_ascii_match(&self.bucket[g].processes, process);
            if !already {
                let ghost before = self.bucket@[g as int].processes@;
                self.bucket[g].processes.push(process.to_owned());
                assert(self.bucket@[g as int].processes@.take(before.len() as int) =~= before);
                return true;
            }
        }
        false
    }

    /// Keep only the app rules whose process is not `key` (compared lowercased).
    pub fn remove_rules_named(&mut self, key: &String)
        ensures
            final(self).general == old(self).general,
            final(self).bucket == old(self).bucket,
            final(self).app_rule@ == old(self).app_rule@.filter(not_named(key@)),
    {
        let ghost p = not_named(key@);
        let ghost r0 = self.app_rule@;
        let mut kept: Vec<AppRule> = Vec::new();
        let mut i: usize = 0;
        while i < self.app_rule.len()
            invariant
                i <= self.app_rule.len(),
                self.app_rule@ == r0,
                p == not_named(key@),
                kept@ == r0.take(i as int).filter(p),
            decreases self.app_rule.len() - i,
        {
            let keep = to_lower(self.app_rule[i].process.as_str()) != *key;
            if keep {
                kept.push(copy_rule(&self.app_rule[i]));
            }
            proof {
                reveal_with_fuel(Seq::<_>::filter, 1);
                let t1 = r0.take(i + 1);
                assert(t1.drop_last() =~= r0.take(i as int));
                assert(t1.last() == r0[i as int]);
                assert(keep == p(r0[i as int]));
            }
            i = i + 1;
        }
        assert(r0.take(r0.len() as int) =~= r0);
        self.app_rule = kept;
    }

    /// Customize process `a` of group `g`: flag its rule as customized, or create a
    /// customized rule copying the group's timeout and action.
    pub fn customize_app(&mut self, g: usize, a: usize) -> (changed: bool)
        ensures
            changed == (g < old(self).bucket@.len() && a < old(self).bucket@[g as int].processes@.len()),
            final(self).general == old(self).general,
            final(self).bucket == old(self).bucket,
            !changed ==> final(self).app_rule == old(self).app_rule,
            changed ==> final(self).app_rule@ == customized_rules(
                old(self).app_rule@,
                old(self).bucket@[g as int],
                old(self).bucket@[g as int].processes@[a as int],
            ),
    {
        if g < self.bucket.len() && a < self.bucket[g].processes.len() {
            let process = self.bucket[g].processes[a].clone();
            let timeout_mins = self.bucket[g].timeout_mins;
            let action = self.bucket[g].action;
            match find_app_rule_index(self, process.as_str()) {
                Some(i) => {
                    self.app_rule[i].customized = true;
                },
                None => {
                    let ghost before = self.app_rule@;
                    self.app_rule.push(
                        AppRule {
                            process,
                            timeout_mins,
                            action,
                            enabled: true,
                            icon: None,
                            customized: true,
                        },
                    );
                },
            }
            true
        } else {
            false
        }
    }

    /// Return process `a` of group `g` to the group's settings: delete every app rule
    /// for it.
    pub fn reset_app_to_group(&mut self, g: usize, a: usize) -> (changed: bool)
        ensures
            changed == (g < old(self).bucket@.len() && a < old(self).bucket@[g as int].processes@.len()),
            final(self).general == old(self).general,
            final(self).bucket == old(self).bucket,
            final(self).app_rule@ == if changed {
                old(self).app_rule@.filter(
                    not_named(lowercase(old(self).bucket@[g as int].processes@[a as int]@)),
                )
            } else {
                old(self).app_rule@
            },
    {
        if g < self.bucket.len() && a < self.bucket[g].processes.len() {
            let key = to_lower(self.bucket[g].processes[a].as_str());
            self.remove_rules_named(&key);
            true
        } else {
            false
        }
    }

    /// Set the timeout of the rule for process `a` of group `g`, when it has one.
    pub fn update_app_timeout(&mut self, g: usize, a: usize, mins: u64) -> (changed: bool)
        ensures
            final(self).general == old(self).general,
            final(self).bucket == old(self).bucket,
            changed == (g < old(self).bucket@.len() && a < old(self).bucket@[g as int].processes@.len()
                && first_index(
                old(self).app_rule@,
                rule_names(lowercase(old(self).bucket@[g as int].processes@[a as int]@)),
            ) is Some),
            !changed ==> final(self).app_rule == old(self).app_rule,
            changed ==> {
                let i = first_index(
                    old(self).app_rule@,
                    rule_names(lowercase(old(self).bucket@[g as int].processes@[a as int]@)),
                )->0;
                final(self).app_rule@ == old(self).app_rule@.update(
                    i,
                    AppRule { timeout_mins: mins, ..old(self).app_rule@[i] },
                )
            },
    {
        if g < self.bucket.len() && a < self.bucket[g].processes.len() {
            let process = self.bucket[g].processes[a].clone();
            match find_app_rule_index(self, process.as_str()) {
                Some(i) => {
                    self.app_rule[i].timeout_mins = mins;
                    return true;
                },
                None => {},
            }
        }
        false
    }

    /// Set the action of the rule for process `a` of group `g`, when it has one.
    pub fn update_app_action(&mut self, g: usize, a: usize, action: &str) -> (changed: bool)
        ensures
            final(self).general == old(self).general,
            final(self).bucket == old(self).bucket,
            changed == (g < old(self).bucket@.len() && a < old(self).bucket@[g as int].processes@.len()
                && first_index(
                old(self).app_rule@,
                rule_names(lowercase(old(self).bucket@[g as int].processes@[a as int]@)),
            ) is Some),
            !changed ==> final(self).app_rule == old(self).app_rule,
            changed ==> {
                let i = first_index(
                    old(self).app_rule@,
                    rule_names(lowercase(old(self).bucket@[g as int].processes@[a as int]@)),
                )->0;
                final(self).app_rule@ == old(self).app_rule@.update(
                    i,
                    AppRule { action: Action::spec_from_str(action@), ..old(self).app_rule@[i] },
                )
            },
    {
        if g < self.bucket.len() && a < self.bucket[g].processes.len() {
            let process = self.bucket[g].processes[a].clone();
            match find_app_rule_index(self, process.as_str()) {
                Some(i) => {
                    self.app_rule[i].action = Action::from_str(action);
                    return true;
                },
                None => {},
            }
        }
        false
    }

    /// Enable or disable process `a` of group `g`: set its rule's flag, or create a
    /// rule copying the group's timeout and action.
    pub fn toggle_app(&mut self, g: usize, a: usize, enabled: bool) -> (changed: bool)
        ensures
            changed == (g < old(self).bucket@.len() && a < old(self).bucket@[g as int].processes@.len()),
            final(self).general == old(self).general,
            final(self).bucket == old(self).bucket,
            !changed ==> final(self).app_rule == old(self).app_rule,
            changed ==> {
                let b = old(self).bucket@[g as int];
                let p = b.processes@[a as int];
                match first_index(old(self).app_rule@, rule_names(lowercase(p@))) {
                    Some(i) => final(self).app_rule@ == old(self).app_rule@.update(
                        i,
                        AppRule { enabled, ..old(self).app_rule@[i] },
                    ),
                    None => appended(final(self).app_rule@, old(self).app_rule@) && is_new_rule(
                        final(self).app_rule@.last(),
                        p,
                        b.timeout_mins,
                        b.action,
                        enabled,
                        false,
                    ),
                }
            },
    {
        if g < self.bucket.len() && a < self.bucket[g].processes.len() {
            let process = self.bucket[g].processes[a].clone();
            let bucket_timeout = self.bucket[g].timeout_mins;
            let bucket_action = self.bucket[g].action;
            match find_app_rule_index(self, process.as_str()) {
                Some(i) => {
                    self.app_rule[i].enabled = enabled;
                },
                None => {
                    let ghost before = self.app_rule@;
                    self.app_rule.push(
                        AppRule {
                            process,
                            timeout_mins: bucket_timeout,
                            action: bucket_action,
                            enabled,
                            icon: None,
                            customized: false,
                        },
                    );
                    assert(self.app_rule@.take(before.len() as int) =~= before);
                },
            }
            true
        } else {
            false
        }
    }

    /// Set the icon override of process `a` of group `g`, creating a rule (copying the
    /// group's timeout and action, not customized) when it has none.
    pub fn set_app_icon(&mut self, g: usize, a: usize, glyph: &str) -> (changed: bool)
        ensures
            changed == (g < old(self).bucket@.len() && a < old(self).bucket@[g as int].processes@.len()),
            final(self).general == old(self).general,
            final(self).bucket == old(self).bucket,
            !changed ==> final(self).app_rule == old(self).app_rule,
            changed ==> {
                let b = old(self).bucket@[g as int];
                let p = b.processes@[a as int];
                match first_index(old(self).app_rule@, rule_names(lowercase(p@))) {
                    Some(i) => {
                        &&& final(self).app_rule@.len() == old(self).app_rule@.len()
                        &&& forall|j: int| 0 <= j < old(self).app_rule@.len() && j != i ==> #[trigger] final(self).app_rule@[j] == old(self).app_rule@[j]
                        &&& final(self).app_rule@[i].icon matches Some(s) && s@ == glyph@
                        &&& final(self).app_rule@[i] == AppRule {
                            icon: final(self).app_rule@[i].icon,
                            ..old(self).app_rule@[i]
                        }
                    },
                    None => {
                        let r = final(self).app_rule@.last();
                        &&& appended(final(self).app_rule@, old(self).app_rule@)
                        &&& r.process == p
                        &&& r.timeout_mins == b.timeout_mins
                        &&& r.action == b.action
                        &&& r.enabled
                        &&& !r.customized
                        &&& r.icon matches Some(s) && s@ == glyph@
                    },
                }
            },
    {
        if g >= self.bucket.len() || a >= self.bucket[g].processes.len() {
            return false;
        }
        let process = self.bucket[g].processes[a].clone();
        match find_app_rule_index(self, process.as_str()) {
            Some(i) => {
                self.app_rule[i].icon = Some(glyph.to_owned());
            },
            None => {
                let bucket_timeout = self.bucket[g].timeout_mins;
                let bucket_action = self.bucket[g].action;
                let ghost before = self.app_rule@;
                self.app_rule.push(
                    AppRule {
                        process,
                        timeout_mins: bucket_timeout,
                        action: bucket_action,
                        enabled: true,
                        icon: Some(glyph.to_owned()),
                        customized: false,
                    },
                );
                assert(self.app_rule@.take(before.len() as int) =~= before);
            },
        }
        true
    }

    /// The process of the `idx`-th rule that no group lists, if there is one.
    pub fn unassigned_process(&self, idx: usize) -> (r: Option<String>)
        ensures
            match r {
                Some(p) => idx < unassigned_rules(*self).len() && p == unassigned_rules(*self)[idx as int].process,
                None => idx >= unassigned_rules(*self).len(),
            },
    {
        let ghost p = unassigned(*self);
        let mut n: usize = 0;
        let mut i: usize = 0;
        while i < self.app_rule.len()
            invariant
                i <= self.app_rule.len(),
                p == unassigned(*self),
                n == self.app_rule@.take(i as int).filter(p).len(),
                n <= idx,
            decreases self.app_rule.len() - i,
        {
            let r = &self.app_rule[i];
            let un = !process_in_any_bucket(self, r.process.as_str());
            proof {
                reveal_with_fuel(Seq::<_>::filter, 1);
                let t1 = self.app_rule@.take(i + 1);
                assert(t1.drop_last() =~= self.app_rule@.take(i as int));
                assert(t1.last() == *r);
                assert(un == p(*r));
                if un {
                    assert(t1.filter(p) == self.app_rule@.take(i as int).filter(p).push(*r));
                }
            }
            if un {
                if n == idx {
                    proof {
                        let t1 = self.app_rule@.take(i + 1);
                        lemma_filter_prefix(self.app_rule@, p, i + 1);
                        assert(t1.filter(p)[idx as int] == *r);
                    }
                    return Some(r.process.clone());
                }
                n = n + 1;
            }
            i = i + 1;
        }
        assert(self.app_rule@.take(self.app_rule.len() as int) =~= self.app_rule@);
        None
    }

    /// Add the process of the `u`-th unassigned rule to group `g`, unless the group
    /// already lists it (compared up to ASCII case).
    pub fn assign_to_group(&mut self, u: usize, g: usize) -> (changed: bool)
        ensures
            final(self).general == old(self).general,
            final(self).app_rule == old(self).app_rule,
            changed == (g < old(self).bucket@.len() && u < unassigned_rules(*old(self)).len() && !has_ascii_match(
                old(self).bucket@[g as int].processes@,
                unassigned_rules(*old(self))[u as int].process@,
            )),
            !changed ==> final(self).bucket@ == old(self).bucket@,
            changed ==> {
                let ob = old(self).bucket@[g as int];
                let nb = final(self).bucket@[g as int];
                &&& final(self).bucket@ == old(self).bucket@.update(g as int, nb)
                &&& nb.processes@ == ob.processes@.push(unassigned_rules(*old(self))[u as int].process)
                &&& nb == Bucket { processes: nb.processes, ..ob }
            },
    {
        if g >= self.bucket.len() {
            return false;
        }
        match self.unassigned_process(u) {
            Some(p) => {
                let already = any_ascii_match(&self.bucket[g].processes, p.as_str());
                if !already {
                    self.bucket[g].processes.push(p);
                    return true;
                }
                false
            },
            None => false,
        }
    }

    /// Delete every rule for the process of the `idx`-th unassigned rule.
    pub fn remove_unassigned(&mut self, idx: usize) -> (changed: bool)
        ensures
            final(self).general == old(self).general,
            final(self).bucket == old(self).bucket,
            changed == (idx < unassigned_rules(*old(self)).len()),
            final(self).app_rule@ == if changed {
                old(self).app_rule@.filter(
                    not_named(lowercase(unassigned_rules(*old(self))[idx as int].process@)),
                )
            } else {
                old(self).app_rule@
            },
    {
        match self.unassigned_process(idx) {
            Some(p) => {
                let key = to_lower(p.as_str());
                self.remove_rules_named(&key);
                true
            },
            None => false,
        }
    }

    /// The first rule for the process of the `idx`-th unassigned rule.
    pub open spec fn unassigned_target(self, idx: int) -> Option<int> {
        if 0 <= idx < unassigned_rules(self).len() {
            first_index(self.app_rule@, rule_names(lowercase(unassigned_rules(self)[idx].process@)))
        } else {
            None
        }
    }

    fn unassigned_target_index(&self, idx: usize) -> (r: Option<usize>)
        ensures
            match r {
                Some(i) => self.unassigned_target(idx as int) == Some(i as int) && i < self.app_rule@.len(),
                None => self.unassigned_target(idx as int) is None,
            },
    {
        match self.unassigned_process(idx) {
            Some(p) => find_app_rule_index(self, p.as_str()),
            None => None,
        }
    }

    /// Enable or disable the rule for the `idx`-th unassigned rule's process.
    pub fn toggle_unassigned(&mut self, idx: usize, enabled: bool) -> (changed: bool)
        ensures
            final(self).general == old(self).general,
            final(self).bucket == old(self).bucket,
            changed == (old(self).unassigned_target(idx as int) is Some),
            final(self).app_rule@ == match old(self).unassigned_target(idx as int) {
                Some(i) => old(self).app_rule@.update(i, AppRule { enabled, ..old(self).app_rule@[i] }),
                None => old(self).app_rule@,
            },
    {
        match self.unassigned_target_index(idx) {
            Some(i) => {
                self.app_rule[i].enabled = enabled;
                true
            },
            None => false,
        }
    }

    /// Set the timeout of the rule for the `idx`-th unassigned rule's process.
    pub fn update_unassigned_timeout(&mut self, idx: usize, mins: u64) -> (changed: bool)
        ensures
            final(self).general == old(self).general,
            final(self).bucket == old(self).bucket,
            changed == (old(self).unassigned_target(idx as int) is Some),
            final(self).app_rule@ == match old(self).unassigned_target(idx as int) {
                Some(i) => old(self).app_rule@.update(
                    i,
                    AppRule { timeout_mins: mins, ..old(self).app_rule@[i] },
                ),
                None => old(self).app_rule@,
            },
    {
        match self.unassigned_target_index(idx) {
            Some(i) => {
                self.app_rule[i].timeout_mins = mins;
                true
            },
            None => false,
        }
    }

    /// Set the action of the rule for the `idx`-th unassigned rule's process.
    pub fn update_unassigned_action(&mut self, idx: usize, action: &str) -> (changed: bool)
        ensures
            final(self).general == old(self).general,
            final(self).bucket == old(self).bucket,
            changed == (old(self).unassigned_target(idx as int) is Some),
            final(self).app_rule@ == match old(self).unassigned_target(idx as int) {
                Some(i) => old(self).app_rule@.update(
                    i,
                    AppRule { action: Action::spec_from_str(action@), ..old(self).app_rule@[i] },
                ),
                None => old(self).app_rule@,
            },
    {
        match self.unassigned_target_index(idx) {
            Some(i) => {
                self.app_rule[i].action = Action::from_str(action);
                true
            },
            None => false,
        }
    }

    /// Add an app rule for `process` (15 minutes, minimize, enabled) unless it is
    /// blank, already has a rule (compared up to ASCII case), or a group lists it.
    pub fn add_rule(&mut self, process: &str) -> (changed: bool)
        ensures
            final(self).general == old(self).general,
            final(self).bucket == old(self).bucket,
            changed == (process@.len() > 0 && !has_rule_ascii_match(old(self).app_rule@, process@)
                && !in_some_bucket(old(self).bucket@, lowercase(process@))),
            !changed ==> final(self).app_rule == old(self).app_rule,
            changed ==> {
                let r = final(self).app_rule@.last();
                &&& appended(final(self).app_rule@, old(self).app_rule@)
                &&& r.process@ == process@
                &&& r.timeout_mins == 15
                &&& r.action == Action::Minimize
                &&& r.enabled
                &&& r.icon is None
                &&& !r.customized
            },
    {
        if process.is_empty() {
            return false;
        }
        if any_rule_ascii_match(&self.app_rule, process) {
            return false;
        }
        if process_in_any_bucket(self, process) {
            return false;
        }
        let ghost before = self.app_rule@;
        self.app_rule.push(
            AppRule {
                process: process.to_owned(),
                timeout_mins: 15,
                action: Action::Minimize,
                enabled: true,
                icon: None,
                customized: false,
            },
        );
        assert(self.app_rule@.take(before.len() as int) =~= before);
        true
    }

    /// Set the polling interval (seconds).
    pub fn set_polling_interval(&mut self, secs: u64)
        ensures
            final(self).general == (crate::config::General { polling_interval_secs: secs, ..old(self).general }),
            final(self).bucket == old(self).bucket,
            final(self).app_rule == old(self).app_rule,
    {
        self.general.polling_interval_secs = secs;
    }

    /// Record whether the program starts with the user session.
    pub fn set_auto_start(&mut self, enabled: bool)
        ensures
            final(self).general == (crate::config::General { auto_start: enabled, ..old(self).general }),
            final(self).bucket == old(self).bucket,
            final(self).app_rule == old(self).app_rule,
    {
        self.general.auto_start = enabled;
    }

    /// Add `process` to the hidden list unless it is already there (exact match).
    pub fn hide_process(&mut self, process: &str) -> (changed: bool)
        ensures
            final(self).bucket == old(self).bucket,
            final(self).app_rule == old(self).app_rule,
            changed == !crate::monitor::names_of(old(self).general.hidden_processes@).contains(process@),
            !changed ==> final(self).general == old(self).general,
            changed ==> {
                let ng = final(self).general;
                let og = old(self).general;
                &&& ng.hidden_processes@.len() == og.hidden_processes@.len() + 1
                &&& ng.hidden_processes@.take(og.hidden_processes@.len() as int) == og.hidden_processes@
                &&& ng.hidden_processes@.last()@ == process@
                &&& ng == crate::config::General { hidden_processes: ng.hidden_processes, ..og }
            },
    {
        let p = process.to_owned();
        if crate::monitor::contains_name(&self.general.hidden_processes, &p) {
            return false;
        }
        let ghost before = self.general.hidden_processes@;
        self.general.hidden_processes.push(p);
        assert(self.general.hidden_processes@.take(before.len() as int) =~= before);
        true
    }

    /// Replace the whole configuration by the defaults.
    pub fn restore_defaults(&mut self)
        ensures
            final(self).is_default(),
    {
        *self = Config::default_config();
    }
}

/// A field-by-field copy of an app rule.
pub fn copy_rule(r: &AppRule) -> (c: AppRule)
    ensures
        c == *r,
{
    AppRule {
        process: r.process.clone(),
        timeout_mins: r.timeout_mins,
        action: r.action,
        enabled: r.enabled,
        icon: match &r.icon {
            Some(s) => Some(s.clone()),
            None => None,
        },
        customized: r.customized,
    }
}

/// The filter of a prefix is a prefix of the filter.
pub proof fn lemma_filter_prefix<T>(s: Seq<T>, p: spec_fn(T) -> bool, n: int)
    requires
        0 <= n <= s.len(),
    ensures
        s.take(n).filter(p).len() <= s.filter(p).len(),
        s.filter(p).take(s.take(n).filter(p).len() as int) == s.take(n).filter(p),
    decreases s.len() - n,
{
    if n < s.len() {
        lemma_filter_prefix(s, p, n + 1);
        reveal_with_fuel(Seq::<_>::filter, 1);
        let t1 = s.take(n + 1);
        assert(t1.drop_last() =~= s.take(n));
        let a = s.take(n).filter(p);
        let b = t1.filter(p);
        if p(t1.last()) {
            assert(b == a.push(t1.last()));
            assert(s.filter(p).take(a.len() as int) =~= b.take(a.len() as int));
            assert(b.take(a.len() as int) =~= a);
        } else {
            assert(b == a);
        }
    } else {
        assert(s.take(n) =~= s);
        assert(s.filter(p).take(s.filter(p).len() as int) =~= s.filter(p));
    }
}


/// Filtering out an appended element that fails the predicate changes nothing.
proof fn lemma_filter_push_rejected<T>(s: Seq<T>, x: T, p: spec_fn(T) -> bool)
    requires
        !p(x),
    ensures
        s.push(x).filter(p) == s.filter(p),
{
    reveal_with_fuel(Seq::<_>::filter, 1);
    assert(s.push(x).drop_last() =~= s);
}

/// Replacing an element that fails the predicate by another that fails it leaves the
/// filter unchanged.
proof fn lemma_filter_update_rejected<T>(s: Seq<T>, i: int, x: T, p: spec_fn(T) -> bool)
    requires
        0 <= i < s.len(),
        !p(s[i]),
        !p(x),
    ensures
        s.update(i, x).filter(p) == s.filter(p),
    decreases s.len(),
{
    reveal_with_fuel(Seq::<_>::filter, 1);
    let u = s.update(i, x);
    if i == s.len() - 1 {
        assert(u.drop_last() =~= s.drop_last());
    } else {
        lemma_filter_update_rejected(s.drop_last(), i, x, p);
        assert(u.drop_last() =~= s.drop_last().update(i, x));
        assert(u.last() == s.last());
    }
}

/// Filtering a sequence whose every element passes keeps it whole.
proof fn lemma_filter_all<T>(s: Seq<T>, p: spec_fn(T) -> bool)
    requires
        forall|i: int| 0 <= i < s.len() ==> p(#[trigger] s[i]),
    ensures
        s.filter(p) == s,
    decreases s.len(),
{
    reveal_with_fuel(Seq::<_>::filter, 1);
    if s.len() > 0 {
        lemma_filter_all(s.drop_last(), p);
        assert(p(s[s.len() - 1]));
        assert(s.drop_last().push(s.last()) =~= s);
    }
}

/// Customizing an app and then resetting it to its group leaves the same app rules as
/// resetting it directly; when the app had no rule of its own, the reset restores the
/// rules exactly as they were.
pub proof fn lemma_reset_undoes_customize(rules: Seq<AppRule>, b: Bucket, p: String)
    ensures
        customized_rules(rules, b, p).filter(not_named(lowercase(p@))) == rules.filter(
            not_named(lowercase(p@)),
        ),
        first_index(rules, rule_names(lowercase(p@))) is None ==> rules.filter(not_named(lowercase(p@)))
            == rules,
{
    let key = lowercase(p@);
    crate::find::lemma_first_index_is_first(rules, rule_names(key));
    match first_index(rules, rule_names(key)) {
        Some(i) => {
            lemma_filter_update_rejected(
                rules,
                i,
                AppRule { customized: true, ..rules[i] },
                not_named(key),
            );
        },
        None => {
            let r = AppRule {
                process: p,
                timeout_mins: b.timeout_mins,
                action: b.action,
                enabled: true,
                icon: None,
                customized: true,
            };
            lemma_filter_push_rejected(rules, r, not_named(key));
            assert forall|i: int| 0 <= i < rules.len() implies (not_named(key))(#[trigger] rules[i]) by {
                assert(!(rule_names(key))(rules[i]));
            }
            lemma_filter_all(rules, not_named(key));
        },
    }
}

/// Toggling whether a group is expanded twice restores the groups.
pub proof fn lemma_toggle_expanded_twice(bs: Seq<Bucket>, idx: int)
    requires
        0 <= idx < bs.len(),
    ensures
        ({
            let once = bs.update(idx, Bucket { expanded: !bs[idx].expanded, ..bs[idx] });
            once.update(idx, Bucket { expanded: !once[idx].expanded, ..once[idx] })
        }) == bs,
{
    let once = bs.update(idx, Bucket { expanded: !bs[idx].expanded, ..bs[idx] });
    let twice = once.update(idx, Bucket { expanded: !once[idx].expanded, ..once[idx] });
    assert(twice[idx] == bs[idx]);
    assert(twice =~= bs);
}

/// After `hide_process(p)` the process `p` is hidden.
pub proof fn lemma_hidden_after_hide(before: Seq<String>, after: Seq<String>, p: Seq<char>)
    requires
        crate::monitor::names_of(before).contains(p) ==> after == before,
        !crate::monitor::names_of(before).contains(p) ==> after.len() == before.len() + 1
            && after.last()@ == p,
    ensures
        lists_process(after, lowercase(p)),
{
    if crate::monitor::names_of(before).contains(p) {
        let k = choose|k: int| 0 <= k < crate::monitor::names_of(before).len() && crate::monitor::names_of(before)[k] == p;
        assert(after[k]@ == p);
    } else {
        assert(after[after.len() - 1]@ == p);
    }
}

/// A rule added for a process that had no app rule before decides that process from
/// then on: 15 minutes, minimize, from an app rule.
pub proof fn lemma_added_rule_governs(c0: Config, c1: Config, p: Seq<char>)
    requires
        first_index(c0.app_rule@, rule_names(lowercase(p))) is None,
        appended(c1.app_rule@, c0.app_rule@),
        c1.app_rule@.last().process@ == p,
        c1.app_rule@.last().timeout_mins == 15,
        c1.app_rule@.last().action == Action::Minimize,
        c1.app_rule@.last().enabled,
    ensures
        c1.spec_resolve(lowercase(p)) == Some(
            ResolvedRule { timeout_mins: 15, action: Action::Minimize, source: RuleSource::AppRule },
        ),
{
    let r = c1.app_rule@.last();
    assert(c1.app_rule@ =~= c0.app_rule@.push(r));
    lemma_first_index_push(c0.app_rule@, r, rule_names(lowercase(p)));
}


/// Customizing an app that has no rule of its own appends exactly one rule, for that
/// app, enabled and marked customized, that starts from its group's timeout and
/// action, and keeps every earlier rule. When that group is the one that governs the
/// app, the app's effective timeout and action are unchanged by the customization
/// (`after` is the configuration once customized).
pub proof fn lemma_customize_copies_group(before: Config, after: Config, g: int, a: int)
    requires
        0 <= g < before.bucket@.len(),
        0 <= a < before.bucket@[g].processes@.len(),
        first_index(before.app_rule@, rule_names(lowercase(before.bucket@[g].processes@[a]@))) is None,
        after.bucket@ == before.bucket@,
        after.app_rule@ == customized_rules(
            before.app_rule@,
            before.bucket@[g],
            before.bucket@[g].processes@[a],
        ),
    ensures
        after.app_rule@.len() == before.app_rule@.len() + 1,
        after.app_rule@.take(before.app_rule@.len() as int) == before.app_rule@,
        after.app_rule@.last().process == before.bucket@[g].processes@[a],
        after.app_rule@.last().timeout_mins == before.bucket@[g].timeout_mins,
        after.app_rule@.last().action == before.bucket@[g].action,
        after.app_rule@.last().enabled,
        after.app_rule@.last().customized,
        first_index(before.bucket@, bucket_governs(lowercase(before.bucket@[g].processes@[a]@))) == Some(g)
            ==> ({
            let key = lowercase(before.bucket@[g].processes@[a]@);
            &&& before.spec_resolve(key) is Some
            &&& after.spec_resolve(key) is Some
            &&& after.spec_resolve(key)->0.timeout_mins == before.spec_resolve(key)->0.timeout_mins
            &&& after.spec_resolve(key)->0.action == before.spec_resolve(key)->0.action
        }),
{
    let key = lowercase(before.bucket@[g].processes@[a]@);
    let r = after.app_rule@.last();
    assert(after.app_rule@.take(before.app_rule@.len() as int) =~= before.app_rule@);
    lemma_first_index_push(before.app_rule@, r, rule_names(key));
}


/// Customizing an app never changes the rules already there beyond marking the app's
/// own rule: every earlier rule keeps its process, timeout, action, enabled state and
/// icon; a rule is added only when the app had none; and afterwards the app's first
/// rule is marked customized.
pub proof fn lemma_customize_keeps_rules(rules: Seq<AppRule>, b: Bucket, p: String)
    ensures
        customized_rules(rules, b, p).len() == rules.len() + if first_index(
            rules,
            rule_names(lowercase(p@)),
        ) is Some {
            0int
        } else {
            1int
        },
        forall|j: int|
            0 <= j < rules.len() ==> {
                let n = #[trigger] customized_rules(rules, b, p)[j];
                &&& n.process == rules[j].process
                &&& n.timeout_mins == rules[j].timeout_mins
                &&& n.action == rules[j].action
                &&& n.enabled == rules[j].enabled
                &&& n.icon == rules[j].icon
            },
        first_index(customized_rules(rules, b, p), rule_names(lowercase(p@))) is Some,
        customized_rules(rules, b, p)[first_index(
            customized_rules(rules, b, p),
            rule_names(lowercase(p@)),
        )->0].customized,
{
    let key = lowercase(p@);
    let r = customized_rules(rules, b, p);
    crate::find::lemma_first_index_is_first(rules, rule_names(key));
    match first_index(rules, rule_names(key)) {
        Some(i) => {
            assert forall|j: int| 0 <= j < rules.len() implies (rule_names(key))(#[trigger] rules[j]) == (
            rule_names(key))(r[j]) by {
                assert(r[j].process == rules[j].process);
            }
            crate::find::lemma_first_index_same_hits(rules, r, rule_names(key));
        },
        None => {
            lemma_first_index_push(rules, r.last(), rule_names(key));
            assert(r =~= rules.push(r.last()));
        },
    }
}

} // verus!
