use fade::config::{Action, AppRule, Bucket, Config, General, RuleSource};
use fade::monitor::ActiveWindowSnapshot;
use fade::overview::{
    active_process_models, build_groups, build_unassigned_rules, count_managed, find_app_rule,
    find_app_rule_index, process_in_any_bucket,
};

fn rule(process: &str, timeout_mins: u64, action: Action, enabled: bool) -> AppRule {
    AppRule { process: process.into(), timeout_mins, action, enabled, icon: None, customized: false }
}

fn bucket(name: &str, processes: &[&str], timeout_mins: u64, enabled: bool) -> Bucket {
    Bucket {
        name: name.into(),
        processes: processes.iter().map(|p| p.to_string()).collect(),
        timeout_mins,
        action: Action::Minimize,
        enabled,
        expanded: true,
        icon: None,
    }
}

fn sample() -> Config {
    Config {
        general: General::default(),
        bucket: vec![
            bucket("Browsing", &["chrome.exe", "firefox.exe"], 15, true),
            bucket("Media", &["vlc.exe"], 20, false),
        ],
        app_rule: vec![rule("slack.exe", 30, Action::Close, true), rule("Firefox.exe", 5, Action::Close, false)],
    }
}

fn names(rules: &[AppRule]) -> Vec<String> {
    rules.iter().map(|r| r.process.clone()).collect()
}

#[test]
fn group_settings_edits() {
    let mut c = sample();
    assert!(c.toggle_group(1, true));
    assert!(c.bucket[1].enabled);
    assert!(c.update_group_timeout(0, 45));
    assert_eq!(c.bucket[0].timeout_mins, 45);
    assert!(c.update_group_action(0, "close"));
    assert_eq!(c.bucket[0].action, Action::Close);
    assert!(c.update_group_action(0, "bogus"));
    assert_eq!(c.bucket[0].action, Action::Minimize);
    assert!(c.set_group_icon(1, "G"));
    assert_eq!(c.bucket[1].icon.as_deref(), Some("G"));
    assert!(!c.toggle_group(9, true));
    assert!(!c.update_group_timeout(9, 1));
}

#[test]
fn toggling_expanded_twice_restores() {
    let mut c = sample();
    assert!(c.toggle_group_expanded(0));
    assert!(!c.bucket[0].expanded);
    assert!(c.toggle_group_expanded(0));
    assert!(c.bucket[0].expanded);
    assert!(!c.toggle_group_expanded(5));
}

#[test]
fn rename_group_trims_and_rejects_blank() {
    let mut c = sample();
    assert!(c.rename_group(0, "  Web  "));
    assert_eq!(c.bucket[0].name, "Web");
    assert!(!c.rename_group(0, "   "));
    assert_eq!(c.bucket[0].name, "Web");
    assert!(!c.rename_group(7, "X"));
}

#[test]
fn remove_and_move_apps_between_groups() {
    let mut c = sample();
    assert!(c.move_app(0, 1, 1));
    assert_eq!(c.bucket[0].processes, vec!["chrome.exe".to_string()]);
    assert_eq!(c.bucket[1].processes, vec!["vlc.exe".to_string(), "firefox.exe".to_string()]);
    // The app's rule stays as it was.
    assert_eq!(names(&c.app_rule), vec!["slack.exe".to_string(), "Firefox.exe".to_string()]);
    assert!(!c.move_app(1, 0, 1));
    assert!(!c.move_app(0, 5, 1));
    assert!(c.remove_from_group(1, 0));
    assert_eq!(c.bucket[1].processes, vec!["firefox.exe".to_string()]);
    assert!(!c.remove_from_group(1, 3));
}

#[test]
fn moving_onto_a_group_that_lists_the_app_drops_the_duplicate() {
    let mut c = sample();
    c.bucket[1].processes.push("CHROME.EXE".into());
    assert!(c.move_app(0, 0, 1));
    assert_eq!(c.bucket[0].processes, vec!["firefox.exe".to_string()]);
    assert_eq!(c.bucket[1].processes, vec!["vlc.exe".to_string(), "CHROME.EXE".to_string()]);
}

#[test]
fn add_app_to_group_ignores_duplicates_and_blank() {
    let mut c = sample();
    assert!(c.add_app_to_group(1, "mpv.exe"));
    assert_eq!(c.bucket[1].processes.last().unwrap(), "mpv.exe");
    assert!(!c.add_app_to_group(1, "VLC.EXE"));
    assert!(!c.add_app_to_group(1, ""));
    assert!(!c.add_app_to_group(4, "x.exe"));
}

#[test]
fn customize_then_reset_restores_rules() {
    let mut c = sample();
    let before = names(&c.app_rule);
    assert!(c.customize_app(0, 0));
    let r = c.app_rule.last().unwrap();
    assert_eq!(r.process, "chrome.exe");
    assert_eq!((r.timeout_mins, r.action, r.enabled, r.customized), (15, Action::Minimize, true, true));
    assert!(c.reset_app_to_group(0, 0));
    assert_eq!(names(&c.app_rule), before);
}

#[test]
fn customize_existing_rule_flags_it() {
    let mut c = sample();
    assert!(c.customize_app(0, 1));
    assert_eq!(c.app_rule.len(), 2);
    assert!(c.app_rule[1].customized);
    assert_eq!(c.app_rule[1].timeout_mins, 5);
    assert!(c.reset_app_to_group(0, 1));
    assert_eq!(names(&c.app_rule), vec!["slack.exe".to_string()]);
}

#[test]
fn app_rule_edits_through_groups() {
    let mut c = sample();
    assert!(c.update_app_timeout(0, 1, 9));
    assert_eq!(c.app_rule[1].timeout_mins, 9);
    assert!(c.update_app_action(0, 1, "minimize"));
    assert_eq!(c.app_rule[1].action, Action::Minimize);
    assert!(!c.update_app_timeout(0, 0, 9)); // chrome.exe has no rule
    assert!(c.toggle_app(0, 1, true));
    assert!(c.app_rule[1].enabled);
    // Toggling an app without a rule creates one from the group.
    assert!(c.toggle_app(0, 0, false));
    let r = c.app_rule.last().unwrap();
    assert_eq!(r.process, "chrome.exe");
    assert!(!r.enabled);
    assert_eq!(r.timeout_mins, 15);
    assert!(c.set_app_icon(0, 0, "I"));
    assert_eq!(c.app_rule.last().unwrap().icon.as_deref(), Some("I"));
}

#[test]
fn unassigned_rules_are_edited_by_position() {
    let mut c = sample();
    assert_eq!(c.unassigned_process(0).as_deref(), Some("slack.exe"));
    assert_eq!(c.unassigned_process(1), None);
    assert!(c.toggle_unassigned(0, false));
    assert!(!c.app_rule[0].enabled);
    assert!(c.update_unassigned_timeout(0, 77));
    assert_eq!(c.app_rule[0].timeout_mins, 77);
    assert!(c.update_unassigned_action(0, "minimize"));
    assert_eq!(c.app_rule[0].action, Action::Minimize);
    assert!(!c.toggle_unassigned(3, true));
    assert!(c.assign_to_group(0, 1));
    assert_eq!(c.bucket[1].processes.last().unwrap(), "slack.exe");
    assert_eq!(c.unassigned_process(0), None);
}

#[test]
fn remove_unassigned_deletes_its_rules() {
    let mut c = sample();
    c.app_rule.push(rule("SLACK.exe", 1, Action::Minimize, true));
    assert!(c.remove_unassigned(0));
    assert_eq!(names(&c.app_rule), vec!["Firefox.exe".to_string()]);
    assert!(!c.remove_unassigned(0));
}

#[test]
fn add_rule_then_it_governs() {
    let mut c = sample();
    assert!(c.add_rule("notepad.exe"));
    let r = c.resolve_process("NOTEPAD.EXE").unwrap();
    assert_eq!((r.timeout_mins, r.action, r.source), (15, Action::Minimize, RuleSource::AppRule));
    assert!(!c.add_rule("Notepad.EXE"));
    assert!(!c.add_rule(""));
    assert!(!c.add_rule("CHROME.exe")); // a group lists it
}

#[test]
fn hide_then_hidden() {
    let mut c = sample();
    assert!(!c.is_hidden("Foo.exe"));
    assert!(c.hide_process("Foo.exe"));
    assert!(c.is_hidden("foo.EXE"));
    assert!(!c.hide_process("Foo.exe"));
    assert_eq!(c.general.hidden_processes.len(), 5);
}

#[test]
fn general_settings_and_restore_defaults() {
    let mut c = sample();
    c.set_polling_interval(90);
    assert_eq!(c.general.polling_interval_secs, 90);
    c.set_auto_start(true);
    assert!(c.general.auto_start);
    c.restore_defaults();
    assert_eq!(c.general.polling_interval_secs, 30);
    assert!(!c.general.auto_start);
    assert!(c.app_rule.is_empty());
    assert_eq!(c.bucket.len(), 6);
}

#[test]
fn lookups_compare_lowercased_names() {
    let c = sample();
    assert!(process_in_any_bucket(&c, "FireFox.exe"));
    assert!(!process_in_any_bucket(&c, "slack.exe"));
    assert_eq!(find_app_rule_index(&c, "firefox.EXE"), Some(1));
    assert_eq!(find_app_rule(&c, "SLACK.EXE").unwrap().timeout_mins, 30);
    assert!(find_app_rule(&c, "nope.exe").is_none());
}

#[test]
fn group_cards_reflect_rules_and_search() {
    let c = sample();
    let all = build_groups(&c, "");
    assert_eq!(all.len(), 2);
    assert_eq!(all[0].name, "Browsing");
    assert_eq!(all[0].apps.len(), 2);
    assert_eq!(all[0].timeout_mins, 15);
    assert_eq!(all[0].action, "minimize");
    // chrome.exe follows the group; firefox.exe has its own (disabled) rule.
    assert!(!all[0].apps[0].customized);
    assert!(all[0].apps[0].enabled);
    assert!(all[0].apps[1].customized);
    assert!(!all[0].apps[1].enabled);
    assert_eq!(all[0].apps[1].timeout_mins, 5);
    assert_eq!(all[0].apps[1].action, "close");

    let hits = build_groups(&c, "  FIRE ");
    assert_eq!(hits.len(), 1);
    assert_eq!(hits[0].apps.len(), 1);
    assert_eq!(hits[0].apps[0].process, "firefox.exe");

    let by_name = build_groups(&c, "media");
    assert_eq!(by_name.len(), 1);
    assert_eq!(by_name[0].apps.len(), 1);
    assert!(build_groups(&c, "zzz").is_empty());
}

#[test]
fn unassigned_rows_and_count() {
    let c = sample();
    let rows = build_unassigned_rules(&c, "");
    assert_eq!(rows.len(), 1);
    assert_eq!(rows[0].process, "slack.exe");
    assert_eq!(rows[0].timeout_mins, 30);
    assert_eq!(rows[0].action, "close");
    assert!(rows[0].enabled);
    assert!(build_unassigned_rules(&c, "chrome").is_empty());
    // chrome.exe counts; firefox.exe's own rule is disabled; Media is disabled;
    // slack.exe is an enabled unassigned rule.
    assert_eq!(count_managed(&c), 2);
}

#[test]
fn active_rows_skip_hidden_and_duplicates() {
    let c = sample();
    let snap = |p: &str| ActiveWindowSnapshot { process: p.into(), title: "t".into(), idle_secs: 1, open_secs: 2 };
    let snaps = vec![snap("chrome.exe"), snap("SearchHost.exe"), snap("Chrome.exe"), snap("notes.exe")];
    let rows = active_process_models(&c, &snaps);
    assert_eq!(rows.len(), 2);
    assert_eq!(rows[0].process, "chrome.exe");
    assert!(rows[0].managed);
    assert_eq!(rows[0].icon, "googlechrome");
    assert_eq!(rows[1].process, "notes.exe");
    assert!(!rows[1].managed);
}

#[test]
fn rename_group_trims_unicode_white_space() {
    let mut c = sample();
    assert!(c.rename_group(1, "\u{3000}\tVideo\u{A0}\n"));
    assert_eq!(c.bucket[1].name, "Video");
    assert!(!c.rename_group(1, "\u{2003}\u{85}"));
    assert!(c.rename_group(1, "a b"));
    assert_eq!(c.bucket[1].name, "a b");
}
