use fade::config::{
    app_is_customized, default_poll, default_timeout, default_true, Action, AppRule, Bucket, Config,
    General, RuleSource, MAX_TIMEOUT_MINS,
};

fn rule(process: &str, timeout_mins: u64, action: Action, enabled: bool) -> AppRule {
    AppRule {
        process: process.into(),
        timeout_mins,
        action,
        enabled,
        icon: None,
        customized: false,
    }
}

fn bucket(name: &str, processes: &[&str], timeout_mins: u64, enabled: bool) -> Bucket {
    Bucket {
        name: name.into(),
        processes: processes.iter().map(|p| p.to_string()).collect(),
        timeout_mins,
        action: Action::Minimize,
        enabled,
        expanded: true,
        icon: None,
    }
}

#[test]
fn test_bucket_has_processes() {
    let bucket = Bucket {
        name: "Test".into(),
        processes: vec!["chrome.exe".into(), "firefox.exe".into()],
        timeout_mins: 15,
        action: Action::Minimize,
        enabled: true,
        expanded: true,
        icon: None,
    };
    assert_eq!(bucket.processes.len(), 2);
}

#[test]
fn test_default_config_has_buckets() {
    let config = Config::default_config();
    assert!(config.bucket.len() >= 5);
    assert!(config.app_rule.is_empty());
}

#[test]
fn test_resolve_app_rule_priority() {
    let config = Config {
        general: General::default(),
        bucket: vec![Bucket {
            name: "Browsing".into(),
            processes: vec!["chrome.exe".into()],
            timeout_mins: 15,
            action: Action::Minimize,
            enabled: true,
            expanded: true,
            icon: None,
        }],
        app_rule: vec![AppRule {
            process: "chrome.exe".into(),
            timeout_mins: 5,
            action: Action::Close,
            enabled: true,
            icon: None,
            customized: false,
        }],
    };

    let resolved = config.resolve_process("chrome.exe").unwrap();
    assert_eq!(resolved.timeout_mins, 5);
    assert_eq!(resolved.action, Action::Close);
}

#[test]
fn test_resolve_bucket_fallback() {
    let config = Config {
        general: General::default(),
        bucket: vec![Bucket {
            name: "Browsing".into(),
            processes: vec!["chrome.exe".into()],
            timeout_mins: 15,
            action: Action::Minimize,
            enabled: true,
            expanded: true,
            icon: None,
        }],
        app_rule: vec![],
    };

    let resolved = config.resolve_process("chrome.exe").unwrap();
    assert_eq!(resolved.timeout_mins, 15);
    assert_eq!(resolved.action, Action::Minimize);
}

#[test]
fn test_resolve_unmanaged_returns_none() {
    let config = Config::default_config();
    assert!(config.resolve_process("unknown.exe").is_none());
}

#[test]
fn test_resolve_disabled_rule_skipped() {
    let config = Config {
        general: General::default(),
        bucket: vec![],
        app_rule: vec![AppRule {
            process: "notepad.exe".into(),
            timeout_mins: 5,
            action: Action::Close,
            enabled: false,
            icon: None,
            customized: false,
        }],
    };

    assert!(config.resolve_process("notepad.exe").is_none());
}

#[test]
fn test_resolve_disabled_bucket_skipped() {
    let config = Config {
        general: General::default(),
        bucket: vec![Bucket {
            name: "Test".into(),
            processes: vec!["chrome.exe".into()],
            timeout_mins: 15,
            action: Action::Minimize,
            enabled: false,
            expanded: true,
            icon: None,
        }],
        app_rule: vec![],
    };

    assert!(config.resolve_process("chrome.exe").is_none());
}

#[test]
fn test_resolve_case_insensitive() {
    let config = Config {
        general: General::default(),
        bucket: vec![],
        app_rule: vec![AppRule {
            process: "Chrome.exe".into(),
            timeout_mins: 10,
            action: Action::Minimize,
            enabled: true,
            icon: None,
            customized: false,
        }],
    };

    assert!(config.resolve_process("chrome.exe").is_some());
    assert!(config.resolve_process("CHROME.EXE").is_some());
}

#[test]
fn test_is_hidden() {
    let config = Config::default_config();
    assert!(config.is_hidden("SearchHost.exe"));
    assert!(config.is_hidden("SEARCHHOST.EXE"));
    assert!(!config.is_hidden("chrome.exe"));
}

#[test]
fn test_action_str_roundtrip() {
    assert_eq!(Action::from_str(Action::Minimize.as_str()), Action::Minimize);
    assert_eq!(Action::from_str(Action::Close.as_str()), Action::Close);
    assert_eq!(Action::from_str("garbage"), Action::Minimize); // default fallback
}

#[test]
fn test_app_is_customized() {
    let bucket = Bucket {
        name: "B".into(),
        processes: vec!["p.exe".into()],
        timeout_mins: 15,
        action: Action::Minimize,
        enabled: true,
        expanded: true,
        icon: None,
    };
    let base_rule = AppRule {
        process: "p.exe".into(),
        timeout_mins: 15,
        action: Action::Minimize,
        enabled: true,
        icon: None,
        customized: false,
    };
    assert!(!app_is_customized(&bucket, &base_rule));
    // Icon-only diff: NOT customized
    let mut r = base_rule.clone();
    r.icon = Some("x".into());
    assert!(!app_is_customized(&bucket, &r));
    // Timeout diff: customized
    let mut r = base_rule.clone();
    r.timeout_mins = 5;
    assert!(app_is_customized(&bucket, &r));
    // Action diff: customized
    let mut r = base_rule.clone();
    r.action = Action::Close;
    assert!(app_is_customized(&bucket, &r));
}

#[test]
fn test_icon_for_app_fallback_and_override() {
    let mut config = Config::default_config();
    // No rule → falls back to catalog
    let fallback = config.icon_for_app("chrome.exe");
    assert_eq!(fallback, "googlechrome"); // chrome maps to brand slug
    // With rule override → uses override
    config.app_rule.push(AppRule {
        process: "chrome.exe".into(),
        timeout_mins: 15,
        action: Action::Minimize,
        enabled: true,
        icon: Some("XYZ".into()),
        customized: false,
    });
    assert_eq!(config.icon_for_app("chrome.exe"), "XYZ");
}

#[test]
fn test_icon_for_bucket_fallback_and_override() {
    let mut config = Config::default_config();
    let first = config.icon_for_bucket(0);
    assert!(!first.is_empty());
    config.bucket[0].icon = Some("OVERRIDE".into());
    assert_eq!(config.icon_for_bucket(0), "OVERRIDE");
}

#[test]
fn action_names_are_lowercase_words() {
    assert_eq!(Action::Minimize.as_str(), "minimize");
    assert_eq!(Action::Close.as_str(), "close");
    assert_eq!(Action::from_str("close"), Action::Close);
    assert_eq!(Action::from_str("Close"), Action::Minimize);
    assert_eq!(Action::default(), Action::Minimize);
}

#[test]
fn rule_source_names() {
    assert_eq!(RuleSource::AppRule.as_str(), "app_rule");
    assert_eq!(RuleSource::Bucket.as_str(), "bucket");
}

#[test]
fn serde_defaults() {
    assert_eq!(default_poll(), 30);
    assert_eq!(default_timeout(), 15);
    assert!(default_true());
}

#[test]
fn default_general_settings() {
    let g = General::default();
    assert_eq!(g.polling_interval_secs, 30);
    assert!(!g.auto_start);
    assert_eq!(
        g.hidden_processes,
        vec![
            "SearchHost.exe".to_string(),
            "StartMenuExperienceHost.exe".to_string(),
            "ShellExperienceHost.exe".to_string(),
            "TextInputHost.exe".to_string(),
        ]
    );
    assert!(g.window_width.is_none() && g.window_height.is_none());
    assert!(g.window_x.is_none() && g.window_y.is_none());
}

#[test]
fn default_buckets_are_the_predefined_groups() {
    let c = Config::default_config();
    let names: Vec<&str> = c.bucket.iter().map(|b| b.name.as_str()).collect();
    assert_eq!(names, vec!["Browsing", "Communication", "Media", "Development", "Gaming", "Utilities"]);
    let timeouts: Vec<u64> = c.bucket.iter().map(|b| b.timeout_mins).collect();
    assert_eq!(timeouts, vec![15, 30, 20, 60, 30, 30]);
    assert_eq!(c.bucket[5].processes, vec!["notepad.exe", "notepad++.exe", "mstsc.exe", "rustdesk.exe"]);
    assert!(c.bucket.iter().all(|b| !b.enabled && b.expanded && b.icon.is_none()));
    assert!(c.bucket.iter().all(|b| b.action == Action::Minimize));
    assert_eq!(c.bucket[0].processes[0], "chrome.exe");
    assert_eq!(c.bucket[4].processes.len(), 3);
}

#[test]
fn resolve_reports_its_source() {
    let config = Config {
        general: General::default(),
        bucket: vec![bucket("Browsing", &["chrome.exe", "firefox.exe"], 15, true)],
        app_rule: vec![rule("chrome.exe", 5, Action::Close, true)],
    };
    let r = config.resolve_process("chrome.exe").unwrap();
    assert_eq!(r.source, RuleSource::AppRule);
    let r = config.resolve_process("FIREFOX.exe").unwrap();
    assert_eq!(r.source, RuleSource::Bucket);
    assert_eq!(r.timeout_mins, 15);
}

#[test]
fn resolve_disabled_rule_excludes_process_from_its_bucket() {
    let config = Config {
        general: General::default(),
        bucket: vec![bucket("Browsing", &["chrome.exe"], 15, true)],
        app_rule: vec![rule("Chrome.exe", 5, Action::Close, false)],
    };
    assert!(config.resolve_process("chrome.exe").is_none());
    assert!(config.resolve_process("CHROME.EXE").is_none());
}

#[test]
fn resolve_first_app_rule_decides() {
    let config = Config {
        general: General::default(),
        bucket: vec![bucket("Browsing", &["chrome.exe"], 15, true)],
        app_rule: vec![rule("chrome.exe", 5, Action::Close, true), rule("CHROME.exe", 6, Action::Close, false)],
    };
    assert_eq!(config.resolve_process("chrome.exe").unwrap().timeout_mins, 5);
}

#[test]
fn resolve_first_matching_rule_and_bucket_win() {
    let config = Config {
        general: General::default(),
        bucket: vec![
            bucket("A", &["x.exe"], 7, false),
            bucket("B", &["X.EXE"], 8, true),
            bucket("C", &["x.exe"], 9, true),
        ],
        app_rule: vec![],
    };
    assert_eq!(config.resolve_process("x.exe").unwrap().timeout_mins, 8);
    let config = Config {
        general: General::default(),
        bucket: vec![],
        app_rule: vec![rule("x.exe", 3, Action::Close, true), rule("X.exe", 4, Action::Minimize, true)],
    };
    let r = config.resolve_process("x.exe").unwrap();
    assert_eq!((r.timeout_mins, r.action), (3, Action::Close));
}

#[test]
fn icon_for_bucket_out_of_range_is_empty() {
    let config = Config::default_config();
    assert_eq!(config.icon_for_bucket(99), "");
}

#[test]
fn icon_for_app_unknown_process_uses_generic_glyph() {
    let config = Config::default_config();
    let icon = config.icon_for_app("zzz-unknown.exe");
    assert_eq!(icon, "\u{F0485}");
}

#[test]
fn clamp_ranges_limits_every_value() {
    let mut config = Config {
        general: General { polling_interval_secs: 0, ..General::default() },
        bucket: vec![bucket("A", &["a.exe"], 0, true), bucket("B", &["b.exe"], 50_000, true)],
        app_rule: vec![rule("x.exe", 20_000, Action::Close, true), rule("y.exe", 42, Action::Close, true)],
    };
    config.clamp_ranges();
    assert_eq!(config.general.polling_interval_secs, 1);
    assert_eq!(config.bucket[0].timeout_mins, 1);
    assert_eq!(config.bucket[1].timeout_mins, MAX_TIMEOUT_MINS);
    assert_eq!(config.app_rule[0].timeout_mins, 10080);
    assert_eq!(config.app_rule[1].timeout_mins, 42);
    assert_eq!(config.app_rule[0].process, "x.exe");

    config.general.polling_interval_secs = 99_999;
    config.clamp_ranges();
    assert_eq!(config.general.polling_interval_secs, 3600);
}

#[test]
fn clamp_ranges_twice_changes_nothing_more() {
    let mut config = Config {
        general: General { polling_interval_secs: 7200, ..General::default() },
        bucket: vec![bucket("A", &["a.exe"], 0, true)],
        app_rule: vec![rule("x.exe", 99_999, Action::Close, true)],
    };
    config.clamp_ranges();
    let once = config.clone();
    config.clamp_ranges();
    assert_eq!(config.general.polling_interval_secs, once.general.polling_interval_secs);
    assert_eq!(config.bucket[0].timeout_mins, once.bucket[0].timeout_mins);
    assert_eq!(config.app_rule[0].timeout_mins, once.app_rule[0].timeout_mins);
}

#[test]
fn clamp_ranges_keeps_defaults() {
    let mut config = Config::default_config();
    config.clamp_ranges();
    assert_eq!(config.general.polling_interval_secs, 30);
    let timeouts: Vec<u64> = config.bucket.iter().map(|b| b.timeout_mins).collect();
    assert_eq!(timeouts, vec![15, 30, 20, 60, 30, 30]);
}

#[test]
fn lookups_ignore_ascii_case() {
    let mut config = Config::default_config();
    config.app_rule.push(AppRule {
        process: "Notepad.EXE".into(),
        timeout_mins: 7,
        action: Action::Close,
        enabled: true,
        icon: Some("N".into()),
        customized: true,
    });
    for name in ["notepad.exe", "NOTEPAD.EXE", "NotePad.Exe"] {
        let r = config.resolve_process(name).unwrap();
        assert_eq!(r.timeout_mins, 7);
        assert_eq!(r.action, Action::Close);
        assert_eq!(r.source, RuleSource::AppRule);
        assert_eq!(config.icon_for_app(name), "N");
    }
    assert_eq!(config.is_hidden("searchhost.exe"), config.is_hidden("SearchHost.EXE"));
}
