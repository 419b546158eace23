use std::cell::RefCell;
use std::collections::VecDeque;

use fade::config::{Action, AppRule, Bucket, Config, General, RuleSource};
use fade::filter::WindowInfo;
use fade::monitor::{
    conclude_poll, newly_managed, next_poll_delay_secs, recheck, record_action, request_for, resumed_from_gap,
    ActionLogEntry, Candidate, FrontCheck, Monitor, PollActions, Recheck, TimestampTable, WindowApi,
    WindowEntry, WindowRequest, ACTION_LOG_CAPACITY,
};
use fade::config::ResolvedRule;

#[derive(Default)]
struct MockWindowApi {
    foreground_process: RefCell<Option<String>>,
    foreground_hwnd: RefCell<isize>,
    windows: RefCell<Vec<WindowEntry>>,
    minimized: RefCell<Vec<isize>>,
    closed: RefCell<Vec<isize>>,
    fullscreen_hwnds: RefCell<Vec<isize>>,
    valid_hwnds: RefCell<Vec<isize>>,
    start_times: RefCell<Vec<(u32, u64)>>,
}

impl MockWindowApi {
    fn set_foreground(&self, process: Option<&str>) {
        *self.foreground_process.borrow_mut() = process.map(|s| s.to_string());
    }
    fn set_foreground_hwnd(&self, hwnd: isize) {
        *self.foreground_hwnd.borrow_mut() = hwnd;
    }
    fn set_windows(&self, entries: Vec<WindowEntry>) {
        *self.valid_hwnds.borrow_mut() = entries.iter().map(|e| e.hwnd).collect();
        *self.windows.borrow_mut() = entries;
    }
    fn get_minimized(&self) -> Vec<isize> {
        self.minimized.borrow().clone()
    }
    fn get_closed(&self) -> Vec<isize> {
        self.closed.borrow().clone()
    }
}

impl WindowApi for MockWindowApi {
    fn get_foreground_process(&self) -> Option<String> {
        self.foreground_process.borrow().clone()
    }
    fn get_foreground_hwnd(&self) -> isize {
        *self.foreground_hwnd.borrow()
    }
    fn enumerate_visible_windows(&self) -> Vec<WindowEntry> {
        self.windows.borrow().clone()
    }
    fn minimize_window(&self, hwnd: isize) {
        self.minimized.borrow_mut().push(hwnd);
    }
    fn close_window(&self, hwnd: isize) {
        self.closed.borrow_mut().push(hwnd);
    }
    fn is_fullscreen(&self, hwnd: isize) -> bool {
        self.fullscreen_hwnds.borrow().contains(&hwnd)
    }
    fn is_window_valid(&self, hwnd: isize) -> bool {
        self.valid_hwnds.borrow().contains(&hwnd)
    }
    fn process_start_time(&self, pid: u32) -> Option<u64> {
        self.start_times.borrow().iter().find(|(p, _)| *p == pid).map(|(_, t)| *t)
    }
}

/// A monitor with the state the polling loop shares with it: the configuration, the
/// pause flag, the foreground times, the action log and a monotonic clock in ms.
struct Harness {
    monitor: Monitor<MockWindowApi>,
    config: Config,
    paused: bool,
    timestamps: TimestampTable,
    log: VecDeque<ActionLogEntry>,
    now: u64,
}

const START_MS: u64 = 10_000_000;
const WALL_MS: u64 = 1_700_000_000_000;

impl Harness {
    fn mock(&self) -> &MockWindowApi {
        &self.monitor.api
    }
    /// Run the steps of one poll at the current time, consulting the window system in
    /// between as the polling loop does; returns what the poll decided, with the
    /// candidates and checks, or `None` while paused.
    fn poll_steps(&mut self) -> Option<(Vec<(u32, Option<u64>)>, Vec<Candidate>, Vec<FrontCheck>, PollActions)> {
        if !self.monitor.start_poll(&self.config, self.paused, self.now, &mut self.timestamps) {
            return None;
        }
        let api = &self.monitor.api;
        let foreground = api.get_foreground_process();
        let windows = api.enumerate_visible_windows();
        let pids = self.monitor.observe(self.now, foreground, windows, &mut self.timestamps);
        let api = &self.monitor.api;
        let lookups: Vec<(u32, Option<u64>)> = pids.iter().map(|&p| (p, api.process_start_time(p))).collect();
        let cands = self.monitor.select(&self.config, self.now, &lookups, &mut self.timestamps);
        let api = &self.monitor.api;
        let checks: Vec<FrontCheck> = cands
            .iter()
            .map(|c| FrontCheck {
                fullscreen: api.is_fullscreen(c.hwnd),
                valid: api.is_window_valid(c.hwnd),
                fg_hwnd: api.get_foreground_hwnd(),
                fg_process: api.get_foreground_process(),
            })
            .collect();
        let out = conclude_poll(self.now, WALL_MS + self.now, &cands, &checks, &mut self.timestamps, &mut self.log);
        for r in &out.requests {
            match *r {
                WindowRequest::Minimize(h) => self.monitor.api.minimize_window(h),
                WindowRequest::Close(h) => self.monitor.api.close_window(h),
            }
        }
        Some((lookups, cands, checks, out))
    }

    /// Run a poll 100 ms after the previous one; returns how many windows were acted
    /// on.
    fn poll(&mut self) -> usize {
        self.now += 100;
        match self.poll_steps() {
            Some((_, _, _, out)) => out.acted.len(),
            None => 0,
        }
    }

    /// Record that `process` was last in front `secs` seconds before the next poll.
    fn backdate(&mut self, process: &str, secs: u64) {
        self.timestamps.insert(process.to_string(), self.now + 100 - secs * 1000);
    }
}

fn make_config(rules: Vec<AppRule>, buckets: Vec<Bucket>) -> Config {
    Config { general: General::default(), app_rule: rules, bucket: buckets }
}

fn rule(process: &str, timeout_mins: u64, action: Action, enabled: bool) -> AppRule {
    AppRule { process: process.into(), timeout_mins, action, enabled, icon: None, customized: false }
}

fn make_entry(hwnd: isize, process: &str, title: &str) -> WindowEntry {
    WindowEntry {
        hwnd,
        pid: hwnd as u32,
        info: WindowInfo {
            process_name: process.into(),
            title: title.into(),
            class_name: "AppWindow".into(),
            is_tool_window: false,
            is_owned: false,
            disables_owner: false,
            owner_pid: None,
            own_pid: false,
            is_cloaked: false,
            is_on_current_desktop: true,
        },
    }
}

fn setup(config: Config) -> Harness {
    Harness {
        monitor: Monitor::new(MockWindowApi::default()),
        config,
        paused: false,
        timestamps: TimestampTable::new(),
        log: VecDeque::new(),
        now: START_MS,
    }
}

#[test]
fn test_foreground_process_not_acted_on() {
    let config = make_config(vec![rule("chrome.exe", 0, Action::Minimize, true)], vec![]);
    let mut h = setup(config);

    h.mock().set_foreground(Some("chrome.exe"));
    h.mock().set_windows(vec![make_entry(1, "chrome.exe", "Google")]);

    // Even with timeout=0, the foreground process is not touched.
    h.poll();
    assert!(h.mock().get_minimized().is_empty());
}

#[test]
fn test_idle_process_gets_minimized() {
    let config = make_config(vec![rule("notepad.exe", 0, Action::Minimize, true)], vec![]);
    let mut h = setup(config);

    // First poll: notepad is foreground, sets timestamp
    h.mock().set_foreground(Some("notepad.exe"));
    h.mock().set_windows(vec![make_entry(100, "notepad.exe", "Untitled")]);
    h.poll();

    // Second poll: something else is foreground, notepad has been idle
    h.mock().set_foreground(Some("other.exe"));
    h.backdate("notepad.exe", 1);
    h.poll();

    assert!(!h.mock().get_minimized().is_empty());
}

#[test]
fn test_idle_process_gets_closed() {
    let config = make_config(vec![rule("notepad.exe", 0, Action::Close, true)], vec![]);
    let mut h = setup(config);

    h.mock().set_foreground(Some("notepad.exe"));
    h.mock().set_windows(vec![make_entry(100, "notepad.exe", "Untitled")]);
    h.poll();

    h.mock().set_foreground(Some("other.exe"));
    h.backdate("notepad.exe", 1);
    h.poll();

    assert!(!h.mock().get_closed().is_empty());
}

#[test]
fn test_unmanaged_process_never_acted_on() {
    let config = make_config(vec![], vec![]);
    let mut h = setup(config);

    h.mock().set_foreground(Some("other.exe"));
    h.mock().set_windows(vec![make_entry(1, "unmanaged.exe", "Something")]);
    h.backdate("unmanaged.exe", 9999);
    h.poll();

    assert!(h.mock().get_minimized().is_empty());
    assert!(h.mock().get_closed().is_empty());
}

#[test]
fn test_paused_skips_poll() {
    let config = make_config(vec![rule("notepad.exe", 0, Action::Minimize, true)], vec![]);
    let mut h = setup(config);

    h.paused = true;

    h.mock().set_foreground(Some("other.exe"));
    h.mock().set_windows(vec![make_entry(1, "notepad.exe", "Untitled")]);
    h.backdate("notepad.exe", 9999);
    h.poll();

    assert!(h.mock().get_minimized().is_empty());
}

#[test]
fn test_process_returns_to_foreground_resets_timer() {
    let config = make_config(vec![rule("chrome.exe", 1, Action::Minimize, true)], vec![]);
    let mut h = setup(config);

    // Chrome goes idle
    h.mock().set_foreground(Some("other.exe"));
    h.mock().set_windows(vec![make_entry(1, "chrome.exe", "Google")]);
    h.backdate("chrome.exe", 30);
    h.poll();
    assert!(h.mock().get_minimized().is_empty()); // 30s < 60s timeout

    // Chrome comes back to foreground — timer resets
    h.mock().set_foreground(Some("chrome.exe"));
    h.poll();

    // The timestamp was reset to now
    let ts = h.timestamps.get("chrome.exe").unwrap();
    assert!(h.now - ts < 2000);
}

#[test]
fn test_disabled_rule_not_acted_on() {
    let config = make_config(vec![rule("notepad.exe", 0, Action::Minimize, false)], vec![]);
    let mut h = setup(config);

    h.mock().set_foreground(Some("other.exe"));
    h.mock().set_windows(vec![make_entry(1, "notepad.exe", "Untitled")]);
    h.backdate("notepad.exe", 9999);
    h.poll();

    assert!(h.mock().get_minimized().is_empty());
}

#[test]
fn test_bucket_triggers_action() {
    let config = make_config(
        vec![],
        vec![Bucket {
            name: "Browsing".into(),
            processes: vec!["chrome.exe".into()],
            timeout_mins: 0,
            action: Action::Minimize,
            enabled: true,
            expanded: true,
            icon: None,
        }],
    );
    let mut h = setup(config);

    h.mock().set_foreground(Some("chrome.exe"));
    h.mock().set_windows(vec![make_entry(1, "chrome.exe", "Google")]);
    h.poll();

    h.mock().set_foreground(Some("other.exe"));
    h.backdate("chrome.exe", 1);
    h.poll();

    assert!(!h.mock().get_minimized().is_empty());
}

#[test]
fn test_system_window_skipped() {
    let config = make_config(vec![rule("dwm.exe", 0, Action::Minimize, true)], vec![]);
    let mut h = setup(config);

    h.mock().set_foreground(Some("other.exe"));
    h.mock().set_windows(vec![WindowEntry {
        hwnd: 1,
        pid: 1,
        info: WindowInfo {
            process_name: "dwm.exe".into(),
            title: "Desktop Window Manager".into(),
            class_name: "DWM".into(),
            is_tool_window: false,
            is_owned: false,
            disables_owner: false,
            owner_pid: None,
            own_pid: false,
            is_cloaked: false,
            is_on_current_desktop: true,
        },
    }]);
    h.backdate("dwm.exe", 9999);
    h.poll();

    assert!(h.mock().get_minimized().is_empty());
}

#[test]
fn test_config_change_takes_effect() {
    let config = make_config(vec![rule("notepad.exe", 999, Action::Minimize, true)], vec![]);
    let mut h = setup(config);

    h.mock().set_foreground(Some("other.exe"));
    h.mock().set_windows(vec![make_entry(1, "notepad.exe", "Untitled")]);
    h.backdate("notepad.exe", 60);
    h.poll();
    assert!(h.mock().get_minimized().is_empty()); // 60s < 999min

    // Change config to immediate timeout
    h.config.app_rule[0].timeout_mins = 0;
    h.poll();
    assert!(!h.mock().get_minimized().is_empty());
}

#[test]
fn test_first_sighting_gets_grace_period() {
    let config = make_config(vec![rule("notepad.exe", 0, Action::Minimize, true)], vec![]);
    let mut h = setup(config);

    // First time seeing notepad — should set timestamp, not act
    h.mock().set_foreground(Some("other.exe"));
    h.mock().set_windows(vec![make_entry(1, "notepad.exe", "Untitled")]);
    // Do NOT pre-set foreground times — this is the first sighting
    h.poll();

    assert!(h.mock().get_minimized().is_empty());
    // Now the timestamp should be set
    assert!(h.timestamps.get("notepad.exe").is_some());
}

#[test]
fn test_active_windows_snapshot_sorted() {
    let config = make_config(vec![rule("chrome.exe", 15, Action::Minimize, true)], vec![]);
    let mut h = setup(config);

    h.mock().set_foreground(Some("other.exe"));
    h.mock().set_windows(vec![make_entry(1, "chrome.exe", "Google"), make_entry(2, "notepad.exe", "Untitled")]);

    // Set different idle times
    h.backdate("chrome.exe", 300);
    h.backdate("notepad.exe", 60);

    h.poll();

    let snapshot = h.monitor.get_active_windows_snapshot(&h.timestamps, h.now, WALL_MS + h.now);
    assert!(!snapshot.is_empty());
    // First should be the longest idle
    if snapshot.len() >= 2 {
        assert!(snapshot[0].idle_secs >= snapshot[1].idle_secs);
    }
}

#[test]
fn test_snapshot_buffer_populated_after_poll() {
    let config = make_config(vec![], vec![]);
    let mut h = setup(config);

    h.mock().set_foreground(Some("other.exe"));
    h.mock().set_windows(vec![make_entry(1, "chrome.exe", "Google")]);
    h.backdate("chrome.exe", 10);
    h.poll();

    let buf = h.monitor.get_active_windows_snapshot(&h.timestamps, h.now, WALL_MS + h.now);
    assert!(!buf.is_empty());
    assert_eq!(buf[0].process, "chrome.exe");
}

#[test]
fn test_snapshot_buffer_empty_when_paused() {
    let config = make_config(vec![], vec![]);
    let mut h = setup(config);
    h.paused = true;

    h.mock().set_foreground(Some("other.exe"));
    h.mock().set_windows(vec![make_entry(1, "chrome.exe", "Google")]);
    h.poll();

    let buf = h.monitor.get_active_windows_snapshot(&h.timestamps, h.now, WALL_MS + h.now);
    assert!(buf.is_empty());
}

#[test]
fn test_newly_managed_process_gets_grace_period() {
    // Start with no rules — notepad is unmanaged
    let config = make_config(vec![], vec![]);
    let mut h = setup(config);

    // notepad is open and was last in foreground a long time ago
    h.mock().set_foreground(Some("other.exe"));
    h.mock().set_windows(vec![make_entry(1, "notepad.exe", "Untitled")]);
    h.backdate("notepad.exe", 9999);
    h.poll();
    assert!(h.mock().get_minimized().is_empty()); // unmanaged, no action

    // Now add a rule with timeout=0 (immediate)
    h.config.app_rule.push(rule("notepad.exe", 0, Action::Minimize, true));

    // First poll after rule added: should NOT minimize (grace period)
    h.poll();
    assert!(h.mock().get_minimized().is_empty());

    // Second poll: now it should act (idle clock was reset, but timeout=0)
    h.poll();
    assert!(!h.mock().get_minimized().is_empty());
}

#[test]
fn test_owned_window_not_acted_on() {
    // An owned (modal/popup) window is never a direct action target.
    let config = make_config(vec![rule("notepad.exe", 0, Action::Close, true)], vec![]);
    let mut h = setup(config);

    let mut owned = make_entry(1, "notepad.exe", "Save As");
    owned.info.is_owned = true;

    h.mock().set_foreground(Some("other.exe"));
    h.mock().set_windows(vec![owned]);
    h.backdate("notepad.exe", 9999);
    h.poll();

    assert!(h.mock().get_closed().is_empty());
    assert!(h.mock().get_minimized().is_empty());
}

#[test]
fn test_parent_skipped_when_owned_modal_exists() {
    // If a process has an owned modal window open, its parent window is skipped
    // too — closing it would tear down the active modal.
    let config = make_config(vec![rule("notepad.exe", 0, Action::Close, true)], vec![]);
    let mut h = setup(config);

    let parent = make_entry(10, "notepad.exe", "Untitled - Notepad");
    let mut modal = make_entry(11, "notepad.exe", "Save As");
    modal.info.is_owned = true;
    modal.info.disables_owner = true;
    // Same PID — they belong to the same process instance.
    modal.pid = parent.pid;

    h.mock().set_foreground(Some("other.exe"));
    h.mock().set_windows(vec![parent, modal]);
    h.backdate("notepad.exe", 9999);
    h.poll();

    assert!(h.mock().get_closed().is_empty());
    assert!(h.mock().get_minimized().is_empty());
}

#[test]
fn test_out_of_process_modal_shields_owner() {
    // Some modals are hosted in a different process than their owner; the shield
    // covers the owner's PID, not just the dialog's.
    let config = make_config(vec![rule("notepad.exe", 0, Action::Close, true)], vec![]);
    let mut h = setup(config);

    let parent = make_entry(30, "notepad.exe", "Untitled - Notepad");
    let mut modal = make_entry(31, "PickerHost.exe", "Save As");
    modal.info.is_owned = true;
    modal.info.disables_owner = true;
    modal.info.owner_pid = Some(parent.pid);

    h.mock().set_foreground(Some("other.exe"));
    h.mock().set_windows(vec![parent, modal]);
    h.backdate("notepad.exe", 9999);
    h.poll();

    assert!(h.mock().get_closed().is_empty());
    assert!(h.mock().get_minimized().is_empty());
}

#[test]
fn test_parent_acted_on_with_floating_helper() {
    // An owned window that does NOT disable its parent (find/replace, tool palette)
    // does not shield the parent from idle actions.
    let config = make_config(vec![rule("notepad.exe", 0, Action::Minimize, true)], vec![]);
    let mut h = setup(config);

    let parent = make_entry(20, "notepad.exe", "Untitled - Notepad");
    let mut helper = make_entry(21, "notepad.exe", "Find");
    helper.info.is_owned = true;
    helper.info.disables_owner = false;
    helper.pid = parent.pid;

    h.mock().set_foreground(Some("other.exe"));
    h.mock().set_windows(vec![parent, helper]);
    h.backdate("notepad.exe", 9999);
    // Prime the idle clock so timeout=0 acts on the second poll.
    h.poll();
    h.poll();

    assert!(!h.mock().get_minimized().is_empty());
}

#[test]
fn test_foreground_hwnd_skips_action() {
    // The currently-foreground HWND is not acted on even when the foreground
    // process name resolves to a different host.
    let config = make_config(vec![rule("chrome.exe", 0, Action::Minimize, true)], vec![]);
    let mut h = setup(config);

    h.mock().set_foreground(Some("other.exe"));
    h.mock().set_foreground_hwnd(42);
    h.mock().set_windows(vec![make_entry(42, "chrome.exe", "Active tab")]);
    h.backdate("chrome.exe", 9999);
    h.poll();

    // HWND-level check spared it.
    assert!(h.mock().get_minimized().is_empty());
}

#[test]
fn test_external_timestamp_update_respected() {
    // Simulates the foreground hook updating timestamps externally
    let config = make_config(vec![rule("notepad.exe", 1, Action::Minimize, true)], vec![]);
    let mut h = setup(config);

    h.mock().set_foreground(Some("other.exe"));
    h.mock().set_windows(vec![make_entry(1, "notepad.exe", "Untitled")]);

    // Simulate hook setting notepad as recently active (5 seconds ago)
    h.backdate("notepad.exe", 5);
    h.poll();

    // 5 seconds < 1 minute timeout — should NOT minimize
    assert!(h.mock().get_minimized().is_empty());

    // Now simulate the hook not firing for a long time (notepad idle 2 minutes)
    h.backdate("notepad.exe", 120);
    h.poll();

    // 120 seconds > 60 second timeout — should minimize
    assert!(!h.mock().get_minimized().is_empty());
}

// ── Further behaviour ──

#[test]
fn acted_window_is_logged_newest_first() {
    let config = make_config(vec![rule("notepad.exe", 1, Action::Close, true)], vec![]);
    let mut h = setup(config);
    h.mock().set_foreground(Some("other.exe"));
    h.mock().set_windows(vec![make_entry(7, "Notepad.exe", "Untitled")]);
    // The first poll gives every newly managed process a grace period.
    assert_eq!(h.poll(), 0);
    h.backdate("notepad.exe", 120);
    let n = h.poll();
    assert_eq!(n, 1);
    assert_eq!(h.mock().get_closed(), vec![7]);
    assert_eq!(h.log.len(), 1);
    let e = &h.log[0];
    assert_eq!(e.process, "Notepad.exe");
    assert_eq!(e.title, "Untitled");
    assert_eq!(e.action, Action::Close);
    assert_eq!(e.rule_source, RuleSource::AppRule);
    assert_eq!(e.timeout_mins, 1);
    assert_eq!(e.timestamp, (WALL_MS + h.now) / 1000);
}

#[test]
fn paused_poll_changes_nothing() {
    let config = make_config(vec![rule("notepad.exe", 0, Action::Minimize, true)], vec![]);
    let mut h = setup(config);
    h.mock().set_foreground(Some("other.exe"));
    h.mock().set_windows(vec![make_entry(1, "notepad.exe", "Untitled")]);
    h.backdate("notepad.exe", 9999);
    h.paused = true;
    let before = h.timestamps.entries.clone();
    assert_eq!(h.poll(), 0);
    assert_eq!(h.timestamps.entries, before);
    assert!(h.log.is_empty());
    assert!(h.monitor.last_poll_at.is_none());
    assert!(h.monitor.current_windows.is_empty());
}

#[test]
fn fullscreen_window_is_spared() {
    let config = make_config(vec![rule("game.exe", 0, Action::Minimize, true)], vec![]);
    let mut h = setup(config);
    h.mock().set_foreground(Some("other.exe"));
    h.mock().set_windows(vec![make_entry(5, "game.exe", "Game")]);
    h.mock().fullscreen_hwnds.borrow_mut().push(5);
    h.backdate("game.exe", 9999);
    h.poll();
    h.poll();
    assert!(h.mock().get_minimized().is_empty());
}

#[test]
fn long_gap_between_polls_resets_idle_clocks() {
    let config = make_config(vec![rule("notepad.exe", 1, Action::Minimize, true)], vec![]);
    let mut h = setup(config);
    h.mock().set_foreground(Some("other.exe"));
    h.mock().set_windows(vec![make_entry(1, "notepad.exe", "Untitled")]);
    h.backdate("notepad.exe", 10);
    h.poll();
    assert!(h.mock().get_minimized().is_empty());
    // The machine sleeps for an hour: on resume every clock starts over.
    h.now += 3_600_000;
    h.poll();
    assert!(h.mock().get_minimized().is_empty());
    assert_eq!(h.timestamps.get("notepad.exe"), Some(h.now));
}

#[test]
fn foreground_time_is_recorded_lowercased() {
    let config = make_config(vec![], vec![]);
    let mut h = setup(config);
    h.mock().set_foreground(Some("Chrome.EXE"));
    h.poll();
    assert_eq!(h.timestamps.get("chrome.exe"), Some(h.now));
    assert_eq!(h.timestamps.get("Chrome.EXE"), None);
}

#[test]
fn vanished_processes_are_forgotten() {
    let config = make_config(vec![], vec![]);
    let mut h = setup(config);
    h.mock().set_foreground(Some("other.exe"));
    h.mock().set_windows(vec![make_entry(1, "gone.exe", "Bye")]);
    h.backdate("gone.exe", 5);
    h.poll();
    assert!(h.timestamps.get("gone.exe").is_some());
    h.mock().set_windows(vec![]);
    h.poll();
    assert_eq!(h.timestamps.get("gone.exe"), None);
    assert_eq!(h.timestamps.get("other.exe"), Some(h.now));
}

#[test]
fn snapshot_reports_idle_and_open_seconds() {
    let config = make_config(vec![], vec![]);
    let mut h = setup(config);
    h.mock().set_foreground(Some("other.exe"));
    h.mock().set_windows(vec![make_entry(3, "chrome.exe", "Google")]);
    h.mock().start_times.borrow_mut().push((3, WALL_MS + START_MS + 100 - 3_600_000));
    h.backdate("chrome.exe", 42);
    h.poll();
    let snap = h.monitor.get_active_windows_snapshot(&h.timestamps, h.now, WALL_MS + h.now);
    assert_eq!(snap.len(), 1);
    assert_eq!(snap[0].title, "Google");
    assert_eq!(snap[0].idle_secs, 42);
    assert_eq!(snap[0].open_secs, 3600);
}

#[test]
fn timestamp_table_reads_back_writes() {
    let mut t = TimestampTable::new();
    assert_eq!(t.get("a.exe"), None);
    t.insert("a.exe".to_string(), 5);
    t.insert("b.exe".to_string(), 6);
    t.insert("a.exe".to_string(), 7);
    assert_eq!(t.get("a.exe"), Some(7));
    assert_eq!(t.get("b.exe"), Some(6));
    t.set_all(9);
    assert_eq!(t.get("a.exe"), Some(9));
    assert_eq!(t.get("b.exe"), Some(9));
    t.retain_keys(&vec!["b.exe".to_string()], &None);
    assert_eq!(t.get("a.exe"), None);
    assert_eq!(t.get("b.exe"), Some(9));
}

fn entry(n: u64) -> ActionLogEntry {
    ActionLogEntry {
        process: format!("p{}.exe", n),
        title: String::new(),
        action: Action::Minimize,
        timestamp: n,
        rule_source: RuleSource::Bucket,
        timeout_mins: 1,
    }
}

#[test]
fn action_log_keeps_newest_capacity_entries() {
    let mut log = VecDeque::new();
    for n in 0..(ACTION_LOG_CAPACITY as u64 + 20) {
        record_action(&mut log, entry(n));
    }
    assert_eq!(log.len(), ACTION_LOG_CAPACITY);
    assert_eq!(ACTION_LOG_CAPACITY, 100);
    assert_eq!(log[0].timestamp, ACTION_LOG_CAPACITY as u64 + 19);
    assert_eq!(log[ACTION_LOG_CAPACITY - 1].timestamp, 20);
}

#[test]
fn gap_threshold_is_five_intervals_or_a_minute() {
    assert!(!resumed_from_gap(None, 1_000_000, 30));
    assert!(!resumed_from_gap(Some(0), 150_000, 30));
    assert!(resumed_from_gap(Some(0), 150_001, 30));
    assert!(!resumed_from_gap(Some(0), 60_000, 1));
    assert!(resumed_from_gap(Some(0), 60_001, 1));
    assert!(!resumed_from_gap(Some(500), 100, 30));
}

#[test]
fn newly_managed_lists_only_new_names() {
    let cur = vec!["a.exe".to_string(), "b.exe".to_string(), "c.exe".to_string()];
    let prev = vec!["b.exe".to_string()];
    let mut got = newly_managed(&cur, &prev);
    got.sort();
    assert_eq!(got, vec!["a.exe".to_string(), "c.exe".to_string()]);
}

#[test]
fn poll_delay_is_the_interval_but_at_least_a_second() {
    let mut c = make_config(vec![], vec![]);
    assert_eq!(next_poll_delay_secs(&c), 30);
    c.general.polling_interval_secs = 0;
    assert_eq!(next_poll_delay_secs(&c), 1);
    c.general.polling_interval_secs = 7;
    assert_eq!(next_poll_delay_secs(&c), 7);
}

fn candidate(hwnd: isize, key: &str, action: Action) -> Candidate {
    Candidate {
        hwnd,
        key: key.into(),
        process: key.into(),
        title: "t".into(),
        rule: ResolvedRule { timeout_mins: 1, action, source: RuleSource::AppRule },
        idle_ms: 60_000,
    }
}

fn front(fullscreen: bool, valid: bool, fg_hwnd: isize, fg_process: Option<&str>) -> FrontCheck {
    FrontCheck { fullscreen, valid, fg_hwnd, fg_process: fg_process.map(|s| s.to_string()) }
}

#[test]
fn last_moment_check_decides() {
    let c = candidate(9, "notepad.exe", Action::Minimize);
    assert_eq!(recheck(&c, &front(true, true, 0, None)), Recheck::Skip);
    assert_eq!(recheck(&c, &front(false, false, 0, None)), Recheck::Skip);
    assert_eq!(recheck(&c, &front(false, true, 9, None)), Recheck::Touch);
    assert_eq!(recheck(&c, &front(false, true, 0, Some("NOTEPAD.exe"))), Recheck::Touch);
    assert_eq!(recheck(&c, &front(false, true, 4, Some("other.exe"))), Recheck::Act);
    assert_eq!(recheck(&c, &front(false, true, 0, None)), Recheck::Act);
}

#[test]
fn requests_follow_the_rule_action() {
    assert_eq!(request_for(&candidate(3, "a.exe", Action::Minimize)), WindowRequest::Minimize(3));
    assert_eq!(request_for(&candidate(4, "a.exe", Action::Close)), WindowRequest::Close(4));
}

#[test]
fn poll_reports_what_it_saw_and_asked() {
    let config = make_config(vec![rule("notepad.exe", 0, Action::Close, true)], vec![]);
    let mut h = setup(config);
    h.mock().set_foreground(Some("Other.exe"));
    h.mock().set_windows(vec![make_entry(5, "notepad.exe", "N"), make_entry(6, "notepad.exe", "M")]);
    h.mock().fullscreen_hwnds.borrow_mut().push(6);
    h.mock().start_times.borrow_mut().push((5, 1234));
    h.poll();
    assert_eq!(h.monitor.foreground.as_deref(), Some("other.exe"));
    h.backdate("notepad.exe", 5);
    h.now += 100;
    let (lookups, cands, checks, out) = h.poll_steps().unwrap();
    // Start times are looked up once per process id.
    assert!(lookups.is_empty());
    assert_eq!(cands.len(), 2);
    assert_eq!(checks.len(), 2);
    assert!(checks[1].fullscreen);
    assert_eq!(out.acted.len(), 1);
    assert_eq!(out.requests, vec![WindowRequest::Close(5)]);
}

#[test]
fn start_times_are_looked_up_for_new_processes() {
    let config = make_config(vec![], vec![]);
    let mut h = setup(config);
    h.mock().set_foreground(None);
    h.mock().set_windows(vec![make_entry(5, "a.exe", "A"), make_entry(7, "a.exe", "B")]);
    h.mock().start_times.borrow_mut().push((5, 1234));
    h.now += 100;
    let (lookups, _, _, out) = h.poll_steps().unwrap();
    assert_eq!(lookups, vec![(5, Some(1234)), (7, None)]);
    assert!(out.requests.is_empty());
    assert_eq!(h.monitor.process_start_cache, vec![(5, Some(1234)), (7, None)]);
}

#[test]
fn conclude_poll_uses_checks_by_position() {
    let cands = vec![candidate(1, "a.exe", Action::Minimize), candidate(2, "b.exe", Action::Close), candidate(3, "c.exe", Action::Close)];
    let checks = vec![front(false, true, 0, None), front(false, true, 2, None)];
    let mut ts = TimestampTable::new();
    let mut log = VecDeque::new();
    let out = conclude_poll(50_000, 7_000, &cands, &checks, &mut ts, &mut log);
    assert_eq!(out.requests, vec![WindowRequest::Minimize(1)]);
    assert_eq!(out.acted.len(), 1);
    assert_eq!(ts.get("b.exe"), Some(50_000));
    assert_eq!(ts.get("c.exe"), None);
    assert_eq!(log.len(), 1);
    assert_eq!(log[0].timestamp, 7);
}
