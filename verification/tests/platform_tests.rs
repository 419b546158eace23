use fade::icons::{bucket_icon, process_icon};
use fade::platform::{
    describe_window, file_name_of, lists_window, filetime_to_unix_ms, fullscreen_inputs_ok, is_fullscreen_geometry, Rect,
    EPOCH_DIFF_100NS, WS_EX_TOOLWINDOW, WS_POPUP, WS_THICKFRAME,
};

fn rect(left: i32, top: i32, right: i32, bottom: i32) -> Rect {
    Rect { left, top, right, bottom }
}

#[test]
fn borderless_popup_on_monitor_is_fullscreen() {
    let mon = rect(0, 0, 1920, 1080);
    assert!(is_fullscreen_geometry(WS_POPUP, mon, mon));
    // A resizable frame is not the classic fullscreen style, but covering the
    // monitor still counts.
    assert!(is_fullscreen_geometry(WS_POPUP | WS_THICKFRAME, mon, mon));
}

#[test]
fn near_full_window_within_four_pixels_is_fullscreen() {
    let mon = rect(0, 0, 1920, 1080);
    assert!(is_fullscreen_geometry(0, rect(-4, -4, 1924, 1084), mon));
    assert!(is_fullscreen_geometry(0, rect(0, 0, 1917, 1080), mon));
    assert!(!is_fullscreen_geometry(0, rect(5, 0, 1920, 1080), mon));
    assert!(!is_fullscreen_geometry(0, rect(0, 0, 1000, 800), mon));
}

#[test]
fn filetime_converts_to_unix_millis() {
    assert_eq!(filetime_to_unix_ms(0, 0), None);
    let ticks = EPOCH_DIFF_100NS + 12_345 * 10_000 + 9_999;
    let high = (ticks >> 32) as u32;
    let low = (ticks & 0xffff_ffff) as u32;
    assert_eq!(filetime_to_unix_ms(high, low), Some(12_345));
    let epoch_high = (EPOCH_DIFF_100NS >> 32) as u32;
    let epoch_low = (EPOCH_DIFF_100NS & 0xffff_ffff) as u32;
    assert_eq!(filetime_to_unix_ms(epoch_high, epoch_low), Some(0));
}

#[test]
fn file_name_is_last_path_component() {
    assert_eq!(file_name_of("C:\\Program Files\\Google\\chrome.exe"), "chrome.exe");
    assert_eq!(file_name_of("notepad.exe"), "notepad.exe");
    assert_eq!(file_name_of("C:\\dir\\"), "");
    assert_eq!(file_name_of(""), "");
}

#[test]
fn describe_window_sets_flags() {
    let w = describe_window(
        "a.exe".into(),
        "Title".into(),
        "Cls".into(),
        WS_EX_TOOLWINDOW,
        Some(false),
        Some(77),
        5,
        5,
        true,
    );
    assert_eq!(w.process_name, "a.exe");
    assert!(w.is_tool_window);
    assert!(w.is_owned);
    assert!(w.disables_owner);
    assert_eq!(w.owner_pid, Some(77));
    assert!(w.own_pid);
    assert!(w.is_cloaked);
    assert!(w.is_on_current_desktop);

    let w = describe_window("b.exe".into(), "T".into(), "C".into(), 0, Some(true), Some(77), 5, 6, false);
    assert!(!w.is_tool_window);
    assert!(w.is_owned);
    assert!(!w.disables_owner);
    assert_eq!(w.owner_pid, None);
    assert!(!w.own_pid);

    let w = describe_window("c.exe".into(), "T".into(), "C".into(), 0, None, None, 1, 2, false);
    assert!(!w.is_owned);
}

#[test]
fn icons_are_looked_up_case_insensitively() {
    assert_eq!(process_icon("CHROME.EXE"), "googlechrome");
    assert_eq!(process_icon("unknown-app.exe"), "\u{F0485}");
    assert_eq!(bucket_icon("Gaming"), "\u{F0E52}");
    assert_eq!(bucket_icon("browsing"), "\u{F0483}");
    assert_eq!(bucket_icon("Something else"), "\u{F0493}");
}

#[test]
fn fullscreen_inputs_must_fit_machine_types() {
    let mon = rect(0, 0, 1920, 1080);
    assert!(fullscreen_inputs_ok(rect(-8, -8, 1928, 1088), mon));
    assert!(!fullscreen_inputs_ok(rect(i32::MIN, 0, i32::MAX, 10), mon));
    assert!(fullscreen_inputs_ok(rect(0, 0, 10, 10), rect(0, 0, i32::MAX, 10)));
    assert!(!fullscreen_inputs_ok(rect(0, 0, 10, 10), rect(-10, 0, i32::MAX, 10)));
    assert!(!fullscreen_inputs_ok(rect(0, 0, 10, 10), rect(i32::MAX - 2, 0, i32::MAX, 10)));
}

#[test]
fn enumeration_lists_visible_titled_windows_of_known_processes() {
    let name = Some("notepad.exe".to_string());
    assert!(lists_window(true, false, "Untitled - Notepad", &name));
    assert!(!lists_window(false, false, "Untitled - Notepad", &name));
    assert!(!lists_window(true, true, "Untitled - Notepad", &name));
    assert!(!lists_window(true, false, "", &name));
    assert!(!lists_window(true, false, "Untitled - Notepad", &None));
}

#[test]
fn process_icon_ignores_case() {
    for p in ["Code.exe", "SLACK.EXE", "Steam.exe", "unknown.EXE"] {
        assert_eq!(process_icon(p), process_icon(&p.to_lowercase()));
    }
    assert_eq!(process_icon("unknown.exe"), "\u{F0485}");
}
