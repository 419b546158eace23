use fade::filter::{is_system_window, WindowInfo};

fn make_window(process: &str, title: &str, class: &str) -> WindowInfo {
    WindowInfo {
        process_name: process.into(),
        title: title.into(),
        class_name: class.into(),
        is_tool_window: false,
        is_owned: false,
        disables_owner: false,
        owner_pid: None,
        own_pid: false,
        is_cloaked: false,
        is_on_current_desktop: true,
    }
}

#[test]
fn test_cloaked_window_filtered() {
    let mut w = make_window("chrome.exe", "Background tab", "Chrome_WidgetWin_1");
    w.is_cloaked = true;
    assert!(is_system_window(&w));
}

#[test]
fn test_off_desktop_window_filtered() {
    let mut w = make_window("chrome.exe", "Other desktop", "Chrome_WidgetWin_1");
    w.is_on_current_desktop = false;
    assert!(is_system_window(&w));
}

#[test]
fn test_normal_app_passes() {
    let w = make_window("chrome.exe", "Google", "Chrome_WidgetWin_1");
    assert!(!is_system_window(&w));
}

#[test]
fn test_system_process_filtered() {
    let w = make_window("dwm.exe", "Desktop Window Manager", "DWM");
    assert!(is_system_window(&w));
}

#[test]
fn test_empty_title_filtered() {
    let w = make_window("chrome.exe", "", "Chrome_WidgetWin_1");
    assert!(is_system_window(&w));
}

#[test]
fn test_tool_window_filtered() {
    let mut w = make_window("app.exe", "Tooltip", "ToolWin");
    w.is_tool_window = true;
    assert!(is_system_window(&w));
}

#[test]
fn test_own_pid_filtered() {
    let mut w = make_window("fade.exe", "Fade Settings", "SlintWindow");
    w.own_pid = true;
    assert!(is_system_window(&w));
}

#[test]
fn test_system_class_filtered() {
    let w = make_window("unknown.exe", "Something", "Shell_TrayWnd");
    assert!(is_system_window(&w));
}

#[test]
fn test_explorer_desktop_filtered() {
    let w = make_window("explorer.exe", "Desktop", "Progman");
    assert!(is_system_window(&w));
}

#[test]
fn test_explorer_file_window_passes() {
    let w = make_window("explorer.exe", "Documents", "CabinetWClass");
    assert!(!is_system_window(&w));
}

#[test]
fn test_case_insensitive_system_check() {
    let w = make_window("DWM.exe", "Desktop Window Manager", "DWM");
    // The system list is lowercase, and names are compared lowercased
    assert!(is_system_window(&w));
}

#[test]
fn test_windowsterminal_filtered() {
    let w = make_window("WindowsTerminal.exe", "Terminal", "CASCADIA_HOSTING_WINDOW_CLASS");
    assert!(is_system_window(&w));
}

#[test]
fn explorer_folder_window_class_is_case_sensitive() {
    let w = make_window("Explorer.EXE", "Documents", "CabinetWClass");
    assert!(!is_system_window(&w));
    let w = make_window("explorer.exe", "Documents", "cabinetwclass");
    assert!(is_system_window(&w));
}

#[test]
fn owned_window_is_not_a_system_window() {
    let mut w = make_window("notepad.exe", "Save As", "#32770");
    w.is_owned = true;
    w.disables_owner = true;
    assert!(!is_system_window(&w));
}
