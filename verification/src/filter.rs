//! Window filtering logic: decides which windows are "system" windows that are
//! ignored, as opposed to user application windows.
use vstd::prelude::*;
use crate::text::{lowercase, str_eq, to_lower};

verus! {

/// Known system process names (lowercase) whose windows are always filtered out.
pub open spec fn is_system_process_name(p: Seq<char>) -> bool {
    p == "explorer.exe"@
    || p == "searchhost.exe"@
    || p == "startmenuexperiencehost.exe"@
    || p == "shellexperiencehost.exe"@
    || p == "textinputhost.exe"@
    || p == "systemsettings.exe"@
    || p == "lockapp.exe"@
    || p == "runtimebroker.exe"@
    || p == "applicationframehost.exe"@
    || p == "dwm.exe"@
    || p == "csrss.exe"@
    || p == "winlogon.exe"@
    || p == "taskhostw.exe"@
    || p == "sihost.exe"@
    || p == "ctfmon.exe"@
    || p == "conhost.exe"@
    || p == "fontdrvhost.exe"@
    || p == "dllhost.exe"@
    || p == "svchost.exe"@
    || p == "smartscreen.exe"@
    || p == "securityhealthsystray.exe"@
    || p == "windowsterminal.exe"@
}

/// Window class names that indicate system/shell windows.
pub open spec fn is_system_class(p: Seq<char>) -> bool {
    p == "Progman"@
    || p == "WorkerW"@
    || p == "Shell_TrayWnd"@
    || p == "Shell_SecondaryTrayWnd"@
    || p == "NotifyIconOverflowWindow"@
    || p == "Windows.UI.Core.CoreWindow"@
    || p == "ForegroundStaging"@
    || p == "MultitaskingViewFrame"@
    || p == "TaskManagerWindow"@
}

fn system_process_name(p: &str) -> (r: bool)
    ensures
        r == is_system_process_name(p@),
{
    str_eq(p, "explorer.exe")
        || str_eq(p, "searchhost.exe")
        || str_eq(p, "startmenuexperiencehost.exe")
        || str_eq(p, "shellexperiencehost.exe")
        || str_eq(p, "textinputhost.exe")
        || str_eq(p, "systemsettings.exe")
        || str_eq(p, "lockapp.exe")
        || str_eq(p, "runtimebroker.exe")
        || str_eq(p, "applicationframehost.exe")
        || str_eq(p, "dwm.exe")
        || str_eq(p, "csrss.exe")
        || str_eq(p, "winlogon.exe")
        || str_eq(p, "taskhostw.exe")
        || str_eq(p, "sihost.exe")
        || str_eq(p, "ctfmon.exe")
        || str_eq(p, "conhost.exe")
        || str_eq(p, "fontdrvhost.exe")
        || str_eq(p, "dllhost.exe")
        || str_eq(p, "svchost.exe")
        || str_eq(p, "smartscreen.exe")
        || str_eq(p, "securityhealthsystray.exe")
        || str_eq(p, "windowsterminal.exe")
}

fn system_class(p: &str) -> (r: bool)
    ensures
        r == is_system_class(p@),
{
    str_eq(p, "Progman")
        || str_eq(p, "WorkerW")
        || str_eq(p, "Shell_TrayWnd")
        || str_eq(p, "Shell_SecondaryTrayWnd")
        || str_eq(p, "NotifyIconOverflowWindow")
        || str_eq(p, "Windows.UI.Core.CoreWindow")
        || str_eq(p, "ForegroundStaging")
        || str_eq(p, "MultitaskingViewFrame")
        || str_eq(p, "TaskManagerWindow")
}

/// Descriptor for a window, used by the filter logic.
#[derive(Clone, Debug)]
pub struct WindowInfo {
    pub process_name: String,
    pub title: String,
    pub class_name: String,
    /// The window has the tool-window extended style.
    pub is_tool_window: bool,
    /// The window has an owner window (modal/popup/dialog).
    pub is_owned: bool,
    /// The window is owned AND its owner is currently disabled: a true
    /// application-modal dialog. Floating helpers leave the owner enabled.
    pub disables_owner: bool,
    /// PID of the owner window when this window's owner is disabled (a real modal).
    pub owner_pid: Option<u32>,
    /// The window belongs to this program's own process.
    pub own_pid: bool,
    /// The compositor reports the window as cloaked (invisible to the user).
    pub is_cloaked: bool,
    /// The window belongs to the user's current virtual desktop.
    pub is_on_current_desktop: bool,
}

/// The window is a system window that must never be acted on: one of our own, cloaked,
/// on another virtual desktop, untitled, a tool window, owned by a known system process
/// (except File Explorer folder windows), or of a known system window class.
pub open spec fn spec_is_system_window(info: WindowInfo) -> bool {
    if info.own_pid || info.is_cloaked || !info.is_on_current_desktop || info.title@.len() == 0
        || info.is_tool_window {
        true
    } else if is_system_process_name(lowercase(info.process_name@)) {
        !(lowercase(info.process_name@) == "explorer.exe"@ && info.class_name@ == "CabinetWClass"@)
    } else {
        is_system_class(info.class_name@)
    }
}

/// Returns true if this window should be filtered out (is a system window).
pub fn is_system_window(info: &WindowInfo) -> (r: bool)
    ensures
        r == spec_is_system_window(*info),
{
    if info.own_pid {
        return true;
    }
    if info.is_cloaked {
        return true;
    }
    if !info.is_on_current_desktop {
        return true;
    }
    if info.title.as_str().is_empty() {
        return true;
    }
    if info.is_tool_window {
        return true;
    }
    let process_lower = to_lower(info.process_name.as_str());
    if system_process_name(process_lower.as_str()) {
        if str_eq(process_lower.as_str(), "explorer.exe") && str_eq(
            info.class_name.as_str(),
            "CabinetWClass",
        ) {
            return false;
        }
        return true;
    }
    if system_class(info.class_name.as_str()) {
        return true;
    }
    false
}


/// The shell and system processes whose windows are never acted on (lowercase).
pub open spec fn system_processes() -> Seq<Seq<char>> {
    seq![
        "explorer.exe"@,
        "searchhost.exe"@,
        "startmenuexperiencehost.exe"@,
        "shellexperiencehost.exe"@,
        "textinputhost.exe"@,
        "systemsettings.exe"@,
        "lockapp.exe"@,
        "runtimebroker.exe"@,
        "applicationframehost.exe"@,
        "dwm.exe"@,
        "csrss.exe"@,
        "winlogon.exe"@,
        "taskhostw.exe"@,
        "sihost.exe"@,
        "ctfmon.exe"@,
        "conhost.exe"@,
        "fontdrvhost.exe"@,
        "dllhost.exe"@,
        "svchost.exe"@,
        "smartscreen.exe"@,
        "securityhealthsystray.exe"@,
        "windowsterminal.exe"@,
    ]
}

/// The window classes of the desktop, the taskbar and other shell surfaces.
pub open spec fn system_classes() -> Seq<Seq<char>> {
    seq![
        "Progman"@,
        "WorkerW"@,
        "Shell_TrayWnd"@,
        "Shell_SecondaryTrayWnd"@,
        "NotifyIconOverflowWindow"@,
        "Windows.UI.Core.CoreWindow"@,
        "ForegroundStaging"@,
        "MultitaskingViewFrame"@,
        "TaskManagerWindow"@,
    ]
}

/// Which windows are system windows: ours, cloaked ones, those on another virtual
/// desktop, untitled ones and tool windows always are; any other window is one exactly
/// when its process (lowercased) is a listed system process, File Explorer folder
/// windows excepted, or its class is a listed shell class.
pub proof fn lemma_system_window_lists(info: WindowInfo)
    ensures
        info.own_pid || info.is_cloaked || !info.is_on_current_desktop || info.title@.len() == 0
            || info.is_tool_window ==> spec_is_system_window(info),
        !(info.own_pid || info.is_cloaked || !info.is_on_current_desktop || info.title@.len() == 0
            || info.is_tool_window) ==> (spec_is_system_window(info) <==> ((system_processes().contains(
            lowercase(info.process_name@),
        ) && !(lowercase(info.process_name@) == "explorer.exe"@ && info.class_name@ == "CabinetWClass"@))
            || system_classes().contains(info.class_name@))),
{
    let p = lowercase(info.process_name@);
    lemma_system_lists(p, info.class_name@);
    lemma_system_lists(p, "CabinetWClass"@);
    assert(is_system_process_name(p) == system_processes().contains(p));
    assert(is_system_class(info.class_name@) == system_classes().contains(info.class_name@));
    if p == "explorer.exe"@ && info.class_name@ == "CabinetWClass"@ {
        reveal_strlit("CabinetWClass");
        reveal_strlit("Progman");
        assert("CabinetWClass"@[0] != "Progman"@[0]);
        reveal_strlit("WorkerW");
        assert("CabinetWClass"@[0] != "WorkerW"@[0]);
        reveal_strlit("Shell_TrayWnd");
        assert("CabinetWClass"@[0] != "Shell_TrayWnd"@[0]);
        reveal_strlit("Shell_SecondaryTrayWnd");
        assert("CabinetWClass"@[0] != "Shell_SecondaryTrayWnd"@[0]);
        reveal_strlit("NotifyIconOverflowWindow");
        assert("CabinetWClass"@[0] != "NotifyIconOverflowWindow"@[0]);
        reveal_strlit("Windows.UI.Core.CoreWindow");
        assert("CabinetWClass"@[0] != "Windows.UI.Core.CoreWindow"@[0]);
        reveal_strlit("ForegroundStaging");
        assert("CabinetWClass"@[0] != "ForegroundStaging"@[0]);
        reveal_strlit("MultitaskingViewFrame");
        assert("CabinetWClass"@[0] != "MultitaskingViewFrame"@[0]);
        reveal_strlit("TaskManagerWindow");
        assert("CabinetWClass"@[0] != "TaskManagerWindow"@[0]);
        assert(!is_system_class("CabinetWClass"@));
    }
}

/// The name tests agree with the lists: a name is a system process name exactly when
/// the process list holds it, and a class a system class exactly when the class list
/// holds it.
pub proof fn lemma_system_lists(p: Seq<char>, c: Seq<char>)
    ensures
        is_system_process_name(p) <==> system_processes().contains(p),
        is_system_class(c) <==> system_classes().contains(c),
{
    let ps = system_processes();
    let cs = system_classes();
    assert(ps[0] == "explorer.exe"@);
    assert(ps[1] == "searchhost.exe"@);
    assert(ps[2] == "startmenuexperiencehost.exe"@);
    assert(ps[3] == "shellexperiencehost.exe"@);
    assert(ps[4] == "textinputhost.exe"@);
    assert(ps[5] == "systemsettings.exe"@);
    assert(ps[6] == "lockapp.exe"@);
    assert(ps[7] == "runtimebroker.exe"@);
    assert(ps[8] == "applicationframehost.exe"@);
    assert(ps[9] == "dwm.exe"@);
    assert(ps[10] == "csrss.exe"@);
    assert(ps[11] == "winlogon.exe"@);
    assert(ps[12] == "taskhostw.exe"@);
    assert(ps[13] == "sihost.exe"@);
    assert(ps[14] == "ctfmon.exe"@);
    assert(ps[15] == "conhost.exe"@);
    assert(ps[16] == "fontdrvhost.exe"@);
    assert(ps[17] == "dllhost.exe"@);
    assert(ps[18] == "svchost.exe"@);
    assert(ps[19] == "smartscreen.exe"@);
    assert(ps[20] == "securityhealthsystray.exe"@);
    assert(ps[21] == "windowsterminal.exe"@);
    assert(cs[0] == "Progman"@);
    assert(cs[1] == "WorkerW"@);
    assert(cs[2] == "Shell_TrayWnd"@);
    assert(cs[3] == "Shell_SecondaryTrayWnd"@);
    assert(cs[4] == "NotifyIconOverflowWindow"@);
    assert(cs[5] == "Windows.UI.Core.CoreWindow"@);
    assert(cs[6] == "ForegroundStaging"@);
    assert(cs[7] == "MultitaskingViewFrame"@);
    assert(cs[8] == "TaskManagerWindow"@);
    if ps.contains(p) {
        let i = choose|i: int| 0 <= i < ps.len() && ps[i] == p;
        assert(is_system_process_name(ps[i]));
    }
    if cs.contains(c) {
        let i = choose|i: int| 0 <= i < cs.len() && cs[i] == c;
        assert(is_system_class(cs[i]));
    }
}

} // verus!
