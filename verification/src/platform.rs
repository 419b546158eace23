//! Decisions the Win32 layer makes on plain values: whether a window covers its
//! monitor, process creation times, executable names, and how an enumerated window
//! is described.
use vstd::prelude::*;
use crate::filter::WindowInfo;
use vstd::string::StrSliceExecFns;

verus! {

/// A rectangle in screen coordinates.
#[derive(Clone, Copy, Debug, PartialEq, Eq, Structural)]
pub struct Rect {
    pub left: i32,
    pub top: i32,
    pub right: i32,
    pub bottom: i32,
}

/// The popup window style bit.
pub const WS_POPUP: u32 = 0x8000_0000;

/// The resizable-frame window style bit.
pub const WS_THICKFRAME: u32 = 0x0004_0000;

/// The tool-window extended style bit.
pub const WS_EX_TOOLWINDOW: u32 = 0x0000_0080;

/// `x` limited from below by `lo`.
pub open spec fn at_least(x: int, lo: int) -> int {
    if x < lo {
        lo
    } else {
        x
    }
}

/// The arithmetic of the fullscreen test stays within the machine types: the widths
/// and heights and the monitor edges moved by four pixels fit in 32 bits, and the
/// scaled areas in 64 bits.
pub open spec fn fullscreen_inputs_in_range(rect: Rect, mon: Rect) -> bool {
    let w = rect.right - rect.left;
    let h = rect.bottom - rect.top;
    let mw = mon.right - mon.left;
    let mh = mon.bottom - mon.top;
    &&& i32::MIN <= w <= i32::MAX
    &&& i32::MIN <= h <= i32::MAX
    &&& i32::MIN <= mw <= i32::MAX
    &&& i32::MIN <= mh <= i32::MAX
    &&& mon.left + 4 <= i32::MAX
    &&& mon.top + 4 <= i32::MAX
    &&& mon.right - 4 >= i32::MIN
    &&& mon.bottom - 4 >= i32::MIN
    &&& at_least(w, 0) * at_least(h, 0) * 100 <= i64::MAX
    &&& at_least(mw, 1) * at_least(mh, 1) * 99 <= i64::MAX
}

/// Whether the fullscreen test can run on these rectangles without leaving the
/// machine types (see `fullscreen_inputs_in_range`).
pub fn fullscreen_inputs_ok(rect: Rect, mon: Rect) -> (r: bool)
    ensures
        r == fullscreen_inputs_in_range(rect, mon),
{
    let w: i64 = rect.right as i64 - rect.left as i64;
    let h: i64 = rect.bottom as i64 - rect.top as i64;
    let mw: i64 = mon.right as i64 - mon.left as i64;
    let mh: i64 = mon.bottom as i64 - mon.top as i64;
    let lo: i64 = i32::MIN as i64;
    let hi: i64 = i32::MAX as i64;
    if !(lo <= w && w <= hi && lo <= h && h <= hi && lo <= mw && mw <= hi && lo <= mh && mh <= hi) {
        return false;
    }
    if !(mon.left as i64 + 4 <= hi && mon.top as i64 + 4 <= hi && mon.right as i64 - 4 >= lo
        && mon.bottom as i64 - 4 >= lo) {
        return false;
    }
    let cw: i128 = if w < 0 {
        0
    } else {
        w as i128
    };
    let ch: i128 = if h < 0 {
        0
    } else {
        h as i128
    };
    let cmw: i128 = if mw < 1 {
        1
    } else {
        mw as i128
    };
    let cmh: i128 = if mh < 1 {
        1
    } else {
        mh as i128
    };
    assert(0 <= cw * ch * 100 <= 0x1_0000_0000 * 0x1_0000_0000 * 100) by (nonlinear_arith)
        requires
            0 <= cw <= 0x1_0000_0000,
            0 <= ch <= 0x1_0000_0000,
    ;
    assert(0 <= cmw * cmh * 99 <= 0x1_0000_0000 * 0x1_0000_0000 * 99) by (nonlinear_arith)
        requires
            1 <= cmw <= 0x1_0000_0000,
            1 <= cmh <= 0x1_0000_0000,
    ;
    let max: i128 = i64::MAX as i128;
    cw * ch * 100 <= max && cmw * cmh * 99 <= max
}

/// The window covers its monitor: either a borderless popup exactly on the monitor
/// rectangle, or a window covering at least 99% of the monitor's area whose edges lie
/// within four pixels outside-or-on the monitor's edges.
pub open spec fn spec_is_fullscreen(style: u32, rect: Rect, mon: Rect) -> bool {
    let classic = (style & WS_POPUP) != 0 && (style & WS_THICKFRAME) == 0;
    let w = at_least(rect.right - rect.left, 0);
    let h = at_least(rect.bottom - rect.top, 0);
    let mw = at_least(mon.right - mon.left, 1);
    let mh = at_least(mon.bottom - mon.top, 1);
    (classic && rect == mon) || (w * h * 100 >= mw * mh * 99 && rect.left <= mon.left + 4
        && rect.top <= mon.top + 4 && rect.right >= mon.right - 4 && rect.bottom >= mon.bottom - 4)
}

/// Whether a window with style bits `style` and rectangle `rect` covers the monitor
/// rectangle `mon`.
pub fn is_fullscreen_geometry(style: u32, rect: Rect, mon: Rect) -> (r: bool)
    requires
        fullscreen_inputs_in_range(rect, mon),
    ensures
        r == spec_is_fullscreen(style, rect, mon),
{
    let is_popup = (style & WS_POPUP) != 0;
    let no_border = (style & WS_THICKFRAME) == 0;
    let classic_fullscreen = is_popup && no_border;
    if classic_fullscreen && rect.left == mon.left && rect.top == mon.top && rect.right == mon.right
        && rect.bottom == mon.bottom {
        return true;
    }
    let dw: i32 = rect.right - rect.left;
    let dh: i32 = rect.bottom - rect.top;
    let dmw: i32 = mon.right - mon.left;
    let dmh: i32 = mon.bottom - mon.top;
    let win_w: i64 = if dw < 0 {
        0
    } else {
        dw as i64
    };
    let win_h: i64 = if dh < 0 {
        0
    } else {
        dh as i64
    };
    let mon_w: i64 = if dmw < 1 {
        1
    } else {
        dmw as i64
    };
    let mon_h: i64 = if dmh < 1 {
        1
    } else {
        dmh as i64
    };
    assert(0 <= win_w * win_h <= win_w * win_h * 100) by (nonlinear_arith)
        requires
            win_w >= 0,
            win_h >= 0,
    ;
    assert(0 <= mon_w * mon_h <= mon_w * mon_h * 99) by (nonlinear_arith)
        requires
            mon_w >= 1,
            mon_h >= 1,
    ;
    let win_area: i64 = win_w * win_h;
    let mon_area: i64 = mon_w * mon_h;
    let near_full = win_area * 100 >= mon_area * 99 && rect.left <= mon.left + 4 && rect.top
        <= mon.top + 4 && rect.right >= mon.right - 4 && rect.bottom >= mon.bottom - 4;
    near_full
}

/// 100-nanosecond ticks from 1601-01-01 to 1970-01-01 (UTC).
pub const EPOCH_DIFF_100NS: u64 = 116_444_736_000_000_000;

/// A Win32 file time (100-ns ticks since 1601, split in two 32-bit halves) as
/// milliseconds since the UNIX epoch; `None` before 1970.
pub open spec fn spec_filetime_to_unix_ms(high: u32, low: u32) -> Option<u64> {
    let ticks = high * 0x1_0000_0000 + low;
    if ticks < EPOCH_DIFF_100NS {
        None
    } else {
        Some(((ticks - EPOCH_DIFF_100NS) / 10_000) as u64)
    }
}

/// Convert a process creation file time to milliseconds since the UNIX epoch.
pub fn filetime_to_unix_ms(high: u32, low: u32) -> (r: Option<u64>)
    ensures
        r == spec_filetime_to_unix_ms(high, low),
{
    let h: u64 = high as u64;
    let l: u64 = low as u64;
    let ticks: u64 = (h << 32u64) | l;
    assert(ticks == h * 0x1_0000_0000 + l) by (bit_vector)
        requires
            h < 0x1_0000_0000,
            l < 0x1_0000_0000,
            ticks == (h << 32u64) | l,
    ;
    if ticks < EPOCH_DIFF_100NS {
        return None;
    }
    Some((ticks - EPOCH_DIFF_100NS) / 10_000)
}

/// `name` is the last `\`-separated component of `path`: a suffix of it holding no
/// backslash, preceded by a backslash unless it is the whole path.
pub open spec fn is_last_component(path: Seq<char>, name: Seq<char>) -> bool {
    &&& name.len() <= path.len()
    &&& name == path.subrange(path.len() - name.len(), path.len() as int)
    &&& forall|i: int| 0 <= i < name.len() ==> name[i] != '\\'
    &&& (name.len() == path.len() || path[path.len() - name.len() - 1] == '\\')
}

/// The executable name of a full image path: what follows its last backslash.
pub fn file_name_of(path: &str) -> (r: String)
    ensures
        is_last_component(path@, r@),
{
    let cs = crate::text::chars_of(path);
    let n = cs.len();
    let mut start: usize = n;
    while start > 0 && cs[start - 1] != '\\'
        invariant
            start <= n,
            n == cs.len(),
            cs@ == path@,
            forall|i: int| start <= i < n ==> cs@[i] != '\\',
        decreases start,
    {
        start = start - 1;
    }
    let r = path.substring_char(start, n).to_owned();
    proof {
        assert(r@ == path@.subrange(start as int, n as int));
        assert(path@.len() - r@.len() == start);
    }
    r
}

/// Whether enumeration lists a window: it is visible, not minimized, has a
/// title, and the name of its process could be read.
pub fn lists_window(visible: bool, minimized: bool, title: &str, process_name: &Option<String>) -> (r: bool)
    ensures
        r == (visible && !minimized && title@.len() > 0 && process_name is Some),
{
    visible && !minimized && title.unicode_len() > 0 && process_name.is_some()
}

/// Describe an enumerated window: a tool window when its extended style says so,
/// owned when it has an owner, a modal dialog when that owner is disabled (and then
/// the owner's process id is kept), ours when its process is ours. Enumeration only
/// reports windows on the current desktop.
pub fn describe_window(
    process_name: String,
    title: String,
    class_name: String,
    ex_style: u32,
    owner_enabled: Option<bool>,
    owner_pid: Option<u32>,
    pid: u32,
    own_pid: u32,
    cloaked: bool,
) -> (w: WindowInfo)
    ensures
        w.process_name == process_name,
        w.title == title,
        w.class_name == class_name,
        w.is_tool_window == ((ex_style & WS_EX_TOOLWINDOW) != 0),
        w.is_owned == (owner_enabled is Some),
        w.disables_owner == (owner_enabled == Some(false)),
        w.owner_pid == (if owner_enabled == Some(false) {
            owner_pid
        } else {
            None
        }),
        w.own_pid == (pid == own_pid),
        w.is_cloaked == cloaked,
        w.is_on_current_desktop,
{
    let disables_owner = match owner_enabled {
        Some(enabled) => !enabled,
        None => false,
    };
    WindowInfo {
        process_name,
        title,
        class_name,
        is_tool_window: (ex_style & WS_EX_TOOLWINDOW) != 0,
        is_owned: owner_enabled.is_some(),
        disables_owner,
        owner_pid: if disables_owner {
            owner_pid
        } else {
            None
        },
        own_pid: pid == own_pid,
        is_cloaked: cloaked,
        is_on_current_desktop: true,
    }
}

} // verus!
