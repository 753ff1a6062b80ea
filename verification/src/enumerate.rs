//! Listing what can be captured.
//!
//! The caller queries the system and hands over what it saw; which windows
//! are worth listing, and what a listed target looks like, is decided here.

use crate::error::CaptureError;
use crate::target::{
    lemma_target_ids_differ, monitor_id, spec_monitor_id, spec_window_id, targets_view, window_id,
    CaptureTarget, TargetRef, TargetView,
};
use crate::text::{
    contains_text, decimal_digits, lowercase, occurs_in, push_decimal, text_equals,
    unicode_lowercase,
};
use crate::thumbnail::{
    spec_thumbnail_text, spec_window_thumbnail_plan, thumbnail_text, window_thumbnail_plan,
    ThumbnailPlan, WindowRect,
};
use vstd::prelude::*;
use vstd::string::StringExecFns;

verus! {

/// Extended style bit of a tool window, which stays out of the task bar.
pub const WS_EX_TOOLWINDOW: u32 = 0x0000_0080;

/// Extended style bit that forces a window onto the task bar.
pub const WS_EX_APPWINDOW: u32 = 0x0004_0000;

/// What the system says of a window's visibility.
#[derive(Clone, Copy, Debug, PartialEq, Eq, Structural)]
pub struct WindowFacts {
    /// The window is marked visible.
    pub visible: bool,
    /// The compositor's cloak attribute, or nothing where it could not be
    /// read.
    pub cloaked: Option<u32>,
    /// The extended window style bits.
    pub extended_style: u32,
}

impl WindowFacts {
    /// The compositor hides the window.
    pub open spec fn is_cloaked(self) -> bool {
        self.cloaked matches Some(v) && v != 0
    }

    /// The window is a tool window that is not forced onto the task bar.
    pub open spec fn is_bare_tool_window(self) -> bool {
        self.extended_style & WS_EX_TOOLWINDOW != 0 && self.extended_style & WS_EX_APPWINDOW
            == 0
    }
}

/// `lower`, a process name in lower case, is one of the shell's background
/// processes, whose windows are never worth sharing.
pub open spec fn is_background_process(lower: Seq<char>) -> bool {
    ||| lower == "textinputhost.exe"@
    ||| lower == "searchhost.exe"@
    ||| lower == "shellexperiencehost.exe"@
    ||| lower == "startmenuexperiencehost.exe"@
    ||| lower == "lockapp.exe"@
    ||| lower == "widgets.exe"@
    ||| lower == "gamebar.exe"@
    ||| lower == "gamebarftserver.exe"@
    ||| lower == "msteams.exe"@
}

/// Tells whether a process name, already in lower case, is on the list of
/// background processes.
pub fn background_process(lower: &str) -> (listed: bool)
    ensures
        listed == is_background_process(lower@),
{
    text_equals(lower, "textinputhost.exe") || text_equals(lower, "searchhost.exe")
        || text_equals(lower, "shellexperiencehost.exe") || text_equals(
        lower,
        "startmenuexperiencehost.exe",
    ) || text_equals(lower, "lockapp.exe") || text_equals(lower, "widgets.exe") || text_equals(
        lower,
        "gamebar.exe",
    ) || text_equals(lower, "gamebarftserver.exe") || text_equals(lower, "msteams.exe")
}

/// A window with these facts, owned by the process with this lower-case
/// name, is one a user would expect in the picker.
pub open spec fn spec_capturable(facts: WindowFacts, lower_process_name: Seq<char>) -> bool {
    &&& !is_background_process(lower_process_name)
    &&& facts.visible
    &&& !facts.is_cloaked()
    &&& !facts.is_bare_tool_window()
}

/// Decides on a window from its facts and its process name in lower case.
pub fn capturable(facts: &WindowFacts, lower_process_name: &str) -> (shown: bool)
    ensures
        shown == spec_capturable(*facts, lower_process_name@),
{
    if background_process(lower_process_name) {
        return false;
    }
    if !facts.visible {
        return false;
    }
    match facts.cloaked {
        Some(v) => {
            if v != 0 {
                return false;
            }
        },
        None => {},
    }
    if (facts.extended_style & WS_EX_TOOLWINDOW != 0) && (facts.extended_style & WS_EX_APPWINDOW
        == 0) {
        return false;
    }
    true
}

/// Returns true if the window should be shown in the picker.
///
/// Process names are compared without regard to case.
pub fn is_capturable_window(facts: &WindowFacts, process_name: &str) -> (shown: bool)
    ensures
        shown == spec_capturable(*facts, unicode_lowercase(process_name@)),
{
    let lower = lowercase(process_name);
    capturable(facts, lower.as_str())
}

/// `lower`, a process name in lower case, names the application itself.
pub open spec fn names_host(lower: Seq<char>) -> bool {
    occurs_in("nexus"@, lower)
}

/// Tells whether a process name, already in lower case, is the application's
/// own.
pub fn host_process(lower: &str) -> (own: bool)
    ensures
        own == names_host(lower@),
{
    contains_text(lower, "nexus")
}

/// A window with this title is listed: it has a title, and it is not the
/// desktop shell.
pub open spec fn title_listed(title: Seq<char>) -> bool {
    title.len() > 0 && title != "Program Manager"@
}

/// Decides on a window by its title.
pub fn listed_title(title: &str) -> (listed: bool)
    ensures
        listed == title_listed(title@),
{
    !title.is_empty() && !text_equals(title, "Program Manager")
}

/// What was seen of one top-level window.
#[derive(Debug)]
pub struct WindowObservation {
    pub handle: isize,
    /// The title, empty where it could not be read.
    pub title: String,
    /// The owning process's name, empty where it could not be read.
    pub process_name: String,
    pub process_id: u32,
    pub facts: WindowFacts,
    pub minimized: bool,
    /// The window's rectangle on the screen, where it could be read.
    pub rect: Option<WindowRect>,
    /// The encoded thumbnail, where one was taken and the encoder succeeded.
    pub thumbnail_jpeg: Option<Vec<u8>>,
}

/// What was seen of one monitor.
#[derive(Debug)]
pub struct MonitorObservation {
    pub device_name: Option<String>,
    pub width: Option<u32>,
    pub height: Option<u32>,
    /// The encoded thumbnail, where one was taken and the encoder succeeded.
    pub thumbnail_jpeg: Option<Vec<u8>>,
}

/// The window is listed: by its title, by not being the application's own,
/// and by its visibility.
pub open spec fn window_listed(w: WindowObservation) -> bool {
    &&& title_listed(w.title@)
    &&& !names_host(unicode_lowercase(w.process_name@))
    &&& spec_capturable(w.facts, unicode_lowercase(w.process_name@))
}

/// The bytes of a thumbnail as plain values.
pub open spec fn jpeg_view(jpeg: Option<Vec<u8>>) -> Option<Seq<u8>> {
    match jpeg {
        Some(bytes) => Some(bytes@),
        None => None,
    }
}

/// The target that a listed window becomes.
///
/// Its size is that of its rectangle. Its thumbnail is empty where none was
/// planned or none could be encoded; the window is listed all the same.
pub open spec fn spec_window_target(w: WindowObservation) -> TargetView {
    let plan = spec_window_thumbnail_plan(w.minimized, w.rect);
    TargetView {
        id: spec_window_id(w.handle),
        title: w.title@,
        target_type: "window"@,
        process_name: w.process_name@,
        process_id: w.process_id,
        width: match plan {
            ThumbnailPlan::Skip { width, .. } => width,
            ThumbnailPlan::Blit { source, .. } => source.width,
        },
        height: match plan {
            ThumbnailPlan::Skip { height, .. } => height,
            ThumbnailPlan::Blit { source, .. } => source.height,
        },
        thumbnail: match plan {
            ThumbnailPlan::Skip { .. } => Seq::empty(),
            ThumbnailPlan::Blit { .. } => spec_thumbnail_text(jpeg_view(w.thumbnail_jpeg)),
        },
    }
}

/// The name a monitor at position `index` goes by: its device name, or a
/// numbered stand-in where the device name could not be read.
pub open spec fn spec_monitor_name(index: int, m: MonitorObservation) -> Seq<char> {
    match m.device_name {
        Some(name) => name@,
        None => "ディスプレイ "@ + decimal_digits((index + 1) as nat),
    }
}

/// The target that the monitor at position `index` becomes.
pub open spec fn spec_monitor_target(index: int, m: MonitorObservation) -> TargetView {
    TargetView {
        id: spec_monitor_id(index as usize),
        title: "画面 "@ + decimal_digits((index + 1) as nat) + " ("@ + spec_monitor_name(index, m)
            + ")"@,
        target_type: "monitor"@,
        process_name: Seq::empty(),
        process_id: 0,
        width: match m.width {
            Some(w) => w,
            None => 0,
        },
        height: match m.height {
            Some(h) => h,
            None => 0,
        },
        thumbnail: spec_thumbnail_text(jpeg_view(m.thumbnail_jpeg)),
    }
}

/// The targets of the listed windows among `windows`, in their order.
pub open spec fn listed_windows(windows: Seq<WindowObservation>) -> Seq<TargetView>
    decreases windows.len(),
{
    if windows.len() == 0 {
        Seq::empty()
    } else if window_listed(windows.last()) {
        listed_windows(windows.drop_last()).push(spec_window_target(windows.last()))
    } else {
        listed_windows(windows.drop_last())
    }
}

/// The targets of all `monitors`, in their order.
pub open spec fn monitor_targets(monitors: Seq<MonitorObservation>) -> Seq<TargetView> {
    Seq::new(monitors.len(), |i: int| spec_monitor_target(i, monitors[i]))
}

/// Everything that can be captured: the listed windows, then the monitors.
pub open spec fn spec_enumerate(
    windows: Seq<WindowObservation>,
    monitors: Seq<MonitorObservation>,
) -> Seq<TargetView> {
    listed_windows(windows) + monitor_targets(monitors)
}

fn bytes_of(jpeg: &Option<Vec<u8>>) -> (bytes: Option<&[u8]>)
    ensures
        match bytes {
            Some(b) => jpeg_view(*jpeg) == Some(b@),
            None => jpeg_view(*jpeg) is None,
        },
{
    match jpeg {
        Some(v) => Some(v.as_slice()),
        None => None,
    }
}

/// Builds the target of a window.
pub fn window_target(w: &WindowObservation) -> (target: CaptureTarget)
    ensures
        target@ == spec_window_target(*w),
{
    let plan = window_thumbnail_plan(w.minimized, w.rect);
    let (width, height, thumbnail) = match plan {
        ThumbnailPlan::Skip { width, height } => (width, height, String::new()),
        ThumbnailPlan::Blit { source, .. } => (
            source.width,
            source.height,
            thumbnail_text(bytes_of(&w.thumbnail_jpeg)),
        ),
    };
    CaptureTarget {
        id: window_id(w.handle),
        title: w.title.clone(),
        target_type: String::from_str("window"),
        process_name: w.process_name.clone(),
        process_id: w.process_id,
        width,
        height,
        thumbnail,
    }
}

/// Builds the target of the monitor at position `index`.
pub fn monitor_target(index: usize, m: &MonitorObservation) -> (target: CaptureTarget)
    ensures
        target@ == spec_monitor_target(index as int, *m),
{
    let number: u128 = index as u128 + 1;
    let mut title = String::from_str("画面 ");
    push_decimal(&mut title, number);
    title.append(" (");
    match &m.device_name {
        Some(name) => {
            title.append(name.as_str());
        },
        None => {
            title.append("ディスプレイ ");
            push_decimal(&mut title, number);
        },
    }
    title.append(")");
    assert(title@ =~= spec_monitor_target(index as int, *m).title);
    CaptureTarget {
        id: monitor_id(index),
        title,
        target_type: String::from_str("monitor"),
        process_name: String::new(),
        process_id: 0,
        width: match m.width {
            Some(w) => w,
            None => 0,
        },
        height: match m.height {
            Some(h) => h,
            None => 0,
        },
        thumbnail: thumbnail_text(bytes_of(&m.thumbnail_jpeg)),
    }
}

/// Decides whether a window is listed.
pub fn list_window(w: &WindowObservation) -> (listed: bool)
    ensures
        listed == window_listed(*w),
{
    if !listed_title(w.title.as_str()) {
        return false;
    }
    let lower = lowercase(w.process_name.as_str());
    if host_process(lower.as_str()) {
        return false;
    }
    capturable(&w.facts, lower.as_str())
}

/// Lists the capture targets among what was seen.
///
/// On a platform without native capture the operation fails. Elsewhere it
/// always succeeds: windows that are not worth listing are left out, and a
/// target whose thumbnail failed is listed without one.
pub fn enumerate_capture_targets(
    supported: bool,
    windows: &Vec<WindowObservation>,
    monitors: &Vec<MonitorObservation>,
) -> (r: Result<Vec<CaptureTarget>, CaptureError>)
    ensures
        !supported ==> (r matches Err(e) && e == CaptureError::PlatformUnsupported),
        supported ==> (r matches Ok(targets) && targets_view(targets@) == spec_enumerate(
            windows@,
            monitors@,
        )),
{
    if !supported {
        return Err(CaptureError::PlatformUnsupported);
    }
    let mut targets: Vec<CaptureTarget> = Vec::new();
    let mut i: usize = 0;
    while i < windows.len()
        invariant
            i <= windows@.len(),
            targets_view(targets@) == listed_windows(windows@.subrange(0, i as int)),
        decreases windows@.len() - i,
    {
        let ghost before = targets@;
        proof {
            assert(windows@.subrange(0, i + 1).drop_last() =~= windows@.subrange(0, i as int));
            assert(windows@.subrange(0, i + 1).last() == windows@[i as int]);
        }
        if list_window(&windows[i]) {
            let target = window_target(&windows[i]);
            targets.push(target);
            assert(targets_view(targets@) =~= targets_view(before).push(target@));
        }
        i = i + 1;
    }
    assert(windows@.subrange(0, i as int) =~= windows@);
    let ghost listed = targets_view(targets@);
    let mut j: usize = 0;
    while j < monitors.len()
        invariant
            j <= monitors@.len(),
            listed == listed_windows(windows@),
            targets_view(targets@) == listed + monitor_targets(monitors@).subrange(0, j as int),
        decreases monitors@.len() - j,
    {
        let ghost before = targets@;
        let target = monitor_target(j, &monitors[j]);
        targets.push(target);
        assert(targets_view(targets@) =~= targets_view(before).push(target@));
        j = j + 1;
        assert(targets_view(targets@) =~= listed + monitor_targets(monitors@).subrange(
            0,
            j as int,
        ));
    }
    assert(monitor_targets(monitors@).subrange(0, j as int) =~= monitor_targets(monitors@));
    Ok(targets)
}

/// A window that the compositor hides, and a tool window that is not forced
/// onto the task bar, is not listed, whatever else is true of it. Neither is
/// a window of the application itself.
pub proof fn lemma_hidden_window_not_listed(w: WindowObservation)
    ensures
        w.facts.is_cloaked() ==> !window_listed(w),
        w.facts.is_bare_tool_window() ==> !window_listed(w),
        !w.facts.visible ==> !window_listed(w),
        names_host(unicode_lowercase(w.process_name@)) ==> !window_listed(w),
{
}

/// Every target among the listed windows is the target of a window that was
/// seen and that passed the filter.
pub proof fn lemma_listed_window_source(windows: Seq<WindowObservation>, i: int) -> (j: int)
    requires
        0 <= i < listed_windows(windows).len(),
    ensures
        0 <= j < windows.len(),
        window_listed(windows[j]),
        listed_windows(windows)[i] == spec_window_target(windows[j]),
    decreases windows.len(),
{
    let front = windows.drop_last();
    if window_listed(windows.last()) && i == listed_windows(front).len() {
        windows.len() - 1
    } else {
        lemma_listed_window_source(front, i)
    }
}

/// No listed target belongs to the application itself: the process name of
/// every window target, in lower case, is free of the application's name,
/// and a monitor target has no process at all.
pub proof fn lemma_own_windows_not_listed(
    windows: Seq<WindowObservation>,
    monitors: Seq<MonitorObservation>,
    i: int,
)
    requires
        0 <= i < spec_enumerate(windows, monitors).len(),
    ensures
        ({
            let target = spec_enumerate(windows, monitors)[i];
            if i < listed_windows(windows).len() {
                &&& target.target_type == "window"@
                &&& !names_host(unicode_lowercase(target.process_name))
            } else {
                &&& target.target_type == "monitor"@
                &&& target.process_name.len() == 0
                &&& target.process_id == 0
            }
        }),
{
    if i < listed_windows(windows).len() {
        let j = lemma_listed_window_source(windows, i);
    }
}

/// Every window target that is listed stems from a window that is visible,
/// not cloaked, and not a bare tool window.
pub proof fn lemma_listed_windows_are_visible(
    windows: Seq<WindowObservation>,
    monitors: Seq<MonitorObservation>,
    i: int,
) -> (j: int)
    requires
        0 <= i < listed_windows(windows).len(),
    ensures
        0 <= j < windows.len(),
        spec_enumerate(windows, monitors)[i] == spec_window_target(windows[j]),
        windows[j].facts.visible,
        !windows[j].facts.is_cloaked(),
        !windows[j].facts.is_bare_tool_window(),
{
    lemma_listed_window_source(windows, i)
}

/// A window that is cloaked, or a bare tool window, does not appear in the
/// list: no target carries the identifier of its handle, unless another
/// window with the same handle was seen as well.
pub proof fn lemma_hidden_window_absent(
    windows: Seq<WindowObservation>,
    monitors: Seq<MonitorObservation>,
    hidden: int,
    i: int,
)
    requires
        0 <= hidden < windows.len(),
        windows[hidden].facts.is_cloaked() || windows[hidden].facts.is_bare_tool_window(),
        forall|k: int|
            0 <= k < windows.len() && k != hidden ==> windows[k].handle != windows[hidden].handle,
        0 <= i < spec_enumerate(windows, monitors).len(),
    ensures
        spec_enumerate(windows, monitors)[i].id != spec_window_id(windows[hidden].handle),
{
    let handle = windows[hidden].handle;
    if i < listed_windows(windows).len() {
        let j = lemma_listed_window_source(windows, i);
        lemma_hidden_window_not_listed(windows[hidden]);
        assert(j != hidden);
        lemma_target_ids_differ(TargetRef::Window(windows[j].handle), TargetRef::Window(handle));
    } else {
        let m = i - listed_windows(windows).len();
        lemma_target_ids_differ(TargetRef::Monitor(m as usize), TargetRef::Window(handle));
    }
}

} // verus!
