//! The last-observed foreground window: the snapshot type, the shared state
//! that the poll loop and the toggle logic exchange, and the guard that keeps
//! the poll from overwriting a meaningful snapshot while the main window is
//! visible.

use vstd::prelude::*;
use crate::text::strip_exe_suffix;
use crate::text::strip_exe_view;

verus! {

/// An immutable capture of the foreground window at one instant. A field is
/// `None` where the OS gave no information, never an empty string.
#[derive(Clone, Debug)]
pub struct ActiveWindowInfo {
    pub process: Option<String>,
    pub window: Option<String>,
}

/// Mathematical model of a snapshot: its two fields as character sequences.
pub struct SnapshotView {
    pub process: Option<Seq<char>>,
    pub window: Option<Seq<char>>,
}

impl View for ActiveWindowInfo {
    type V = SnapshotView;

    open spec fn view(&self) -> SnapshotView {
        SnapshotView { process: self.process.deep_view(), window: self.window.deep_view() }
    }
}

impl DeepView for ActiveWindowInfo {
    type V = SnapshotView;

    open spec fn deep_view(&self) -> SnapshotView {
        self.view()
    }
}

pub(crate) fn clone_opt_string(s: &Option<String>) -> (r: Option<String>)
    ensures
        r == *s,
{
    match s {
        Some(v) => Some(v.clone()),
        None => None,
    }
}

impl ActiveWindowInfo {
    /// A copy equal to `self`.
    pub fn duplicate(&self) -> (r: Self)
        ensures
            r == *self,
    {
        ActiveWindowInfo {
            process: clone_opt_string(&self.process),
            window: clone_opt_string(&self.window),
        }
    }
}

pub(crate) fn clone_opt_snapshot(s: &Option<ActiveWindowInfo>) -> (r: Option<ActiveWindowInfo>)
    ensures
        r == *s,
{
    match s {
        Some(v) => Some(v.duplicate()),
        None => None,
    }
}

/// The process-lifetime shared state: the last observed snapshot, whether the
/// main window is currently visible, and the native handle of the last
/// externally active window. The caller guards it with its own lock; every
/// operation here is a single step on the locked value.
pub struct SharedState {
    pub last_active: Option<ActiveWindowInfo>,
    pub main_visible: bool,
    pub last_window_handle: Option<isize>,
}

impl SharedState {
    /// The state at process start: nothing observed, main window not shown.
    pub fn new() -> (s: Self)
        ensures
            s.last_active is None,
            !s.main_visible,
            s.last_window_handle is None,
    {
        SharedState { last_active: None, main_visible: false, last_window_handle: None }
    }
}

/// Shapes one native probe reading into a snapshot. The probe's own window is
/// excluded: a reading whose process id is missing or is the calling process's
/// own yields no snapshot. Executable-extension suffixes are stripped from the
/// process name before storage.
pub fn build_snapshot(
    own_pid: u32,
    window_pid: u32,
    raw_process: Option<String>,
    raw_window: Option<String>,
) -> (r: Option<ActiveWindowInfo>)
    ensures
        (window_pid == 0 || window_pid == own_pid) <==> r is None,
        r matches Some(info) ==> {
            &&& match raw_process {
                Some(p) => info.process matches Some(q) && q@ == strip_exe_view(p@),
                None => info.process is None,
            }
            &&& info.window == raw_window
        },
{
    if window_pid == 0 || window_pid == own_pid {
        return None;
    }
    let process = match raw_process {
        Some(p) => Some(strip_exe_suffix(p.as_str())),
        None => None,
    };
    Some(ActiveWindowInfo { process, window: raw_window })
}

/// One-shot foreground query on a platform without a native window API:
/// there is nothing to observe, so no snapshot is ever produced.
pub fn get_active_window_info() -> (r: Option<ActiveWindowInfo>)
    ensures
        r is None,
{
    None
}

/// Focus restoration on a platform without a native window API: a no-op.
pub fn restore_focus_to_last_window() {
}

/// Remembers the native handle observed by a probe, for a later focus
/// restoration, overwriting any previously stored handle.
pub fn record_window_handle(state: &mut SharedState, handle: isize)
    ensures
        final(state).last_window_handle == Some(handle),
        final(state).last_active == old(state).last_active,
        final(state).main_visible == old(state).main_visible,
{
    state.last_window_handle = Some(handle);
}

/// The stored handle of the last externally active window, if any.
pub fn last_window_handle(state: &SharedState) -> (r: Option<isize>)
    ensures
        r == state.last_window_handle,
{
    state.last_window_handle
}

/// The shared state after adopting one probe result: a snapshot replaces the
/// stored one, an empty reading changes nothing.
pub open spec fn update_spec(s: SharedState, probe: Option<ActiveWindowInfo>) -> SharedState {
    match probe {
        Some(_) => SharedState { last_active: probe, ..s },
        None => s,
    }
}

/// Replaces the stored "last active app" with a fresh probe result;
/// an empty reading leaves the stored snapshot alone.
pub fn update_last_active_app(state: &mut SharedState, probe: Option<ActiveWindowInfo>)
    ensures
        *final(state) == update_spec(*old(state), probe),
{
    match probe {
        Some(info) => {
            state.last_active = Some(info);
        },
        None => {},
    }
}

/// A copy of the current "last active app" snapshot.
pub fn get_last_active_app(state: &SharedState) -> (r: Option<ActiveWindowInfo>)
    ensures
        r == state.last_active,
{
    clone_opt_snapshot(&state.last_active)
}

/// The shared state after one poll tick: the probe result is adopted only
/// while the main window is not visible. While it is, the foreground window
/// is usually the application's own UI, so the stored snapshot is kept.
pub open spec fn monitor_step_spec(s: SharedState, probe: Option<ActiveWindowInfo>) -> SharedState {
    if s.main_visible {
        s
    } else {
        update_spec(s, probe)
    }
}

/// One tick of the recurring poll: adopts the probe result only while the
/// main window is not visible.
pub fn monitor_step(state: &mut SharedState, probe: Option<ActiveWindowInfo>)
    ensures
        *final(state) == monitor_step_spec(*old(state), probe),
{
    if !state.main_visible {
        update_last_active_app(state, probe);
    }
}

/// The shared state after a whole run of poll ticks, one per probe result.
pub open spec fn monitor_steps_spec(
    s: SharedState,
    probes: Seq<Option<ActiveWindowInfo>>,
) -> SharedState
    decreases probes.len(),
{
    if probes.len() == 0 {
        s
    } else {
        monitor_steps_spec(monitor_step_spec(s, probes.first()), probes.drop_first())
    }
}

/// While the main-window-visible flag is set, any run of poll ticks leaves
/// the shared state exactly as it was, however the OS-reported foreground
/// window changes from tick to tick.
pub proof fn lemma_visible_probes_ignored(s: SharedState, probes: Seq<Option<ActiveWindowInfo>>)
    requires
        s.main_visible,
    ensures
        monitor_steps_spec(s, probes) == s,
    decreases probes.len(),
{
    if probes.len() > 0 {
        lemma_visible_probes_ignored(s, probes.drop_first());
    }
}

} // verus!
