//! The main window's visibility state machine. Each transition returns the
//! request that the presentation layer must carry out; carrying it out is the
//! caller's best-effort duty, so controller state and actual visibility agree
//! again within one scheduling step.

use vstd::prelude::*;
use crate::tracker::ActiveWindowInfo;
use crate::tracker::SharedState;
use crate::tracker::get_last_active_app;

verus! {

/// What a transition asks of the presentation layer.
pub enum VisAction {
    /// Hide the main window, with no notification.
    HideQuiet,
    /// Hide the main window and emit the empty "hidden" notification.
    HideNotify,
    /// Center, show and focus the main window, and emit the "shown"
    /// notification carrying the captured snapshot.
    ShowFocused { payload: Option<ActiveWindowInfo> },
}

/// The state and action after a toggle. From visible, the window hides
/// quietly; from hidden, it shows, and the notification carries the snapshot
/// the tracker holds at that instant.
pub open spec fn toggle_spec(s: SharedState) -> (SharedState, VisAction) {
    if s.main_visible {
        (SharedState { main_visible: false, ..s }, VisAction::HideQuiet)
    } else {
        (
            SharedState { main_visible: true, ..s },
            VisAction::ShowFocused { payload: s.last_active },
        )
    }
}

/// Flips the main window between visible and hidden.
pub fn toggle(state: &mut SharedState) -> (action: VisAction)
    ensures
        (*final(state), action) == toggle_spec(*old(state)),
{
    if state.main_visible {
        state.main_visible = false;
        VisAction::HideQuiet
    } else {
        let payload = get_last_active_app(state);
        state.main_visible = true;
        VisAction::ShowFocused { payload }
    }
}

/// Hides the main window unconditionally and asks for the empty "hidden"
/// notification.
pub fn hide_window(state: &mut SharedState) -> (action: VisAction)
    ensures
        *final(state) == (SharedState { main_visible: false, ..*old(state) }),
        (action is HideNotify),
{
    state.main_visible = false;
    VisAction::HideNotify
}

/// The main window lost focus: it hides, with no notification.
pub fn on_focus_lost(state: &mut SharedState) -> (action: VisAction)
    ensures
        *final(state) == (SharedState { main_visible: false, ..*old(state) }),
        (action is HideQuiet),
{
    state.main_visible = false;
    VisAction::HideQuiet
}

/// The main window was asked to close: the default close is suppressed (the
/// process must not exit on window close) and the window hides instead.
pub fn on_close_requested(state: &mut SharedState) -> (r: (bool, VisAction))
    ensures
        *final(state) == (SharedState { main_visible: false, ..*old(state) }),
        r.0,
        (r.1 is HideQuiet),
{
    state.main_visible = false;
    (true, VisAction::HideQuiet)
}

/// Toggling twice with no external change restores the whole shared state,
/// visibility included; and when the second toggle is the one that shows, its
/// "shown" notification carries exactly the snapshot the tracker held.
pub proof fn lemma_toggle_twice_restores(s: SharedState)
    ensures
        toggle_spec(toggle_spec(s).0).0 == s,
        s.main_visible ==> toggle_spec(toggle_spec(s).0).1 == (VisAction::ShowFocused {
            payload: s.last_active,
        }),
{
}

} // verus!
