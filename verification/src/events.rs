//! Input events handed to the frame operation, and the status it reports.

use vstd::prelude::*;

verus! {

/// One pending input event, in the shape the frame logic reads.
///
/// The surrounding program polls its event source and translates each event
/// into one of these plain values. A mouse press carries the press
/// coordinates; the dispatch logic deliberately ignores them (no spatial
/// hit-test is performed — a preserved limitation of the design).
#[derive(Clone, Copy, Debug, PartialEq, Eq, Structural)]
pub enum InputEvent {
    /// The host asked the application to quit.
    Quit,
    /// A mouse button was pressed at the given screen coordinates.
    MouseButtonDown { x: i32, y: i32 },
    /// Any other event kind; the frame logic ignores it.
    Other,
}

/// The status a frame reports to the host loop.
#[derive(Clone, Copy, Debug, PartialEq, Eq, Structural)]
pub enum AppState {
    /// The frame completed; keep the loop running.
    Continue,
    /// A quit event was consumed; the host must stop the loop.
    RequestedQuit,
    /// Reserved for a host-level low-memory signal; never produced by the
    /// current design.
    LowMemory,
}

} // verus!
