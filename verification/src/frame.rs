//! The frame operation's mathematical model: which click handlers one frame
//! dispatches, and which textures it loads into the cache.

use vstd::prelude::*;

use crate::app::RegistryView;
use crate::color::Color;
use crate::events::{AppState, InputEvent};

verus! {

/// The handler tokens one mouse press dispatches: for every registered
/// component with a click handler, that handler once, in registry order.
pub open spec fn press_dispatch(reg: RegistryView) -> Seq<u64>
    decreases reg.len(),
{
    if reg.len() == 0 {
        Seq::empty()
    } else {
        press_dispatch(reg.drop_last()) + (match reg.last().1.on_click {
            Some(h) => seq![h],
            None => Seq::<u64>::empty(),
        })
    }
}

/// The handler tokens one event dispatches: a mouse press notifies every
/// component with a handler, regardless of the press coordinates (no spatial
/// hit-test); every other event kind dispatches nothing.
pub open spec fn event_dispatch(event: InputEvent, reg: RegistryView) -> Seq<u64> {
    if event is MouseButtonDown {
        press_dispatch(reg)
    } else {
        Seq::<u64>::empty()
    }
}

/// The handler tokens a run of events dispatches, in arrival order.
pub open spec fn dispatch_for(events: Seq<InputEvent>, reg: RegistryView) -> Seq<u64>
    decreases events.len(),
{
    if events.len() == 0 {
        Seq::empty()
    } else {
        dispatch_for(events.drop_last(), reg) + event_dispatch(events.last(), reg)
    }
}

/// How many mouse presses a run of events holds.
pub open spec fn press_count(events: Seq<InputEvent>) -> int
    decreases events.len(),
{
    if events.len() == 0 {
        0
    } else {
        press_count(events.drop_last()) + if events.last() is MouseButtonDown {
            1int
        } else {
            0int
        }
    }
}

/// The texture cache after a frame's texture assurance walks the registry:
/// each component's path is appended on its first reference, in registry
/// order; a path already cached is left where it is.
pub open spec fn cache_after(cache: Seq<Seq<char>>, reg: RegistryView) -> Seq<Seq<char>>
    decreases reg.len(),
{
    if reg.len() == 0 {
        cache
    } else {
        let path = reg[0].1.texture_path;
        let next = if cache.contains(path) {
            cache
        } else {
            cache.push(path)
        };
        cache_after(next, reg.skip(1))
    }
}

/// The texture paths a frame loads: the registry's paths not yet cached,
/// first reference first, each at most once.
pub open spec fn loads_for(cache: Seq<Seq<char>>, reg: RegistryView) -> Seq<Seq<char>>
    decreases reg.len(),
{
    if reg.len() == 0 {
        Seq::empty()
    } else {
        let path = reg[0].1.texture_path;
        if cache.contains(path) {
            loads_for(cache, reg.skip(1))
        } else {
            seq![path] + loads_for(cache.push(path), reg.skip(1))
        }
    }
}

/// What one frame asks the surrounding program to do, in this order: invoke
/// the listed click handlers; then, only when `render` is set, clear the
/// canvas with `clear_color`, load the listed texture paths, and present.
/// When `render` is not set the frame consumed a quit event and the host
/// must stop the loop without clearing or presenting.
pub struct FramePlan {
    /// `Continue` for a completed frame, `RequestedQuit` when a quit event
    /// was consumed.
    pub state: AppState,
    /// How many pending events the frame consumed; events queued behind a
    /// quit are left for a subsequent call.
    pub events_consumed: usize,
    /// The click-handler tokens to invoke, in dispatch order.
    pub handlers: Vec<u64>,
    /// The texture paths to load, in first-reference order.
    pub loads: Vec<String>,
    /// Whether the frame clears, loads and presents at all.
    pub render: bool,
    /// The color to clear the canvas with.
    pub clear_color: Color,
}

} // verus!
