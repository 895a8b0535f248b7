//! Platform input events and the bridge into the UI layer's accumulator.
//!
//! The platform delivers many event kinds; the engine only ever decides on
//! resizes, close requests and the Escape key, so the translation layer folds
//! every other platform variant into [`InputEvent::Other`] before it reaches
//! the library.

use vstd::prelude::*;
use crate::geometry::Size;

verus! {

/// One platform window event, reduced to the kinds the engine decides on.
#[derive(Clone, Copy, PartialEq, Eq, Structural, Debug)]
pub enum InputEvent {
    /// The window's physical size changed.
    Resized(Size),
    /// The user asked to close the window.
    CloseRequested,
    /// The Escape key changed state; `pressed` is true on press, false on release.
    EscapeKey { pressed: bool },
    /// Any other platform event; forwarded to the UI layer but otherwise a no-op.
    Other,
}

/// The UI layer's input model: every event the platform delivered so far,
/// in delivery order.
pub struct InputAccumulator {
    pub events: Vec<InputEvent>,
}

impl InputAccumulator {
    pub fn new() -> (a: InputAccumulator)
        ensures
            a.events@ == Seq::<InputEvent>::empty(),
    {
        InputAccumulator { events: Vec::new() }
    }
}

/// Stateless pass-through from the platform to the UI layer's accumulator.
/// It performs no filtering or buffering: every delivered event is forwarded
/// exactly once, in delivery order, and forwarding cannot fail.
pub struct InputBridge {
}

impl InputBridge {
    pub fn new() -> (b: InputBridge) {
        InputBridge { }
    }

    /// Forward one platform event, unmodified, to the accumulator.
    pub fn forward(&self, sink: &mut InputAccumulator, event: InputEvent)
        ensures
            final(sink).events@ == old(sink).events@.push(event),
    {
        sink.events.push(event);
    }
}

} // verus!
