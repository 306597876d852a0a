//! Core scheduling machinery for a status-bar engine.
//!
//! Widgets each produce a lazy sequence of styled text frames. This crate
//! holds the parts worth reasoning about precisely: the self-correcting
//! adaptive ticker, the bridge that turns a blocking wait into a single
//! cooperative wake-up, the multiplexer that merges independent tick
//! sources, and the playback-highlight scheduler built from those pieces.
//! The asynchronous runtime around them only performs the actions these
//! state machines decide on.

pub mod battery;
pub mod bridge;
pub mod clock;
pub mod highlight;
pub mod inotify;
pub mod mpd;
pub mod mux;
pub mod numeric;
pub mod placeholder;
pub mod separator;
pub mod text;
pub mod ticker;

use vstd::prelude::*;

verus! {

/// Error carried by a failed item on a widget's stream. A failed item does
/// not terminate the stream: the next poll continues producing items.
#[derive(Debug)]
pub struct WidgetError {
    pub message: String,
}

impl WidgetError {
    pub fn new(message: String) -> (r: WidgetError)
        ensures
            r.message == message,
    {
        WidgetError { message }
    }
}

} // verus!
