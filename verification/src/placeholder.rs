//! The placeholder widget: a fixed batch of frames, emitted once.

use vstd::prelude::*;

use crate::text::Text;

verus! {

/// A widget that shows fixed frames and never updates.
pub struct Placeholder {
    pub texts: Vec<Text>,
}

impl Placeholder {
    pub fn new(texts: Vec<Text>) -> (r: Placeholder)
        ensures
            r.texts@ == texts@,
    {
        Placeholder { texts }
    }

    /// The single batch this widget's stream produces: exactly the
    /// configured frames, unchanged.
    pub fn into_frames(self) -> (r: Vec<Text>)
        ensures
            r@ == self.texts@,
    {
        self.texts
    }
}

} // verus!
