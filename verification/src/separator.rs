//! The separator widget: one static markup frame between widgets.

use vstd::prelude::*;

use crate::text::{Attributes, Text};

verus! {

/// A static separator between widgets. Its text supports markup for
/// easy formatting.
pub struct Separator {
    pub attr: Attributes,
    pub text: String,
}

impl Separator {
    pub fn new(attr: Attributes, text: String) -> (r: Separator)
        ensures
            r.attr == attr,
            r.text == text,
    {
        Separator { attr, text }
    }

    /// The single batch this widget's stream produces: one stretch-less
    /// markup frame with the configured text and attributes.
    pub fn into_frames(self) -> (r: Vec<Text>)
        ensures
            r@.len() == 1,
            r@[0].attr == self.attr,
            r@[0].text == self.text,
            r@[0].stretch == false,
            r@[0].markup == true,
    {
        let mut r: Vec<Text> = Vec::new();
        r.push(Text { attr: self.attr, text: self.text, stretch: false, markup: true });
        r
    }
}

} // verus!
