//! Styled text frames: the immutable unit every widget produces.

use vstd::prelude::*;

verus! {

/// An RGB color for frame foreground or background.
#[derive(Clone, Copy, PartialEq, Eq, Structural, Debug)]
pub struct Color {
    pub red: u8,
    pub green: u8,
    pub blue: u8,
}

impl Color {
    pub fn new(red: u8, green: u8, blue: u8) -> (r: Color)
        ensures
            r == (Color { red, green, blue }),
    {
        Color { red, green, blue }
    }

    pub fn red() -> (r: Color)
        ensures
            r == (Color { red: 255u8, green: 0u8, blue: 0u8 }),
    {
        Color { red: 255, green: 0, blue: 0 }
    }

    pub fn white() -> (r: Color)
        ensures
            r == (Color { red: 255u8, green: 255u8, blue: 255u8 }),
    {
        Color { red: 255, green: 255, blue: 255 }
    }
}

/// Space around a frame's text, in display units.
#[derive(Clone, Copy, PartialEq, Eq, Structural, Debug)]
pub struct Padding {
    pub left: u32,
    pub right: u32,
    pub top: u32,
    pub bottom: u32,
}

impl Padding {
    pub fn new(left: u32, right: u32, top: u32, bottom: u32) -> (r: Padding)
        ensures
            r == (Padding { left, right, top, bottom }),
    {
        Padding { left, right, top, bottom }
    }
}

/// Presentation attributes of a frame. The scheduling core never mutates
/// these in place; it only derives adjusted copies, e.g. to split padding
/// between the two halves of a highlighted frame.
#[derive(Debug)]
pub struct Attributes {
    pub font: String,
    pub fg_color: Color,
    pub bg_color: Option<Color>,
    pub padding: Padding,
}

impl Clone for Attributes {
    fn clone(&self) -> (r: Self)
        ensures
            r == *self,
    {
        Attributes {
            font: self.font.clone(),
            fg_color: self.fg_color,
            bg_color: self.bg_color,
            padding: self.padding,
        }
    }
}

impl Attributes {
    pub fn new(font: String, fg_color: Color, bg_color: Option<Color>, padding: Padding) -> (r:
        Attributes)
        ensures
            r.font == font,
            r.fg_color == fg_color,
            r.bg_color == bg_color,
            r.padding == padding,
    {
        Attributes { font, fg_color, bg_color, padding }
    }

    /// The same attributes with no padding on the right: used for the
    /// left half of a two-part highlighted frame, so the halves abut.
    pub fn strip_right_padding(self) -> (r: Attributes)
        ensures
            r.font == self.font,
            r.fg_color == self.fg_color,
            r.bg_color == self.bg_color,
            r.padding == (Padding { right: 0u32, ..self.padding }),
    {
        Attributes { padding: Padding { right: 0, ..self.padding }, ..self }
    }

    /// The same attributes with no padding on the left: used for the
    /// right half of a two-part highlighted frame.
    pub fn strip_left_padding(self) -> (r: Attributes)
        ensures
            r.font == self.font,
            r.fg_color == self.fg_color,
            r.bg_color == self.bg_color,
            r.padding == (Padding { left: 0u32, ..self.padding }),
    {
        Attributes { padding: Padding { left: 0, ..self.padding }, ..self }
    }

    /// The same attributes with the given background color.
    pub fn with_bg(self, bg_color: Option<Color>) -> (r: Attributes)
        ensures
            r.font == self.font,
            r.fg_color == self.fg_color,
            r.bg_color == bg_color,
            r.padding == self.padding,
    {
        Attributes { bg_color, ..self }
    }
}

/// One immutable styled text unit. A widget emits an ordered batch of
/// these per tick; order within a batch is left-to-right render order.
#[derive(Debug)]
pub struct Text {
    pub attr: Attributes,
    pub text: String,
    pub stretch: bool,
    pub markup: bool,
}

impl Clone for Text {
    fn clone(&self) -> (r: Self)
        ensures
            r == *self,
    {
        Text {
            attr: self.attr.clone(),
            text: self.text.clone(),
            stretch: self.stretch,
            markup: self.markup,
        }
    }
}

} // verus!
