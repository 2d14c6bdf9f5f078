//! The cursor-glyph capability: which shape the terminal cursor takes
//! while editing. The painter emits the chosen shape on every repaint;
//! turning it into a concrete escape sequence is the caller's business.

use vstd::prelude::*;

verus! {

/// A terminal cursor shape.
#[derive(Clone, Copy, PartialEq, Eq, Structural, Debug)]
pub enum CursorShape {
    /// A blinking vertical bar.
    Line,
    /// A solid block.
    Block,
    /// An underscore.
    Underscore,
}

/// Picks the cursor shape shown while editing.
#[derive(Clone, Copy, PartialEq, Eq, Structural, Debug)]
pub struct DefaultCursor {
    style: CursorShape,
}

impl Default for DefaultCursor {
    /// The default glyph is the vertical bar.
    fn default() -> (r: Self)
        ensures
            r.style() == CursorShape::Line,
    {
        DefaultCursor { style: CursorShape::Line }
    }
}

impl DefaultCursor {
    /// A cursor capability with the given shape.
    pub fn new(style: CursorShape) -> (r: Self)
        ensures
            r.style() == style,
    {
        DefaultCursor { style }
    }

    /// The shape to apply on each repaint.
    pub fn get_cursor(&self) -> (r: CursorShape)
        ensures
            r == self.style(),
    {
        self.style
    }

    /// Abstractly, the configured shape.
    pub closed spec fn style(&self) -> CursorShape {
        self.style
    }
}

} // verus!
