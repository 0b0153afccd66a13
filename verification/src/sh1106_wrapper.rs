//! The pixel display as a capability.

use vstd::prelude::*;

verus! {

/// The fixed-width fonts that a display writes text in.
#[derive(Debug, PartialEq, Eq, Clone, Copy, Structural)]
pub enum Font {
    /// Glyphs 5 pixels wide and 8 pixels high.
    Font5x8,
    /// Glyphs 9 pixels wide and 15 pixels high.
    Font9x15,
}

/// A drawing primitive could not be carried out.
#[derive(Debug, PartialEq, Eq, Clone, Copy, Structural)]
pub struct DrawError;

/// A stroked circular arc that shows how much of a whole is left.
///
/// The arc lies on the circle of the given diameter whose bounding box has
/// its top left corner at `(x, y)`. It starts at the top of the circle and
/// runs clockwise through `part / whole` of a full turn, both in nanoseconds.
#[derive(Debug, PartialEq, Eq, Clone, Copy, Structural)]
pub struct ProgressArc {
    pub x: i32,
    pub y: i32,
    pub diameter: u32,
    pub stroke_width: u32,
    pub part: i128,
    pub whole: i128,
}

/// One request made of a display. A request to draw comes with its outcome:
/// whether the display carried it out.
pub enum DisplayOp {
    /// Blank the frame buffer.
    Clear,
    /// Send the frame buffer to the panel.
    Flush,
    /// Write `text` with the top left corner of its first glyph at `(x, y)`.
    Text { text: Seq<char>, x: i32, y: i32, font: Font, drawn: bool },
    /// Draw an arc.
    Arc { arc: ProgressArc, drawn: bool },
}

/// The requests made of a display, oldest first.
pub type Trace = Seq<DisplayOp>;

/// A monochrome pixel surface with a frame buffer and an explicit flush.
///
/// Text and arcs are drawn into the frame buffer and may fail. Clearing and
/// flushing report nothing: a display that fails at them keeps it to itself.
pub trait Sh1106Display {
    /// Every request made of the display so far.
    spec fn trace(&self) -> Trace;

    /// Writes `text` in `font` with the top left corner of its first glyph
    /// at `(x, y)`.
    fn draw_text(&mut self, text: &str, x: i32, y: i32, font: Font) -> (r: Result<(), DrawError>)
        ensures
            final(self).trace() == old(self).trace().push(
                DisplayOp::Text { text: text@, x, y, font, drawn: r is Ok },
            ),
    ;

    /// Draws `arc`.
    fn draw_arc(&mut self, arc: ProgressArc) -> (r: Result<(), DrawError>)
        ensures
            final(self).trace() == old(self).trace().push(DisplayOp::Arc { arc, drawn: r is Ok }),
    ;

    /// Sends the frame buffer to the panel.
    fn flush_ignore(&mut self)
        ensures
            final(self).trace() == old(self).trace().push(DisplayOp::Flush),
    ;

    /// Blanks the frame buffer; the panel shows it after the next flush.
    fn clear_ignore(&mut self)
        ensures
            final(self).trace() == old(self).trace().push(DisplayOp::Clear),
    ;
}

} // verus!
