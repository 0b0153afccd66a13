//! Lines of progress messages on the display while the system starts up.

use vstd::prelude::*;
use crate::sh1106_wrapper::{DisplayOp, DrawError, Font, Sh1106Display};

verus! {

/// Pixels from the top of one message line to the top of the next.
pub const LINE_SPACING: u8 = 10;

/// Message lines on a screen 64 pixels high.
pub const MAX_LINES: u8 = 64 / LINE_SPACING;

/// Why a message did not reach the screen.
#[derive(Debug, PartialEq, Eq, Clone, Copy, Structural)]
pub enum FeedbackError {
    /// All the lines of the screen are taken; nothing was drawn.
    MaximumLines,
    /// The display failed to draw the message; the frame was flushed all the same.
    Drawing,
}

impl From<DrawError> for FeedbackError {
    /// A drawing that failed kept the message from the screen.
    fn from(error: DrawError) -> (r: FeedbackError) {
        FeedbackError::Drawing
    }
}

impl vstd::std_specs::convert::FromSpecImpl<DrawError> for FeedbackError {
    open spec fn obeys_from_spec() -> bool {
        true
    }

    open spec fn from_spec(error: DrawError) -> FeedbackError {
        FeedbackError::Drawing
    }
}

/// Something that shows progress messages to the user.
pub trait FeedbackSystem {
    /// Shows `msg`, or says why it could not be shown.
    fn write_msg(&mut self, msg: &str) -> Result<(), FeedbackError>;
}

/// Progress messages on a display, one below the other.
pub struct Sh1106Feedback<D: Sh1106Display> {
    display: D,
    current_line: u8,
}

impl<D: Sh1106Display> Sh1106Feedback<D> {
    /// The display that the messages go to.
    pub closed spec fn display(&self) -> D {
        self.display
    }

    /// The number of messages written so far.
    pub closed spec fn current_line(&self) -> u8 {
        self.current_line
    }

    /// The requests that writing `msg` makes of the display, where the
    /// display draws the text or fails to.
    pub open spec fn message_ops(&self, msg: Seq<char>, drawn: bool) -> Seq<DisplayOp> {
        seq![
            DisplayOp::Text {
                text: msg,
                x: 0,
                y: (self.current_line() * LINE_SPACING) as i32,
                font: Font::Font5x8,
                drawn,
            },
            DisplayOp::Flush,
        ]
    }

    /// Messages on `display`, from its top line down.
    pub fn from_display(display: D) -> (feedback: Self)
        ensures
            feedback.display() == display,
            feedback.current_line() == 0,
    {
        Self { display, current_line: 0 }
    }

    /// Gives the display back, blank.
    pub fn take_display(self) -> (display: D)
        ensures
            display.trace() == self.display().trace() + seq![DisplayOp::Clear, DisplayOp::Flush],
    {
        let mut display = self.display;
        display.clear_ignore();
        display.flush_ignore();
        display
    }

    /// Writes `msg` on the next free line and flushes the frame, whether the
    /// display drew the text or not. Once the screen is full, messages are
    /// refused and the display is left alone.
    pub fn write_msg(&mut self, msg: &str) -> (r: Result<(), FeedbackError>)
        ensures
            old(self).current_line() >= MAX_LINES ==> {
                &&& r == Err::<(), FeedbackError>(FeedbackError::MaximumLines)
                &&& *final(self) == *old(self)
            },
            old(self).current_line() < MAX_LINES ==> {
                &&& r is Ok || r == Err::<(), FeedbackError>(FeedbackError::Drawing)
                &&& final(self).current_line() == old(self).current_line() + 1
                &&& final(self).display().trace() == old(self).display().trace() + old(
                    self,
                ).message_ops(msg@, r is Ok)
            },
    {
        if self.current_line >= MAX_LINES {
            return Err(FeedbackError::MaximumLines);
        }
        let y: i32 = (self.current_line * LINE_SPACING) as i32;
        self.current_line += 1;

        let res = self.display.draw_text(msg, 0, y, Font::Font5x8);

        self.display.flush_ignore();

        match res {
            Ok(()) => Ok(()),
            Err(error) => Err(FeedbackError::from(error)),
        }
    }
}

impl<D: Sh1106Display> FeedbackSystem for Sh1106Feedback<D> {
    fn write_msg(&mut self, msg: &str) -> (r: Result<(), FeedbackError>)
        ensures
            old(self).current_line() >= MAX_LINES ==> {
                &&& r == Err::<(), FeedbackError>(FeedbackError::MaximumLines)
                &&& *final(self) == *old(self)
            },
            old(self).current_line() < MAX_LINES ==> {
                &&& r is Ok || r == Err::<(), FeedbackError>(FeedbackError::Drawing)
                &&& final(self).current_line() == old(self).current_line() + 1
                &&& final(self).display().trace() == old(self).display().trace() + old(
                    self,
                ).message_ops(msg@, r is Ok)
            },
    {
        Sh1106Feedback::write_msg(self, msg)
    }
}

} // verus!
