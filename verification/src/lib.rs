//! The core of a Pomodoro timer on a single board: a countdown that
//! alternates between work and break phases, a debounced push button that
//! pauses and resumes it, three status indicators, and a small status screen.
//!
//! - [`pomodoro`] holds the timer engine and what it shows on indicators
//!   and screen.
//! - [`pause`] holds the pause button, as a machine that is told what
//!   happened on its input line and says what to wait for next.
//! - [`clock`] holds time spans and readings of the wall clock.
//! - [`config`] holds the timer's settings.
//! - [`led`] and [`sh1106_wrapper`] describe the indicators and the display
//!   that the timer drives; the hardware behind them is the caller's.
//! - [`feedback`] writes progress messages on the display during start-up.
//! - [`text`] lays out the lines of the status screen.

pub mod clock;
pub mod config;
pub mod feedback;
pub mod led;
pub mod pause;
pub mod pomodoro;
pub mod sh1106_wrapper;
pub mod text;
