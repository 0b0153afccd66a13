//! The three status indicators as capabilities.

use vstd::prelude::*;

verus! {

/// A hardware I/O error, by the code that the hardware layer reports.
#[derive(Debug, PartialEq, Eq, Clone, Copy, Structural)]
pub struct HardwareError {
    pub code: i32,
}

/// One request made of an indicator: the level asked for, and what came of it.
pub struct LedRequest {
    pub level: bool,
    pub outcome: Result<(), HardwareError>,
}

/// The requests made of an indicator, oldest first.
pub type LedLog = Seq<LedRequest>;

/// A binary output line with an indicator on it.
///
/// Every operation is a request for a level, and is on record with its
/// outcome. An operation that fails promises nothing of the line.
pub trait Led {
    /// The level that the line is driven to.
    spec fn is_high(&self) -> bool;

    /// Every request made of the line so far.
    spec fn requests(&self) -> LedLog;

    /// Drives the line high.
    fn set_high(&mut self) -> (r: Result<(), HardwareError>)
        ensures
            final(self).requests() == old(self).requests().push(
                LedRequest { level: true, outcome: r },
            ),
            r is Ok ==> final(self).is_high(),
    ;

    /// Drives the line low.
    fn set_low(&mut self) -> (r: Result<(), HardwareError>)
        ensures
            final(self).requests() == old(self).requests().push(
                LedRequest { level: false, outcome: r },
            ),
            r is Ok ==> !final(self).is_high(),
    ;

    /// Drives the line to the level that it is not at.
    fn toggle(&mut self) -> (r: Result<(), HardwareError>)
        ensures
            final(self).requests() == old(self).requests().push(
                LedRequest { level: !old(self).is_high(), outcome: r },
            ),
            r is Ok ==> final(self).is_high() == !old(self).is_high(),
    ;

    /// Drives the line high for `true` and low for `false`.
    fn set(&mut self, value: bool) -> (r: Result<(), HardwareError>)
        ensures
            final(self).requests() == old(self).requests().push(
                LedRequest { level: value, outcome: r },
            ),
            r is Ok ==> final(self).is_high() == value,
    ;
}

/// The levels of the three indicators.
#[derive(Debug, PartialEq, Eq, Clone, Copy, Structural)]
pub struct Levels {
    /// The break indicator, red.
    pub red: bool,
    /// The pause indicator, yellow.
    pub yellow: bool,
    /// The work indicator, green.
    pub green: bool,
}

/// The requests made of each of the three indicators.
pub struct LedLogs {
    /// Of the break indicator, red.
    pub red: LedLog,
    /// Of the pause indicator, yellow.
    pub yellow: LedLog,
    /// Of the work indicator, green.
    pub green: LedLog,
}

/// The three indicators, each reached on its own.
///
/// Handing out one indicator leaves the other two as they are.
pub trait Leds {
    type Red: Led;

    type Yellow: Led;

    type Green: Led;

    /// The levels that the three lines are driven to.
    spec fn levels(&self) -> Levels;

    /// Every request made of the three lines so far.
    spec fn requests(&self) -> LedLogs;

    /// The break indicator.
    fn red(&mut self) -> (led: &mut Self::Red)
        ensures
            led.is_high() == old(self).levels().red,
            led.requests() == old(self).requests().red,
            final(self).levels() == (Levels { red: final(led).is_high(), ..old(self).levels() }),
            final(self).requests() == (LedLogs {
                red: final(led).requests(),
                ..old(self).requests()
            }),
    ;

    /// The pause indicator.
    fn yellow(&mut self) -> (led: &mut Self::Yellow)
        ensures
            led.is_high() == old(self).levels().yellow,
            led.requests() == old(self).requests().yellow,
            final(self).levels() == (Levels { yellow: final(led).is_high(), ..old(self).levels() }),
            final(self).requests() == (LedLogs {
                yellow: final(led).requests(),
                ..old(self).requests()
            }),
    ;

    /// The work indicator.
    fn green(&mut self) -> (led: &mut Self::Green)
        ensures
            led.is_high() == old(self).levels().green,
            led.requests() == old(self).requests().green,
            final(self).levels() == (Levels { green: final(led).is_high(), ..old(self).levels() }),
            final(self).requests() == (LedLogs {
                green: final(led).requests(),
                ..old(self).requests()
            }),
    ;
}

/// Three indicators held together.
pub struct LedGroup<B, P, W> {
    pub break_led: B,
    pub pause_led: P,
    pub work_led: W,
}

impl<B: Led, P: Led, W: Led> Leds for LedGroup<B, P, W> {
    type Red = B;

    type Yellow = P;

    type Green = W;

    open spec fn levels(&self) -> Levels {
        Levels {
            red: self.break_led.is_high(),
            yellow: self.pause_led.is_high(),
            green: self.work_led.is_high(),
        }
    }

    open spec fn requests(&self) -> LedLogs {
        LedLogs {
            red: self.break_led.requests(),
            yellow: self.pause_led.requests(),
            green: self.work_led.requests(),
        }
    }

    fn red(&mut self) -> (led: &mut B) {
        &mut self.break_led
    }

    fn yellow(&mut self) -> (led: &mut P) {
        &mut self.pause_led
    }

    fn green(&mut self) -> (led: &mut W) {
        &mut self.work_led
    }
}

} // verus!
