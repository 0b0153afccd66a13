//! The timer engine: two alternating phases, a countdown that only runs while
//! unpaused, and a transition to the other phase when the countdown expires.

use vstd::prelude::*;
use crate::clock::{span_in_range, whole_seconds_of, Moment, TimeSpan};
use crate::config::Config;
use crate::led::{HardwareError, Led, LedLogs, LedRequest, Leds, Levels};
use crate::sh1106_wrapper::{DisplayOp, DrawError, Font, ProgressArc, Sh1106Display};
use crate::text::{
    clock_line, clock_text, fitted, lemma_clock_text_fits, lemma_phase_text_fits,
    lemma_remaining_text_fits, most_cycles_shown, pause_label, pause_label_text, phase_line,
    phase_text, remaining_line, remaining_text,
};

verus! {

/// The two alternating timer phases.
#[derive(Debug, PartialEq, Eq, Clone, Copy, Structural)]
pub enum Phase {
    Work,
    Break,
}

/// Whether the countdown is frozen or running.
#[derive(Debug, PartialEq, Eq, Clone, Copy, Structural)]
pub enum Pause {
    Paused,
    Running,
}

impl Phase {
    /// The phase that follows this one.
    pub open spec fn flipped(self) -> Phase {
        match self {
            Phase::Work => Phase::Break,
            Phase::Break => Phase::Work,
        }
    }
}

impl Pause {
    /// The state that a published "is paused" flag stands for.
    pub fn from_flag(is_paused: bool) -> (pause: Pause)
        ensures
            pause == (if is_paused { Pause::Paused } else { Pause::Running }),
    {
        if is_paused {
            Pause::Paused
        } else {
            Pause::Running
        }
    }

    /// The "is paused" flag that stands for this state.
    pub fn is_paused(self) -> (flag: bool)
        ensures
            flag == (self == Pause::Paused),
    {
        match self {
            Pause::Paused => true,
            Pause::Running => false,
        }
    }
}

/// Pixels from the top of one line of the status screen to the top of the next.
pub const LINE_HEIGHT: i32 = 16;

/// Left edge of the box around the progress arc.
pub const ARC_X: i32 = 96;

/// Top edge of the box around the progress arc.
pub const ARC_Y: i32 = 32;

/// Diameter of the progress arc in pixels.
pub const ARC_DIAMETER: u32 = 28;

/// Width of the stroke of the progress arc in pixels.
pub const ARC_STROKE_WIDTH: u32 = 2;

/// What came of the requests made of the three indicators. The outcome of
/// a request that was not made does not count.
pub struct IndicatorOutcome {
    pub yellow: Result<(), HardwareError>,
    pub green: Result<(), HardwareError>,
    pub red: Result<(), HardwareError>,
}

impl IndicatorOutcome {
    /// What driving the indicators reports: the first failure, in the order
    /// pause, work, break, or success where none failed.
    pub open spec fn result(self) -> Result<(), HardwareError> {
        if self.yellow is Err {
            self.yellow
        } else if self.green is Err {
            self.green
        } else {
            self.red
        }
    }
}

/// Which parts of a frame the display carried out.
pub struct FrameOutcome {
    pub clock: bool,
    pub remaining: bool,
    pub pause: bool,
    pub phase: bool,
    pub arc: bool,
}

/// Why a frame of the status screen is incomplete.
#[derive(Debug, PartialEq, Eq, Clone, Copy, Structural)]
pub enum FrameError {
    /// A line of text was too long; the frame ends before it.
    Formatting,
    /// The display failed to draw the arc.
    Drawing,
}

impl From<DrawError> for FrameError {
    /// A drawing that failed leaves the frame incomplete.
    fn from(error: DrawError) -> (r: FrameError) {
        FrameError::Drawing
    }
}

impl vstd::std_specs::convert::FromSpecImpl<DrawError> for FrameError {
    open spec fn obeys_from_spec() -> bool {
        true
    }

    open spec fn from_spec(error: DrawError) -> FrameError {
        FrameError::Drawing
    }
}

/// The largest count of finished phases. After it the count starts over at 0.
pub const MAX_CYCLES: u64 = 0xffff_ffff_ffff_ffff;

/// Why a tick could not be applied to a timer.
#[derive(Debug, PartialEq, Eq, Clone, Copy, Structural)]
pub enum UpdateError {
    /// The system clock gave no reading at the timer's offset from UTC.
    Clock,
    /// The clock was set back so far that the remaining time is out of range.
    RemainingTime,
}

/// The timer as a mathematical value.
pub struct PomodoroView {
    pub phase: Phase,
    pub pause: Pause,
    /// Phases finished so far.
    pub cycles_counter: int,
    /// The reading of the wall clock at the last tick.
    pub update_time: Moment,
    /// Nanoseconds left in the phase.
    pub remaining: int,
    /// Length of the work phase in nanoseconds.
    pub work: int,
    /// Length of the break phase in nanoseconds.
    pub rest: int,
}

impl PomodoroView {
    /// The full length of `phase` in nanoseconds.
    pub open spec fn full(self, phase: Phase) -> int {
        match phase {
            Phase::Work => self.work,
            Phase::Break => self.rest,
        }
    }

    /// Real time, in nanoseconds, from the last tick to `now`.
    pub open spec fn elapsed(self, now: Moment) -> int {
        now.unix_nanos() - self.update_time.unix_nanos()
    }

    /// Whether a tick at `now` ends the phase: the timer runs and the elapsed
    /// time exceeds what remained.
    pub open spec fn expires_at(self, now: Moment) -> bool {
        self.pause == Pause::Running && self.remaining - self.elapsed(now) < 0
    }

    /// The count of finished phases after one more: one higher, but for the
    /// largest count that 64 bits hold, after which it wraps around to 0.
    pub open spec fn next_count(self) -> int {
        if self.cycles_counter == MAX_CYCLES {
            0
        } else {
            self.cycles_counter + 1
        }
    }

    /// The timer after a phase transition noticed at `now`: the other phase,
    /// at its full length, paused, with one more finished phase counted. The
    /// count wraps around: after the largest one it is 0 again.
    pub open spec fn transitioned(self, now: Moment) -> PomodoroView {
        PomodoroView {
            phase: self.phase.flipped(),
            pause: Pause::Paused,
            cycles_counter: self.next_count(),
            update_time: now,
            remaining: self.full(self.phase.flipped()),
            ..self
        }
    }

    /// The timer after a tick at `now`.
    pub open spec fn advanced(self, now: Moment) -> PomodoroView {
        if self.pause == Pause::Paused {
            PomodoroView { update_time: now, ..self }
        } else if self.expires_at(now) {
            self.transitioned(now)
        } else {
            PomodoroView { update_time: now, remaining: self.remaining - self.elapsed(now), ..self }
        }
    }

    /// Whether a tick at `now` stays within the machine's limits: the time
    /// left after it is a [`TimeSpan`].
    pub open spec fn can_advance(self, now: Moment) -> bool {
        self.pause == Pause::Running ==> span_in_range(self.remaining - self.elapsed(now))
    }

    /// What a tick makes of what the clock gave, and what it reports. Without
    /// a reading the timer stays as it is, and so it does where the tick at
    /// the reading is beyond the machine's limits; else the tick is applied.
    pub open spec fn ticked(self, reading: Option<Moment>) -> (
        PomodoroView,
        Result<(), UpdateError>,
    ) {
        match reading {
            None => (self, Err(UpdateError::Clock)),
            Some(now) => if self.can_advance(now) {
                (self.advanced(now), Ok(()))
            } else {
                (self, Err(UpdateError::RemainingTime))
            },
        }
    }

    /// The indicator levels that show this state: the pause indicator is lit
    /// while paused, and of the other two the one of the current phase.
    pub open spec fn indicator_levels(self) -> Levels {
        Levels {
            red: self.phase == Phase::Break,
            yellow: self.pause == Pause::Paused,
            green: self.phase == Phase::Work,
        }
    }

    /// The requests on record after the indicators were driven to show this
    /// state: one of the pause indicator; after it, if it did not fail, one
    /// of the work indicator; and after that, if it did not fail either, one
    /// of the break indicator.
    pub open spec fn indicator_requests(self, before: LedLogs, outcome: IndicatorOutcome) -> LedLogs {
        let wanted = self.indicator_levels();
        LedLogs {
            yellow: before.yellow.push(
                LedRequest { level: wanted.yellow, outcome: outcome.yellow },
            ),
            green: if outcome.yellow is Ok {
                before.green.push(LedRequest { level: wanted.green, outcome: outcome.green })
            } else {
                before.green
            },
            red: if outcome.yellow is Ok && outcome.green is Ok {
                before.red.push(LedRequest { level: wanted.red, outcome: outcome.red })
            } else {
                before.red
            },
        }
    }

    /// The request to write `text` on line `row` of the status screen.
    pub open spec fn line_op(text: Seq<char>, row: int, drawn: bool) -> DisplayOp {
        DisplayOp::Text { text, x: 0, y: (row * LINE_HEIGHT) as i32, font: Font::Font9x15, drawn }
    }

    /// The clock line, if the clock reading fits in a line.
    pub open spec fn clock_line(self) -> Option<Seq<char>> {
        fitted(clock_text(self.update_time.hour, self.update_time.minute, self.update_time.second))
    }

    /// The countdown line, if the time left fits in a line.
    pub open spec fn remaining_line(self) -> Option<Seq<char>> {
        fitted(remaining_text(whole_seconds_of(self.remaining) as u64))
    }

    /// The phase line, if phase and cycle count fit in a line.
    pub open spec fn phase_line(self) -> Option<Seq<char>> {
        fitted(phase_text(self.phase, self.cycles_counter as u64))
    }

    /// Whether every line of the status screen can be written.
    pub open spec fn lines_fit(self) -> bool {
        self.clock_line() is Some && self.remaining_line() is Some && self.phase_line() is Some
    }

    /// The arc that shows how much of the current phase is left.
    pub open spec fn progress_arc(self) -> ProgressArc {
        ProgressArc {
            x: ARC_X,
            y: ARC_Y,
            diameter: ARC_DIAMETER,
            stroke_width: ARC_STROKE_WIDTH,
            part: self.remaining as i128,
            whole: self.full(self.phase) as i128,
        }
    }

    /// What is asked of the display between clearing and flushing: the
    /// clock, the countdown, the pause state, the phase with the cycle count,
    /// and the arc; or, where a line is too long, only what comes before it.
    pub open spec fn frame_body(self, drawn: FrameOutcome) -> Seq<DisplayOp> {
        if self.clock_line() is None {
            seq![]
        } else if self.remaining_line() is None {
            seq![Self::line_op(self.clock_line().unwrap(), 0, drawn.clock)]
        } else if self.phase_line() is None {
            seq![
                Self::line_op(self.clock_line().unwrap(), 0, drawn.clock),
                Self::line_op(self.remaining_line().unwrap(), 1, drawn.remaining),
                Self::line_op(pause_label_text(self.pause), 2, drawn.pause),
            ]
        } else {
            seq![
                Self::line_op(self.clock_line().unwrap(), 0, drawn.clock),
                Self::line_op(self.remaining_line().unwrap(), 1, drawn.remaining),
                Self::line_op(pause_label_text(self.pause), 2, drawn.pause),
                Self::line_op(self.phase_line().unwrap(), 3, drawn.phase),
                DisplayOp::Arc { arc: self.progress_arc(), drawn: drawn.arc },
            ]
        }
    }

    /// Everything that showing the timer asks of a display.
    pub open spec fn frame(self, drawn: FrameOutcome) -> Seq<DisplayOp> {
        seq![DisplayOp::Clear] + self.frame_body(drawn) + seq![DisplayOp::Flush]
    }

    /// What showing the timer reports: a line that is too long, else an arc
    /// that the display failed to draw, else success. Text that the display
    /// failed to draw is not reported.
    pub open spec fn frame_result(self, drawn: FrameOutcome) -> Result<(), FrameError> {
        if !self.lines_fit() {
            Err(FrameError::Formatting)
        } else if !drawn.arc {
            Err(FrameError::Drawing)
        } else {
            Ok(())
        }
    }

    /// What holds of every timer between ticks.
    pub open spec fn wf(self) -> bool {
        &&& 0 <= self.cycles_counter <= MAX_CYCLES
        &&& self.update_time.wf()
        &&& 0 <= self.remaining
        &&& span_in_range(self.remaining)
        &&& 0 <= self.work
        &&& span_in_range(self.work)
        &&& 0 <= self.rest
        &&& span_in_range(self.rest)
    }
}

/// A Pomodoro timer.
pub struct Pomodoro {
    phase: Phase,
    pause: Pause,
    cycles_counter: u64,
    update_time: Moment,
    remaining_phase_time: TimeSpan,
    config: Config,
}

impl View for Pomodoro {
    type V = PomodoroView;

    closed spec fn view(&self) -> PomodoroView {
        PomodoroView {
            phase: self.phase,
            pause: self.pause,
            cycles_counter: self.cycles_counter as int,
            update_time: self.update_time,
            remaining: self.remaining_phase_time@,
            work: self.config.phase_nanos(Phase::Work),
            rest: self.config.phase_nanos(Phase::Break),
        }
    }
}

impl Pomodoro {
    /// The settings that the timer was made with.
    pub closed spec fn spec_config(&self) -> Config {
        self.config
    }

    /// The invariant of the timer: its settings are valid, its view is well
    /// formed and agrees with the settings.
    pub open spec fn wf(&self) -> bool {
        &&& self.spec_config().wf()
        &&& self@.wf()
        &&& self@.work == self.spec_config().phase_nanos(Phase::Work)
        &&& self@.rest == self.spec_config().phase_nanos(Phase::Break)
    }

    /// A timer that starts in `start_phase`, with the whole phase ahead of
    /// it, as if last ticked at `now`.
    pub fn init_at(start_phase: Phase, start_pause: Pause, config: Config, now: Moment) -> (timer:
        Pomodoro)
        requires
            config.wf(),
            now.wf(),
        ensures
            timer.wf(),
            timer.spec_config() == config,
            timer@.phase == start_phase,
            timer@.pause == start_pause,
            timer@.cycles_counter == 0,
            timer@.update_time == now,
            timer@.remaining == config.phase_nanos(start_phase),
    {
        let remaining_phase_time = config.phase_duration(start_phase);
        Pomodoro {
            phase: start_phase,
            pause: start_pause,
            cycles_counter: 0,
            update_time: now,
            remaining_phase_time,
            config,
        }
    }

    /// A timer that starts in `start_phase`, with the whole phase ahead of
    /// it, at the present reading of the system clock. `None` where the
    /// clock gives no reading.
    pub fn init(start_phase: Phase, start_pause: Pause, config: Config) -> (r: Option<Pomodoro>)
        requires
            config.wf(),
        ensures
            r matches Some(timer) ==> {
                &&& timer.wf()
                &&& timer.spec_config() == config
                &&& timer@.phase == start_phase
                &&& timer@.pause == start_pause
                &&& timer@.cycles_counter == 0
                &&& timer@.remaining == config.phase_nanos(start_phase)
            },
    {
        match Moment::now(config.utc_offset_h()) {
            Some(now) => Some(Pomodoro::init_at(start_phase, start_pause, config, now)),
            None => None,
        }
    }

    /// Latches the pause state that the button published.
    pub fn set_pause(&mut self, pause: Pause)
        ensures
            final(self)@ == (PomodoroView { pause, ..old(self)@ }),
            final(self).spec_config() == old(self).spec_config(),
    {
        self.pause = pause;
    }

    /// Whether a tick at `now` can be applied, and if not, why.
    pub fn check_advance(&self, now: Moment) -> (r: Result<(), UpdateError>)
        requires
            self.wf(),
            now.wf(),
        ensures
            match r {
                Ok(()) => self@.can_advance(now),
                Err(UpdateError::RemainingTime) => !self@.can_advance(now),
                Err(UpdateError::Clock) => false,
            },
    {
        if self.pause.is_paused() {
            return Ok(());
        }
        let elapsed = now.elapsed_since(&self.update_time);
        match self.remaining_phase_time.checked_sub(&elapsed) {
            None => Err(UpdateError::RemainingTime),
            Some(_) => Ok(()),
        }
    }

    /// Applies the tick at `now`: the clock reading is latched; a paused
    /// timer is otherwise left alone; a running one counts down by the real
    /// time since the last tick, and moves to the other phase where that
    /// leaves less than nothing.
    pub fn update_at(&mut self, now: Moment)
        requires
            old(self).wf(),
            now.wf(),
            old(self)@.can_advance(now),
        ensures
            final(self).wf(),
            final(self).spec_config() == old(self).spec_config(),
            final(self)@ == old(self)@.advanced(now),
    {
        let diff = now.elapsed_since(&self.update_time);
        self.update_time = now;

        if self.pause.is_paused() {
            return ;
        }
        let left = self.remaining_phase_time.checked_sub(&diff);
        self.remaining_phase_time = left.unwrap();

        if self.remaining_phase_time.is_negative() {
            self.phase = match self.phase {
                Phase::Work => Phase::Break,
                Phase::Break => Phase::Work,
            };
            self.cycles_counter = self.cycles_counter.wrapping_add(1);
            self.pause = Pause::Paused;
            self.remaining_phase_time = self.config.phase_duration(self.phase);
        }
    }

    /// Applies the tick at the present reading of the system clock. Where
    /// the clock gives no reading, or the tick is beyond the machine's
    /// limits, the timer is left as it was.
    pub fn update(&mut self) -> (r: Result<(), UpdateError>)
        requires
            old(self).wf(),
        ensures
            final(self).wf(),
            final(self).spec_config() == old(self).spec_config(),
            exists|reading: Option<Moment>|
                {
                    &&& reading matches Some(now) ==> now.wf()
                    &&& (final(self)@, r) == #[trigger] old(self)@.ticked(reading)
                },
            r is Err ==> final(self)@ == old(self)@,
            r is Ok ==> {
                let now = final(self)@.update_time;
                old(self)@.can_advance(now) && final(self)@ == old(self)@.advanced(now)
            },
    {
        let reading = Moment::now(self.config.utc_offset_h());
        match reading {
            None => {
                assert((self@, Err::<(), UpdateError>(UpdateError::Clock)) == old(self)@.ticked(
                    reading,
                ));
                Err(UpdateError::Clock)
            },
            Some(now) => match self.check_advance(now) {
                Err(e) => {
                    assert((self@, Err::<(), UpdateError>(e)) == old(self)@.ticked(reading));
                    Err(e)
                },
                Ok(()) => {
                    self.update_at(now);
                    assert((self@, Ok::<(), UpdateError>(())) == old(self)@.ticked(reading));
                    Ok(())
                },
            },
        }
    }

    /// Drives the indicators to the levels that show the timer's state,
    /// the pause indicator first, and stops at the first one that fails.
    pub fn update_leds(&self, leds: &mut impl Leds) -> (r: Result<(), HardwareError>)
        ensures
            exists|outcome: IndicatorOutcome|
                {
                    &&& final(leds).requests() == #[trigger] self@.indicator_requests(
                        old(leds).requests(),
                        outcome,
                    )
                    &&& r == outcome.result()
                },
            r is Ok ==> final(leds).levels() == self@.indicator_levels(),
            r is Err ==> {
                let before = old(leds).levels();
                let after = final(leds).levels();
                let wanted = self@.indicator_levels();
                ||| after.green == before.green && after.red == before.red
                ||| after.yellow == wanted.yellow && after.red == before.red
                ||| after.yellow == wanted.yellow && after.green == wanted.green
            },
    {
        let yellow = match self.pause {
            Pause::Paused => leds.yellow().set_high(),
            Pause::Running => leds.yellow().set_low(),
        };
        let ghost mut outcome = IndicatorOutcome { yellow, green: Ok(()), red: Ok(()) };
        assert(yellow is Err ==> leds.requests() == self@.indicator_requests(
            old(leds).requests(),
            outcome,
        ));
        yellow?;

        let green = match self.phase {
            Phase::Work => leds.green().set_high(),
            Phase::Break => leds.green().set_low(),
        };
        proof {
            outcome.green = green;
        }
        assert(green is Err ==> leds.requests() == self@.indicator_requests(
            old(leds).requests(),
            outcome,
        ));
        green?;

        let red = match self.phase {
            Phase::Work => leds.red().set_low(),
            Phase::Break => leds.red().set_high(),
        };
        proof {
            outcome.red = red;
        }
        assert(leds.requests() == self@.indicator_requests(old(leds).requests(), outcome));
        red
    }

    /// Shows the timer on the display: clears the frame, draws it, and
    /// flushes whatever was drawn, complete or not.
    pub fn display(&self, display: &mut impl Sh1106Display) -> (r: Result<(), FrameError>)
        requires
            self.wf(),
        ensures
            exists|drawn: FrameOutcome|
                {
                    &&& final(display).trace() == old(display).trace() + #[trigger] self@.frame(
                        drawn,
                    )
                    &&& r == self@.frame_result(drawn)
                },
    {
        display.clear_ignore();
        let (drawn, Ghost(outcome)) = self.draw_frame(display);

        display.flush_ignore();
        assert(display.trace() == old(display).trace() + self@.frame(outcome));
        drawn
    }

    /// Draws the frame line by line, and stops before a line that is too long.
    /// Text that the display fails to draw is passed over.
    fn draw_frame(&self, display: &mut impl Sh1106Display) -> (r: (
        Result<(), FrameError>,
        Ghost<FrameOutcome>,
    ))
        requires
            self.wf(),
        ensures
            final(display).trace() == old(display).trace() + self@.frame_body(r.1@),
            r.0 == self@.frame_result(r.1@),
    {
        let ghost mut outcome = FrameOutcome {
            clock: false,
            remaining: false,
            pause: false,
            phase: false,
            arc: false,
        };
        let line = match clock_line(
            self.update_time.hour,
            self.update_time.minute,
            self.update_time.second,
        ) {
            Some(line) => line,
            None => {
                return (Err(FrameError::Formatting), Ghost(outcome));
            },
        };
        let drawn = Self::draw_text(display, line.as_str(), 0, 0);
        proof {
            outcome.clock = drawn@;
        }

        let whole_seconds: i64 = self.remaining_phase_time.whole_seconds();
        let line = match remaining_line(whole_seconds as u64) {
            Some(line) => line,
            None => {
                return (Err(FrameError::Formatting), Ghost(outcome));
            },
        };
        let drawn = Self::draw_text(display, line.as_str(), 0, LINE_HEIGHT);
        proof {
            outcome.remaining = drawn@;
        }

        let drawn = Self::draw_text(display, pause_label(self.pause), 0, LINE_HEIGHT * 2);
        proof {
            outcome.pause = drawn@;
        }

        let line = match phase_line(self.phase, self.cycles_counter) {
            Some(line) => line,
            None => {
                return (Err(FrameError::Formatting), Ghost(outcome));
            },
        };
        let drawn = Self::draw_text(display, line.as_str(), 0, LINE_HEIGHT * 3);
        proof {
            outcome.phase = drawn@;
        }

        let arc = ProgressArc {
            x: ARC_X,
            y: ARC_Y,
            diameter: ARC_DIAMETER,
            stroke_width: ARC_STROKE_WIDTH,
            part: self.remaining_phase_time.as_nanos(),
            whole: self.config.phase_duration(self.phase).as_nanos(),
        };
        let drawn = display.draw_arc(arc);
        proof {
            outcome.arc = drawn is Ok;
        }
        match drawn {
            Ok(()) => (Ok(()), Ghost(outcome)),
            Err(error) => (Err(FrameError::from(error)), Ghost(outcome)),
        }
    }

    /// Writes a line of the status screen; a failure of the display is passed over.
    fn draw_text(display: &mut impl Sh1106Display, text: &str, x: i32, y: i32) -> (drawn: Ghost<
        bool,
    >)
        ensures
            final(display).trace() == old(display).trace().push(
                DisplayOp::Text { text: text@, x, y, font: Font::Font9x15, drawn: drawn@ },
            ),
    {
        let drawn = display.draw_text(text, x, y, Font::Font9x15);
        Ghost(drawn is Ok)
    }

    /// The current phase.
    pub fn phase(&self) -> (phase: Phase)
        ensures
            phase == self@.phase,
    {
        self.phase
    }

    /// The pause state that was last latched, or forced by a transition.
    pub fn pause(&self) -> (pause: Pause)
        ensures
            pause == self@.pause,
    {
        self.pause
    }

    /// Phases finished so far, work and break alike.
    pub fn cycles_counter(&self) -> (cycles: u64)
        ensures
            cycles == self@.cycles_counter,
    {
        self.cycles_counter
    }

    /// The clock reading at the last tick.
    pub fn update_time(&self) -> (moment: Moment)
        ensures
            moment == self@.update_time,
    {
        self.update_time
    }

    /// The time left in the phase.
    pub fn remaining_phase_time(&self) -> (span: TimeSpan)
        ensures
            span@ == self@.remaining,
    {
        self.remaining_phase_time
    }

    /// The settings that the timer was made with.
    pub fn config(&self) -> (config: Config)
        ensures
            config == self.spec_config(),
    {
        self.config
    }

    /// The full length of `phase` under the timer's settings.
    pub fn get_phase_time(&self, phase: Phase) -> (span: TimeSpan)
        requires
            self.wf(),
        ensures
            span@ == self@.full(phase),
            span.wf(),
    {
        self.config.phase_duration(phase)
    }
}

/// While the timer runs, a tick after `d >= 0` of real time leaves `d` less
/// on the countdown; where that would be less than nothing, the tick is a
/// phase transition instead.
pub proof fn lemma_running_tick(timer: PomodoroView, now: Moment)
    requires
        timer.pause == Pause::Running,
        timer.elapsed(now) >= 0,
    ensures
        timer.remaining - timer.elapsed(now) >= 0 ==> timer.advanced(now) == (PomodoroView {
            update_time: now,
            remaining: timer.remaining - timer.elapsed(now),
            ..timer
        }),
        timer.remaining - timer.elapsed(now) < 0 ==> timer.advanced(now) == (PomodoroView {
            phase: timer.phase.flipped(),
            pause: Pause::Paused,
            cycles_counter: timer.next_count(),
            update_time: now,
            remaining: timer.full(timer.phase.flipped()),
            ..timer
        }),
{
}

/// While the timer is paused, a tick leaves the countdown alone, however
/// much real time has passed, and still latches the clock reading.
pub proof fn lemma_paused_tick(timer: PomodoroView, now: Moment)
    requires
        timer.pause == Pause::Paused,
    ensures
        timer.advanced(now) == (PomodoroView { update_time: now, ..timer }),
        timer.advanced(now).remaining == timer.remaining,
        timer.advanced(now).update_time == now,
{
}

/// One tick makes at most one phase transition, however long the real time
/// since the last one: the phase after it is the same or the other one, and
/// a new phase always starts at its full length.
pub proof fn lemma_one_transition_per_tick(timer: PomodoroView, now: Moment)
    ensures
        timer.advanced(now).phase == timer.phase || {
            &&& timer.advanced(now).phase == timer.phase.flipped()
            &&& timer.advanced(now).remaining == timer.full(timer.phase.flipped())
            &&& timer.advanced(now).pause == Pause::Paused
        },
        timer.advanced(now).phase != timer.phase <==> timer.expires_at(now),
{
}

/// The counter of finished phases goes up by exactly one on a tick that
/// changes the phase, and stays on every other tick. Left out is the one
/// count that 64 bits cannot follow with a higher one.
pub proof fn lemma_cycles_count_transitions(timer: PomodoroView, now: Moment)
    requires
        timer.cycles_counter != MAX_CYCLES,
    ensures
        timer.advanced(now).phase != timer.phase ==> timer.advanced(now).cycles_counter
            == timer.cycles_counter + 1,
        timer.advanced(now).phase == timer.phase ==> timer.advanced(now).cycles_counter
            == timer.cycles_counter,
{
}

/// A tick is never refused for the count of finished phases: whatever the
/// count, it latches the clock reading, and where the phase ends it makes
/// the transition, with the count at 0 after the largest one.
pub proof fn lemma_tick_at_any_count(timer: PomodoroView, now: Moment)
    requires
        timer.wf(),
        now.wf(),
        timer.can_advance(now),
    ensures
        timer.advanced(now).wf(),
        timer.advanced(now).update_time == now,
        timer.expires_at(now) ==> timer.advanced(now) == timer.transitioned(now),
        timer.expires_at(now) && timer.cycles_counter == MAX_CYCLES ==> timer.advanced(
            now,
        ).cycles_counter == 0,
{
}

/// The status screen of a timer can be written in full as long as the
/// countdown and the cycle count fit in their lines: less than 100,000 whole
/// minutes are left, and the count of finished cycles has at most as many
/// digits as the line has room for after the phase's name.
pub proof fn lemma_lines_fit(timer: PomodoroView)
    requires
        timer.wf(),
    ensures
        timer.lines_fit() <==> {
            &&& whole_seconds_of(timer.remaining) / 60 < 100_000
            &&& timer.cycles_counter / 2 < most_cycles_shown(timer.phase)
        },
{
    lemma_clock_text_fits(
        timer.update_time.hour,
        timer.update_time.minute,
        timer.update_time.second,
    );
    lemma_remaining_text_fits(whole_seconds_of(timer.remaining) as u64);
    lemma_phase_text_fits(timer.phase, timer.cycles_counter as u64);
}

/// The indicator levels depend on the phase and the pause state alone.
pub proof fn lemma_indicators_follow_phase_and_pause(a: PomodoroView, b: PomodoroView)
    requires
        a.phase == b.phase,
        a.pause == b.pause,
    ensures
        a.indicator_levels() == b.indicator_levels(),
{
}

} // verus!
