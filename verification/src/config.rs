//! The settings of a timer, and the reading of them from text.

use vstd::prelude::*;
use vstd::string::StringSliceAdditionalSpecFns;
use crate::clock::{is_valid_utc_offset, valid_utc_offset_hours, TimeSpan, NANOS_PER_SECOND};
use crate::pomodoro::Phase;

verus! {

/// Why a set of timer settings was refused.
#[derive(Debug, PartialEq, Eq, Clone, Copy, Structural)]
pub enum ConfigError {
    /// The offset from UTC is beyond 25 hours on either side.
    UtcOffset,
    /// A phase is so long that its seconds do not fit in a signed 64-bit integer.
    PhaseDuration,
}

/// The phase lengths, in minutes, that a timer can count down from.
pub open spec fn valid_phase_minutes(minutes: u64) -> bool {
    minutes * 60 <= i64::MAX
}

/// The fixed settings of a timer: the offset of its clock from UTC and the
/// lengths of the two phases.
#[derive(Debug, PartialEq, Eq, Clone, Copy, Structural)]
pub struct Config {
    utc_offset_h: i8,
    work_min: u64,
    break_min: u64,
}

impl Config {
    /// Whole hours of the clock's offset from UTC.
    pub closed spec fn spec_utc_offset_h(&self) -> i8 {
        self.utc_offset_h
    }

    /// Minutes in a work phase.
    pub closed spec fn spec_work_min(&self) -> u64 {
        self.work_min
    }

    /// Minutes in a break phase.
    pub closed spec fn spec_break_min(&self) -> u64 {
        self.break_min
    }

    /// The settings are those that [`Config::new`] accepts.
    pub open spec fn wf(&self) -> bool {
        &&& valid_utc_offset_hours(self.spec_utc_offset_h())
        &&& valid_phase_minutes(self.spec_work_min())
        &&& valid_phase_minutes(self.spec_break_min())
    }

    /// The length of `phase` in nanoseconds.
    pub open spec fn phase_nanos(&self, phase: Phase) -> int {
        match phase {
            Phase::Work => self.spec_work_min() * 60 * NANOS_PER_SECOND,
            Phase::Break => self.spec_break_min() * 60 * NANOS_PER_SECOND,
        }
    }

    /// Settings for a clock `utc_offset_h` hours from UTC and phases of
    /// `work_min` and `break_min` minutes.
    pub fn new(utc_offset_h: i8, work_min: u64, break_min: u64) -> (r: Result<Config, ConfigError>)
        ensures
            match r {
                Ok(config) => {
                    &&& config.wf()
                    &&& config.spec_utc_offset_h() == utc_offset_h
                    &&& config.spec_work_min() == work_min
                    &&& config.spec_break_min() == break_min
                },
                Err(ConfigError::UtcOffset) => !valid_utc_offset_hours(utc_offset_h),
                Err(ConfigError::PhaseDuration) => {
                    &&& valid_utc_offset_hours(utc_offset_h)
                    &&& !(valid_phase_minutes(work_min) && valid_phase_minutes(break_min))
                },
            },
    {
        if !is_valid_utc_offset(utc_offset_h) {
            return Err(ConfigError::UtcOffset);
        }
        let longest: u64 = 0x7fff_ffff_ffff_ffff / 60;
        if work_min > longest || break_min > longest {
            return Err(ConfigError::PhaseDuration);
        }
        Ok(Config { utc_offset_h, work_min, break_min })
    }

    /// Whole hours of the clock's offset from UTC.
    #[verifier::when_used_as_spec(spec_utc_offset_h)]
    pub fn utc_offset_h(&self) -> (hours: i8)
        ensures
            hours == self.spec_utc_offset_h(),
    {
        self.utc_offset_h
    }

    /// Minutes in a work phase.
    #[verifier::when_used_as_spec(spec_work_min)]
    pub fn work_min(&self) -> (minutes: u64)
        ensures
            minutes == self.spec_work_min(),
    {
        self.work_min
    }

    /// Minutes in a break phase.
    #[verifier::when_used_as_spec(spec_break_min)]
    pub fn break_min(&self) -> (minutes: u64)
        ensures
            minutes == self.spec_break_min(),
    {
        self.break_min
    }

    /// The full length of `phase`.
    pub fn phase_duration(&self, phase: Phase) -> (span: TimeSpan)
        requires
            self.wf(),
        ensures
            span@ == self.phase_nanos(phase),
            span.wf(),
            span@ >= 0,
    {
        let minutes: u64 = match phase {
            Phase::Work => self.work_min,
            Phase::Break => self.break_min,
        };
        TimeSpan::minutes(minutes as i64).unwrap()
    }
}

/// The byte of the digit `0`.
pub const ASCII_ZERO: u8 = 48;

/// The byte of the digit `9`.
pub const ASCII_NINE: u8 = 57;

/// The byte of the minus sign.
pub const ASCII_MINUS: u8 = 45;

/// Whether `byte` is an ASCII decimal digit.
pub open spec fn is_digit(byte: u8) -> bool {
    ASCII_ZERO <= byte <= ASCII_NINE
}

/// Whether every byte of `bytes` is an ASCII decimal digit.
pub open spec fn all_digits(bytes: Seq<u8>) -> bool {
    forall|i: int| 0 <= i < bytes.len() ==> is_digit(#[trigger] bytes[i])
}

/// The number that the decimal digits `digits` write; 0 for no digits.
pub open spec fn digits_value(digits: Seq<u8>) -> nat
    decreases digits.len(),
{
    if digits.len() == 0 {
        0
    } else {
        (digits_value(digits.drop_last()) * 10 + (digits.last() - ASCII_ZERO)) as nat
    }
}

/// Whether `bytes` starts with a minus sign.
pub open spec fn has_sign(bytes: Seq<u8>) -> bool {
    bytes.len() > 0 && bytes[0] == ASCII_MINUS
}

/// `bytes` without the minus sign that it may start with.
pub open spec fn unsigned_part(bytes: Seq<u8>) -> Seq<u8> {
    if has_sign(bytes) {
        bytes.subrange(1, bytes.len() as int)
    } else {
        bytes
    }
}

/// The integer that `bytes` writes: decimal digits, after a minus sign for
/// the negative of what they write.
pub open spec fn signed_value(bytes: Seq<u8>) -> int {
    if has_sign(bytes) {
        -(digits_value(unsigned_part(bytes)) as int)
    } else {
        digits_value(bytes) as int
    }
}

/// The digits up to any point write no more than all of them.
proof fn lemma_digits_value_grows(digits: Seq<u8>, upto: int)
    requires
        all_digits(digits),
        0 <= upto <= digits.len(),
    ensures
        digits_value(digits.subrange(0, upto)) <= digits_value(digits),
    decreases digits.len() - upto,
{
    if upto == digits.len() {
        assert(digits.subrange(0, upto) =~= digits);
    } else {
        lemma_digits_value_grows(digits, upto + 1);
        let longer = digits.subrange(0, upto + 1);
        assert(longer.drop_last() =~= digits.subrange(0, upto));
    }
}

/// Reads the decimal digits of `bytes` from `start` on.
fn parse_digits(bytes: &[u8], start: usize, limit: u64) -> (value: u64)
    requires
        start <= bytes@.len(),
        all_digits(bytes@.subrange(start as int, bytes@.len() as int)),
        digits_value(bytes@.subrange(start as int, bytes@.len() as int)) <= limit,
    ensures
        value == digits_value(bytes@.subrange(start as int, bytes@.len() as int)),
{
    let ghost digits = bytes@.subrange(start as int, bytes@.len() as int);
    let mut value: u64 = 0;
    let mut at: usize = start;
    while at < bytes.len()
        invariant
            start <= at <= bytes@.len(),
            digits == bytes@.subrange(start as int, bytes@.len() as int),
            all_digits(digits),
            digits_value(digits) <= limit,
            value == digits_value(digits.subrange(0, at - start)),
        decreases bytes@.len() - at,
    {
        let byte: u8 = bytes[at];
        proof {
            let longer = digits.subrange(0, at - start + 1);
            assert(longer.drop_last() =~= digits.subrange(0, at - start));
            lemma_digits_value_grows(digits, at - start + 1);
        }
        value = value * 10 + (byte - ASCII_ZERO) as u64;
        at += 1;
    }
    assert(digits.subrange(0, at - start) =~= digits);
    value
}

/// Reads an integer in decimal, with a minus sign in front for a negative one.
///
/// After the sign, if there is one, the text holds at least one byte and
/// decimal digits only, and they write no more than `i64::MAX`.
pub fn parse_i64(string: &str) -> (value: i64)
    requires
        unsigned_part(string.spec_bytes()).len() > 0,
        all_digits(unsigned_part(string.spec_bytes())),
        digits_value(unsigned_part(string.spec_bytes())) <= i64::MAX,
    ensures
        value == signed_value(string.spec_bytes()),
{
    let bytes = string.as_bytes();
    let is_neg = bytes[0] == ASCII_MINUS;
    let start: usize = if is_neg { 1 } else { 0 };
    assert(bytes@.subrange(start as int, bytes@.len() as int) =~= unsigned_part(bytes@));
    let value: u64 = parse_digits(bytes, start, 0x7fff_ffff_ffff_ffff);

    if is_neg {
        -(value as i64)
    } else {
        value as i64
    }
}

/// Reads a natural number in decimal.
///
/// The text holds decimal digits only, and they write no more than `u64::MAX`.
pub fn parse_u64(string: &str) -> (value: u64)
    requires
        all_digits(string.spec_bytes()),
        digits_value(string.spec_bytes()) <= u64::MAX,
    ensures
        value == digits_value(string.spec_bytes()),
{
    let bytes = string.as_bytes();
    assert(bytes@.subrange(0, bytes@.len() as int) =~= bytes@);
    parse_digits(bytes, 0, 0xffff_ffff_ffff_ffff)
}

} // verus!
