//! Signed time spans, wall-clock readings, and the system clock behind them.

use vstd::prelude::*;

verus! {

/// Nanoseconds in one second.
pub const NANOS_PER_SECOND: i128 = 1_000_000_000;

/// The longest span: `i64::MAX` whole seconds and 999,999,999 nanoseconds.
pub const MAX_SPAN_NANOS: i128 = 9_223_372_036_854_775_807_999_999_999;

/// The most negative span: `i64::MIN` whole seconds and -999,999,999 nanoseconds.
pub const MIN_SPAN_NANOS: i128 = -9_223_372_036_854_775_808_999_999_999;

/// The largest Unix second count, of either sign, that a [`Moment`] may carry.
/// Any two moments within it are less than a [`TimeSpan`] apart.
pub const MAX_UNIX_SECONDS: i64 = 0x3fff_ffff_ffff_ffff;

/// A signed span of time with nanosecond precision.
///
/// The span is a whole number of nanoseconds between [`MIN_SPAN_NANOS`] and
/// [`MAX_SPAN_NANOS`]: what fits in a signed 64-bit count of whole seconds
/// with a nanosecond fraction of the same sign.
#[derive(Debug, PartialEq, Eq, Clone, Copy, Structural)]
pub struct TimeSpan {
    nanos: i128,
}

impl View for TimeSpan {
    type V = int;

    /// The span as a count of nanoseconds.
    closed spec fn view(&self) -> int {
        self.nanos as int
    }
}

/// Whether a nanosecond count is within the range of a [`TimeSpan`].
pub open spec fn span_in_range(nanos: int) -> bool {
    MIN_SPAN_NANOS <= nanos <= MAX_SPAN_NANOS
}

/// The whole seconds in a nanosecond count, rounded towards zero.
pub open spec fn whole_seconds_of(nanos: int) -> int {
    if nanos >= 0 {
        nanos / (NANOS_PER_SECOND as int)
    } else {
        -((-nanos) / (NANOS_PER_SECOND as int))
    }
}

impl TimeSpan {
    /// Every span held by the library is within range.
    pub open spec fn wf(&self) -> bool {
        span_in_range(self@)
    }

    /// The span of `nanos` nanoseconds, or `None` where that is out of range.
    pub fn from_nanos(nanos: i128) -> (r: Option<TimeSpan>)
        ensures
            span_in_range(nanos as int) <==> r is Some,
            r matches Some(span) ==> span@ == nanos && span.wf(),
    {
        if MIN_SPAN_NANOS <= nanos && nanos <= MAX_SPAN_NANOS {
            Some(TimeSpan { nanos })
        } else {
            None
        }
    }

    /// The span of `seconds` whole seconds.
    pub fn seconds(seconds: i64) -> (span: TimeSpan)
        ensures
            span@ == seconds * NANOS_PER_SECOND,
            span.wf(),
    {
        TimeSpan { nanos: (seconds as i128) * NANOS_PER_SECOND }
    }

    /// The span of `minutes` whole minutes, or `None` where the number of
    /// seconds in it does not fit in a signed 64-bit integer.
    pub fn minutes(minutes: i64) -> (r: Option<TimeSpan>)
        ensures
            (i64::MIN <= minutes * 60 <= i64::MAX) <==> r is Some,
            r matches Some(span) ==> span@ == minutes * 60 * NANOS_PER_SECOND && span.wf(),
    {
        match minutes.checked_mul(60) {
            Some(seconds) => Some(TimeSpan::seconds(seconds)),
            None => None,
        }
    }

    /// The span as a count of nanoseconds.
    pub fn as_nanos(&self) -> (nanos: i128)
        ensures
            nanos == self@,
    {
        self.nanos
    }

    /// Whether the span is below zero.
    pub fn is_negative(&self) -> (negative: bool)
        ensures
            negative == (self@ < 0),
    {
        self.nanos < 0
    }

    /// The whole seconds in the span, rounded towards zero.
    pub fn whole_seconds(&self) -> (seconds: i64)
        requires
            self.wf(),
        ensures
            seconds == whole_seconds_of(self@),
    {
        if self.nanos >= 0 {
            (self.nanos / NANOS_PER_SECOND) as i64
        } else {
            let magnitude: i128 = (-self.nanos) / NANOS_PER_SECOND;
            (-magnitude) as i64
        }
    }

    /// `self - rhs`, or `None` where the difference is out of range.
    pub fn checked_sub(&self, rhs: &TimeSpan) -> (r: Option<TimeSpan>)
        requires
            self.wf(),
            rhs.wf(),
        ensures
            span_in_range(self@ - rhs@) <==> r is Some,
            r matches Some(span) ==> span@ == self@ - rhs@ && span.wf(),
    {
        TimeSpan::from_nanos(self.nanos - rhs.nanos)
    }
}

/// A reading of the wall clock: an instant, and the time of day that a clock
/// at the configured offset from UTC shows at it.
#[derive(Debug, PartialEq, Eq, Clone, Copy, Structural)]
pub struct Moment {
    /// Whole seconds since the Unix epoch.
    pub unix_seconds: i64,
    /// Nanoseconds past the whole second.
    pub nanosecond: u32,
    /// Hour of the day on the local clock.
    pub hour: u8,
    /// Minute of the hour on the local clock.
    pub minute: u8,
    /// Second of the minute on the local clock.
    pub second: u8,
}

impl Moment {
    /// The clock fields are within their natural ranges and the instant
    /// within [`MAX_UNIX_SECONDS`] of the epoch.
    pub open spec fn wf(&self) -> bool {
        &&& -MAX_UNIX_SECONDS <= self.unix_seconds <= MAX_UNIX_SECONDS
        &&& self.nanosecond < NANOS_PER_SECOND
        &&& self.hour < 24
        &&& self.minute < 60
        &&& self.second < 60
    }

    /// Nanoseconds since the Unix epoch.
    pub open spec fn unix_nanos(&self) -> int {
        self.unix_seconds * NANOS_PER_SECOND + self.nanosecond
    }

    /// Whether the reading is well formed.
    pub fn is_valid(&self) -> (valid: bool)
        ensures
            valid == self.wf(),
    {
        -MAX_UNIX_SECONDS <= self.unix_seconds && self.unix_seconds <= MAX_UNIX_SECONDS
            && self.nanosecond < 1_000_000_000 && self.hour < 24 && self.minute < 60
            && self.second < 60
    }

    /// The reading with the given fields, or `None` where they do not make
    /// a well-formed one.
    pub fn new(unix_seconds: i64, nanosecond: u32, hour: u8, minute: u8, second: u8) -> (r: Option<
        Moment,
    >)
        ensures
            r == (if (Moment { unix_seconds, nanosecond, hour, minute, second }).wf() {
                Some(Moment { unix_seconds, nanosecond, hour, minute, second })
            } else {
                None
            }),
    {
        let moment = Moment { unix_seconds, nanosecond, hour, minute, second };
        if moment.is_valid() {
            Some(moment)
        } else {
            None
        }
    }

    /// The real time that passed from `earlier` to `self`; negative where the
    /// clock was set back in between.
    pub fn elapsed_since(&self, earlier: &Moment) -> (elapsed: TimeSpan)
        requires
            self.wf(),
            earlier.wf(),
        ensures
            elapsed@ == self.unix_nanos() - earlier.unix_nanos(),
            elapsed.wf(),
    {
        let seconds: i128 = (self.unix_seconds as i128) - (earlier.unix_seconds as i128);
        let nanoseconds: i128 = (self.nanosecond as i128) - (earlier.nanosecond as i128);
        TimeSpan { nanos: seconds * NANOS_PER_SECOND + nanoseconds }
    }

    /// Reads the fields of a date-time of the `time` crate. `None` where its
    /// instant is further than [`MAX_UNIX_SECONDS`] from the epoch.
    fn from_date_time(date_time: time::OffsetDateTime) -> (r: Option<Moment>)
        ensures
            r matches Some(moment) ==> moment.wf(),
    {
        Moment::new(
            date_time.unix_timestamp(),
            date_time.nanosecond(),
            date_time.hour(),
            date_time.minute(),
            date_time.second(),
        )
    }

    /// Reads the system clock and expresses the reading at `utc_offset_h`
    /// whole hours from UTC.
    ///
    /// `None` where the offset is beyond 25 hours on either side, or where
    /// the reading cannot be expressed at that offset.
    pub fn now(utc_offset_h: i8) -> (r: Option<Moment>)
        ensures
            r matches Some(moment) ==> moment.wf() && valid_utc_offset_hours(utc_offset_h),
    {
        match time::UtcOffset::from_hms(utc_offset_h, 0, 0) {
            Ok(offset) => match time::OffsetDateTime::now_utc().checked_to_offset(offset) {
                Some(local) => Moment::from_date_time(local),
                None => None,
            },
            Err(_) => None,
        }
    }
}

/// The hour counts that make an offset from UTC.
pub open spec fn valid_utc_offset_hours(hours: i8) -> bool {
    -25 <= hours <= 25
}

/// Whether `hours` whole hours make an offset from UTC.
pub fn is_valid_utc_offset(hours: i8) -> (valid: bool)
    ensures
        valid == valid_utc_offset_hours(hours),
{
    time::UtcOffset::from_hms(hours, 0, 0).is_ok()
}

/// `time::OffsetDateTime`, a date and time of day at an offset from UTC.
/// Nothing is known of what a value holds but what its methods return.
#[verifier::external_type_specification]
#[verifier::external_body]
pub struct ExOffsetDateTime(time::OffsetDateTime);

/// `time::UtcOffset`, an offset from UTC; carried from where it is made to
/// where it is applied.
#[verifier::external_type_specification]
#[verifier::external_body]
pub struct ExUtcOffset(time::UtcOffset);

/// `time::error::ComponentRange`, the error of a component out of range.
#[verifier::external_type_specification]
#[verifier::external_body]
pub struct ExComponentRange(time::error::ComponentRange);

/// `time::UtcOffset::from_hms` accepts hours from -25 to 25 and minutes and
/// seconds from -59 to 59, and refuses everything else.
pub assume_specification[ time::UtcOffset::from_hms ](hours: i8, minutes: i8, seconds: i8) -> (r:
    Result<time::UtcOffset, time::error::ComponentRange>)
    ensures
        r is Ok <==> (-25 <= hours <= 25 && -59 <= minutes <= 59 && -59 <= seconds <= 59),
;

/// `time::OffsetDateTime::now_utc` reads the system clock; nothing is known
/// of the reading beforehand. It does not return where the system clock is
/// set beyond the calendar of the `time` crate.
pub assume_specification[ time::OffsetDateTime::now_utc ]() -> (now: time::OffsetDateTime)
;

/// `time::OffsetDateTime::checked_to_offset` is `None` where the date-time
/// leaves the calendar's range at the new offset.
pub assume_specification[ time::OffsetDateTime::checked_to_offset ](
    date_time: time::OffsetDateTime,
    offset: time::UtcOffset,
) -> (r: Option<time::OffsetDateTime>)
;

/// `time::OffsetDateTime::unix_timestamp` gives the whole seconds since the
/// Unix epoch; nothing is claimed of their number.
pub assume_specification[ time::OffsetDateTime::unix_timestamp ](
    date_time: time::OffsetDateTime,
) -> (seconds: i64)
;

/// `time::OffsetDateTime::nanosecond` is always below 1,000,000,000.
pub assume_specification[ time::OffsetDateTime::nanosecond ](
    date_time: time::OffsetDateTime,
) -> (nanosecond: u32)
    ensures
        nanosecond < 1_000_000_000,
;

/// `time::OffsetDateTime::hour` is always below 24.
pub assume_specification[ time::OffsetDateTime::hour ](date_time: time::OffsetDateTime) -> (hour:
    u8)
    ensures
        hour < 24,
;

/// `time::OffsetDateTime::minute` is always below 60.
pub assume_specification[ time::OffsetDateTime::minute ](date_time: time::OffsetDateTime) -> (minute:
    u8)
    ensures
        minute < 60,
;

/// `time::OffsetDateTime::second` is always below 60.
pub assume_specification[ time::OffsetDateTime::second ](date_time: time::OffsetDateTime) -> (second:
    u8)
    ensures
        second < 60,
;

} // verus!
