use esp_pomodoro::clock::{is_valid_utc_offset, Moment, TimeSpan, MAX_SPAN_NANOS, MIN_SPAN_NANOS};

fn moment(unix_seconds: i64, nanosecond: u32) -> Moment {
    Moment { unix_seconds, nanosecond, hour: 0, minute: 0, second: 0 }
}

#[test]
fn span_constructors_count_nanoseconds() {
    assert_eq!(TimeSpan::seconds(0).as_nanos(), 0);
    assert_eq!(TimeSpan::seconds(3).as_nanos(), 3_000_000_000);
    assert_eq!(TimeSpan::seconds(-3).as_nanos(), -3_000_000_000);
    assert_eq!(TimeSpan::seconds(i64::MAX).as_nanos(), i64::MAX as i128 * 1_000_000_000);
    assert_eq!(TimeSpan::minutes(25).unwrap().as_nanos(), 1_500_000_000_000);
    assert_eq!(TimeSpan::minutes(-1).unwrap().as_nanos(), -60_000_000_000);
    assert_eq!(TimeSpan::from_nanos(17).unwrap().as_nanos(), 17);
}

#[test]
fn span_constructors_agree_with_the_time_crate() {
    for minutes in [0i64, 1, 25, -7, 1_000_000] {
        assert_eq!(
            TimeSpan::minutes(minutes).unwrap().as_nanos(),
            time::Duration::minutes(minutes).whole_nanoseconds()
        );
    }
    assert_eq!(MAX_SPAN_NANOS, time::Duration::MAX.whole_nanoseconds());
    assert_eq!(MIN_SPAN_NANOS, time::Duration::MIN.whole_nanoseconds());
}

#[test]
fn span_limits() {
    assert!(TimeSpan::from_nanos(MAX_SPAN_NANOS).is_some());
    assert!(TimeSpan::from_nanos(MAX_SPAN_NANOS + 1).is_none());
    assert!(TimeSpan::from_nanos(MIN_SPAN_NANOS).is_some());
    assert!(TimeSpan::from_nanos(MIN_SPAN_NANOS - 1).is_none());
    assert!(TimeSpan::minutes(i64::MAX / 60).is_some());
    assert!(TimeSpan::minutes(i64::MAX / 60 + 1).is_none());
    assert!(TimeSpan::minutes(i64::MIN / 60).is_some());
    assert!(TimeSpan::minutes(i64::MIN / 60 - 1).is_none());
}

#[test]
fn span_sign_and_parts() {
    let span = TimeSpan::from_nanos(1_500_000_000).unwrap();
    assert!(!span.is_negative());
    assert_eq!(span.whole_seconds(), 1);

    let span = TimeSpan::from_nanos(-1_500_000_000).unwrap();
    assert!(span.is_negative());
    assert_eq!(span.whole_seconds(), -1);

    let span = TimeSpan::from_nanos(-1).unwrap();
    assert!(span.is_negative());
    assert_eq!(span.whole_seconds(), 0);

    assert!(!TimeSpan::seconds(0).is_negative());
    assert_eq!(TimeSpan::seconds(0).whole_seconds(), 0);

    let span = TimeSpan::from_nanos(MAX_SPAN_NANOS).unwrap();
    assert_eq!(span.whole_seconds(), i64::MAX);
    let span = TimeSpan::from_nanos(MIN_SPAN_NANOS).unwrap();
    assert_eq!(span.whole_seconds(), i64::MIN);
}

#[test]
fn span_parts_agree_with_the_time_crate() {
    for nanos in [0i128, 1, -1, 999_999_999, -999_999_999, 1_000_000_000, 61_250_000_000, -61_250_000_000] {
        let ours = TimeSpan::from_nanos(nanos).unwrap();
        let theirs = time::Duration::nanoseconds_i128(nanos);
        assert_eq!(ours.whole_seconds(), theirs.whole_seconds());
        assert_eq!(ours.is_negative(), theirs.is_negative());
    }
}

#[test]
fn span_subtraction() {
    let a = TimeSpan::seconds(5);
    let b = TimeSpan::seconds(10);
    assert_eq!(a.checked_sub(&b).unwrap().as_nanos(), -5_000_000_000);
    assert_eq!(b.checked_sub(&a).unwrap().as_nanos(), 5_000_000_000);
    assert_eq!(a.checked_sub(&a).unwrap(), TimeSpan::seconds(0));
    let max = TimeSpan::from_nanos(MAX_SPAN_NANOS).unwrap();
    let min = TimeSpan::from_nanos(MIN_SPAN_NANOS).unwrap();
    let one = TimeSpan::from_nanos(1).unwrap();
    assert!(min.checked_sub(&one).is_none());
    assert!(max.checked_sub(&min).is_none());
    assert_eq!(max.checked_sub(&one).unwrap().as_nanos(), MAX_SPAN_NANOS - 1);
}

#[test]
fn elapsed_time_between_moments() {
    let a = moment(1_000, 250_000_000);
    let b = moment(1_002, 0);
    assert_eq!(b.elapsed_since(&a).as_nanos(), 1_750_000_000);
    assert_eq!(a.elapsed_since(&b).as_nanos(), -1_750_000_000);
    assert_eq!(a.elapsed_since(&a).as_nanos(), 0);
    let far = 0x3fff_ffff_ffff_ffff_i64;
    assert_eq!(
        moment(far, 999_999_999).elapsed_since(&moment(-far, 0)).as_nanos(),
        2 * far as i128 * 1_000_000_000 + 999_999_999
    );
}

#[test]
fn elapsed_time_agrees_with_the_time_crate() {
    let a = time::OffsetDateTime::from_unix_timestamp_nanos(1_700_000_000_123_456_789).unwrap();
    let b = time::OffsetDateTime::from_unix_timestamp_nanos(1_700_000_360_000_000_001).unwrap();
    let ours = moment(b.unix_timestamp(), b.nanosecond())
        .elapsed_since(&moment(a.unix_timestamp(), a.nanosecond()));
    assert_eq!(ours.as_nanos(), (b - a).whole_nanoseconds());
}

#[test]
fn moment_validity() {
    assert!(moment(0, 0).is_valid());
    assert!(Moment { unix_seconds: 5, nanosecond: 999_999_999, hour: 23, minute: 59, second: 59 }
        .is_valid());
    assert!(!moment(0, 1_000_000_000).is_valid());
    assert!(!Moment { unix_seconds: 0, nanosecond: 0, hour: 24, minute: 0, second: 0 }.is_valid());
    assert!(!Moment { unix_seconds: 0, nanosecond: 0, hour: 0, minute: 60, second: 0 }.is_valid());
    assert!(!Moment { unix_seconds: 0, nanosecond: 0, hour: 0, minute: 0, second: 60 }.is_valid());
    assert!(moment(0x3fff_ffff_ffff_ffff, 0).is_valid());
    assert!(!moment(0x4000_0000_0000_0000, 0).is_valid());
    assert!(moment(-0x3fff_ffff_ffff_ffff, 0).is_valid());
    assert!(!moment(-0x4000_0000_0000_0000, 0).is_valid());
}

#[test]
fn moment_is_made_of_valid_fields_only() {
    assert_eq!(
        Moment::new(5, 6, 7, 8, 9),
        Some(Moment { unix_seconds: 5, nanosecond: 6, hour: 7, minute: 8, second: 9 })
    );
    assert_eq!(Moment::new(0, 1_000_000_000, 0, 0, 0), None);
    assert_eq!(Moment::new(0, 0, 24, 0, 0), None);
    assert_eq!(Moment::new(0, 0, 0, 60, 0), None);
    assert_eq!(Moment::new(0, 0, 0, 0, 60), None);
    assert_eq!(Moment::new(i64::MAX, 0, 0, 0, 0), None);
    assert_eq!(Moment::new(i64::MIN, 0, 0, 0, 0), None);
}

#[test]
fn utc_offsets_up_to_twenty_five_hours() {
    for hours in i8::MIN..=i8::MAX {
        assert_eq!(is_valid_utc_offset(hours), (-25..=25).contains(&hours));
    }
}

#[test]
fn now_is_refused_at_an_offset_that_is_none() {
    assert!(Moment::now(26).is_none());
    assert!(Moment::now(-26).is_none());
    assert!(Moment::now(i8::MAX).is_none());
}

#[test]
fn now_reads_the_clock_at_the_offset() {
    for hours in [-25i8, -5, 0, 1, 25] {
        let before = time::OffsetDateTime::now_utc();
        let reading = Moment::now(hours).unwrap();
        let after = time::OffsetDateTime::now_utc();
        assert!(reading.is_valid());
        assert!(before.unix_timestamp() <= reading.unix_seconds);
        assert!(reading.unix_seconds <= after.unix_timestamp());
        let local = reading.unix_seconds + hours as i64 * 3_600;
        assert_eq!(reading.second as i64, local.rem_euclid(60));
        assert_eq!(reading.minute as i64, local.rem_euclid(3_600) / 60);
        assert_eq!(reading.hour as i64, local.rem_euclid(86_400) / 3_600);
    }
}
