//! The lines of text on the status screen.
//!
//! A line holds [`LINE_WIDTH`] characters. Text that is shorter is filled up
//! with spaces on the right; text that is longer does not make a line.

use vstd::prelude::*;
use crate::pomodoro::{Pause, Phase};

verus! {

/// Characters in a line of the status screen: 128 pixels of 9-pixel glyphs.
pub const LINE_WIDTH: usize = 14;

/// The character of the decimal digit `d`.
pub open spec fn digit_char(d: int) -> char {
    ('0' as int + d) as char
}

/// `n` in decimal, without leading zeros.
pub open spec fn decimal(n: nat) -> Seq<char>
    decreases n,
{
    if n < 10 {
        seq![digit_char(n as int)]
    } else {
        decimal(n / 10).push(digit_char((n % 10) as int))
    }
}

/// `count` times the character `c`; nothing where `count` is not positive.
pub open spec fn repeated(c: char, count: int) -> Seq<char> {
    Seq::new(if count > 0 { count as nat } else { 0 }, |i: int| c)
}

/// `text` with `fill` in front of it up to `width` characters.
pub open spec fn pad_left(text: Seq<char>, width: int, fill: char) -> Seq<char> {
    repeated(fill, width - text.len()) + text
}

/// `text` as a line: filled up with spaces on the right, or `None` where it
/// is longer than a line.
pub open spec fn fitted(text: Seq<char>) -> Option<Seq<char>> {
    if text.len() <= LINE_WIDTH {
        Some(text + repeated(' ', LINE_WIDTH - text.len()))
    } else {
        None
    }
}

/// The clock line before fitting: the hour in two places, then minute and
/// second with leading zeros, between two markers.
pub open spec fn clock_text(hour: u8, minute: u8, second: u8) -> Seq<char> {
    ">> "@ + pad_left(decimal(hour as nat), 2, ' ') + ":"@ + pad_left(decimal(minute as nat), 2, '0')
        + ":"@ + pad_left(decimal(second as nat), 2, '0') + " <<"@
}

/// The countdown line before fitting: whole minutes in three places, then
/// the seconds past them with a leading zero.
pub open spec fn remaining_text(whole_seconds: u64) -> Seq<char> {
    "Left: "@ + pad_left(decimal((whole_seconds / 60) as nat), 3, ' ') + ":"@ + pad_left(
        decimal((whole_seconds % 60) as nat),
        2,
        '0',
    )
}

/// The name of a phase.
pub open spec fn phase_name_text(phase: Phase) -> Seq<char> {
    match phase {
        Phase::Work => "Work"@,
        Phase::Break => "Break"@,
    }
}

/// The label of a pause state.
pub open spec fn pause_label_text(pause: Pause) -> Seq<char> {
    match pause {
        Pause::Paused => "Paused"@,
        Pause::Running => "Running"@,
    }
}

/// The phase line before fitting: the phase's name and the number of
/// finished work-and-break cycles, half the number of finished phases.
pub open spec fn phase_text(phase: Phase, cycles_counter: u64) -> Seq<char> {
    phase_name_text(phase) + " "@ + pad_left(decimal((cycles_counter / 2) as nat), 2, '0')
}

/// The one-character text of the decimal digit `d`.
fn digit_str(d: u64) -> (text: &'static str)
    requires
        d < 10,
    ensures
        text@ == seq![digit_char(d as int)],
{
    proof {
        reveal_strlit("0");
        reveal_strlit("1");
        reveal_strlit("2");
        reveal_strlit("3");
        reveal_strlit("4");
        reveal_strlit("5");
        reveal_strlit("6");
        reveal_strlit("7");
        reveal_strlit("8");
        reveal_strlit("9");
    }
    match d {
        0 => "0",
        1 => "1",
        2 => "2",
        3 => "3",
        4 => "4",
        5 => "5",
        6 => "6",
        7 => "7",
        8 => "8",
        _ => "9",
    }
}

/// Appends `n` in decimal.
fn push_decimal(out: &mut String, n: u64)
    ensures
        final(out)@ == old(out)@ + decimal(n as nat),
    decreases n,
{
    if n >= 10 {
        push_decimal(out, n / 10);
    }
    out.append(digit_str(n % 10));
}

/// The number of digits of `n` in decimal.
fn decimal_len(n: u64) -> (len: usize)
    ensures
        len == decimal(n as nat).len(),
        1 <= len <= 20,
    decreases n,
{
    if n < 10 {
        1
    } else {
        proof {
            lemma_decimal_len_bound(n as nat);
        }
        decimal_len(n / 10) + 1
    }
}

/// A number below 2^64 has at most 20 decimal digits.
proof fn lemma_decimal_len_bound(n: nat)
    requires
        n <= u64::MAX,
    ensures
        decimal(n).len() <= 20,
{
    reveal_with_fuel(decimal, 21);
}


/// Appends `count` times the one character of `fill`.
fn push_repeated(out: &mut String, fill: &str, count: usize)
    requires
        fill@.len() == 1,
    ensures
        final(out)@ == old(out)@ + repeated(fill@[0], count as int),
{
    let mut done: usize = 0;
    while done < count
        invariant
            done <= count,
            fill@.len() == 1,
            out@ == old(out)@ + repeated(fill@[0], done as int),
        decreases count - done,
    {
        out.append(fill);
        done += 1;
    }
}

/// Appends `n` in decimal, with the one character of `fill` in front of it
/// up to `width` characters.
fn push_padded(out: &mut String, n: u64, width: usize, fill: &str)
    requires
        fill@.len() == 1,
    ensures
        final(out)@ == old(out)@ + pad_left(decimal(n as nat), width as int, fill@[0]),
{
    let len: usize = decimal_len(n);
    if len < width {
        push_repeated(out, fill, width - len);
    }
    push_decimal(out, n);
}

/// Makes a line of `text`: fills it up with spaces, or refuses it where it
/// is too long.
pub fn fit(text: String) -> (line: Option<String>)
    ensures
        match line {
            Some(line) => fitted(text@) == Some(line@),
            None => fitted(text@) is None,
        },
{
    let len: usize = text.as_str().unicode_len();
    if len > LINE_WIDTH {
        return None;
    }
    let mut line = text;
    proof {
        reveal_strlit(" ");
    }
    push_repeated(&mut line, " ", LINE_WIDTH - len);
    Some(line)
}

/// The clock line: `>> HH:MM:SS <<`, the hour without a leading zero.
pub fn clock_line(hour: u8, minute: u8, second: u8) -> (line: Option<String>)
    ensures
        match line {
            Some(line) => fitted(clock_text(hour, minute, second)) == Some(line@),
            None => fitted(clock_text(hour, minute, second)) is None,
        },
{
    proof {
        reveal_strlit(" ");
        reveal_strlit("0");
    }
    let mut text = String::from_str(">> ");
    push_padded(&mut text, hour as u64, 2, " ");
    text.append(":");
    push_padded(&mut text, minute as u64, 2, "0");
    text.append(":");
    push_padded(&mut text, second as u64, 2, "0");
    text.append(" <<");
    fit(text)
}

/// The countdown line: `Left: MMM:SS`, for a countdown of `whole_seconds`.
pub fn remaining_line(whole_seconds: u64) -> (line: Option<String>)
    ensures
        match line {
            Some(line) => fitted(remaining_text(whole_seconds)) == Some(line@),
            None => fitted(remaining_text(whole_seconds)) is None,
        },
{
    proof {
        reveal_strlit(" ");
        reveal_strlit("0");
    }
    let mut text = String::from_str("Left: ");
    push_padded(&mut text, whole_seconds / 60, 3, " ");
    text.append(":");
    push_padded(&mut text, whole_seconds % 60, 2, "0");
    fit(text)
}

/// The name of a phase.
pub fn phase_name(phase: Phase) -> (name: &'static str)
    ensures
        name@ == phase_name_text(phase),
{
    match phase {
        Phase::Work => "Work",
        Phase::Break => "Break",
    }
}

/// The label of a pause state.
pub fn pause_label(pause: Pause) -> (label: &'static str)
    ensures
        label@ == pause_label_text(pause),
{
    match pause {
        Pause::Paused => "Paused",
        Pause::Running => "Running",
    }
}

/// The phase line: the phase's name and the number of finished cycles.
pub fn phase_line(phase: Phase, cycles_counter: u64) -> (line: Option<String>)
    ensures
        match line {
            Some(line) => fitted(phase_text(phase, cycles_counter)) == Some(line@),
            None => fitted(phase_text(phase, cycles_counter)) is None,
        },
{
    proof {
        reveal_strlit("0");
    }
    let mut text = String::from_str(phase_name(phase));
    text.append(" ");
    push_padded(&mut text, cycles_counter / 2, 2, "0");
    fit(text)
}

/// The number of decimal digits of a number, up to five of them.
pub proof fn lemma_decimal_len(n: nat)
    ensures
        n < 10 ==> decimal(n).len() == 1,
        10 <= n < 100 ==> decimal(n).len() == 2,
        100 <= n < 1_000 ==> decimal(n).len() == 3,
        1_000 <= n < 10_000 ==> decimal(n).len() == 4,
        10_000 <= n < 100_000 ==> decimal(n).len() == 5,
        100_000 <= n ==> decimal(n).len() >= 6,
{
    reveal_with_fuel(decimal, 7);
}

/// The clock line of a time of day is a full line with nothing to fill up.
pub proof fn lemma_clock_text_fits(hour: u8, minute: u8, second: u8)
    requires
        hour < 24,
        minute < 60,
        second < 60,
    ensures
        clock_text(hour, minute, second).len() == LINE_WIDTH,
        fitted(clock_text(hour, minute, second)) == Some(clock_text(hour, minute, second)),
{
    reveal_strlit(">> ");
    reveal_strlit(":");
    reveal_strlit(" <<");
    lemma_decimal_len(hour as nat);
    lemma_decimal_len(minute as nat);
    lemma_decimal_len(second as nat);
}

/// The countdown fits in a line as long as its whole minutes have at most
/// five digits.
pub proof fn lemma_remaining_text_fits(whole_seconds: u64)
    ensures
        fitted(remaining_text(whole_seconds)) is Some <==> whole_seconds / 60 < 100_000,
{
    reveal_strlit("Left: ");
    reveal_strlit(":");
    lemma_decimal_len((whole_seconds / 60) as nat);
    lemma_decimal_len((whole_seconds % 60) as nat);
}

/// The count of finished cycles from which the phase line is too long:
/// after the phase's name and a space, a line has room for nine digits
/// in the work phase and for eight in the break phase.
pub open spec fn most_cycles_shown(phase: Phase) -> int {
    match phase {
        Phase::Work => 1_000_000_000,
        Phase::Break => 100_000_000,
    }
}

/// A number has at most eight digits below 10^8, and at most nine below 10^9.
pub proof fn lemma_decimal_len_long(n: nat)
    ensures
        decimal(n).len() >= 1,
        decimal(n).len() <= 8 <==> n < 100_000_000,
        decimal(n).len() <= 9 <==> n < 1_000_000_000,
{
    reveal_with_fuel(decimal, 11);
}

/// The phase line fits as long as the count of finished cycles has room
/// after the phase's name.
pub proof fn lemma_phase_text_fits(phase: Phase, cycles_counter: u64)
    ensures
        fitted(phase_text(phase, cycles_counter)) is Some <==> cycles_counter / 2
            < most_cycles_shown(phase),
{
    reveal_strlit("Work");
    reveal_strlit("Break");
    reveal_strlit(" ");
    lemma_decimal_len_long((cycles_counter / 2) as nat);
}

} // verus!
