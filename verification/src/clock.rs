//! The wall-clock display state: hour, minute and second of local time,
//! held as plain numbers so the rest of the core can reason about them.
//!
//! Only reading the current local time is delegated to an outside crate;
//! everything done with the reading, including formatting it for display,
//! is verified here.

use vstd::prelude::*;

use chrono::Timelike;

verus! {

/// Relies on chrono::Local::now and chrono::Timelike (hour, minute, second):
/// the wall-clock reading depends on the moment of the call, so nothing is
/// promised beyond the calendar ranges chrono documents, hour 0 to 23 and
/// minute and second 0 to 59.
#[verifier::external_body]
fn local_time_hms() -> (r: (u8, u8, u8))
    ensures
        r.0 < 24,
        r.1 < 60,
        r.2 < 60,
{
    let now = chrono::Local::now();
    (now.hour() as u8, now.minute() as u8, now.second() as u8)
}

/// One reading of the local wall clock, to second precision.
#[derive(Clone, Copy, Debug, PartialEq, Eq, Structural)]
pub struct Clock {
    pub hour: u8,
    pub minute: u8,
    pub second: u8,
}

/// The character for one decimal digit.
pub open spec fn spec_digit_char(d: int) -> char {
    if d == 0 {
        '0'
    } else if d == 1 {
        '1'
    } else if d == 2 {
        '2'
    } else if d == 3 {
        '3'
    } else if d == 4 {
        '4'
    } else if d == 5 {
        '5'
    } else if d == 6 {
        '6'
    } else if d == 7 {
        '7'
    } else if d == 8 {
        '8'
    } else {
        '9'
    }
}

/// A number below 100 written with two digits, zero-padded.
pub open spec fn spec_two_digits(n: int) -> Seq<char> {
    seq![spec_digit_char(n / 10), spec_digit_char(n % 10)]
}

impl Clock {
    /// Every field lies in its calendar range.
    pub open spec fn wf(self) -> bool {
        self.hour < 24 && self.minute < 60 && self.second < 60
    }

    /// The display form of a reading: space-padded hour, then zero-padded
    /// minute and second, separated by colons.
    pub open spec fn spec_display(self) -> Seq<char> {
        (if self.hour < 10 {
            seq![' ', spec_digit_char(self.hour as int)]
        } else {
            spec_two_digits(self.hour as int)
        }) + seq![':'] + spec_two_digits(self.minute as int) + seq![':'] + spec_two_digits(
            self.second as int,
        )
    }

    /// A reading of the local wall clock taken now.
    pub fn new() -> (r: Clock)
        ensures
            r.wf(),
    {
        let (hour, minute, second) = local_time_hms();
        Clock { hour, minute, second }
    }

    /// Replaces the reading with the local wall clock's current value.
    pub fn update(&mut self)
        ensures
            final(self).wf(),
    {
        let (hour, minute, second) = local_time_hms();
        self.hour = hour;
        self.minute = minute;
        self.second = second;
    }

    /// The reading formatted for display, such as ` 9:05:07` or `13:45:00`.
    pub fn display_string(&self) -> (r: String)
        requires
            self.wf(),
        ensures
            r@ == self.spec_display(),
    {
        let mut s = String::new();
        if self.hour < 10 {
            s.append(" ");
            proof {
                reveal_strlit(" ");
                assert(s@ =~= seq![' ']);
            }
            let d = digit_str(self.hour);
            s.append(d);
        } else {
            let d = digit_str(self.hour / 10);
            s.append(d);
            let d2 = digit_str(self.hour % 10);
            s.append(d2);
        }
        s.append(":");
        let d = digit_str(self.minute / 10);
        s.append(d);
        let d2 = digit_str(self.minute % 10);
        s.append(d2);
        s.append(":");
        let d3 = digit_str(self.second / 10);
        s.append(d3);
        let d4 = digit_str(self.second % 10);
        s.append(d4);
        proof {
            reveal_strlit(":");
            assert(s@ =~= self.spec_display());
        }
        s
    }
}

/// The one-character string for a decimal digit.
fn digit_str(d: u8) -> (r: &'static str)
    requires
        d < 10,
    ensures
        r@ =~= seq![spec_digit_char(d as int)],
{
    let r: &'static str = match d {
        0 => "0",
        1 => "1",
        2 => "2",
        3 => "3",
        4 => "4",
        5 => "5",
        6 => "6",
        7 => "7",
        8 => "8",
        _ => "9",
    };
    proof {
        reveal_strlit("0");
        reveal_strlit("1");
        reveal_strlit("2");
        reveal_strlit("3");
        reveal_strlit("4");
        reveal_strlit("5");
        reveal_strlit("6");
        reveal_strlit("7");
        reveal_strlit("8");
        reveal_strlit("9");
    }
    r
}

} // verus!
