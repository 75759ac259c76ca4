//! Timestamps of the sensor-time store.
//!
//! The store keeps the time of the last accepted sensor report as a local
//! civil timestamp in the fixed form `YYYY-MM-DD HH:MM:SS`.  This module
//! parses that form, converts a civil timestamp to milliseconds since the
//! epoch, and computes the elapsed duration the accrual engine is fed,
//! correcting the stored local time back to universal time with a
//! configurable zone offset.

use vstd::prelude::*;

use crate::errors::ApiError;
use crate::parse::all_dec_digits;
use crate::parse::dec_value;
use crate::parse::is_dec_digit;

verus! {

/// A civil date and time of day, as the store writes it.
#[derive(Clone, Copy, Debug, PartialEq, Eq, Structural)]
pub struct Timestamp {
    pub year: i64,
    pub month: i64,
    pub day: i64,
    pub hour: i64,
    pub minute: i64,
    pub second: i64,
}

/// Gregorian leap year.
pub open spec fn is_leap_year(y: int) -> bool {
    (y % 4 == 0 && y % 100 != 0) || y % 400 == 0
}

/// Days in a month of a year.
pub open spec fn days_in_month(y: int, m: int) -> int {
    if m == 2 {
        if is_leap_year(y) {
            29
        } else {
            28
        }
    } else if m == 4 || m == 6 || m == 9 || m == 11 {
        30
    } else {
        31
    }
}

/// Days in a year.
pub open spec fn days_in_year(y: int) -> int {
    if is_leap_year(y) {
        366
    } else {
        365
    }
}

/// Days from the epoch date to the first day of a year.
pub open spec fn days_before_year(y: int) -> int
    decreases y - 1970,
{
    if y <= 1970 {
        0
    } else {
        days_before_year(y - 1) + days_in_year(y - 1)
    }
}

/// Days from the first day of a year to the first day of a month.
pub open spec fn days_before_month(y: int, m: int) -> int
    decreases m,
{
    if m <= 1 {
        0
    } else {
        days_before_month(y, m - 1) + days_in_month(y, m - 1)
    }
}

impl Timestamp {
    /// A civil timestamp the store can hold: a calendar date from the
    /// epoch year on, with an in-range time of day.
    pub open spec fn wf(&self) -> bool {
        &&& 1970 <= self.year as int <= 9999
        &&& 1 <= self.month as int <= 12
        &&& 1 <= self.day as int <= days_in_month(self.year as int, self.month as int)
        &&& 0 <= self.hour as int <= 23
        &&& 0 <= self.minute as int <= 59
        &&& 0 <= self.second as int <= 59
    }

    /// Days from the epoch date to this timestamp's date.
    pub open spec fn epoch_days(&self) -> int {
        days_before_year(self.year as int) + days_before_month(
            self.year as int,
            self.month as int,
        ) + (self.day as int - 1)
    }

    /// Milliseconds from the epoch to this timestamp, read as universal
    /// time.
    pub open spec fn epoch_ms(&self) -> int {
        ((self.epoch_days() * 24 + self.hour as int) * 60 + self.minute as int) * 60 * 1000
            + self.second as int * 1000
    }
}

/// Leap-year test.
fn is_leap(y: i64) -> (b: bool)
    requires
        y >= 0,
    ensures
        b == is_leap_year(y as int),
{
    (y % 4 == 0 && y % 100 != 0) || y % 400 == 0
}

/// Days in a month, on machine integers.
fn month_days(y: i64, m: i64) -> (d: i64)
    requires
        y >= 0,
    ensures
        d as int == days_in_month(y as int, m as int),
{
    if m == 2 {
        if is_leap(y) {
            29
        } else {
            28
        }
    } else if m == 4 || m == 6 || m == 9 || m == 11 {
        30
    } else {
        31
    }
}

impl Timestamp {
    /// Milliseconds from the epoch to this timestamp, read as universal
    /// time.
    pub fn to_epoch_ms(&self) -> (r: i64)
        requires
            self.wf(),
        ensures
            r as int == self.epoch_ms(),
            0 <= r <= 300_000_000_000_000,
    {
        let mut days: i64 = 0;
        let mut y: i64 = 1970;
        while y < self.year
            invariant
                1970 <= y <= self.year <= 9999,
                days as int == days_before_year(y as int),
                0 <= days <= 366 * (y - 1970),
            decreases self.year - y,
        {
            days = days + if is_leap(y) {
                366
            } else {
                365
            };
            y = y + 1;
        }
        let mut m: i64 = 1;
        let mut month_acc: i64 = 0;
        while m < self.month
            invariant
                1 <= m <= self.month <= 12,
                self.wf(),
                y == self.year,
                month_acc as int == days_before_month(self.year as int, m as int),
                0 <= month_acc <= 31 * (m - 1),
            decreases self.month - m,
        {
            month_acc = month_acc + month_days(y, m);
            m = m + 1;
        }
        let total_days: i64 = days + month_acc + (self.day - 1);
        assert(0 <= total_days <= 2_938_614 + 341 + 30);
        let minutes: i64 = (total_days * 24 + self.hour) * 60 + self.minute;
        minutes * 60 * 1000 + self.second * 1000
    }
}

/// Year field of the stored form.
pub open spec fn text_year(s: Seq<char>) -> int {
    dec_value(s.subrange(0, 4))
}

/// Month field of the stored form.
pub open spec fn text_month(s: Seq<char>) -> int {
    dec_value(s.subrange(5, 7))
}

/// Day field of the stored form.
pub open spec fn text_day(s: Seq<char>) -> int {
    dec_value(s.subrange(8, 10))
}

/// Hour field of the stored form.
pub open spec fn text_hour(s: Seq<char>) -> int {
    dec_value(s.subrange(11, 13))
}

/// Minute field of the stored form.
pub open spec fn text_minute(s: Seq<char>) -> int {
    dec_value(s.subrange(14, 16))
}

/// Second field of the stored form.
pub open spec fn text_second(s: Seq<char>) -> int {
    dec_value(s.subrange(17, 19))
}

/// The fixed shape `YYYY-MM-DD HH:MM:SS`: nineteen characters, digits in
/// the six fields, the three separators in place.
pub open spec fn timestamp_text_shape(s: Seq<char>) -> bool {
    &&& s.len() == 19
    &&& all_dec_digits(s.subrange(0, 4))
    &&& s[4] == '-'
    &&& all_dec_digits(s.subrange(5, 7))
    &&& s[7] == '-'
    &&& all_dec_digits(s.subrange(8, 10))
    &&& s[10] == ' '
    &&& all_dec_digits(s.subrange(11, 13))
    &&& s[13] == ':'
    &&& all_dec_digits(s.subrange(14, 16))
    &&& s[16] == ':'
    &&& all_dec_digits(s.subrange(17, 19))
}

/// A stored timestamp the parser accepts: the fixed shape with every
/// field in calendar range, from the epoch year on.
pub open spec fn timestamp_text_valid(s: Seq<char>) -> bool {
    &&& timestamp_text_shape(s)
    &&& 1970 <= text_year(s)
    &&& 1 <= text_month(s) <= 12
    &&& 1 <= text_day(s) <= days_in_month(text_year(s), text_month(s))
    &&& text_hour(s) <= 23
    &&& text_minute(s) <= 59
    &&& text_second(s) <= 59
}

/// Reads the two-digit run at `at`.
fn two_digits(s: &str, at: usize) -> (v: i64)
    requires
        at + 2 <= s@.len(),
        at <= 100,
        all_dec_digits(s@.subrange(at as int, at as int + 2)),
    ensures
        v as int == dec_value(s@.subrange(at as int, at as int + 2)),
        0 <= v <= 99,
{
    let ghost sub = s@.subrange(at as int, at as int + 2);
    let c0 = s.get_char(at);
    let c1 = s.get_char(at + 1);
    proof {
        reveal_with_fuel(dec_value, 3);
        assert(sub.drop_last() =~= s@.subrange(at as int, at as int + 1));
        assert(s@.subrange(at as int, at as int + 1).drop_last() =~= Seq::<char>::empty());
        assert(sub[0] == s@[at as int] && sub[1] == s@[at as int + 1]);
        assert(is_dec_digit(s@[at as int]) && is_dec_digit(s@[at as int + 1]));
    }
    let d0: i64 = (c0 as u32 - 48) as i64;
    let d1: i64 = (c1 as u32 - 48) as i64;
    d0 * 10 + d1
}

/// Reads the four-digit run at the start.
fn four_digits(s: &str) -> (v: i64)
    requires
        4 <= s@.len(),
        all_dec_digits(s@.subrange(0, 4)),
    ensures
        v as int == dec_value(s@.subrange(0, 4)),
        0 <= v <= 9999,
{
    let ghost sub = s@.subrange(0, 4);
    let c0 = s.get_char(0);
    let c1 = s.get_char(1);
    let c2 = s.get_char(2);
    let c3 = s.get_char(3);
    proof {
        reveal_with_fuel(dec_value, 5);
        assert(sub.drop_last() =~= s@.subrange(0, 3));
        assert(s@.subrange(0, 3).drop_last() =~= s@.subrange(0, 2));
        assert(s@.subrange(0, 2).drop_last() =~= s@.subrange(0, 1));
        assert(s@.subrange(0, 1).drop_last() =~= Seq::<char>::empty());
        assert(forall|k: int| 0 <= k < 4 ==> s@.subrange(0, 4)[k] == s@[k]);
        assert(is_dec_digit(s@[0]) && is_dec_digit(s@[1]) && is_dec_digit(s@[2]) && is_dec_digit(
            s@[3],
        ));
    }
    let d0: i64 = (c0 as u32 - 48) as i64;
    let d1: i64 = (c1 as u32 - 48) as i64;
    let d2: i64 = (c2 as u32 - 48) as i64;
    let d3: i64 = (c3 as u32 - 48) as i64;
    ((d0 * 10 + d1) * 10 + d2) * 10 + d3
}

/// Checks that the characters at `at` and `at + 1` are digits.
fn check_two_digits(s: &str, at: usize) -> (ok: bool)
    requires
        at + 2 <= s@.len(),
        at <= 100,
    ensures
        ok == all_dec_digits(s@.subrange(at as int, at as int + 2)),
{
    let c0 = s.get_char(at) as u32;
    let c1 = s.get_char(at + 1) as u32;
    let ok = c0 >= 48 && c0 <= 57 && c1 >= 48 && c1 <= 57;
    proof {
        let sub = s@.subrange(at as int, at as int + 2);
        assert(sub[0] == s@[at as int] && sub[1] == s@[at as int + 1]);
        if ok {
            assert forall|k: int| 0 <= k < sub.len() implies is_dec_digit(sub[k]) by {}
        }
    }
    ok
}

/// Parses a stored `YYYY-MM-DD HH:MM:SS` timestamp.  Exactly the valid
/// texts are accepted; anything else is rejected as malformed.
pub fn parse_str_time(s: &str) -> (r: Result<Timestamp, ApiError>)
    ensures
        match r {
            Ok(t) => {
                &&& timestamp_text_valid(s@)
                &&& t.wf()
                &&& t.year as int == text_year(s@)
                &&& t.month as int == text_month(s@)
                &&& t.day as int == text_day(s@)
                &&& t.hour as int == text_hour(s@)
                &&& t.minute as int == text_minute(s@)
                &&& t.second as int == text_second(s@)
            },
            Err(e) => !timestamp_text_valid(s@) && e == ApiError::InvalidInput,
        },
{
    if s.unicode_len() != 19 {
        return Err(ApiError::InvalidInput);
    }
    if !(check_two_digits(s, 0) && check_two_digits(s, 2)) {
        proof {
            if all_dec_digits(s@.subrange(0, 4)) {
                assert forall|k: int| 0 <= k < 2 implies is_dec_digit(
                    s@.subrange(0, 2)[k],
                ) by {
                    assert(s@.subrange(0, 2)[k] == s@.subrange(0, 4)[k]);
                }
                assert forall|k: int| 0 <= k < 2 implies is_dec_digit(
                    s@.subrange(2, 4)[k],
                ) by {
                    assert(s@.subrange(2, 4)[k] == s@.subrange(0, 4)[k + 2]);
                }
            }
        }
        return Err(ApiError::InvalidInput);
    }
    proof {
        assert forall|k: int| 0 <= k < 4 implies is_dec_digit(s@.subrange(0, 4)[k]) by {
            if k < 2 {
                assert(s@.subrange(0, 2)[k] == s@.subrange(0, 4)[k]);
            } else {
                assert(s@.subrange(2, 4)[k - 2] == s@.subrange(0, 4)[k]);
            }
        }
    }
    if !(s.get_char(4) == '-' && s.get_char(7) == '-' && s.get_char(10) == ' ' && s.get_char(13)
        == ':' && s.get_char(16) == ':') {
        return Err(ApiError::InvalidInput);
    }
    if !(check_two_digits(s, 5) && check_two_digits(s, 8) && check_two_digits(s, 11)
        && check_two_digits(s, 14) && check_two_digits(s, 17)) {
        return Err(ApiError::InvalidInput);
    }
    let year = four_digits(s);
    let month = two_digits(s, 5);
    let day = two_digits(s, 8);
    let hour = two_digits(s, 11);
    let minute = two_digits(s, 14);
    let second = two_digits(s, 17);
    if year < 1970 {
        return Err(ApiError::InvalidInput);
    }
    if month < 1 || month > 12 {
        return Err(ApiError::InvalidInput);
    }
    if day < 1 || day > month_days(year, month) {
        return Err(ApiError::InvalidInput);
    }
    if hour > 23 || minute > 59 || second > 59 {
        return Err(ApiError::InvalidInput);
    }
    Ok(Timestamp { year, month, day, hour, minute, second })
}

/// Milliseconds elapsed from the stored local timestamp of the previous
/// report to now: the stored civil time is shifted back to universal time
/// by the zone offset, then subtracted from the current universal time.
pub fn elapsed_ms(now_ms: i64, latest: &Timestamp, tz_offset_ms: i64) -> (r: i64)
    requires
        latest.wf(),
        -10_000_000_000_000_000 <= now_ms <= 10_000_000_000_000_000,
        -86_400_000 <= tz_offset_ms <= 86_400_000,
    ensures
        r as int == now_ms - (latest.epoch_ms() - tz_offset_ms),
{
    let latest_ms = latest.to_epoch_ms();
    now_ms - (latest_ms - tz_offset_ms)
}

} // verus!
