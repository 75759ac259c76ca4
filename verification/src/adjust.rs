//! Attendance/leftover point adjustment.
//!
//! A change to the `attend` or `leftovers` count of a day is translated
//! into a signed point delta and folded into the stored point total,
//! clamped at zero.  The day's contribution is
//! `f(attend, leftovers) = round((1030 * attend / 30 - leftovers) * 2.501 / 10)`
//! over exact rationals while both counts are present, and `0` while either
//! is still absent.  The delta of a write is `f(after) - f(before)`, taken
//! from the row snapshots around the write, never from stored deltas.

use vstd::prelude::*;

use crate::day_status::bounded_count;
use crate::day_status::opt_int;
use crate::day_status::opt_row_view;
use crate::day_status::row_in_range;
use crate::day_status::upsert_attend;
use crate::day_status::upsert_attend_view;
use crate::day_status::upsert_leftovers;
use crate::day_status::upsert_leftovers_view;
use crate::day_status::DayStatus;
use crate::day_status::DayStatusView;

verus! {

/// Largest magnitude the formula can reach over counts bounded by
/// [`crate::day_status::MAX_COUNT`].
pub const FORMULA_MAX: i64 = 10_000_000_000;

/// Nearest integer to `num / den` for `den > 0`, ties rounded away from
/// zero.
pub open spec fn round_nearest(num: int, den: int) -> int {
    if num >= 0 {
        (2 * num + den) / (2 * den)
    } else {
        -((2 * (-num) + den) / (2 * den))
    }
}

/// The day's point contribution from its two registered counts:
/// `round((1030 * attend / 30 - leftovers) * 2.501 / 10)` as an exact
/// rational, written over the common denominator `300000`, or `0` while
/// either count is absent (the day's data is still incomplete).
pub open spec fn formula_point(attend: Option<int>, leftovers: Option<int>) -> int {
    match (attend, leftovers) {
        (Some(a), Some(l)) => round_nearest((1030 * a - 30 * l) * 2501, 300_000),
        _ => 0,
    }
}

/// Contribution of a row that may not exist yet: a missing row counts as
/// both fields absent, hence `0`.
pub open spec fn formula_of_row(row: Option<DayStatusView>) -> int {
    match row {
        Some(r) => formula_point(r.attend, r.leftovers),
        None => 0,
    }
}

/// Clamp of a point total at the zero floor.
pub open spec fn clamp_floor(p: int) -> int {
    if p < 0 {
        0
    } else {
        p
    }
}

/// Evaluates the day's point formula on machine integers.
pub fn eval_formula_point(attend: Option<i64>, leftovers: Option<i64>) -> (r: i64)
    requires
        bounded_count(opt_int(attend)),
        bounded_count(opt_int(leftovers)),
    ensures
        r as int == formula_point(opt_int(attend), opt_int(leftovers)),
        -FORMULA_MAX <= r <= FORMULA_MAX,
{
    match (attend, leftovers) {
        (Some(a), Some(l)) => {
            let num: i128 = (1030 * (a as i128) - 30 * (l as i128)) * 2501;
            let mag: u128 = if num >= 0 {
                num as u128
            } else {
                (-num) as u128
            };
            assert(mag <= 2_651_060_000_000_000u128);
            let q128: u128 = (2 * mag + 300_000) / 600_000;
            assert(q128 <= 10_000_000_000u128) by {
                assert(2 * mag + 300_000 <= 5_302_120_300_000_000u128);
                assert((5_302_120_300_000_000u128 as int) / 600_000 <= 10_000_000_000);
            };
            let q: i64 = q128 as i64;
            if num >= 0 {
                q
            } else {
                -q
            }
        },
        _ => 0,
    }
}

/// Signed point delta between two row snapshots taken around a write:
/// the formula value after minus the formula value before.
pub fn calc_leftovers_point(prev_daystatus: &DayStatus, daystatus: &DayStatus) -> (delta: i64)
    requires
        bounded_count(prev_daystatus@.attend),
        bounded_count(prev_daystatus@.leftovers),
        bounded_count(daystatus@.attend),
        bounded_count(daystatus@.leftovers),
    ensures
        delta as int == formula_point(daystatus@.attend, daystatus@.leftovers) - formula_point(
            prev_daystatus@.attend,
            prev_daystatus@.leftovers,
        ),
        -2 * FORMULA_MAX <= delta <= 2 * FORMULA_MAX,
{
    let current = eval_formula_point(daystatus.attend, daystatus.leftovers);
    let previous = eval_formula_point(prev_daystatus.attend, prev_daystatus.leftovers);
    current - previous
}

/// Row produced by registering an attendance count: the attendance upsert,
/// followed by folding `f(after) - f(before)` into the stored point,
/// clamped at zero.
pub open spec fn register_attendance_view(
    prev: Option<DayStatusView>,
    class_id: Seq<char>,
    date: Seq<char>,
    attendees: int,
) -> DayStatusView {
    let after = upsert_attend_view(prev, class_id, date, attendees);
    let delta: int = formula_point(after.attend, after.leftovers) - formula_of_row(prev);
    DayStatusView { point: clamp_floor(after.point + delta), ..after }
}

/// Row produced by registering a leftovers count, mirror of
/// [`register_attendance_view`].
pub open spec fn register_leftovers_view(
    prev: Option<DayStatusView>,
    class_id: Seq<char>,
    date: Seq<char>,
    leftovers: int,
) -> DayStatusView {
    let after = upsert_leftovers_view(prev, class_id, date, leftovers);
    let delta: int = formula_point(after.attend, after.leftovers) - formula_of_row(prev);
    DayStatusView { point: clamp_floor(after.point + delta), ..after }
}

/// Registers an attendance headcount for the day and recomputes the point
/// total from the before/after snapshots.
pub fn register_attendance(
    prev: Option<&DayStatus>,
    class_id: &String,
    date: &String,
    attendees: i64,
) -> (r: DayStatus)
    requires
        -crate::day_status::MAX_COUNT <= attendees <= crate::day_status::MAX_COUNT,
        match opt_row_view(prev) {
            Some(row) => row_in_range(row),
            None => true,
        },
    ensures
        r@ == register_attendance_view(opt_row_view(prev), class_id@, date@, attendees as int),
        r@.point >= 0,
{
    let after = upsert_attend(prev, class_id, date, attendees);
    let f_after = eval_formula_point(after.attend, after.leftovers);
    let f_before = match prev {
        Some(row) => eval_formula_point(row.attend, row.leftovers),
        None => 0,
    };
    let sum: i64 = after.point + (f_after - f_before);
    let new_point: i64 = if sum < 0 {
        0
    } else {
        sum
    };
    DayStatus { point: new_point, ..after }
}

/// Registers a leftover-food count for the day, mirror of
/// [`register_attendance`].
pub fn register_leftovers(
    prev: Option<&DayStatus>,
    class_id: &String,
    date: &String,
    leftovers: i64,
) -> (r: DayStatus)
    requires
        -crate::day_status::MAX_COUNT <= leftovers <= crate::day_status::MAX_COUNT,
        match opt_row_view(prev) {
            Some(row) => row_in_range(row),
            None => true,
        },
    ensures
        r@ == register_leftovers_view(opt_row_view(prev), class_id@, date@, leftovers as int),
        r@.point >= 0,
{
    let after = upsert_leftovers(prev, class_id, date, leftovers);
    let f_after = eval_formula_point(after.attend, after.leftovers);
    let f_before = match prev {
        Some(row) => eval_formula_point(row.attend, row.leftovers),
        None => 0,
    };
    let sum: i64 = after.point + (f_after - f_before);
    let new_point: i64 = if sum < 0 {
        0
    } else {
        sum
    };
    DayStatus { point: new_point, ..after }
}

/// The day's point formula is a pure function of the two counts alone:
/// equal inputs always yield equal values, with no hidden state.
pub proof fn lemma_formula_point_deterministic(
    a1: Option<int>,
    l1: Option<int>,
    a2: Option<int>,
    l2: Option<int>,
)
    requires
        a1 == a2,
        l1 == l2,
    ensures
        formula_point(a1, l1) == formula_point(a2, l2),
{
}

/// Replaying an attendance registration with the same count in the same
/// day is idempotent: the replay returns the first row unchanged, so its
/// point delta is zero.
pub proof fn lemma_register_attendance_idempotent(
    prev: Option<DayStatusView>,
    class_id: Seq<char>,
    date: Seq<char>,
    attendees: int,
)
    ensures
        ({
            let once = register_attendance_view(prev, class_id, date, attendees);
            register_attendance_view(Some(once), class_id, date, attendees) == once
        }),
{
    let once = register_attendance_view(prev, class_id, date, attendees);
    let twice = register_attendance_view(Some(once), class_id, date, attendees);
    assert(twice =~= once);
}

/// Replaying a leftovers registration with the same count in the same day
/// is idempotent, mirror of [`lemma_register_attendance_idempotent`].
pub proof fn lemma_register_leftovers_idempotent(
    prev: Option<DayStatusView>,
    class_id: Seq<char>,
    date: Seq<char>,
    leftovers: int,
)
    ensures
        ({
            let once = register_leftovers_view(prev, class_id, date, leftovers);
            register_leftovers_view(Some(once), class_id, date, leftovers) == once
        }),
{
    let once = register_leftovers_view(prev, class_id, date, leftovers);
    let twice = register_leftovers_view(Some(once), class_id, date, leftovers);
    assert(twice =~= once);
}

/// Registering the two counts in either order converges to the same
/// registered data, and so to the same formula value for the day — only
/// the incremental point total can differ under interleaving, never the
/// counts it is recomputed from.
pub proof fn lemma_register_order_converges(
    prev: Option<DayStatusView>,
    class_id: Seq<char>,
    date: Seq<char>,
    attendees: int,
    leftovers: int,
)
    ensures
        ({
            let attend_first = register_leftovers_view(
                Some(register_attendance_view(prev, class_id, date, attendees)),
                class_id,
                date,
                leftovers,
            );
            let leftovers_first = register_attendance_view(
                Some(register_leftovers_view(prev, class_id, date, leftovers)),
                class_id,
                date,
                attendees,
            );
            attend_first.attend == leftovers_first.attend && attend_first.leftovers
                == leftovers_first.leftovers && formula_point(
                attend_first.attend,
                attend_first.leftovers,
            ) == formula_point(leftovers_first.attend, leftovers_first.leftovers)
        }),
{
}

} // verus!

