//! The per-class, per-calendar-day aggregate record.
//!
//! A row is keyed by `(class_id, date)` and holds the running point score
//! together with the two manually registered counts of the day, each of
//! which may still be absent.  A row is created lazily on the first write
//! of any kind; afterwards every write is an upsert-merge that touches only
//! the targeted field.  Point recomputation is a separate step owned by the
//! adjustment engine, so the raw upserts here leave `point` untouched.

use vstd::prelude::*;

verus! {

/// Largest attendance or leftover count the engines accept; keeps the
/// point formula inside `i64` range when evaluated over scaled integers.
pub const MAX_COUNT: i64 = 1_000_000_000;

/// Largest stored point total the engines accept as input; leaves room in
/// `i64` for the largest single adjustment or accrual on top of it.
pub const MAX_POINT: i64 = 4_611_686_018_427_387_903;

/// One day-status row, as the store holds it.
#[derive(Clone, Debug)]
pub struct DayStatus {
    /// Classroom the row belongs to.
    pub class_id: String,
    /// Running point score of the day; never negative after an engine write.
    pub point: i64,
    /// Last registered attendance headcount of the day, if any.
    pub attend: Option<i64>,
    /// Last registered leftover-food count of the day, if any.
    pub leftovers: Option<i64>,
    /// Calendar date of the row, in the service's local time zone.
    pub date: String,
}

/// Mathematical image of a row: strings as character sequences, counts as
/// unbounded integers.
#[verifier::ext_equal]
pub ghost struct DayStatusView {
    pub class_id: Seq<char>,
    pub point: int,
    pub attend: Option<int>,
    pub leftovers: Option<int>,
    pub date: Seq<char>,
}

/// Widens an optional machine integer to an optional mathematical one.
pub open spec fn opt_int(o: Option<i64>) -> Option<int> {
    match o {
        Some(v) => Some(v as int),
        None => None,
    }
}

impl View for DayStatus {
    type V = DayStatusView;

    open spec fn view(&self) -> DayStatusView {
        DayStatusView {
            class_id: self.class_id@,
            point: self.point as int,
            attend: opt_int(self.attend),
            leftovers: opt_int(self.leftovers),
            date: self.date@,
        }
    }
}

/// Bounds under which the engines evaluate a row without overflow.
pub open spec fn bounded_count(o: Option<int>) -> bool {
    match o {
        Some(v) => -MAX_COUNT <= v <= MAX_COUNT,
        None => true,
    }
}

/// A row the engines accept as input: non-negative stored point with both
/// counts inside the range the formulas are evaluated over.
pub open spec fn row_in_range(row: DayStatusView) -> bool {
    &&& 0 <= row.point <= MAX_POINT
    &&& bounded_count(row.attend)
    &&& bounded_count(row.leftovers)
}

/// The row an upsert starts from when no row exists yet for the day:
/// zero points and both counts absent.
pub open spec fn fresh_row(class_id: Seq<char>, date: Seq<char>) -> DayStatusView {
    DayStatusView { class_id, point: 0, attend: None, leftovers: None, date }
}

/// Upsert-merge of the attendance field: inserts a fresh row carrying the
/// count, or rewrites only `attend` on an existing row.
pub open spec fn upsert_attend_view(
    prev: Option<DayStatusView>,
    class_id: Seq<char>,
    date: Seq<char>,
    attend: int,
) -> DayStatusView {
    match prev {
        Some(row) => DayStatusView { attend: Some(attend), ..row },
        None => DayStatusView { attend: Some(attend), ..fresh_row(class_id, date) },
    }
}

/// Upsert-merge of the leftovers field, mirror of [`upsert_attend_view`].
pub open spec fn upsert_leftovers_view(
    prev: Option<DayStatusView>,
    class_id: Seq<char>,
    date: Seq<char>,
    leftovers: int,
) -> DayStatusView {
    match prev {
        Some(row) => DayStatusView { leftovers: Some(leftovers), ..row },
        None => DayStatusView { leftovers: Some(leftovers), ..fresh_row(class_id, date) },
    }
}

/// View of an optionally borrowed row.
pub open spec fn opt_row_view(prev: Option<&DayStatus>) -> Option<DayStatusView> {
    match prev {
        Some(row) => Some(row@),
        None => None,
    }
}

/// Builds the row that an attendance upsert stores, leaving `point` and the
/// other count untouched.
pub fn upsert_attend(
    prev: Option<&DayStatus>,
    class_id: &String,
    date: &String,
    attend: i64,
) -> (r: DayStatus)
    ensures
        r@ == upsert_attend_view(opt_row_view(prev), class_id@, date@, attend as int),
{
    match prev {
        Some(row) => DayStatus {
            class_id: row.class_id.clone(),
            point: row.point,
            attend: Some(attend),
            leftovers: row.leftovers,
            date: row.date.clone(),
        },
        None => DayStatus {
            class_id: class_id.clone(),
            point: 0,
            attend: Some(attend),
            leftovers: None,
            date: date.clone(),
        },
    }
}

/// Builds the row that a leftovers upsert stores, mirror of [`upsert_attend`].
pub fn upsert_leftovers(
    prev: Option<&DayStatus>,
    class_id: &String,
    date: &String,
    leftovers: i64,
) -> (r: DayStatus)
    ensures
        r@ == upsert_leftovers_view(opt_row_view(prev), class_id@, date@, leftovers as int),
{
    match prev {
        Some(row) => DayStatus {
            class_id: row.class_id.clone(),
            point: row.point,
            attend: row.attend,
            leftovers: Some(leftovers),
            date: row.date.clone(),
        },
        None => DayStatus {
            class_id: class_id.clone(),
            point: 0,
            attend: None,
            leftovers: Some(leftovers),
            date: date.clone(),
        },
    }
}

} // verus!
