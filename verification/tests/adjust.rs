//! Attendance/leftover adjustment behavior on concrete days.

use class_score::adjust::calc_leftovers_point;
use class_score::adjust::eval_formula_point;
use class_score::adjust::register_attendance;
use class_score::adjust::register_leftovers;
use class_score::day_status::DayStatus;

fn row(point: i64, attend: Option<i64>, leftovers: Option<i64>) -> DayStatus {
    DayStatus {
        class_id: "c1".to_string(),
        point,
        attend,
        leftovers,
        date: "2024-05-01".to_string(),
    }
}

#[test]
fn formula_full_day_value() {
    // round((1030 * 30 / 30 - 0) * 2.501 / 10) = round(257.603) = 258
    assert_eq!(eval_formula_point(Some(30), Some(0)), 258);
}

#[test]
fn formula_incomplete_day_is_zero() {
    assert_eq!(eval_formula_point(Some(30), None), 0);
    assert_eq!(eval_formula_point(None, Some(4)), 0);
    assert_eq!(eval_formula_point(None, None), 0);
}

#[test]
fn formula_negative_value_rounds_away_from_zero() {
    // (1030 * 1 / 30 - 100) * 2.501 / 10 = -16.423..., rounded to -16
    assert_eq!(eval_formula_point(Some(1), Some(100)), -16);
}

#[test]
fn delta_between_snapshots() {
    let before = row(258, Some(30), Some(0));
    let after = row(258, Some(30), Some(5));
    // f(30, 5) = round(256.3525) = 256, so the delta is -2
    assert_eq!(calc_leftovers_point(&before, &after), -2);
}

#[test]
fn first_registration_of_the_day() {
    // Registering attendance alone leaves the formula incomplete: no points yet.
    let class_id = "c1".to_string();
    let date = "2024-05-01".to_string();
    let first = register_attendance(None, &class_id, &date, 30);
    assert_eq!(first.point, 0);
    assert_eq!(first.attend, Some(30));
    assert_eq!(first.leftovers, None);

    // Registering leftovers completes the day: the point becomes f(30, 0) = 258.
    let second = register_leftovers(Some(&first), &class_id, &date, 0);
    assert_eq!(second.point, 258);
    assert_eq!(second.attend, Some(30));
    assert_eq!(second.leftovers, Some(0));
}

#[test]
fn replay_is_idempotent() {
    let class_id = "c1".to_string();
    let date = "2024-05-01".to_string();
    let first = register_attendance(None, &class_id, &date, 30);
    let complete = register_leftovers(Some(&first), &class_id, &date, 0);
    assert_eq!(complete.point, 258);
    let replay = register_leftovers(Some(&complete), &class_id, &date, 0);
    assert_eq!(replay.point, 258);
    let replay_attend = register_attendance(Some(&replay), &class_id, &date, 30);
    assert_eq!(replay_attend.point, 258);
}

#[test]
fn point_is_clamped_at_zero() {
    // A day of zero attendance and heavy leftovers is worth f(0, 100) = -25,
    // but the stored point never goes below zero.
    let class_id = "c1".to_string();
    let date = "2024-05-01".to_string();
    let first = register_leftovers(None, &class_id, &date, 100);
    assert_eq!(first.point, 0);
    let second = register_attendance(Some(&first), &class_id, &date, 0);
    assert_eq!(second.point, 0);
    assert_eq!(second.attend, Some(0));
    assert_eq!(second.leftovers, Some(100));
}

#[test]
fn update_keeps_untouched_field() {
    let prev = row(258, Some(30), Some(0));
    let class_id = "c1".to_string();
    let date = "2024-05-01".to_string();
    let updated = register_leftovers(Some(&prev), &class_id, &date, 5);
    // f(30, 5) = 256; 258 + (256 - 258) = 256
    assert_eq!(updated.point, 256);
    assert_eq!(updated.attend, Some(30));
    assert_eq!(updated.leftovers, Some(5));
}

#[test]
fn formula_is_deterministic() {
    let first = eval_formula_point(Some(17), Some(3));
    let second = eval_formula_point(Some(17), Some(3));
    assert_eq!(first, second);
    let third = eval_formula_point(Some(17), Some(3));
    assert_eq!(second, third);
}
