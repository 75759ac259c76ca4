//! Ranking behavior on concrete fetch orders.

use class_score::rank::compute_rank;
use class_score::rank::sort_by_point_desc;
use class_score::rank::ClassroomPoint;
use class_score::rank::PointResponse;

fn rows(data: &[(&str, i64)]) -> Vec<ClassroomPoint> {
    data.iter()
        .map(|(id, point)| ClassroomPoint { class_id: id.to_string(), point: *point })
        .collect()
}

#[test]
fn ties_keep_fetch_order() {
    let fetched = rows(&[("A", 50), ("B", 50), ("C", 30)]);
    let b = compute_rank(&"B".to_string(), &fetched, 3);
    assert_eq!(b, PointResponse { point: 50, rank: 2, class_num: 3 });
    let a = compute_rank(&"A".to_string(), &fetched, 3);
    assert_eq!(a, PointResponse { point: 50, rank: 1, class_num: 3 });
    let c = compute_rank(&"C".to_string(), &fetched, 3);
    assert_eq!(c, PointResponse { point: 30, rank: 3, class_num: 3 });
}

#[test]
fn missing_row_ranks_last_with_zero_points() {
    let fetched = rows(&[("A", 50), ("B", 50), ("C", 30)]);
    let d = compute_rank(&"D".to_string(), &fetched, 4);
    assert_eq!(d, PointResponse { point: 0, rank: 4, class_num: 4 });
}

#[test]
fn no_rows_at_all() {
    let fetched = rows(&[]);
    let a = compute_rank(&"A".to_string(), &fetched, 5);
    assert_eq!(a, PointResponse { point: 0, rank: 5, class_num: 5 });
}

#[test]
fn ordering_is_descending_and_stable() {
    let fetched = rows(&[("A", 50), ("B", 50), ("C", 70), ("D", 50)]);
    let ordered = sort_by_point_desc(&fetched);
    let ids: Vec<&str> = ordered.iter().map(|r| r.class_id.as_str()).collect();
    assert_eq!(ids, vec!["C", "A", "B", "D"]);
}

#[test]
fn lower_points_rank_below() {
    let fetched = rows(&[("A", 10), ("B", 90), ("C", 40)]);
    let a = compute_rank(&"A".to_string(), &fetched, 3);
    assert_eq!(a, PointResponse { point: 10, rank: 3, class_num: 3 });
    let b = compute_rank(&"B".to_string(), &fetched, 3);
    assert_eq!(b, PointResponse { point: 90, rank: 1, class_num: 3 });
}
