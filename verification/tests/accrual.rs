//! Environmental accrual behavior on concrete reports.

use class_score::accrual::calc_airconditionaer_point;
use class_score::accrual::calc_lux_point;
use class_score::accrual::record_sensor_sample;
use class_score::accrual::SensorReading;

const INTERVAL: u64 = 60_000;

fn reading(t: f64, h: f64, is_people: bool, lux: f64, use_ac: bool) -> SensorReading {
    SensorReading {
        temperature_centi: (t * 100.0).round() as i64,
        humidity_centi: (h * 100.0).round() as i64,
        is_people,
        lux_centi: (lux * 100.0).round() as i64,
        use_air_conditioner: use_ac,
    }
}

#[test]
fn full_interval_sample() {
    // T=24, H=50: DI = 0.81*24 + 0.01*50*(0.99*24 - 14.3) + 46.3 = 70.47.
    // Air term: ceil(0.567 * (10 - |70.47 - 69.5|) * 1) = ceil(5.12001) = 6.
    // Lux term (empty room, lux 10 < 30): floor(4.0824 * 1) = 4.
    let s = reading(24.0, 50.0, false, 10.0, false);
    assert_eq!(calc_airconditionaer_point(&s, 60_000, INTERVAL), 6);
    assert_eq!(calc_lux_point(&s, 60_000, INTERVAL), 4);
    assert_eq!(record_sensor_sample(None, &s, 60_000, INTERVAL), 10);
}

#[test]
fn late_report_is_clamped_to_one_interval() {
    let s = reading(24.0, 50.0, false, 10.0, false);
    let on_time = record_sensor_sample(Some(0), &s, 60_000, INTERVAL);
    let late = record_sensor_sample(Some(0), &s, 120_000, INTERVAL);
    assert_eq!(on_time, late);
    assert_eq!(late, 10);
}

#[test]
fn negative_duration_earns_nothing() {
    let s = reading(24.0, 50.0, false, 10.0, false);
    assert_eq!(record_sensor_sample(Some(5), &s, -1_000, INTERVAL), 5);
}

#[test]
fn occupied_or_lit_room_earns_no_lux_points() {
    let occupied = reading(24.0, 50.0, true, 10.0, false);
    assert_eq!(calc_lux_point(&occupied, 60_000, INTERVAL), 0);
    let lit = reading(24.0, 50.0, false, 30.0, false);
    assert_eq!(calc_lux_point(&lit, 60_000, INTERVAL), 0);
    let dim = reading(24.0, 50.0, false, 29.99, false);
    assert_eq!(calc_lux_point(&dim, 60_000, INTERVAL), 4);
}

#[test]
fn extreme_discomfort_earns_no_air_points() {
    // T=40, H=90: DI = 0.81*40 + 0.9*(0.99*40 - 14.3) + 46.3 = 101.47;
    // |DI - 69.5| > 10 makes the raw term negative, so no award.
    let s = reading(40.0, 90.0, true, 500.0, true);
    assert_eq!(calc_airconditionaer_point(&s, 60_000, INTERVAL), 0);
    assert_eq!(record_sensor_sample(Some(12), &s, 60_000, INTERVAL), 12);
}

#[test]
fn tiny_raw_term_is_dropped() {
    // One second of a near-comfortable room (DI = 72.2975): raw =
    // 0.567 * 7.2025 / 60 = 0.068 <= 0.5, so nothing is awarded.
    let s = reading(25.0, 55.0, true, 500.0, false);
    assert_eq!(calc_airconditionaer_point(&s, 1_000, INTERVAL), 0);
}

#[test]
fn total_never_decreases() {
    let s = reading(40.0, 90.0, false, 500.0, true);
    let p0: i64 = 7;
    let p1 = record_sensor_sample(Some(p0), &s, 60_000, INTERVAL);
    assert!(p1 >= p0);
    let p2 = record_sensor_sample(Some(p1), &s, 60_000, INTERVAL);
    assert!(p2 >= p1);
    assert!(p2 >= 0);
}
