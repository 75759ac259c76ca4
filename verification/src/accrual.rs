//! Environmental accrual engine.
//!
//! A sensor report carries temperature, humidity, ambient light, occupancy
//! and air-conditioner usage.  Together with the elapsed time since the
//! previous accepted report for the class it yields a non-negative point
//! increment, which is folded additively into the day's point total,
//! clamped at the zero floor.
//!
//! The models, over exact rationals:
//!
//! * discomfort index `DI = 0.81*T + 0.01*H*(0.99*T - 14.3) + 46.3`;
//! * minutes fraction `n = clamped_duration_ms / 60000`, where the elapsed
//!   duration is clamped to `[0, sensor_interval_ms]` so one report is
//!   never credited for more than one sampling interval;
//! * air-conditioner term `raw = 1.5 * 0.378 * (10 - |DI - 69.5|) * n`,
//!   awarded as `ceil(raw)` when `raw > 0.5`, else `0`;
//! * light/occupancy term `floor(5.4 * 0.378 * 2 * n)`, awarded only when
//!   the room is empty and dark (`!is_people` and `lux < 30`).
//!
//! Readings are carried as centi-units (value times one hundred), so every
//! model above is evaluated exactly over integers.

use vstd::prelude::*;

verus! {

/// Largest magnitude of a centi-scaled reading the engine accepts.
pub const MAX_READING_CENTI: i64 = 1_000_000;

/// Largest sampling interval, in milliseconds, the engine accepts.
pub const MAX_SENSOR_INTERVAL_MS: u64 = 1_000_000_000_000;

/// Largest point increment a single report can yield under the bounds
/// above.
pub const INCREMENT_MAX: i64 = 200_000_000;

/// Centi-lux threshold below which a room counts as dark (`lux < 30`).
pub const DARK_LUX_CENTI: i64 = 3_000;

/// One environmental sensor report, with readings in centi-units.
#[derive(Clone, Copy, Debug)]
pub struct SensorReading {
    /// Temperature in hundredths of a degree Celsius.
    pub temperature_centi: i64,
    /// Relative humidity in hundredths of a percent.
    pub humidity_centi: i64,
    /// Whether the room is occupied.
    pub is_people: bool,
    /// Ambient light in hundredths of a lux.
    pub lux_centi: i64,
    /// Whether the air conditioner is running.
    pub use_air_conditioner: bool,
}

impl SensorReading {
    /// Readings the engine evaluates without overflow.
    pub open spec fn in_range(&self) -> bool {
        &&& -MAX_READING_CENTI <= self.temperature_centi <= MAX_READING_CENTI
        &&& -MAX_READING_CENTI <= self.humidity_centi <= MAX_READING_CENTI
        &&& -MAX_READING_CENTI <= self.lux_centi <= MAX_READING_CENTI
    }
}

/// Elapsed duration credited to a report: clamped to
/// `[0, sensor_interval_ms]`.
pub open spec fn clamped_duration(duration_msec: int, sensor_interval_ms: int) -> int {
    if duration_msec < 0 {
        0
    } else if duration_msec > sensor_interval_ms {
        sensor_interval_ms
    } else {
        duration_msec
    }
}

/// The discomfort index scaled by `10^8`:
/// `10^8 * (0.81*T + 0.01*H*(0.99*T - 14.3) + 46.3)` for `T` and `H` given
/// in centi-units.
pub open spec fn discomfort_index_e8(temperature_centi: int, humidity_centi: int) -> int {
    810_000 * temperature_centi + humidity_centi * (99 * temperature_centi - 143_000)
        + 4_630_000_000
}

/// Magnitude of an integer.
pub open spec fn abs_int(v: int) -> int {
    if v < 0 {
        -v
    } else {
        v
    }
}

/// The air-conditioner term scaled by `6 * 10^15`:
/// `6*10^15 * (1.5 * 0.378 * (10 - |DI - 69.5|) * n)` for the clamped
/// duration `n_ms` in milliseconds (`n = n_ms / 60000`).
pub open spec fn air_raw_e15(
    temperature_centi: int,
    humidity_centi: int,
    duration_msec: int,
    sensor_interval_ms: int,
) -> int {
    let deviation_e8: int = abs_int(
        discomfort_index_e8(temperature_centi, humidity_centi) - 6_950_000_000,
    );
    567 * (1_000_000_000 - deviation_e8) * clamped_duration(duration_msec, sensor_interval_ms)
}

/// Points awarded for air-conditioner-related comfort: `ceil(raw)` when
/// `raw > 0.5`, else `0`, with `raw` carried as `air_raw_e15 / (6*10^15)`.
pub open spec fn air_conditioner_point(
    temperature_centi: int,
    humidity_centi: int,
    duration_msec: int,
    sensor_interval_ms: int,
) -> int {
    let raw_e15: int = air_raw_e15(
        temperature_centi,
        humidity_centi,
        duration_msec,
        sensor_interval_ms,
    );
    if raw_e15 > 3_000_000_000_000_000 {
        (raw_e15 + 5_999_999_999_999_999) / 6_000_000_000_000_000
    } else {
        0
    }
}

/// Points awarded for keeping an empty room dark:
/// `floor(5.4 * 0.378 * 2 * n)` when `!is_people` and `lux < 30`, else
/// `0`.  The product `5.4 * 0.378 * 2` is carried as `40824 / 10^4`, so
/// the term is `floor(40824 * n_ms / (6 * 10^8))`.
pub open spec fn lux_point(
    is_people: bool,
    lux_centi: int,
    duration_msec: int,
    sensor_interval_ms: int,
) -> int {
    if !is_people && lux_centi < DARK_LUX_CENTI {
        (40_824 * clamped_duration(duration_msec, sensor_interval_ms)) / 600_000_000
    } else {
        0
    }
}

/// Total increment of one report: the air-conditioner term plus the
/// light/occupancy term.
pub open spec fn accrual_increment(
    reading: SensorReading,
    duration_msec: int,
    sensor_interval_ms: int,
) -> int {
    air_conditioner_point(
        reading.temperature_centi as int,
        reading.humidity_centi as int,
        duration_msec,
        sensor_interval_ms,
    ) + lux_point(
        reading.is_people,
        reading.lux_centi as int,
        duration_msec,
        sensor_interval_ms,
    )
}

/// Point total after folding one increment: `max(0, previous + increment)`
/// with a missing row counting as zero points.
pub open spec fn fold_increment(prev_point: Option<int>, increment: int) -> int {
    let base: int = match prev_point {
        Some(p) => p,
        None => 0,
    };
    if base + increment < 0 {
        0
    } else {
        base + increment
    }
}

/// Evaluates the air-conditioner term of a report.
pub fn calc_airconditionaer_point(
    sensor: &SensorReading,
    duraton_msec: i64,
    sensor_interval_ms: u64,
) -> (r: i64)
    requires
        sensor.in_range(),
        sensor_interval_ms <= MAX_SENSOR_INTERVAL_MS,
    ensures
        r as int == air_conditioner_point(
            sensor.temperature_centi as int,
            sensor.humidity_centi as int,
            duraton_msec as int,
            sensor_interval_ms as int,
        ),
        0 <= r <= INCREMENT_MAX,
{
    let interval: i64 = sensor_interval_ms as i64;
    let n_ms: i64 = if duraton_msec < 0 {
        0
    } else if duraton_msec > interval {
        interval
    } else {
        duraton_msec
    };
    let t: i128 = sensor.temperature_centi as i128;
    let h: i128 = sensor.humidity_centi as i128;
    let tempered: i128 = 99 * t - 143_000;
    assert(-100_000_000 <= tempered <= 100_000_000);
    assert(-100_000_000_000_000 <= h * tempered <= 100_000_000_000_000) by (nonlinear_arith)
        requires
            -1_000_000 <= h <= 1_000_000,
            -100_000_000 <= tempered <= 100_000_000,
    ;
    let di_e8: i128 = 810_000 * t + h * tempered + 4_630_000_000;
    let deviation_e8: i128 = if di_e8 >= 6_950_000_000 {
        di_e8 - 6_950_000_000
    } else {
        6_950_000_000 - di_e8
    };
    let gap: i128 = 1_000_000_000 - deviation_e8;
    let scaled: i128 = 567 * gap;
    assert(-60_000_000_000_000_000 <= scaled <= 567_000_000_000);
    assert(-60_000_000_000_000_000_000_000_000_000 <= scaled * (n_ms as i128) <= 567_000_000_000_000_000_000_000)
        by (nonlinear_arith)
        requires
            -60_000_000_000_000_000 <= scaled <= 567_000_000_000,
            0 <= n_ms <= 1_000_000_000_000,
    ;
    let raw_e15: i128 = scaled * (n_ms as i128);
    if raw_e15 > 3_000_000_000_000_000 {
        let num: u128 = (raw_e15 + 5_999_999_999_999_999) as u128;
        let q: u128 = num / 6_000_000_000_000_000;
        assert(q <= INCREMENT_MAX as u128) by {
            assert(num <= 567_006_000_000_000_000_000_000u128);
            assert((567_006_000_000_000_000_000_000u128 as int) / 6_000_000_000_000_000
                <= INCREMENT_MAX as int);
        };
        q as i64
    } else {
        0
    }
}

/// Evaluates the light/occupancy term of a report.
pub fn calc_lux_point(sensor: &SensorReading, duraton_msec: i64, sensor_interval_ms: u64) -> (r:
    i64)
    requires
        sensor.in_range(),
        sensor_interval_ms <= MAX_SENSOR_INTERVAL_MS,
    ensures
        r as int == lux_point(
            sensor.is_people,
            sensor.lux_centi as int,
            duraton_msec as int,
            sensor_interval_ms as int,
        ),
        0 <= r <= INCREMENT_MAX,
{
    let interval: i64 = sensor_interval_ms as i64;
    let n_ms: i64 = if duraton_msec < 0 {
        0
    } else if duraton_msec > interval {
        interval
    } else {
        duraton_msec
    };
    if !sensor.is_people && sensor.lux_centi < DARK_LUX_CENTI {
        let num: u128 = 40_824 * (n_ms as u128);
        let q: u128 = num / 600_000_000;
        assert(q <= INCREMENT_MAX as u128) by {
            assert(num <= 40_824_000_000_000_000u128);
            assert((40_824_000_000_000_000u128 as int) / 600_000_000 <= INCREMENT_MAX as int);
        };
        q as i64
    } else {
        0
    }
}

/// Records one sensor report against the day's previous point total and
/// returns the new total: the report's increment, folded in and clamped at
/// the zero floor.  The total never decreases.
pub fn record_sensor_sample(
    prev_point: Option<i64>,
    sensor: &SensorReading,
    duraton_msec: i64,
    sensor_interval_ms: u64,
) -> (r: i64)
    requires
        sensor.in_range(),
        sensor_interval_ms <= MAX_SENSOR_INTERVAL_MS,
        match prev_point {
            Some(p) => 0 <= p <= crate::day_status::MAX_POINT,
            None => true,
        },
    ensures
        r as int == fold_increment(
            crate::day_status::opt_int(prev_point),
            accrual_increment(*sensor, duraton_msec as int, sensor_interval_ms as int),
        ),
        r >= 0,
        match prev_point {
            Some(p) => r >= p,
            None => true,
        },
{
    let air = calc_airconditionaer_point(sensor, duraton_msec, sensor_interval_ms);
    let lux = calc_lux_point(sensor, duraton_msec, sensor_interval_ms);
    let base: i64 = match prev_point {
        Some(p) => p,
        None => 0,
    };
    let sum: i64 = base + air + lux;
    if sum < 0 {
        0
    } else {
        sum
    }
}

/// A report's increment is never negative: both terms are floors or
/// ceilings of non-negative quantities.
pub proof fn lemma_increment_nonneg(
    reading: SensorReading,
    duration_msec: int,
    sensor_interval_ms: int,
)
    requires
        sensor_interval_ms >= 0,
    ensures
        accrual_increment(reading, duration_msec, sensor_interval_ms) >= 0,
        air_conditioner_point(
            reading.temperature_centi as int,
            reading.humidity_centi as int,
            duration_msec,
            sensor_interval_ms,
        ) >= 0,
        lux_point(
            reading.is_people,
            reading.lux_centi as int,
            duration_msec,
            sensor_interval_ms,
        ) >= 0,
{
    let n_ms: int = clamped_duration(duration_msec, sensor_interval_ms);
    assert(n_ms >= 0);
    assert((40_824 * n_ms) / 600_000_000 >= 0) by (nonlinear_arith)
        requires
            n_ms >= 0,
    ;
    let raw_e15: int = air_raw_e15(
        reading.temperature_centi as int,
        reading.humidity_centi as int,
        duration_msec,
        sensor_interval_ms,
    );
    if raw_e15 > 3_000_000_000_000_000 {
        assert((raw_e15 + 5_999_999_999_999_999) / 6_000_000_000_000_000 >= 0)
            by (nonlinear_arith)
            requires
                raw_e15 > 3_000_000_000_000_000,
        ;
    }
}

/// Clamped accrual: once the elapsed duration reaches the sampling
/// interval, a report is credited exactly as if one interval had elapsed —
/// a report arriving twice the interval after the previous one earns no
/// more than one interval's worth.
pub proof fn lemma_accrual_clamped(
    reading: SensorReading,
    duration_msec: int,
    sensor_interval_ms: int,
)
    requires
        duration_msec >= sensor_interval_ms >= 0,
    ensures
        accrual_increment(reading, duration_msec, sensor_interval_ms) == accrual_increment(
            reading,
            sensor_interval_ms,
            sensor_interval_ms,
        ),
{
}

/// Point total after a whole run of sensor reports, folded in order.
pub open spec fn accrue_all(
    start: int,
    reports: Seq<(SensorReading, int)>,
    sensor_interval_ms: int,
) -> int
    decreases reports.len(),
{
    if reports.len() == 0 {
        start
    } else {
        let folded: int = fold_increment(
            Some(start),
            accrual_increment(reports.first().0, reports.first().1, sensor_interval_ms),
        );
        accrue_all(folded, reports.drop_first(), sensor_interval_ms)
    }
}

/// Monotonic floor: from a non-negative starting total, any sequence of
/// accrual folds leaves the point total non-negative.
pub proof fn lemma_accrual_floor(
    start: int,
    reports: Seq<(SensorReading, int)>,
    sensor_interval_ms: int,
)
    requires
        start >= 0,
    ensures
        accrue_all(start, reports, sensor_interval_ms) >= 0,
    decreases reports.len(),
{
    if reports.len() > 0 {
        let folded: int = fold_increment(
            Some(start),
            accrual_increment(reports.first().0, reports.first().1, sensor_interval_ms),
        );
        lemma_accrual_floor(folded, reports.drop_first(), sensor_interval_ms);
    }
}

} // verus!
