//! Daily scoring engine for a classroom engagement service.
//!
//! Schools register classrooms; a classroom authenticates with an opaque
//! session token and accumulates a per-day point score from two sources:
//! manually registered attendance / leftover-food counts, and periodic
//! environmental sensor reports (temperature, humidity, light, occupancy).
//! This crate holds the scoring rules themselves: the attendance/leftover
//! point formula, the time-windowed environmental accrual model, the
//! per-day status record and its upsert-merge transitions, session token
//! resolution, and the daily ranking computation.  Storage and HTTP
//! transport are collaborators that feed plain values in and carry the
//! computed results out.

pub mod accrual;
pub mod adjust;
pub mod config;
pub mod day_status;
pub mod errors;
pub mod parse;
pub mod rank;
pub mod session;
pub mod timestamp;
