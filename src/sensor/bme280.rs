//! Bosch BME280 temperature, pressure and humidity sensor.
//!
//! The factory calibration is parsed from two register blocks, and raw
//! converter codes are compensated with the fixed-point formulas of the
//! vendor's datasheet: temperature and humidity in 32-bit signed arithmetic,
//! pressure in 64-bit signed arithmetic. Temperature compensation yields the
//! "fine temperature" that pressure and humidity compensation take as input.
pub mod calibration;
pub mod compensation;
pub mod control;

pub use calibration::Calibration;
pub use compensation::{decode_raw, Measurement, HUMIDITY_FULL_SCALE};
pub use control::{Driver, Outcome, Phase, Progress, Request, Session, DEFAULT_ADDRESS};
