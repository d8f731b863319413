//! Interpolation/control core of a fan-control daemon.
//!
//! Three strategies turn a temperature sample (and an auxiliary power
//! sample) into a fan-speed value: a stateless quadratic curve, a stateful
//! PID feedback controller, and a quadratic curve composed with a debounced
//! feedforward term.
//!
//! All quantities are fixed-point values: an `i64` counts thousandths of an
//! engineering unit (degrees, RPM, seconds), so `21_500` stands for `21.5`.
//! Reading sensors, parsing the configuration file and driving the fan are
//! the surrounding daemon's job; this crate only computes.

pub mod config;
pub mod control;
pub mod fixed;
