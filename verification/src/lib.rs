//! Ambient-light backlight control.
//!
//! The daemon around this library polls an illuminance sensor and smoothly
//! ramps a display backlight toward a brightness derived from the reading.
//! This crate holds the decision logic: the illuminance-to-brightness map,
//! the ramping state machine of the actuation loop, and the timing heuristic
//! that detects a suspend/resume cycle between sensor polls. The bus
//! transport, the sensor and session services, and the thread wiring live
//! outside the library and exchange plain values with it.

pub mod actuator;
pub mod mapper;
pub mod monitor;
