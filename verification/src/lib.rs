//! Sans-I/O core of a driver for the HC-SR04 ultrasonic distance sensor.
//!
//! The sensor is spoken to over two digital lines: a trigger output that
//! starts a ranging cycle with a short pulse, and an echo input that the
//! sensor holds high for as long as the sound took to travel to the
//! obstacle and back.
//!
//! This crate holds everything about a ranging cycle that can be decided
//! without touching a pin or a timer: the configuration types, the failure
//! reasons, and the state machine that tells a shell which line to drive or
//! watch next and with which time budget. The shell owns the pins and the
//! clock, performs each [`Action`], and feeds the matching [`Event`] back.
//! What holds of whole cycles is stated and proved in [`trace`]; [`clock`]
//! turns the length of the echo pulse from clock ticks into microseconds.

pub mod clock;
pub mod config;
pub mod cycle;
pub mod error;
pub mod trace;

pub use clock::{pulse_micros, MAX_PULSE_TICKS};
pub use config::{Config, DistanceUnit, TemperatureUnit};
pub use cycle::{Action, Cycle, Event, EDGE_TIMEOUT_SECS, TRIGGER_PULSE_MICROS};
pub use error::MeasureError;
