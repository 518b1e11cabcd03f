//! Core of a cycling trainer companion: decoding of Bluetooth Low Energy
//! fitness telemetry, the Fitness Machine control point protocol, the
//! connection life cycle of heart rate monitors and smart trainers, and the
//! aggregation of samples into a training session.
//!
//! Nothing in this crate performs I/O. Radio traffic, timers and the user
//! interface belong to the host program, which feeds this crate plain values
//! and carries out the actions it answers with.

pub mod error;
pub mod utils;
pub mod ble;
pub mod data;
