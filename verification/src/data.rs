//! Telemetry: the decoders of the notification payloads, the session that
//! collects their samples, and the simulation that stands in for hardware.

pub mod heart_rate_measurement;
pub mod indoor_bike_data;
pub mod session;
pub mod simulation;
