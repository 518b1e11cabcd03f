//! Bluetooth Low Energy: identifiers, device roles, the connection life
//! cycle, the control point protocol and the engine that ties them together.

pub mod bluetooth;
pub mod connection;
pub mod constants;
pub mod control_point;
pub mod discovery;
pub mod event_handlers;
