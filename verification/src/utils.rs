//! Small helpers shared by the codecs.

pub mod bluetooth_utils;
pub mod byte;
pub mod code_values;
