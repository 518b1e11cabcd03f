//! Decoder of the Heart Rate Measurement characteristic.

use crate::error::Error;
use crate::utils::byte::{combine_u8_to_u16, flag_is_set, has_flag, le_u16};
use vstd::prelude::*;

verus! {

/// Bit 0 of the flags: the heart rate takes two bytes instead of one.
pub const HEART_RATE_FORMAT_U16: u16 = 0x01;

/// Bit 1 of the flags: the sensor is in contact with the skin. It counts only
/// together with bit 2.
pub const SENSOR_CONTACT_DETECTED: u16 = 0x02;

/// Bit 2 of the flags: the sensor can tell whether it is in contact.
pub const SENSOR_CONTACT_SUPPORTED: u16 = 0x04;

/// One notification of a heart rate monitor.
#[derive(Clone, Copy, Debug, PartialEq, Eq, Structural)]
pub struct HeartRateMeasurement {
    /// Beats per minute.
    pub bpm: u16,
    pub is_sensor_contact_supported: bool,
    pub is_sensor_in_contact: bool,
}

/// What a Heart Rate Measurement payload stands for.
///
/// Byte 0 holds the flags. The heart rate follows in one byte, or, where bit
/// 0 of the flags is set, in two bytes with the low byte first. Bits 3 and 4
/// announce fields that follow the heart rate; they are not read.
pub open spec fn heart_rate_of(data: Seq<u8>) -> Result<HeartRateMeasurement, Error> {
    if data.len() < 2 {
        Err(Error::ParseError)
    } else {
        let flags = data[0] as int;
        let supported = has_flag(flags, SENSOR_CONTACT_SUPPORTED as int);
        let detected = has_flag(flags, SENSOR_CONTACT_DETECTED as int);
        if !has_flag(flags, HEART_RATE_FORMAT_U16 as int) {
            Ok(
                HeartRateMeasurement {
                    bpm: data[1] as u16,
                    is_sensor_contact_supported: supported,
                    is_sensor_in_contact: supported && detected,
                },
            )
        } else if data.len() < 3 {
            Err(Error::ParseError)
        } else {
            Ok(
                HeartRateMeasurement {
                    bpm: le_u16(data[1], data[2]) as u16,
                    is_sensor_contact_supported: supported,
                    is_sensor_in_contact: supported && detected,
                },
            )
        }
    }
}

/// Decodes a Heart Rate Measurement payload. A payload that ends before the
/// heart rate does is a parse error.
pub fn parse_hrm_data(data: &Vec<u8>) -> (measurement: Result<HeartRateMeasurement, Error>)
    ensures
        measurement == heart_rate_of(data@),
{
    if data.len() < 2 {
        return Err(Error::ParseError);
    }
    let flags: u16 = data[0] as u16;
    let is_16 = flag_is_set(flags, HEART_RATE_FORMAT_U16);
    let is_sensor_contact_supported = flag_is_set(flags, SENSOR_CONTACT_SUPPORTED);
    let is_sensor_in_contact = is_sensor_contact_supported && flag_is_set(
        flags,
        SENSOR_CONTACT_DETECTED,
    );
    let bpm: u16 = if is_16 {
        if data.len() < 3 {
            return Err(Error::ParseError);
        }
        combine_u8_to_u16(data[1], data[2])
    } else {
        data[1] as u16
    };
    Ok(HeartRateMeasurement { bpm, is_sensor_contact_supported, is_sensor_in_contact })
}

} // verus!
