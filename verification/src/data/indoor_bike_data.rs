//! Codec of the Indoor Bike Data characteristic.
//!
//! A payload starts with a 16-bit flags field, low byte first. The fields
//! that the flags announce follow without gaps, in one fixed order, each with
//! its low byte first. Where a field lies therefore depends on every field
//! before it in that order.

use crate::error::Error;
use crate::utils::byte::{
    combine_u8_to_u16, combine_u8_to_u32, convert_i16_to_u8, flag_is_set, has_flag, le_bytes_u16,
    le_bytes_u24, le_u16, le_u24, lemma_flag_of_sum, lemma_le_bytes_u16, lemma_le_bytes_u24,
    signed_of_u16, twos_complement_u16, u16_to_i16,
};
use vstd::prelude::*;

verus! {

// Size in octets
pub const FLAGS_SIZE: usize = 2;

pub const INSTANTANEOUS_SPEED_SIZE: usize = 2;

pub const AVERAGE_SPEED_SIZE: usize = 2;

pub const INSTANTANEOUS_CADENCE_SIZE: usize = 2;

pub const AVERAGE_CADENCE_SIZE: usize = 2;

pub const TOTAL_DISTANCE_SIZE: usize = 3;

pub const RESISTANCE_LEVEL_SIZE: usize = 1;

pub const INSTANTANEOUS_POWER_SIZE: usize = 2;

// Bits of the flags field
/// Set where the instantaneous speed is *absent*.
pub const MORE_DATA: u16 = 0x01;

pub const AVERAGE_SPEED_PRESENT: u16 = 0x02;

pub const INSTANTANEOUS_CADENCE_PRESENT: u16 = 0x04;

pub const AVERAGE_CADENCE_PRESENT: u16 = 0x08;

pub const TOTAL_DISTANCE_PRESENT: u16 = 0x10;

pub const RESISTANCE_LEVEL_PRESENT: u16 = 0x20;

pub const INSTANTANEOUS_POWER_PRESENT: u16 = 0x40;

/// Raw speed is in hundredths of a kilometre per hour.
pub const SPEED_RESOLUTION: u16 = 100;

/// Raw cadence is in halves of a revolution per minute.
pub const CADENCE_RESOLUTION: u16 = 2;

/// The largest distance that three bytes hold.
pub const MAX_TOTAL_DISTANCE: u32 = 0xFF_FFFF;

/// One notification of a trainer. Every field is optional: the payload says
/// which ones it carries.
#[derive(Clone, Copy, Debug, PartialEq, Eq, Structural)]
pub struct IndoorBikeData {
    /// Revolutions per minute.
    pub cadence: Option<u16>,
    /// Kilometres per hour.
    pub speed: Option<u16>,
    /// Metres since the beginning of the training session.
    pub distance: Option<u32>,
    /// Watts.
    pub power: Option<i16>,
    /// Kilometres per hour.
    pub average_speed: Option<u16>,
    /// Revolutions per minute.
    pub average_cadence: Option<u16>,
    pub resistance_level: Option<u8>,
}

/// The fields of a payload that this codec reads, in the order in which they
/// follow the flags.
#[derive(Clone, Copy, Debug, PartialEq, Eq, Structural)]
pub enum IndoorBikeDataType {
    Speed,
    AverageSpeed,
    Cadence,
    AverageCadence,
    Distance,
    ResistanceLevel,
    Power,
}

impl IndoorBikeDataType {
    /// The number of bytes that the field takes where it is present.
    pub open spec fn spec_size(self) -> nat {
        match self {
            IndoorBikeDataType::Speed => 2,
            IndoorBikeDataType::AverageSpeed => 2,
            IndoorBikeDataType::Cadence => 2,
            IndoorBikeDataType::AverageCadence => 2,
            IndoorBikeDataType::Distance => 3,
            IndoorBikeDataType::ResistanceLevel => 1,
            IndoorBikeDataType::Power => 2,
        }
    }

    /// Whether a payload with these flags carries the field. Speed is
    /// present where bit 0 is clear; every other field where its bit is set.
    pub open spec fn present_in(self, flags: int) -> bool {
        match self {
            IndoorBikeDataType::Speed => !has_flag(flags, MORE_DATA as int),
            IndoorBikeDataType::AverageSpeed => has_flag(flags, AVERAGE_SPEED_PRESENT as int),
            IndoorBikeDataType::Cadence => has_flag(flags, INSTANTANEOUS_CADENCE_PRESENT as int),
            IndoorBikeDataType::AverageCadence => has_flag(flags, AVERAGE_CADENCE_PRESENT as int),
            IndoorBikeDataType::Distance => has_flag(flags, TOTAL_DISTANCE_PRESENT as int),
            IndoorBikeDataType::ResistanceLevel => has_flag(
                flags,
                RESISTANCE_LEVEL_PRESENT as int,
            ),
            IndoorBikeDataType::Power => has_flag(flags, INSTANTANEOUS_POWER_PRESENT as int),
        }
    }

    /// The bytes that the field takes in a payload with these flags.
    pub open spec fn occupied(self, flags: int) -> nat {
        if self.present_in(flags) {
            self.spec_size()
        } else {
            0
        }
    }

    /// The number of bytes that the field takes where it is present.
    pub fn size(self) -> (octets: usize)
        ensures
            octets == self.spec_size(),
    {
        match self {
            IndoorBikeDataType::Speed => INSTANTANEOUS_SPEED_SIZE,
            IndoorBikeDataType::AverageSpeed => AVERAGE_SPEED_SIZE,
            IndoorBikeDataType::Cadence => INSTANTANEOUS_CADENCE_SIZE,
            IndoorBikeDataType::AverageCadence => AVERAGE_CADENCE_SIZE,
            IndoorBikeDataType::Distance => TOTAL_DISTANCE_SIZE,
            IndoorBikeDataType::ResistanceLevel => RESISTANCE_LEVEL_SIZE,
            IndoorBikeDataType::Power => INSTANTANEOUS_POWER_SIZE,
        }
    }
}

/// The flags of a payload of at least two bytes.
pub open spec fn flags_of(data: Seq<u8>) -> int {
    le_u16(data[0], data[1])
}

/// Where a field starts in a payload with these flags: behind the flags and
/// behind every field that comes before it and is present.
pub open spec fn data_index(flags: int, data_type: IndoorBikeDataType) -> nat {
    match data_type {
        IndoorBikeDataType::Speed => 2,
        IndoorBikeDataType::AverageSpeed => 2 + IndoorBikeDataType::Speed.occupied(flags),
        IndoorBikeDataType::Cadence => 2 + IndoorBikeDataType::Speed.occupied(flags)
            + IndoorBikeDataType::AverageSpeed.occupied(flags),
        IndoorBikeDataType::AverageCadence => 2 + IndoorBikeDataType::Speed.occupied(flags)
            + IndoorBikeDataType::AverageSpeed.occupied(flags)
            + IndoorBikeDataType::Cadence.occupied(flags),
        IndoorBikeDataType::Distance => 2 + IndoorBikeDataType::Speed.occupied(flags)
            + IndoorBikeDataType::AverageSpeed.occupied(flags)
            + IndoorBikeDataType::Cadence.occupied(flags)
            + IndoorBikeDataType::AverageCadence.occupied(flags),
        IndoorBikeDataType::ResistanceLevel => 2 + IndoorBikeDataType::Speed.occupied(flags)
            + IndoorBikeDataType::AverageSpeed.occupied(flags)
            + IndoorBikeDataType::Cadence.occupied(flags)
            + IndoorBikeDataType::AverageCadence.occupied(flags)
            + IndoorBikeDataType::Distance.occupied(flags),
        IndoorBikeDataType::Power => 2 + IndoorBikeDataType::Speed.occupied(flags)
            + IndoorBikeDataType::AverageSpeed.occupied(flags)
            + IndoorBikeDataType::Cadence.occupied(flags)
            + IndoorBikeDataType::AverageCadence.occupied(flags)
            + IndoorBikeDataType::Distance.occupied(flags)
            + IndoorBikeDataType::ResistanceLevel.occupied(flags),
    }
}

/// The length that a payload with these flags must at least have: the flags
/// and every field that is present.
pub open spec fn required_len(flags: int) -> nat {
    data_index(flags, IndoorBikeDataType::Power) + IndoorBikeDataType::Power.occupied(flags)
}

/// Whether the payload holds its flags and every field they announce.
pub open spec fn is_complete(data: Seq<u8>) -> bool {
    data.len() >= 2 && data.len() >= required_len(flags_of(data))
}

/// Whether the payload holds its flags and, where they announce it, the
/// whole of one field.
pub open spec fn holds_field(data: Seq<u8>, data_type: IndoorBikeDataType) -> bool {
    data.len() >= 2 && (data_type.present_in(flags_of(data)) ==> data.len() >= data_index(
        flags_of(data),
        data_type,
    ) + data_type.spec_size())
}

/// The two bytes at `index`, low byte first.
pub open spec fn u16_at(data: Seq<u8>, index: int) -> int {
    le_u16(data[index], data[index + 1])
}

/// The three bytes at `index`, low byte first.
pub open spec fn u24_at(data: Seq<u8>, index: int) -> int {
    le_u24(data[index], data[index + 1], data[index + 2])
}

/// The instantaneous speed of a complete payload, in km/h, rounded down.
pub open spec fn speed_of(data: Seq<u8>) -> Option<u16> {
    let flags = flags_of(data);
    if IndoorBikeDataType::Speed.present_in(flags) {
        Some((u16_at(data, data_index(flags, IndoorBikeDataType::Speed) as int) / 100) as u16)
    } else {
        None
    }
}

/// The average speed of a complete payload, in km/h, rounded down.
pub open spec fn average_speed_of(data: Seq<u8>) -> Option<u16> {
    let flags = flags_of(data);
    if IndoorBikeDataType::AverageSpeed.present_in(flags) {
        Some(
            (u16_at(data, data_index(flags, IndoorBikeDataType::AverageSpeed) as int)
                / 100) as u16,
        )
    } else {
        None
    }
}

/// The instantaneous cadence of a complete payload, in rpm, rounded down.
pub open spec fn cadence_of(data: Seq<u8>) -> Option<u16> {
    let flags = flags_of(data);
    if IndoorBikeDataType::Cadence.present_in(flags) {
        Some((u16_at(data, data_index(flags, IndoorBikeDataType::Cadence) as int) / 2) as u16)
    } else {
        None
    }
}

/// The average cadence of a complete payload, in rpm, rounded down.
pub open spec fn average_cadence_of(data: Seq<u8>) -> Option<u16> {
    let flags = flags_of(data);
    if IndoorBikeDataType::AverageCadence.present_in(flags) {
        Some(
            (u16_at(data, data_index(flags, IndoorBikeDataType::AverageCadence) as int)
                / 2) as u16,
        )
    } else {
        None
    }
}

/// The total distance of a complete payload, in metres.
pub open spec fn distance_of(data: Seq<u8>) -> Option<u32> {
    let flags = flags_of(data);
    if IndoorBikeDataType::Distance.present_in(flags) {
        Some(u24_at(data, data_index(flags, IndoorBikeDataType::Distance) as int) as u32)
    } else {
        None
    }
}

/// The resistance level of a complete payload.
pub open spec fn resistance_level_of(data: Seq<u8>) -> Option<u8> {
    let flags = flags_of(data);
    if IndoorBikeDataType::ResistanceLevel.present_in(flags) {
        Some(data[data_index(flags, IndoorBikeDataType::ResistanceLevel) as int])
    } else {
        None
    }
}

/// The instantaneous power of a complete payload, in watts. The two bytes
/// are a signed number in two's complement.
pub open spec fn power_of(data: Seq<u8>) -> Option<i16> {
    let flags = flags_of(data);
    if IndoorBikeDataType::Power.present_in(flags) {
        Some(
            signed_of_u16(
                u16_at(data, data_index(flags, IndoorBikeDataType::Power) as int) as u16,
            ) as i16,
        )
    } else {
        None
    }
}

/// What an Indoor Bike Data payload stands for: a parse error where it ends
/// before the last field that its flags announce, and else each field that
/// is present, in its unit.
pub open spec fn indoor_bike_data_of(data: Seq<u8>) -> Result<IndoorBikeData, Error> {
    if !is_complete(data) {
        Err(Error::ParseError)
    } else {
        Ok(
            IndoorBikeData {
                cadence: cadence_of(data),
                speed: speed_of(data),
                distance: distance_of(data),
                power: power_of(data),
                average_speed: average_speed_of(data),
                average_cadence: average_cadence_of(data),
                resistance_level: resistance_level_of(data),
            },
        )
    }
}

// Resource:
// https://www.bluetooth.com/specifications/specs/gatt-specification-supplement/
// Check for Indoor Bike Data
/// Decodes an Indoor Bike Data payload.
pub fn parse_indoor_bike_data(data: &Vec<u8>) -> (sample: Result<IndoorBikeData, Error>)
    ensures
        sample == indoor_bike_data_of(data@),
{
    if !has_all_fields(data) {
        return Err(Error::ParseError);
    }
    Ok(
        IndoorBikeData {
            cadence: get_cadence(data),
            speed: get_speed(data),
            distance: get_distance(data),
            power: get_power(data),
            average_speed: get_average_speed(data),
            average_cadence: get_average_cadence(data),
            resistance_level: get_resistance_level(data),
        },
    )
}

/// Whether the payload holds its flags and every field they announce.
pub fn has_all_fields(data: &Vec<u8>) -> (complete: bool)
    ensures
        complete == is_complete(data@),
{
    if data.len() < FLAGS_SIZE {
        return false;
    }
    let end = get_data_index(data, IndoorBikeDataType::Power) + (if is_power_present(data) {
        INSTANTANEOUS_POWER_SIZE
    } else {
        0
    });
    data.len() >= end
}

// Instantaneous Speed
// Data type: u16
// Size (octets): 0 or 2
pub fn get_speed(data: &Vec<u8>) -> (speed: Option<u16>)
    requires
        holds_field(data@, IndoorBikeDataType::Speed),
    ensures
        speed == speed_of(data@),
{
    // Present if bit 0 of Flags field is set to 0
    if !is_speed_present(data) {
        return None;
    }
    let data_index = get_data_index(data, IndoorBikeDataType::Speed);
    let raw_speed = combine_u8_to_u16(data[data_index], data[data_index + 1]);

    // Unit is 1/100 of a kilometer per hour
    Some(raw_speed / SPEED_RESOLUTION)
}

// Average Speed
// Data type: u16
// Size (octets): 0 or 2
pub fn get_average_speed(data: &Vec<u8>) -> (speed: Option<u16>)
    requires
        holds_field(data@, IndoorBikeDataType::AverageSpeed),
    ensures
        speed == average_speed_of(data@),
{
    // Present if bit 1 of Flags field is set to 1
    if !is_ave_speed_present(data) {
        return None;
    }
    let data_index = get_data_index(data, IndoorBikeDataType::AverageSpeed);
    let raw_speed = combine_u8_to_u16(data[data_index], data[data_index + 1]);

    // Unit is 1/100 of a kilometer per hour
    Some(raw_speed / SPEED_RESOLUTION)
}

// Instantaneous Cadence
// Data type: u16
// Size (octets): 0 or 2
pub fn get_cadence(data: &Vec<u8>) -> (cadence: Option<u16>)
    requires
        holds_field(data@, IndoorBikeDataType::Cadence),
    ensures
        cadence == cadence_of(data@),
{
    // Present if bit 2 of Flags field is set to 1
    if !is_cadence_present(data) {
        return None;
    }
    let data_index = get_data_index(data, IndoorBikeDataType::Cadence);
    let cadence = combine_u8_to_u16(data[data_index], data[data_index + 1]);

    // Unit is 1/2 of a revolution per minute
    Some(cadence / CADENCE_RESOLUTION)
}

// Average Cadence
// Data type: u16
// Size (octets): 0 or 2
pub fn get_average_cadence(data: &Vec<u8>) -> (cadence: Option<u16>)
    requires
        holds_field(data@, IndoorBikeDataType::AverageCadence),
    ensures
        cadence == average_cadence_of(data@),
{
    // Present if bit 3 of Flags field is set to 1
    if !is_ave_cadence_present(data) {
        return None;
    }
    let data_index = get_data_index(data, IndoorBikeDataType::AverageCadence);
    let cadence = combine_u8_to_u16(data[data_index], data[data_index + 1]);

    // Unit is 1/2 of a revolution per minute
    Some(cadence / CADENCE_RESOLUTION)
}

// Total Distance since the beginning of the training session
// Data type: u24
// Size (octets): 0 or 3
pub fn get_distance(data: &Vec<u8>) -> (distance: Option<u32>)
    requires
        holds_field(data@, IndoorBikeDataType::Distance),
    ensures
        distance == distance_of(data@),
{
    // Present if bit 4 of Flags field is set to 1
    if !is_distance_present(data) {
        return None;
    }
    let data_index = get_data_index(data, IndoorBikeDataType::Distance);
    let distance = combine_u8_to_u32(data[data_index], data[data_index + 1], data[data_index + 2]);

    // Distance is in meters
    Some(distance)
}

// Resistance Level
// Size (octets): 0 or 1
pub fn get_resistance_level(data: &Vec<u8>) -> (level: Option<u8>)
    requires
        holds_field(data@, IndoorBikeDataType::ResistanceLevel),
    ensures
        level == resistance_level_of(data@),
{
    // Present if bit 5 of Flags field is set to 1
    if !is_resistance_present(data) {
        return None;
    }
    let data_index = get_data_index(data, IndoorBikeDataType::ResistanceLevel);
    Some(data[data_index])
}

// Instantaneous Power
// Data type: i16
// Size (octets): 0 or 2
pub fn get_power(data: &Vec<u8>) -> (power: Option<i16>)
    requires
        holds_field(data@, IndoorBikeDataType::Power),
    ensures
        power == power_of(data@),
{
    // Present if bit 6 of Flags field is set to 1
    if !is_power_present(data) {
        return None;
    }
    let data_index = get_data_index(data, IndoorBikeDataType::Power);
    let power = combine_u8_to_u16(data[data_index], data[data_index + 1]);

    // Watts
    Some(u16_to_i16(power))
}

/// The offset of a field in the payload. Every field before it in the fixed
/// order moves it back by its size, where the flags say it is present.
pub fn get_data_index(data: &Vec<u8>, data_type: IndoorBikeDataType) -> (index: usize)
    requires
        data@.len() >= 2,
    ensures
        index == data_index(flags_of(data@), data_type),
        index <= 14,
{
    let mut index: usize = FLAGS_SIZE;
    if data_type == IndoorBikeDataType::Speed {
        return index;
    }
    if is_speed_present(data) {
        index += INSTANTANEOUS_SPEED_SIZE;
    }
    if data_type == IndoorBikeDataType::AverageSpeed {
        return index;
    }
    if is_ave_speed_present(data) {
        index += AVERAGE_SPEED_SIZE;
    }
    if data_type == IndoorBikeDataType::Cadence {
        return index;
    }
    if is_cadence_present(data) {
        index += INSTANTANEOUS_CADENCE_SIZE;
    }
    if data_type == IndoorBikeDataType::AverageCadence {
        return index;
    }
    if is_ave_cadence_present(data) {
        index += AVERAGE_CADENCE_SIZE;
    }
    if data_type == IndoorBikeDataType::Distance {
        return index;
    }
    if is_distance_present(data) {
        index += TOTAL_DISTANCE_SIZE;
    }
    if data_type == IndoorBikeDataType::ResistanceLevel {
        return index;
    }
    if is_resistance_present(data) {
        index += RESISTANCE_LEVEL_SIZE;
    }
    index
}

/// Whether the payload carries the instantaneous speed: bit 0 of the flags
/// is clear.
pub fn is_speed_present(data: &Vec<u8>) -> (present: bool)
    requires
        data@.len() >= 2,
    ensures
        present == IndoorBikeDataType::Speed.present_in(flags_of(data@)),
{
    let flags = get_flags(data);
    !flag_is_set(flags, MORE_DATA)
}

/// Whether the payload carries the average speed: bit 1 of the flags is set.
pub fn is_ave_speed_present(data: &Vec<u8>) -> (present: bool)
    requires
        data@.len() >= 2,
    ensures
        present == IndoorBikeDataType::AverageSpeed.present_in(flags_of(data@)),
{
    let flags = get_flags(data);
    flag_is_set(flags, AVERAGE_SPEED_PRESENT)
}

/// Whether the payload carries the instantaneous cadence: bit 2 of the flags
/// is set.
pub fn is_cadence_present(data: &Vec<u8>) -> (present: bool)
    requires
        data@.len() >= 2,
    ensures
        present == IndoorBikeDataType::Cadence.present_in(flags_of(data@)),
{
    let flags = get_flags(data);
    flag_is_set(flags, INSTANTANEOUS_CADENCE_PRESENT)
}

/// Whether the payload carries the average cadence: bit 3 of the flags is
/// set.
pub fn is_ave_cadence_present(data: &Vec<u8>) -> (present: bool)
    requires
        data@.len() >= 2,
    ensures
        present == IndoorBikeDataType::AverageCadence.present_in(flags_of(data@)),
{
    let flags = get_flags(data);
    flag_is_set(flags, AVERAGE_CADENCE_PRESENT)
}

/// Whether the payload carries the total distance: bit 4 of the flags is set.
pub fn is_distance_present(data: &Vec<u8>) -> (present: bool)
    requires
        data@.len() >= 2,
    ensures
        present == IndoorBikeDataType::Distance.present_in(flags_of(data@)),
{
    let flags = get_flags(data);
    flag_is_set(flags, TOTAL_DISTANCE_PRESENT)
}

/// Whether the payload carries the resistance level: bit 5 of the flags is
/// set.
pub fn is_resistance_present(data: &Vec<u8>) -> (present: bool)
    requires
        data@.len() >= 2,
    ensures
        present == IndoorBikeDataType::ResistanceLevel.present_in(flags_of(data@)),
{
    let flags = get_flags(data);
    flag_is_set(flags, RESISTANCE_LEVEL_PRESENT)
}

/// Whether the payload carries the instantaneous power: bit 6 of the flags is
/// set.
pub fn is_power_present(data: &Vec<u8>) -> (present: bool)
    requires
        data@.len() >= 2,
    ensures
        present == IndoorBikeDataType::Power.present_in(flags_of(data@)),
{
    let flags = get_flags(data);
    flag_is_set(flags, INSTANTANEOUS_POWER_PRESENT)
}

// Flags field
// 0 - More data
// 1 - Average speed present
// 2 - Instantaneous cadence present
pub fn get_flags(data: &Vec<u8>) -> (flags: u16)
    requires
        data@.len() >= 2,
    ensures
        flags as int == flags_of(data@),
{
    combine_u8_to_u16(data[0], data[1])
}

/// The bytes of a 16-bit field: none where the field is absent.
pub open spec fn optional_u16_bytes(raw: Option<int>) -> Seq<u8> {
    match raw {
        Some(value) => le_bytes_u16(value),
        None => Seq::empty(),
    }
}

impl IndoorBikeData {
    /// A sample without any field.
    pub open spec fn spec_empty() -> IndoorBikeData {
        IndoorBikeData {
            cadence: None,
            speed: None,
            distance: None,
            power: None,
            average_speed: None,
            average_cadence: None,
            resistance_level: None,
        }
    }

    /// A sample without any field.
    pub fn empty() -> (sample: IndoorBikeData)
        ensures
            sample == IndoorBikeData::spec_empty(),
    {
        IndoorBikeData {
            cadence: None,
            speed: None,
            distance: None,
            power: None,
            average_speed: None,
            average_cadence: None,
            resistance_level: None,
        }
    }

    /// Whether every field that is present fits the bytes that a payload has
    /// for it: speeds of at most 655 km/h, cadences of at most 32767 rpm, and
    /// a distance of less than 2^24 m.
    pub open spec fn is_encodable(self) -> bool {
        &&& self.speed matches Some(v) ==> v * 100 <= u16::MAX
        &&& self.average_speed matches Some(v) ==> v * 100 <= u16::MAX
        &&& self.cadence matches Some(v) ==> v * 2 <= u16::MAX
        &&& self.average_cadence matches Some(v) ==> v * 2 <= u16::MAX
        &&& self.distance matches Some(v) ==> v <= MAX_TOTAL_DISTANCE
    }

    /// The flags that announce exactly the fields of this sample.
    pub open spec fn flags(self) -> int {
        (if self.speed is None {
            MORE_DATA as int
        } else {
            0
        }) + (if self.average_speed is Some {
            AVERAGE_SPEED_PRESENT as int
        } else {
            0
        }) + (if self.cadence is Some {
            INSTANTANEOUS_CADENCE_PRESENT as int
        } else {
            0
        }) + (if self.average_cadence is Some {
            AVERAGE_CADENCE_PRESENT as int
        } else {
            0
        }) + (if self.distance is Some {
            TOTAL_DISTANCE_PRESENT as int
        } else {
            0
        }) + (if self.resistance_level is Some {
            RESISTANCE_LEVEL_PRESENT as int
        } else {
            0
        }) + (if self.power is Some {
            INSTANTANEOUS_POWER_PRESENT as int
        } else {
            0
        })
    }

    /// The bytes of the instantaneous speed, in hundredths of a km/h.
    pub open spec fn speed_bytes(self) -> Seq<u8> {
        optional_u16_bytes(
            match self.speed {
                Some(v) => Some(v * 100),
                None => None,
            },
        )
    }

    /// The bytes of the average speed, in hundredths of a km/h.
    pub open spec fn average_speed_bytes(self) -> Seq<u8> {
        optional_u16_bytes(
            match self.average_speed {
                Some(v) => Some(v * 100),
                None => None,
            },
        )
    }

    /// The bytes of the instantaneous cadence, in halves of an rpm.
    pub open spec fn cadence_bytes(self) -> Seq<u8> {
        optional_u16_bytes(
            match self.cadence {
                Some(v) => Some(v * 2),
                None => None,
            },
        )
    }

    /// The bytes of the average cadence, in halves of an rpm.
    pub open spec fn average_cadence_bytes(self) -> Seq<u8> {
        optional_u16_bytes(
            match self.average_cadence {
                Some(v) => Some(v * 2),
                None => None,
            },
        )
    }

    /// The bytes of the total distance, in metres.
    pub open spec fn distance_bytes(self) -> Seq<u8> {
        match self.distance {
            Some(v) => le_bytes_u24(v as int),
            None => Seq::empty(),
        }
    }

    /// The byte of the resistance level.
    pub open spec fn resistance_level_bytes(self) -> Seq<u8> {
        match self.resistance_level {
            Some(v) => seq![v],
            None => Seq::empty(),
        }
    }

    /// The bytes of the instantaneous power, in watts, in two's complement.
    pub open spec fn power_bytes(self) -> Seq<u8> {
        optional_u16_bytes(
            match self.power {
                Some(v) => Some(twos_complement_u16(v)),
                None => None,
            },
        )
    }

    /// The payload that carries this sample: the flags, then each field that
    /// is present, in the fixed order, in its raw unit.
    pub open spec fn encoding(self) -> Seq<u8> {
        le_bytes_u16(self.flags()) + self.speed_bytes() + self.average_speed_bytes()
            + self.cadence_bytes() + self.average_cadence_bytes() + self.distance_bytes()
            + self.resistance_level_bytes() + self.power_bytes()
    }
}

/// The flags of a sample announce exactly its fields, and no others.
pub proof fn lemma_flags_announce_fields(sample: IndoorBikeData)
    ensures
        0 <= sample.flags() < 128,
        IndoorBikeDataType::Speed.present_in(sample.flags()) <==> sample.speed is Some,
        IndoorBikeDataType::AverageSpeed.present_in(sample.flags()) <==> sample.average_speed
            is Some,
        IndoorBikeDataType::Cadence.present_in(sample.flags()) <==> sample.cadence is Some,
        IndoorBikeDataType::AverageCadence.present_in(sample.flags()) <==> sample.average_cadence
            is Some,
        IndoorBikeDataType::Distance.present_in(sample.flags()) <==> sample.distance is Some,
        IndoorBikeDataType::ResistanceLevel.present_in(sample.flags()) <==> sample.resistance_level
            is Some,
        IndoorBikeDataType::Power.present_in(sample.flags()) <==> sample.power is Some,
{
    let b0: int = if sample.speed is None { 1 } else { 0 };
    let b1: int = if sample.average_speed is Some { 1 } else { 0 };
    let b2: int = if sample.cadence is Some { 1 } else { 0 };
    let b3: int = if sample.average_cadence is Some { 1 } else { 0 };
    let b4: int = if sample.distance is Some { 1 } else { 0 };
    let b5: int = if sample.resistance_level is Some { 1 } else { 0 };
    let b6: int = if sample.power is Some { 1 } else { 0 };
    assert(sample.flags() == b0 + 2 * b1 + 4 * b2 + 8 * b3 + 16 * b4 + 32 * b5 + 64 * b6);
    lemma_flag_of_sum(0, b0, b1 + 2 * b2 + 4 * b3 + 8 * b4 + 16 * b5 + 32 * b6, 1);
    lemma_flag_of_sum(b0, b1, b2 + 2 * b3 + 4 * b4 + 8 * b5 + 16 * b6, 2);
    lemma_flag_of_sum(b0 + 2 * b1, b2, b3 + 2 * b4 + 4 * b5 + 8 * b6, 4);
    lemma_flag_of_sum(b0 + 2 * b1 + 4 * b2, b3, b4 + 2 * b5 + 4 * b6, 8);
    lemma_flag_of_sum(b0 + 2 * b1 + 4 * b2 + 8 * b3, b4, b5 + 2 * b6, 16);
    lemma_flag_of_sum(b0 + 2 * b1 + 4 * b2 + 8 * b3 + 16 * b4, b5, b6, 32);
    lemma_flag_of_sum(b0 + 2 * b1 + 4 * b2 + 8 * b3 + 16 * b4 + 32 * b5, b6, 0, 64);
}

/// Where each of eight runs of bytes lies in their concatenation.
#[verifier::rlimit(40)]
proof fn lemma_concatenation(
    header: Seq<u8>,
    s1: Seq<u8>,
    s2: Seq<u8>,
    s3: Seq<u8>,
    s4: Seq<u8>,
    s5: Seq<u8>,
    s6: Seq<u8>,
    s7: Seq<u8>,
)
    ensures
        ({
            let data = header + s1 + s2 + s3 + s4 + s5 + s6 + s7;
            let i1 = header.len();
            let i2 = i1 + s1.len();
            let i3 = i2 + s2.len();
            let i4 = i3 + s3.len();
            let i5 = i4 + s4.len();
            let i6 = i5 + s5.len();
            let i7 = i6 + s6.len();
            &&& data.len() == i7 + s7.len()
            &&& forall|j: int| 0 <= j < header.len() ==> data[j] == #[trigger] header[j]
            &&& forall|j: int| 0 <= j < s1.len() ==> data[i1 + j] == #[trigger] s1[j]
            &&& forall|j: int| 0 <= j < s2.len() ==> data[i2 + j] == #[trigger] s2[j]
            &&& forall|j: int| 0 <= j < s3.len() ==> data[i3 + j] == #[trigger] s3[j]
            &&& forall|j: int| 0 <= j < s4.len() ==> data[i4 + j] == #[trigger] s4[j]
            &&& forall|j: int| 0 <= j < s5.len() ==> data[i5 + j] == #[trigger] s5[j]
            &&& forall|j: int| 0 <= j < s6.len() ==> data[i6 + j] == #[trigger] s6[j]
            &&& forall|j: int| 0 <= j < s7.len() ==> data[i7 + j] == #[trigger] s7[j]
        }),
{
}

/// Each field of a sample takes as many bytes of the payload as the flags of
/// the sample say.
proof fn lemma_field_lengths(sample: IndoorBikeData)
    ensures
        sample.speed_bytes().len() == IndoorBikeDataType::Speed.occupied(sample.flags()),
        sample.average_speed_bytes().len() == IndoorBikeDataType::AverageSpeed.occupied(
            sample.flags(),
        ),
        sample.cadence_bytes().len() == IndoorBikeDataType::Cadence.occupied(sample.flags()),
        sample.average_cadence_bytes().len() == IndoorBikeDataType::AverageCadence.occupied(
            sample.flags(),
        ),
        sample.distance_bytes().len() == IndoorBikeDataType::Distance.occupied(sample.flags()),
        sample.resistance_level_bytes().len() == IndoorBikeDataType::ResistanceLevel.occupied(
            sample.flags(),
        ),
        sample.power_bytes().len() == IndoorBikeDataType::Power.occupied(sample.flags()),
{
    lemma_flags_announce_fields(sample);
}

/// In the payload of a sample each field starts where the flags of the
/// sample place it, and the payload ends with the last field.
#[verifier::rlimit(40)]
proof fn lemma_layout(sample: IndoorBikeData)
    ensures
        sample.encoding().len() == required_len(sample.flags()),
        flags_of(sample.encoding()) == sample.flags(),
        forall|j: int|
            0 <= j < sample.speed_bytes().len() ==> sample.encoding()[data_index(
                sample.flags(),
                IndoorBikeDataType::Speed,
            ) + j] == #[trigger] sample.speed_bytes()[j],
        forall|j: int|
            0 <= j < sample.average_speed_bytes().len() ==> sample.encoding()[data_index(
                sample.flags(),
                IndoorBikeDataType::AverageSpeed,
            ) + j] == #[trigger] sample.average_speed_bytes()[j],
        forall|j: int|
            0 <= j < sample.cadence_bytes().len() ==> sample.encoding()[data_index(
                sample.flags(),
                IndoorBikeDataType::Cadence,
            ) + j] == #[trigger] sample.cadence_bytes()[j],
        forall|j: int|
            0 <= j < sample.average_cadence_bytes().len() ==> sample.encoding()[data_index(
                sample.flags(),
                IndoorBikeDataType::AverageCadence,
            ) + j] == #[trigger] sample.average_cadence_bytes()[j],
        forall|j: int|
            0 <= j < sample.distance_bytes().len() ==> sample.encoding()[data_index(
                sample.flags(),
                IndoorBikeDataType::Distance,
            ) + j] == #[trigger] sample.distance_bytes()[j],
        forall|j: int|
            0 <= j < sample.resistance_level_bytes().len() ==> sample.encoding()[data_index(
                sample.flags(),
                IndoorBikeDataType::ResistanceLevel,
            ) + j] == #[trigger] sample.resistance_level_bytes()[j],
        forall|j: int|
            0 <= j < sample.power_bytes().len() ==> sample.encoding()[data_index(
                sample.flags(),
                IndoorBikeDataType::Power,
            ) + j] == #[trigger] sample.power_bytes()[j],
{
    lemma_flags_announce_fields(sample);
    lemma_field_lengths(sample);
    let flags = sample.flags();
    let header = le_bytes_u16(flags);
    lemma_concatenation(
        header,
        sample.speed_bytes(),
        sample.average_speed_bytes(),
        sample.cadence_bytes(),
        sample.average_cadence_bytes(),
        sample.distance_bytes(),
        sample.resistance_level_bytes(),
        sample.power_bytes(),
    );
    assert(sample.encoding()[0] == header[0] && sample.encoding()[1] == header[1]);
}

/// Decoding the payload that carries a sample gives the sample back, whatever
/// fields it holds.
#[verifier::rlimit(40)]
pub proof fn lemma_decode_inverts_encode(sample: IndoorBikeData)
    requires
        sample.is_encodable(),
    ensures
        indoor_bike_data_of(sample.encoding()) == Ok::<IndoorBikeData, Error>(sample),
{
    lemma_flags_announce_fields(sample);
    lemma_layout(sample);
    let flags = sample.flags();
    let data = sample.encoding();
    assert(is_complete(data));
    assert(speed_of(data) == sample.speed) by {
        if let Some(v) = sample.speed {
            let bytes = sample.speed_bytes();
            let at = data_index(flags, IndoorBikeDataType::Speed) as int;
            lemma_le_bytes_u16(v * 100);
            assert(data[at + 0] == bytes[0] && data[at + 1] == bytes[1]);
        }
    }
    assert(average_speed_of(data) == sample.average_speed) by {
        if let Some(v) = sample.average_speed {
            let bytes = sample.average_speed_bytes();
            let at = data_index(flags, IndoorBikeDataType::AverageSpeed) as int;
            lemma_le_bytes_u16(v * 100);
            assert(data[at + 0] == bytes[0] && data[at + 1] == bytes[1]);
        }
    }
    assert(cadence_of(data) == sample.cadence) by {
        if let Some(v) = sample.cadence {
            let bytes = sample.cadence_bytes();
            let at = data_index(flags, IndoorBikeDataType::Cadence) as int;
            lemma_le_bytes_u16(v * 2);
            assert(data[at + 0] == bytes[0] && data[at + 1] == bytes[1]);
        }
    }
    assert(average_cadence_of(data) == sample.average_cadence) by {
        if let Some(v) = sample.average_cadence {
            let bytes = sample.average_cadence_bytes();
            let at = data_index(flags, IndoorBikeDataType::AverageCadence) as int;
            lemma_le_bytes_u16(v * 2);
            assert(data[at + 0] == bytes[0] && data[at + 1] == bytes[1]);
        }
    }
    assert(distance_of(data) == sample.distance) by {
        if let Some(v) = sample.distance {
            let bytes = sample.distance_bytes();
            let at = data_index(flags, IndoorBikeDataType::Distance) as int;
            lemma_le_bytes_u24(v as int);
            assert(data[at + 0] == bytes[0] && data[at + 1] == bytes[1] && data[at + 2]
                == bytes[2]);
        }
    }
    assert(resistance_level_of(data) == sample.resistance_level) by {
        if let Some(v) = sample.resistance_level {
            let bytes = sample.resistance_level_bytes();
            let at = data_index(flags, IndoorBikeDataType::ResistanceLevel) as int;
            assert(data[at + 0] == bytes[0]);
        }
    }
    assert(power_of(data) == sample.power) by {
        if let Some(v) = sample.power {
            let bytes = sample.power_bytes();
            let at = data_index(flags, IndoorBikeDataType::Power) as int;
            lemma_le_bytes_u16(twos_complement_u16(v));
            assert(data[at + 0] == bytes[0] && data[at + 1] == bytes[1]);
        }
    }
}

/// Appends a 16-bit value to a payload, low byte first.
fn push_u16(payload: &mut Vec<u8>, raw: u16)
    ensures
        final(payload)@ == old(payload)@ + le_bytes_u16(raw as int),
{
    payload.push((raw % 256) as u8);
    payload.push((raw / 256) as u8);
}

/// Appends a field of two bytes in units of one `resolution`-th, where the
/// sample has it.
fn push_scaled(payload: &mut Vec<u8>, value: Option<u16>, resolution: u16)
    requires
        value matches Some(v) ==> v * resolution <= u16::MAX,
    ensures
        final(payload)@ == old(payload)@ + optional_u16_bytes(
            match value {
                Some(v) => Some(v * resolution),
                None => None,
            },
        ),
{
    match value {
        Some(v) => {
            assert(v * resolution <= u16::MAX);
            push_u16(payload, v * resolution);
        },
        None => {
            assert(payload@ == old(payload)@ + Seq::<u8>::empty());
        },
    }
}

/// Appends the three bytes of the distance, where the sample has it.
fn push_distance(payload: &mut Vec<u8>, sample: &IndoorBikeData)
    requires
        sample.is_encodable(),
    ensures
        final(payload)@ == old(payload)@ + sample.distance_bytes(),
{
    match sample.distance {
        Some(v) => {
            payload.push((v % 256) as u8);
            payload.push(((v / 256) % 256) as u8);
            payload.push((v / 65536) as u8);
            assert(payload@ == old(payload)@ + le_bytes_u24(v as int));
        },
        None => {
            assert(payload@ == old(payload)@ + Seq::<u8>::empty());
        },
    }
}

/// Appends the byte of the resistance level, where the sample has it.
fn push_resistance_level(payload: &mut Vec<u8>, sample: &IndoorBikeData)
    ensures
        final(payload)@ == old(payload)@ + sample.resistance_level_bytes(),
{
    match sample.resistance_level {
        Some(v) => {
            payload.push(v);
            assert(payload@ == old(payload)@ + seq![v]);
        },
        None => {
            assert(payload@ == old(payload)@ + Seq::<u8>::empty());
        },
    }
}

/// Appends the two bytes of the power, where the sample has it.
fn push_power(payload: &mut Vec<u8>, sample: &IndoorBikeData)
    ensures
        final(payload)@ == old(payload)@ + sample.power_bytes(),
{
    match sample.power {
        Some(v) => {
            let bytes = convert_i16_to_u8(v);
            payload.push(bytes[0]);
            payload.push(bytes[1]);
            assert(payload@ == old(payload)@ + le_bytes_u16(twos_complement_u16(v)));
        },
        None => {
            assert(payload@ == old(payload)@ + Seq::<u8>::empty());
        },
    }
}

/// Whether every field of the sample fits the bytes that a payload has for
/// it.
pub fn can_encode(sample: &IndoorBikeData) -> (fits: bool)
    ensures
        fits == sample.is_encodable(),
{
    let speed_fits = match sample.speed {
        Some(v) => v <= u16::MAX / SPEED_RESOLUTION,
        None => true,
    };
    let average_speed_fits = match sample.average_speed {
        Some(v) => v <= u16::MAX / SPEED_RESOLUTION,
        None => true,
    };
    let cadence_fits = match sample.cadence {
        Some(v) => v <= u16::MAX / CADENCE_RESOLUTION,
        None => true,
    };
    let average_cadence_fits = match sample.average_cadence {
        Some(v) => v <= u16::MAX / CADENCE_RESOLUTION,
        None => true,
    };
    let distance_fits = match sample.distance {
        Some(v) => v <= MAX_TOTAL_DISTANCE,
        None => true,
    };
    speed_fits && average_speed_fits && cadence_fits && average_cadence_fits && distance_fits
}

/// The flags that announce the fields of the sample.
pub fn get_sample_flags(sample: &IndoorBikeData) -> (flags: u16)
    ensures
        flags as int == sample.flags(),
{
    let b0: u16 = if sample.speed.is_none() { MORE_DATA } else { 0 };
    let b1: u16 = if sample.average_speed.is_some() { AVERAGE_SPEED_PRESENT } else { 0 };
    let b2: u16 = if sample.cadence.is_some() { INSTANTANEOUS_CADENCE_PRESENT } else { 0 };
    let b3: u16 = if sample.average_cadence.is_some() { AVERAGE_CADENCE_PRESENT } else { 0 };
    let b4: u16 = if sample.distance.is_some() { TOTAL_DISTANCE_PRESENT } else { 0 };
    let b5: u16 = if sample.resistance_level.is_some() { RESISTANCE_LEVEL_PRESENT } else { 0 };
    let b6: u16 = if sample.power.is_some() { INSTANTANEOUS_POWER_PRESENT } else { 0 };
    b0 + b1 + b2 + b3 + b4 + b5 + b6
}

/// Encodes a sample as an Indoor Bike Data payload, or nothing where one of
/// its fields does not fit the bytes that the payload has for it.
pub fn encode_indoor_bike_data(sample: &IndoorBikeData) -> (payload: Option<Vec<u8>>)
    ensures
        payload is Some <==> sample.is_encodable(),
        payload matches Some(bytes) ==> bytes@ == sample.encoding(),
        payload matches Some(bytes) ==> indoor_bike_data_of(bytes@) == Ok::<IndoorBikeData, Error>(
            *sample,
        ),
{
    if !can_encode(sample) {
        return None;
    }
    let mut payload: Vec<u8> = Vec::new();
    push_u16(&mut payload, get_sample_flags(sample));
    assert(payload@ == le_bytes_u16(sample.flags()));
    push_scaled(&mut payload, sample.speed, SPEED_RESOLUTION);
    push_scaled(&mut payload, sample.average_speed, SPEED_RESOLUTION);
    push_scaled(&mut payload, sample.cadence, CADENCE_RESOLUTION);
    push_scaled(&mut payload, sample.average_cadence, CADENCE_RESOLUTION);
    push_distance(&mut payload, sample);
    push_resistance_level(&mut payload, sample);
    push_power(&mut payload, sample);
    proof {
        lemma_decode_inverts_encode(*sample);
    }
    Some(payload)
}

} // verus!
