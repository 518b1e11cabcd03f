//! Classification of devices and of characteristics by their UUIDs.

use crate::ble::bluetooth::DeviceType;
use crate::ble::constants::{
    CYCLING_POWER_MEASUREMENT_UUID, FITNESS_MACHINE_CONTROL_POINT_UUID,
    FITNESS_MACHINE_SERVICE_UUID, FITNESS_MACHINE_STATUS_UUID, HEART_RATE_MEASUREMENT_UUID,
    HEART_RATE_SERVICE_UUID, INDOOR_BIKE_DATA_UUID,
};
use crate::ble::event_handlers::Characteristic;
use vstd::prelude::*;

verus! {

/// The role of a device that offers this set of services: a heart rate
/// monitor if it offers the Heart Rate Service and not the Fitness Machine
/// Service, a smart trainer if it offers the second and not the first, and a
/// generic device if it offers both or neither.
pub open spec fn classify(services: Set<u128>) -> DeviceType {
    let is_heart_rate = services.contains(HEART_RATE_SERVICE_UUID);
    let is_smart_trainer = services.contains(FITNESS_MACHINE_SERVICE_UUID);
    if is_heart_rate && !is_smart_trainer {
        DeviceType::HeartRate
    } else if !is_heart_rate && is_smart_trainer {
        DeviceType::SmartTrainer
    } else {
        DeviceType::Generic
    }
}

/// The characteristic with this UUID.
pub open spec fn characteristic_of(uuid: u128) -> Characteristic {
    if uuid == CYCLING_POWER_MEASUREMENT_UUID {
        Characteristic::CyclingPowerMeasurement
    } else if uuid == HEART_RATE_MEASUREMENT_UUID {
        Characteristic::HeartRateMeasurement
    } else if uuid == INDOOR_BIKE_DATA_UUID {
        Characteristic::IndoorBikeData
    } else if uuid == FITNESS_MACHINE_CONTROL_POINT_UUID {
        Characteristic::FitnessMachineControlPoint
    } else if uuid == FITNESS_MACHINE_STATUS_UUID {
        Characteristic::FitnessMachineStatus
    } else {
        Characteristic::Unknown
    }
}

/// Whether `uuid` is among `uuids`.
pub fn contains_uuid(uuids: &Vec<u128>, uuid: u128) -> (found: bool)
    ensures
        found == uuids@.contains(uuid),
{
    let mut i: usize = 0;
    while i < uuids.len()
        invariant
            i <= uuids.len(),
            forall|j: int| 0 <= j < i ==> uuids@[j] != uuid,
        decreases uuids.len() - i,
    {
        if uuids[i] == uuid {
            return true;
        }
        i += 1;
    }
    false
}

/// Classifies a device by the services it offers. Classification is total:
/// every list of services has a role.
pub fn get_device_type(services: Vec<u128>) -> (device_type: DeviceType)
    ensures
        device_type == classify(services@.to_set()),
{
    let is_heart_rate = contains_uuid(&services, HEART_RATE_SERVICE_UUID);
    let is_smart_trainer = contains_uuid(&services, FITNESS_MACHINE_SERVICE_UUID);

    match (is_heart_rate, is_smart_trainer) {
        (true, false) => DeviceType::HeartRate,
        (false, true) => DeviceType::SmartTrainer,
        _ => DeviceType::Generic,
    }
}

/// Tells which characteristic a UUID stands for; the unknown one where the
/// engine does not know the UUID.
pub fn get_uuid_characteristic(uuid: u128) -> (characteristic: Characteristic)
    ensures
        characteristic == characteristic_of(uuid),
{
    if uuid == CYCLING_POWER_MEASUREMENT_UUID {
        Characteristic::CyclingPowerMeasurement
    } else if uuid == HEART_RATE_MEASUREMENT_UUID {
        Characteristic::HeartRateMeasurement
    } else if uuid == INDOOR_BIKE_DATA_UUID {
        Characteristic::IndoorBikeData
    } else if uuid == FITNESS_MACHINE_CONTROL_POINT_UUID {
        Characteristic::FitnessMachineControlPoint
    } else if uuid == FITNESS_MACHINE_STATUS_UUID {
        Characteristic::FitnessMachineStatus
    } else {
        Characteristic::Unknown
    }
}

/// A characteristic that the engine knows is found again from its UUID.
pub proof fn lemma_characteristic_of_uuid(characteristic: Characteristic)
    requires
        characteristic != Characteristic::Unknown,
    ensures
        characteristic.spec_uuid() matches Some(uuid) && characteristic_of(uuid)
            == characteristic,
{
}

} // verus!
