use cycling_trainer::ble::bluetooth::DeviceType;
use cycling_trainer::ble::constants::{
    uuid_from_u32, CYCLING_POWER_MEASUREMENT_UUID, CYCLING_POWER_SERVICE_UUID,
    FITNESS_MACHINE_CONTROL_POINT_UUID, FITNESS_MACHINE_SERVICE_UUID,
    FITNESS_MACHINE_STATUS_UUID, HEART_RATE_MEASUREMENT_UUID, HEART_RATE_SERVICE_UUID,
    INDOOR_BIKE_DATA_UUID,
};
use cycling_trainer::ble::event_handlers::{Characteristic, CharacteristicAction};
use cycling_trainer::utils::bluetooth_utils::{
    contains_uuid, get_device_type, get_uuid_characteristic,
};

#[test]
fn heart_rate_service_alone_is_a_heart_rate_monitor() {
    assert_eq!(get_device_type(vec![uuid_from_u32(0x180D)]), DeviceType::HeartRate);
}

#[test]
fn fitness_machine_service_alone_is_a_smart_trainer() {
    assert_eq!(get_device_type(vec![uuid_from_u32(0x1826)]), DeviceType::SmartTrainer);
}

#[test]
fn both_services_are_a_generic_device() {
    assert_eq!(
        get_device_type(vec![uuid_from_u32(0x180D), uuid_from_u32(0x1826)]),
        DeviceType::Generic
    );
    assert_eq!(
        get_device_type(vec![uuid_from_u32(0x1826), uuid_from_u32(0x180D)]),
        DeviceType::Generic
    );
}

#[test]
fn no_service_is_a_generic_device() {
    assert_eq!(get_device_type(vec![]), DeviceType::Generic);
}

#[test]
fn other_services_do_not_change_the_role() {
    assert_eq!(get_device_type(vec![CYCLING_POWER_SERVICE_UUID]), DeviceType::Generic);
    assert_eq!(
        get_device_type(vec![CYCLING_POWER_SERVICE_UUID, HEART_RATE_SERVICE_UUID, 42]),
        DeviceType::HeartRate
    );
    assert_eq!(
        get_device_type(vec![
            CYCLING_POWER_SERVICE_UUID,
            FITNESS_MACHINE_SERVICE_UUID,
            FITNESS_MACHINE_SERVICE_UUID
        ]),
        DeviceType::SmartTrainer
    );
    // The short number alone is not the UUID of the service.
    assert_eq!(get_device_type(vec![0x180D]), DeviceType::Generic);
}

#[test]
fn contains_uuid_finds_what_is_there() {
    assert!(contains_uuid(&vec![1, 2, 3], 3));
    assert!(contains_uuid(&vec![1, 2, 3], 1));
    assert!(!contains_uuid(&vec![1, 2, 3], 4));
    assert!(!contains_uuid(&vec![], 0));
}

#[test]
fn characteristics_are_known_by_their_uuid() {
    assert_eq!(
        get_uuid_characteristic(CYCLING_POWER_MEASUREMENT_UUID),
        Characteristic::CyclingPowerMeasurement
    );
    assert_eq!(
        get_uuid_characteristic(HEART_RATE_MEASUREMENT_UUID),
        Characteristic::HeartRateMeasurement
    );
    assert_eq!(get_uuid_characteristic(INDOOR_BIKE_DATA_UUID), Characteristic::IndoorBikeData);
    assert_eq!(
        get_uuid_characteristic(FITNESS_MACHINE_CONTROL_POINT_UUID),
        Characteristic::FitnessMachineControlPoint
    );
    assert_eq!(
        get_uuid_characteristic(FITNESS_MACHINE_STATUS_UUID),
        Characteristic::FitnessMachineStatus
    );
    assert_eq!(get_uuid_characteristic(HEART_RATE_SERVICE_UUID), Characteristic::Unknown);
    assert_eq!(get_uuid_characteristic(0), Characteristic::Unknown);
}

#[test]
fn a_known_characteristic_is_found_again_from_its_uuid() {
    let known = [
        Characteristic::CyclingPowerMeasurement,
        Characteristic::HeartRateMeasurement,
        Characteristic::IndoorBikeData,
        Characteristic::FitnessMachineControlPoint,
        Characteristic::FitnessMachineStatus,
    ];
    for characteristic in known {
        let uuid = characteristic.uuid().unwrap();
        assert_eq!(get_uuid_characteristic(uuid), characteristic);
    }
    assert_eq!(Characteristic::Unknown.uuid(), None);
}

#[test]
fn roles_and_actions_have_names() {
    assert_eq!(DeviceType::HeartRate.to_string(), "heart_rate");
    assert_eq!(DeviceType::SmartTrainer.to_string(), "smart_trainer");
    assert_eq!(DeviceType::Generic.to_string(), "generic");
    assert_eq!(DeviceType::from_name("heart_rate"), DeviceType::HeartRate);
    assert_eq!(DeviceType::from_name("smart_trainer"), DeviceType::SmartTrainer);
    assert_eq!(DeviceType::from_name("generic"), DeviceType::Generic);
    assert_eq!(DeviceType::from_name("anything"), DeviceType::Generic);
    assert_eq!(CharacteristicAction::Subscribe.to_string(), "Subscribe");
    assert_eq!(CharacteristicAction::Unsubscribe.to_string(), "Unsubscribe");
}
