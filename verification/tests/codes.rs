use cycling_trainer::ble::constants::{
    uuid_from_u16, uuid_from_u32, FTMSControlOpCode, FTMSControlResultCode, FTMSStatusCode,
    SpinDownControl, SpinDownStatus, StopControl, BLUETOOTH_BASE_UUID,
    CYCLING_POWER_MEASUREMENT_UUID, CYCLING_POWER_SERVICE_UUID,
    FITNESS_MACHINE_CONTROL_POINT_UUID, FITNESS_MACHINE_SERVICE_UUID,
    FITNESS_MACHINE_STATUS_UUID, FTMS_RESPONSE_CODE, HEART_RATE_MEASUREMENT_UUID,
    HEART_RATE_SERVICE_UUID, INDOOR_BIKE_DATA_UUID, SPEED_CADENCE_SERVICE_UUID,
};
use cycling_trainer::error::Error;
use cycling_trainer::utils::code_values::{
    convert_u8_to_ftms_control_op_code_enum, convert_u8_to_ftms_control_result_code_enum,
    convert_u8_to_ftms_status_code_enum, convert_u8_to_spin_down_status_code_enum,
    convert_u8_to_stop_control_code_enum,
};

#[test]
fn short_uuids_expand_on_the_bluetooth_base() {
    assert_eq!(uuid_from_u32(0), BLUETOOTH_BASE_UUID);
    assert_eq!(
        uuid_from_u32(0x11223344),
        uuid::Uuid::parse_str("11223344-0000-1000-8000-00805f9b34fb").unwrap().as_u128()
    );
    assert_eq!(
        uuid_from_u16(0x1122),
        uuid::Uuid::parse_str("00001122-0000-1000-8000-00805f9b34fb").unwrap().as_u128()
    );
    assert_eq!(uuid_from_u32(u32::MAX), 0xffffffff_0000_1000_8000_00805f9b34fb);
}

#[test]
fn short_uuids_expand_as_the_host_stack_expands_them() {
    for short in [0u32, 1, 0x180D, 0x1826, 0x2AD2, 0xFFFF, 0x1_0000, 0x1234_5678, u32::MAX] {
        assert_eq!(uuid_from_u32(short), btleplug::api::bleuuid::uuid_from_u32(short).as_u128());
    }
    for short in [0u16, 0x180D, 0x2A37, u16::MAX] {
        assert_eq!(uuid_from_u16(short), btleplug::api::bleuuid::uuid_from_u16(short).as_u128());
    }
}

#[test]
fn uuid_constants_are_the_assigned_numbers() {
    assert_eq!(HEART_RATE_SERVICE_UUID, uuid_from_u32(0x180D));
    assert_eq!(HEART_RATE_MEASUREMENT_UUID, uuid_from_u32(0x2A37));
    assert_eq!(SPEED_CADENCE_SERVICE_UUID, uuid_from_u32(0x1816));
    assert_eq!(FITNESS_MACHINE_SERVICE_UUID, uuid_from_u32(0x1826));
    assert_eq!(INDOOR_BIKE_DATA_UUID, uuid_from_u32(0x2AD2));
    assert_eq!(FITNESS_MACHINE_CONTROL_POINT_UUID, uuid_from_u32(0x2AD9));
    assert_eq!(FITNESS_MACHINE_STATUS_UUID, uuid_from_u32(0x2ADA));
    assert_eq!(CYCLING_POWER_SERVICE_UUID, uuid_from_u32(0x1818));
    assert_eq!(CYCLING_POWER_MEASUREMENT_UUID, uuid_from_u32(0x2A63));
}

#[test]
fn control_op_codes_have_their_wire_values() {
    assert_eq!(FTMSControlOpCode::RequestControl.code(), 0x00);
    assert_eq!(FTMSControlOpCode::TargetPower.code(), 0x05);
    assert_eq!(FTMSControlOpCode::Start.code(), 0x07);
    assert_eq!(FTMSControlOpCode::Stop.code(), 0x08);
    assert_eq!(FTMSControlOpCode::SpinDownControl.code(), 0x13);
    assert_eq!(FTMSControlOpCode::TargetCadence.code(), 0x14);
    assert_eq!(FTMS_RESPONSE_CODE, 0x80);
}

#[test]
fn result_codes_have_their_wire_values() {
    assert_eq!(FTMSControlResultCode::Success.code(), 1);
    assert_eq!(FTMSControlResultCode::OpCodeNotSupported.code(), 2);
    assert_eq!(FTMSControlResultCode::InvalidParameter.code(), 3);
    assert_eq!(FTMSControlResultCode::OperationFailed.code(), 4);
    assert_eq!(FTMSControlResultCode::ControlNotPermitted.code(), 5);
}

#[test]
fn status_codes_have_their_wire_values() {
    assert_eq!(FTMSStatusCode::StoppedOrPaused.code(), 0x02);
    assert_eq!(FTMSStatusCode::StoppedBySafetyKey.code(), 0x03);
    assert_eq!(FTMSStatusCode::StartedOrResumed.code(), 0x04);
    assert_eq!(FTMSStatusCode::TargetPowerChanged.code(), 0x08);
    assert_eq!(FTMSStatusCode::SpinDownStatus.code(), 0x14);
    assert_eq!(FTMSStatusCode::TargetCadenceChanged.code(), 0x15);
    assert_eq!(FTMSStatusCode::ControlPermissionLost.code(), 0xFF);
}

#[test]
fn parameter_codes_have_their_wire_values() {
    assert_eq!(SpinDownControl::Start.code(), 1);
    assert_eq!(SpinDownControl::Ignore.code(), 2);
    assert_eq!(StopControl::Stop.code(), 1);
    assert_eq!(StopControl::Pause.code(), 2);
    assert_eq!(SpinDownStatus::SpinDownRequested.code(), 1);
    assert_eq!(SpinDownStatus::Success.code(), 2);
    assert_eq!(SpinDownStatus::Error.code(), 3);
    assert_eq!(SpinDownStatus::StopPedaling.code(), 4);
}

#[test]
fn every_byte_is_looked_up_to_its_code_or_to_nothing() {
    for number in 0..=255u8 {
        match convert_u8_to_ftms_control_op_code_enum(number) {
            Some(code) => assert_eq!(code.code(), number),
            None => assert!(![0x00, 0x05, 0x07, 0x08, 0x13, 0x14].contains(&number)),
        }
        match convert_u8_to_ftms_control_result_code_enum(number) {
            Some(code) => assert_eq!(code.code(), number),
            None => assert!(!(1..=5).contains(&number)),
        }
        match convert_u8_to_ftms_status_code_enum(number) {
            Some(code) => assert_eq!(code.code(), number),
            None => assert!(![0x02, 0x03, 0x04, 0x08, 0x14, 0x15, 0xFF].contains(&number)),
        }
        match convert_u8_to_spin_down_status_code_enum(number) {
            Some(code) => assert_eq!(code.code(), number),
            None => assert!(!(1..=4).contains(&number)),
        }
        match convert_u8_to_stop_control_code_enum(number) {
            Some(code) => assert_eq!(code.code(), number),
            None => assert!(!(1..=2).contains(&number)),
        }
    }
}

#[test]
fn the_response_marker_is_no_request_opcode() {
    assert_eq!(convert_u8_to_ftms_control_op_code_enum(0x80), None);
    assert_eq!(convert_u8_to_ftms_control_op_code_enum(0x01), None);
    assert_eq!(convert_u8_to_ftms_status_code_enum(0x00), None);
    assert_eq!(convert_u8_to_spin_down_status_code_enum(0x00), None);
    assert_eq!(convert_u8_to_stop_control_code_enum(0x03), None);
}

#[test]
fn stop_actions_are_named_stop_and_pause() {
    assert_eq!(StopControl::Stop.action(), "stop");
    assert_eq!(StopControl::Pause.action(), "pause");
    assert_eq!(StopControl::from_action("stop"), Some(StopControl::Stop));
    assert_eq!(StopControl::from_action("pause"), Some(StopControl::Pause));
    assert_eq!(StopControl::from_action("Stop"), None);
    assert_eq!(StopControl::from_action(""), None);
    assert_eq!(StopControl::from_action("resume"), None);
}

#[test]
fn every_error_has_a_message() {
    let errors = [
        Error::AdapterUnavailable,
        Error::ScanFailure,
        Error::DeviceNotFound,
        Error::ConnectionFailure,
        Error::SubscriptionFailure,
        Error::WriteFailure,
        Error::ParseError,
        Error::ProtocolError,
        Error::SessionStateError,
    ];
    for (i, error) in errors.iter().enumerate() {
        assert!(!error.to_string().is_empty());
        for other in &errors[i + 1..] {
            assert_ne!(error.to_string(), other.to_string());
        }
    }
    assert_eq!(Error::DeviceNotFound.to_string(), "no device found");
}
