use cycling_trainer::ble::constants::{
    FTMSControlOpCode, FTMSControlResultCode, SpinDownControl, SpinDownStatus, StopControl,
};
use cycling_trainer::ble::control_point::{
    decode_control_response, ControlPoint, ControlRequest, ControlResponse, SpinDownState,
};
use cycling_trainer::error::Error;

#[test]
fn requests_are_the_opcode_and_little_endian_parameters() {
    assert_eq!(ControlRequest::RequestControl.encode(), vec![0x00]);
    assert_eq!(ControlRequest::TargetPower(200).encode(), vec![0x05, 200, 0]);
    assert_eq!(ControlRequest::TargetPower(0x1234).encode(), vec![0x05, 0x34, 0x12]);
    assert_eq!(ControlRequest::TargetPower(-2).encode(), vec![0x05, 0xFE, 0xFF]);
    assert_eq!(ControlRequest::Start.encode(), vec![0x07]);
    assert_eq!(ControlRequest::Stop(StopControl::Stop).encode(), vec![0x08, 0x01]);
    assert_eq!(ControlRequest::Stop(StopControl::Pause).encode(), vec![0x08, 0x02]);
    assert_eq!(
        ControlRequest::SpinDownControl(SpinDownControl::Start).encode(),
        vec![0x13, 0x01]
    );
    assert_eq!(
        ControlRequest::SpinDownControl(SpinDownControl::Ignore).encode(),
        vec![0x13, 0x02]
    );
    assert_eq!(ControlRequest::TargetCadence(90).encode(), vec![0x14, 90, 0]);
    assert_eq!(ControlRequest::TargetCadence(300).op_code(), FTMSControlOpCode::TargetCadence);
}

#[test]
fn spin_down_success_yields_target_speed_10() {
    let response = decode_control_response(&vec![0x80, 0x13, 0x01, 0, 0, 0, 10, 0]).unwrap();
    assert_eq!(response.request_op_code, FTMSControlOpCode::SpinDownControl);
    assert_eq!(response.result_code, FTMSControlResultCode::Success);
    assert_eq!(response.target_speed, Some(10));
}

#[test]
fn target_speed_is_read_from_offsets_five_and_six() {
    let response = decode_control_response(&vec![0x80, 0x13, 0x01, 7, 8, 0x01, 0x02]).unwrap();
    assert_eq!(response.target_speed, Some(0x0102));
    let response = decode_control_response(&vec![0x80, 0x13, 0x01, 0, 0, 0xFF, 0xFF, 1, 2, 3]);
    assert_eq!(response.unwrap().target_speed, Some(0xFFFF));
}

#[test]
fn plain_responses_carry_no_target_speed() {
    assert_eq!(
        decode_control_response(&vec![0x80, 0x05, 0x01]),
        Ok(ControlResponse {
            request_op_code: FTMSControlOpCode::TargetPower,
            result_code: FTMSControlResultCode::Success,
            target_speed: None
        })
    );
    assert_eq!(
        decode_control_response(&vec![0x80, 0x00, 0x05, 9, 9, 9, 9, 9]),
        Ok(ControlResponse {
            request_op_code: FTMSControlOpCode::RequestControl,
            result_code: FTMSControlResultCode::ControlNotPermitted,
            target_speed: None
        })
    );
    // A spin-down that was refused has no target speed to carry.
    assert_eq!(
        decode_control_response(&vec![0x80, 0x13, 0x04]),
        Ok(ControlResponse {
            request_op_code: FTMSControlOpCode::SpinDownControl,
            result_code: FTMSControlResultCode::OperationFailed,
            target_speed: None
        })
    );
}

#[test]
fn short_responses_are_parse_errors() {
    assert_eq!(decode_control_response(&vec![]), Err(Error::ParseError));
    assert_eq!(decode_control_response(&vec![0x80]), Err(Error::ParseError));
    assert_eq!(decode_control_response(&vec![0x80, 0x07]), Err(Error::ParseError));
    assert_eq!(decode_control_response(&vec![0x80, 0x13, 0x01]), Err(Error::ParseError));
    assert_eq!(
        decode_control_response(&vec![0x80, 0x13, 0x01, 0, 0, 10]),
        Err(Error::ParseError)
    );
}

#[test]
fn foreign_markers_and_codes_are_protocol_errors() {
    assert_eq!(decode_control_response(&vec![0x07, 0x07, 0x01]), Err(Error::ProtocolError));
    assert_eq!(decode_control_response(&vec![0x00, 0x00, 0x00]), Err(Error::ProtocolError));
    assert_eq!(decode_control_response(&vec![0x80, 0x01, 0x01]), Err(Error::ProtocolError));
    assert_eq!(decode_control_response(&vec![0x80, 0x80, 0x01]), Err(Error::ProtocolError));
    assert_eq!(decode_control_response(&vec![0x80, 0x07, 0x00]), Err(Error::ProtocolError));
    assert_eq!(decode_control_response(&vec![0x80, 0x07, 0x06]), Err(Error::ProtocolError));
}

#[test]
fn a_new_guard_is_free() {
    let guard = ControlPoint::new();
    assert_eq!(guard.outstanding, None);
    assert_eq!(guard.spin_down, SpinDownState::Idle);
    let waiting = ControlPoint::awaiting(ControlRequest::RequestControl);
    assert_eq!(waiting.outstanding, Some(ControlRequest::RequestControl));
    assert_eq!(waiting.spin_down, SpinDownState::Idle);
}

#[test]
fn a_second_request_is_refused_while_one_is_outstanding() {
    let mut guard = ControlPoint::new();
    assert_eq!(guard.write_request(ControlRequest::TargetPower(150)), Ok(vec![0x05, 150, 0]));
    assert_eq!(guard.outstanding, Some(ControlRequest::TargetPower(150)));
    assert_eq!(guard.write_request(ControlRequest::Start), Err(Error::WriteFailure));
    assert_eq!(guard.write_request(ControlRequest::TargetPower(150)), Err(Error::WriteFailure));
    assert_eq!(guard.outstanding, Some(ControlRequest::TargetPower(150)));
}

#[test]
fn a_matching_success_completes_the_request() {
    let mut guard = ControlPoint::new();
    guard.write_request(ControlRequest::TargetCadence(85)).unwrap();
    let response = decode_control_response(&vec![0x80, 0x14, 0x01]).unwrap();
    assert_eq!(guard.accept(response), Ok(ControlRequest::TargetCadence(85)));
    assert_eq!(guard.outstanding, None);
    assert_eq!(guard.write_request(ControlRequest::Start), Ok(vec![0x07]));
}

#[test]
fn a_response_with_another_opcode_leaves_the_outstanding_request() {
    let mut guard = ControlPoint::new();
    guard.write_request(ControlRequest::TargetPower(150)).unwrap();
    let before = guard;
    let response = decode_control_response(&vec![0x80, 0x14, 0x01]).unwrap();
    assert_eq!(guard.accept(response), Err(Error::ProtocolError));
    assert_eq!(guard, before);
    let failure = decode_control_response(&vec![0x80, 0x07, 0x04]).unwrap();
    assert_eq!(guard.accept(failure), Err(Error::ProtocolError));
    assert_eq!(guard, before);
}

#[test]
fn a_response_without_a_request_is_discarded() {
    let mut guard = ControlPoint::new();
    let response = decode_control_response(&vec![0x80, 0x07, 0x01]).unwrap();
    assert_eq!(guard.accept(response), Err(Error::ProtocolError));
    assert_eq!(guard, ControlPoint::new());
}

#[test]
fn a_matching_failure_frees_the_guard_and_is_a_write_failure() {
    for result in [0x02, 0x03, 0x04, 0x05] {
        let mut guard = ControlPoint::new();
        guard.write_request(ControlRequest::Start).unwrap();
        let response = decode_control_response(&vec![0x80, 0x07, result]).unwrap();
        assert_eq!(guard.accept(response), Err(Error::WriteFailure));
        assert_eq!(guard.outstanding, None);
        assert_eq!(guard.spin_down, SpinDownState::Idle);
    }
}

#[test]
fn spin_down_goes_from_requested_to_in_progress_to_success() {
    let mut guard = ControlPoint::new();
    guard.write_request(ControlRequest::SpinDownControl(SpinDownControl::Start)).unwrap();
    assert_eq!(guard.spin_down, SpinDownState::Requested);
    let response = decode_control_response(&vec![0x80, 0x13, 0x01, 0, 0, 0, 10]).unwrap();
    assert_eq!(
        guard.accept(response),
        Ok(ControlRequest::SpinDownControl(SpinDownControl::Start))
    );
    assert_eq!(guard.spin_down, SpinDownState::InProgress);
    guard.note_spin_down(SpinDownStatus::StopPedaling);
    assert_eq!(guard.spin_down, SpinDownState::InProgress);
    guard.note_spin_down(SpinDownStatus::Success);
    assert_eq!(guard.spin_down, SpinDownState::Success);
    assert_eq!(guard.outstanding, None);
}

#[test]
fn a_refused_spin_down_is_an_error() {
    let mut guard = ControlPoint::new();
    guard.write_request(ControlRequest::SpinDownControl(SpinDownControl::Start)).unwrap();
    let response = decode_control_response(&vec![0x80, 0x13, 0x05]).unwrap();
    assert_eq!(guard.accept(response), Err(Error::WriteFailure));
    assert_eq!(guard.spin_down, SpinDownState::Error);
    let mut guard = ControlPoint::new();
    guard.note_spin_down(SpinDownStatus::SpinDownRequested);
    assert_eq!(guard.spin_down, SpinDownState::Requested);
    guard.note_spin_down(SpinDownStatus::Error);
    assert_eq!(guard.spin_down, SpinDownState::Error);
}

#[test]
fn an_abandoned_request_frees_the_guard() {
    let mut guard = ControlPoint::new();
    guard.write_request(ControlRequest::TargetPower(100)).unwrap();
    guard.abandon_request();
    assert_eq!(guard, ControlPoint::new());
    guard.write_request(ControlRequest::SpinDownControl(SpinDownControl::Start)).unwrap();
    guard.abandon_request();
    assert_eq!(guard.outstanding, None);
    assert_eq!(guard.spin_down, SpinDownState::Error);
    // Ignoring a spin-down is no calibration of its own.
    let mut guard = ControlPoint::new();
    guard.write_request(ControlRequest::SpinDownControl(SpinDownControl::Ignore)).unwrap();
    assert_eq!(guard.spin_down, SpinDownState::Idle);
}
