//! Lookup of the protocol's codes: from a byte of a payload to the code it
//! stands for, or to nothing where the byte is not part of the protocol.

use crate::ble::constants::{
    FTMSControlOpCode, FTMSControlResultCode, FTMSStatusCode, SpinDownStatus, StopControl,
};
use vstd::prelude::*;

verus! {

/// The request opcode that `number` stands for.
pub open spec fn control_op_code_of(number: u8) -> Option<FTMSControlOpCode> {
    if number == 0x00 {
        Some(FTMSControlOpCode::RequestControl)
    } else if number == 0x05 {
        Some(FTMSControlOpCode::TargetPower)
    } else if number == 0x07 {
        Some(FTMSControlOpCode::Start)
    } else if number == 0x08 {
        Some(FTMSControlOpCode::Stop)
    } else if number == 0x13 {
        Some(FTMSControlOpCode::SpinDownControl)
    } else if number == 0x14 {
        Some(FTMSControlOpCode::TargetCadence)
    } else {
        None
    }
}

/// The result code that `number` stands for.
pub open spec fn control_result_code_of(number: u8) -> Option<FTMSControlResultCode> {
    if number == 0x01 {
        Some(FTMSControlResultCode::Success)
    } else if number == 0x02 {
        Some(FTMSControlResultCode::OpCodeNotSupported)
    } else if number == 0x03 {
        Some(FTMSControlResultCode::InvalidParameter)
    } else if number == 0x04 {
        Some(FTMSControlResultCode::OperationFailed)
    } else if number == 0x05 {
        Some(FTMSControlResultCode::ControlNotPermitted)
    } else {
        None
    }
}

/// The status code that `number` stands for.
pub open spec fn status_code_of(number: u8) -> Option<FTMSStatusCode> {
    if number == 0x02 {
        Some(FTMSStatusCode::StoppedOrPaused)
    } else if number == 0x03 {
        Some(FTMSStatusCode::StoppedBySafetyKey)
    } else if number == 0x04 {
        Some(FTMSStatusCode::StartedOrResumed)
    } else if number == 0x08 {
        Some(FTMSStatusCode::TargetPowerChanged)
    } else if number == 0x14 {
        Some(FTMSStatusCode::SpinDownStatus)
    } else if number == 0x15 {
        Some(FTMSStatusCode::TargetCadenceChanged)
    } else if number == 0xFF {
        Some(FTMSStatusCode::ControlPermissionLost)
    } else {
        None
    }
}

/// The spin-down sub-code that `number` stands for.
pub open spec fn spin_down_status_of(number: u8) -> Option<SpinDownStatus> {
    if number == 0x01 {
        Some(SpinDownStatus::SpinDownRequested)
    } else if number == 0x02 {
        Some(SpinDownStatus::Success)
    } else if number == 0x03 {
        Some(SpinDownStatus::Error)
    } else if number == 0x04 {
        Some(SpinDownStatus::StopPedaling)
    } else {
        None
    }
}

/// The stop parameter that `number` stands for.
pub open spec fn stop_control_of(number: u8) -> Option<StopControl> {
    if number == 0x01 {
        Some(StopControl::Stop)
    } else if number == 0x02 {
        Some(StopControl::Pause)
    } else {
        None
    }
}

/// Looks up the opcode of a request.
pub fn convert_u8_to_ftms_control_op_code_enum(number: u8) -> (code: Option<FTMSControlOpCode>)
    ensures
        code == control_op_code_of(number),
{
    match number {
        0x00 => Some(FTMSControlOpCode::RequestControl),
        0x05 => Some(FTMSControlOpCode::TargetPower),
        0x07 => Some(FTMSControlOpCode::Start),
        0x08 => Some(FTMSControlOpCode::Stop),
        0x13 => Some(FTMSControlOpCode::SpinDownControl),
        0x14 => Some(FTMSControlOpCode::TargetCadence),
        _ => None,
    }
}

/// Looks up the result code of a response.
pub fn convert_u8_to_ftms_control_result_code_enum(number: u8) -> (code: Option<
    FTMSControlResultCode,
>)
    ensures
        code == control_result_code_of(number),
{
    match number {
        0x01 => Some(FTMSControlResultCode::Success),
        0x02 => Some(FTMSControlResultCode::OpCodeNotSupported),
        0x03 => Some(FTMSControlResultCode::InvalidParameter),
        0x04 => Some(FTMSControlResultCode::OperationFailed),
        0x05 => Some(FTMSControlResultCode::ControlNotPermitted),
        _ => None,
    }
}

/// Looks up the code of a status notification.
pub fn convert_u8_to_ftms_status_code_enum(number: u8) -> (code: Option<FTMSStatusCode>)
    ensures
        code == status_code_of(number),
{
    match number {
        0x02 => Some(FTMSStatusCode::StoppedOrPaused),
        0x03 => Some(FTMSStatusCode::StoppedBySafetyKey),
        0x04 => Some(FTMSStatusCode::StartedOrResumed),
        0x08 => Some(FTMSStatusCode::TargetPowerChanged),
        0x14 => Some(FTMSStatusCode::SpinDownStatus),
        0x15 => Some(FTMSStatusCode::TargetCadenceChanged),
        0xFF => Some(FTMSStatusCode::ControlPermissionLost),
        _ => None,
    }
}

/// Looks up the phase of a spin-down.
pub fn convert_u8_to_spin_down_status_code_enum(number: u8) -> (code: Option<SpinDownStatus>)
    ensures
        code == spin_down_status_of(number),
{
    match number {
        0x01 => Some(SpinDownStatus::SpinDownRequested),
        0x02 => Some(SpinDownStatus::Success),
        0x03 => Some(SpinDownStatus::Error),
        0x04 => Some(SpinDownStatus::StopPedaling),
        _ => None,
    }
}

/// Looks up the parameter of a stop.
pub fn convert_u8_to_stop_control_code_enum(number: u8) -> (code: Option<StopControl>)
    ensures
        code == stop_control_of(number),
{
    match number {
        0x01 => Some(StopControl::Stop),
        0x02 => Some(StopControl::Pause),
        _ => None,
    }
}

/// Every code is found again from its byte, and a byte that stands for a
/// code is the byte of that code.
pub proof fn lemma_codes_round_trip(number: u8)
    ensures
        forall|c: FTMSControlOpCode| #[trigger] control_op_code_of(c.spec_code()) == Some(c),
        forall|c: FTMSControlResultCode|
            #[trigger] control_result_code_of(c.spec_code()) == Some(c),
        forall|c: FTMSStatusCode| #[trigger] status_code_of(c.spec_code()) == Some(c),
        forall|c: SpinDownStatus| #[trigger] spin_down_status_of(c.spec_code()) == Some(c),
        forall|c: StopControl| #[trigger] stop_control_of(c.spec_code()) == Some(c),
        control_op_code_of(number) matches Some(c) ==> c.spec_code() == number,
        control_result_code_of(number) matches Some(c) ==> c.spec_code() == number,
        status_code_of(number) matches Some(c) ==> c.spec_code() == number,
        spin_down_status_of(number) matches Some(c) ==> c.spec_code() == number,
        stop_control_of(number) matches Some(c) ==> c.spec_code() == number,
{
}

} // verus!
