//! The request and response protocol of the Fitness Machine Control Point.
//!
//! A request is written to the control point; the trainer answers with an
//! indication that echoes the opcode and carries a result code. At most one
//! request is outstanding at any time, and a response counts only if it
//! echoes the opcode of that request.

use crate::ble::constants::{
    FTMSControlOpCode, FTMSControlResultCode, SpinDownControl, SpinDownStatus, StopControl,
    FTMS_RESPONSE_CODE,
};
use crate::error::Error;
use crate::utils::byte::{
    be_u16, combine_u8_to_u16, convert_i16_to_u8, le_bytes_u16, twos_complement_u16,
};
use crate::utils::code_values::{
    control_op_code_of, control_result_code_of, convert_u8_to_ftms_control_op_code_enum,
    convert_u8_to_ftms_control_result_code_enum,
};
use vstd::prelude::*;

verus! {

/// The least length of a response: marker, echoed opcode, result code.
pub const RESPONSE_HEADER_SIZE: usize = 3;

/// Where the target speed starts in the response to a spin-down request.
pub const TARGET_SPEED_OFFSET: usize = 5;

/// The least length of a successful response to a spin-down request.
pub const SPIN_DOWN_RESPONSE_SIZE: usize = 7;

/// A request to the control point, with its parameters.
#[derive(Clone, Copy, Debug, PartialEq, Eq, Structural)]
pub enum ControlRequest {
    /// Asks for control of the trainer. It comes before any other request.
    RequestControl,
    /// Sets the target power, in watts.
    TargetPower(i16),
    /// Starts or resumes the training session.
    Start,
    /// Stops or pauses the training session.
    Stop(StopControl),
    /// Starts a spin-down calibration, or ignores one that was asked for.
    SpinDownControl(SpinDownControl),
    /// Sets the target cadence.
    TargetCadence(i16),
}

impl ControlRequest {
    /// The opcode of the request.
    pub open spec fn spec_op_code(self) -> FTMSControlOpCode {
        match self {
            ControlRequest::RequestControl => FTMSControlOpCode::RequestControl,
            ControlRequest::TargetPower(_) => FTMSControlOpCode::TargetPower,
            ControlRequest::Start => FTMSControlOpCode::Start,
            ControlRequest::Stop(_) => FTMSControlOpCode::Stop,
            ControlRequest::SpinDownControl(_) => FTMSControlOpCode::SpinDownControl,
            ControlRequest::TargetCadence(_) => FTMSControlOpCode::TargetCadence,
        }
    }

    /// The parameter bytes of the request; numbers have their low byte first.
    pub open spec fn parameters(self) -> Seq<u8> {
        match self {
            ControlRequest::RequestControl => Seq::empty(),
            ControlRequest::TargetPower(watts) => le_bytes_u16(twos_complement_u16(watts)),
            ControlRequest::Start => Seq::empty(),
            ControlRequest::Stop(control) => seq![control.spec_code()],
            ControlRequest::SpinDownControl(control) => seq![control.spec_code()],
            ControlRequest::TargetCadence(cadence) => le_bytes_u16(twos_complement_u16(cadence)),
        }
    }

    /// The bytes that are written to the control point: the opcode, then the
    /// parameters.
    pub open spec fn encoding(self) -> Seq<u8> {
        seq![self.spec_op_code().spec_code()] + self.parameters()
    }

    /// The opcode of the request.
    #[verifier::when_used_as_spec(spec_op_code)]
    pub fn op_code(self) -> (op_code: FTMSControlOpCode)
        ensures
            op_code == self.spec_op_code(),
    {
        match self {
            ControlRequest::RequestControl => FTMSControlOpCode::RequestControl,
            ControlRequest::TargetPower(_) => FTMSControlOpCode::TargetPower,
            ControlRequest::Start => FTMSControlOpCode::Start,
            ControlRequest::Stop(_) => FTMSControlOpCode::Stop,
            ControlRequest::SpinDownControl(_) => FTMSControlOpCode::SpinDownControl,
            ControlRequest::TargetCadence(_) => FTMSControlOpCode::TargetCadence,
        }
    }

    /// The bytes that are written to the control point.
    pub fn encode(self) -> (payload: Vec<u8>)
        ensures
            payload@ == self.encoding(),
    {
        let mut payload: Vec<u8> = Vec::new();
        payload.push(self.op_code().code());
        match self {
            ControlRequest::RequestControl => {},
            ControlRequest::Start => {},
            ControlRequest::TargetPower(value) => {
                let data = convert_i16_to_u8(value);
                payload.push(data[0]);
                payload.push(data[1]);
            },
            ControlRequest::TargetCadence(value) => {
                let data = convert_i16_to_u8(value);
                payload.push(data[0]);
                payload.push(data[1]);
            },
            ControlRequest::Stop(control) => {
                payload.push(control.code());
            },
            ControlRequest::SpinDownControl(control) => {
                payload.push(control.code());
            },
        }
        assert(payload@ =~= self.encoding());
        payload
    }
}

/// A response of the control point.
#[derive(Clone, Copy, Debug, PartialEq, Eq, Structural)]
pub struct ControlResponse {
    /// The opcode of the request that the response answers.
    pub request_op_code: FTMSControlOpCode,
    pub result_code: FTMSControlResultCode,
    /// The speed that the rider has to reach: the trailing parameter of a
    /// successful response to a spin-down request.
    pub target_speed: Option<u16>,
}

/// What a control point indication stands for.
///
/// Byte 0 is the response marker, byte 1 echoes the opcode of the request,
/// byte 2 is the result code. A successful response to a spin-down request
/// carries the target speed in bytes 5 and 6, high byte first. A payload that
/// ends before the last byte it has to hold is a parse error; a marker, an
/// opcode or a result code that is not part of the protocol is a protocol
/// error.
pub open spec fn control_response_of(data: Seq<u8>) -> Result<ControlResponse, Error> {
    if data.len() < 3 {
        Err(Error::ParseError)
    } else if data[0] != FTMS_RESPONSE_CODE {
        Err(Error::ProtocolError)
    } else {
        match (control_op_code_of(data[1]), control_result_code_of(data[2])) {
            (Some(request_op_code), Some(result_code)) => {
                if request_op_code == FTMSControlOpCode::SpinDownControl && result_code
                    == FTMSControlResultCode::Success {
                    if data.len() < 7 {
                        Err(Error::ParseError)
                    } else {
                        Ok(
                            ControlResponse {
                                request_op_code,
                                result_code,
                                target_speed: Some(be_u16(data[5], data[6]) as u16),
                            },
                        )
                    }
                } else {
                    Ok(ControlResponse { request_op_code, result_code, target_speed: None })
                }
            },
            _ => Err(Error::ProtocolError),
        }
    }
}

/// Decodes a control point indication.
pub fn decode_control_response(data: &Vec<u8>) -> (response: Result<ControlResponse, Error>)
    ensures
        response == control_response_of(data@),
{
    if data.len() < RESPONSE_HEADER_SIZE {
        return Err(Error::ParseError);
    }
    if data[0] != FTMS_RESPONSE_CODE {
        return Err(Error::ProtocolError);
    }
    let request_op_code = match convert_u8_to_ftms_control_op_code_enum(data[1]) {
        Some(code) => code,
        None => {
            return Err(Error::ProtocolError);
        },
    };
    let result_code = match convert_u8_to_ftms_control_result_code_enum(data[2]) {
        Some(code) => code,
        None => {
            return Err(Error::ProtocolError);
        },
    };
    if request_op_code == FTMSControlOpCode::SpinDownControl && result_code
        == FTMSControlResultCode::Success {
        if data.len() < SPIN_DOWN_RESPONSE_SIZE {
            return Err(Error::ParseError);
        }
        let target_speed = combine_u8_to_u16(
            data[TARGET_SPEED_OFFSET + 1],
            data[TARGET_SPEED_OFFSET],
        );
        Ok(ControlResponse { request_op_code, result_code, target_speed: Some(target_speed) })
    } else {
        Ok(ControlResponse { request_op_code, result_code, target_speed: None })
    }
}

/// How far a spin-down calibration has come.
#[derive(Clone, Copy, Debug, PartialEq, Eq, Structural)]
pub enum SpinDownState {
    /// No calibration was asked for.
    Idle,
    /// The request was written, or the trainer reports that one was made.
    Requested,
    /// The trainer accepted the request; the rider is spinning down.
    InProgress,
    Success,
    Error,
}

/// The correlation guard of one trainer connection: the request that waits
/// for its response, if any, and the progress of the spin-down calibration.
#[derive(Clone, Copy, Debug, PartialEq, Eq, Structural)]
pub struct ControlPoint {
    pub outstanding: Option<ControlRequest>,
    pub spin_down: SpinDownState,
}

impl ControlPoint {
    /// A guard with nothing outstanding.
    pub open spec fn spec_new() -> ControlPoint {
        ControlPoint { outstanding: None, spin_down: SpinDownState::Idle }
    }

    /// A guard on which `request` was just written.
    pub open spec fn spec_awaiting(request: ControlRequest) -> ControlPoint {
        ControlPoint { outstanding: Some(request), spin_down: SpinDownState::Idle }
    }

    /// Whether a request may be written: none is outstanding.
    pub open spec fn is_free(self) -> bool {
        self.outstanding is None
    }

    /// The guard after `request` was taken.
    pub open spec fn hold(self, request: ControlRequest) -> ControlPoint {
        ControlPoint {
            outstanding: Some(request),
            spin_down: if request == ControlRequest::SpinDownControl(SpinDownControl::Start) {
                SpinDownState::Requested
            } else {
                self.spin_down
            },
        }
    }

    /// The guard after the outstanding request was given up: the link
    /// failed to carry it, or its response did not come in time.
    pub open spec fn give_up(self) -> ControlPoint {
        ControlPoint {
            outstanding: None,
            spin_down: if self.outstanding == Some(
                ControlRequest::SpinDownControl(SpinDownControl::Start),
            ) {
                SpinDownState::Error
            } else {
                self.spin_down
            },
        }
    }

    /// Whether the response answers the outstanding request.
    pub open spec fn answers(self, response: ControlResponse) -> bool {
        self.outstanding matches Some(request) && request.spec_op_code()
            == response.request_op_code
    }

    /// The guard after a response arrived. One that does not answer the
    /// outstanding request changes nothing. One that does frees the guard;
    /// if the request started a spin-down, the calibration is in progress
    /// after a success and has failed after anything else.
    pub open spec fn settle(self, response: ControlResponse) -> ControlPoint {
        if !self.answers(response) {
            self
        } else {
            ControlPoint {
                outstanding: None,
                spin_down: if self.outstanding == Some(
                    ControlRequest::SpinDownControl(SpinDownControl::Start),
                ) {
                    if response.result_code == FTMSControlResultCode::Success {
                        SpinDownState::InProgress
                    } else {
                        SpinDownState::Error
                    }
                } else {
                    self.spin_down
                },
            }
        }
    }

    /// What a response means to the caller of the outstanding request: a
    /// protocol error where it does not answer that request, a write
    /// failure where the result code is not success, and else the request
    /// that is now complete.
    pub open spec fn outcome(self, response: ControlResponse) -> Result<ControlRequest, Error> {
        if !self.answers(response) {
            Err(Error::ProtocolError)
        } else if response.result_code != FTMSControlResultCode::Success {
            Err(Error::WriteFailure)
        } else {
            Ok(self.outstanding->0)
        }
    }

    /// The guard after the trainer reported a phase of the spin-down.
    pub open spec fn observe(self, status: SpinDownStatus) -> ControlPoint {
        ControlPoint {
            spin_down: match status {
                SpinDownStatus::SpinDownRequested => SpinDownState::Requested,
                SpinDownStatus::StopPedaling => SpinDownState::InProgress,
                SpinDownStatus::Success => SpinDownState::Success,
                SpinDownStatus::Error => SpinDownState::Error,
            },
            ..self
        }
    }

    /// A guard with nothing outstanding.
    pub fn new() -> (control_point: ControlPoint)
        ensures
            control_point == ControlPoint::spec_new(),
    {
        ControlPoint { outstanding: None, spin_down: SpinDownState::Idle }
    }

    /// A guard on which `request` was just written.
    pub fn awaiting(request: ControlRequest) -> (control_point: ControlPoint)
        ensures
            control_point == ControlPoint::spec_awaiting(request),
    {
        ControlPoint { outstanding: Some(request), spin_down: SpinDownState::Idle }
    }

    /// Takes a request and returns the bytes to write, or refuses it with a
    /// write failure while another request is outstanding.
    pub fn write_request(&mut self, request: ControlRequest) -> (payload: Result<Vec<u8>, Error>)
        ensures
            old(self).is_free() ==> *final(self) == old(self).hold(request) && (
            payload matches Ok(bytes) && bytes@ == request.encoding()),
            !old(self).is_free() ==> *final(self) == *old(self) && payload == Err::<
                Vec<u8>,
                Error,
            >(Error::WriteFailure),
    {
        if self.outstanding.is_some() {
            return Err(Error::WriteFailure);
        }
        self.outstanding = Some(request);
        if request == ControlRequest::SpinDownControl(SpinDownControl::Start) {
            self.spin_down = SpinDownState::Requested;
        }
        Ok(request.encode())
    }

    /// Gives up the outstanding request: the link failed to carry it, or the
    /// caller waited long enough for its response.
    pub fn abandon_request(&mut self)
        ensures
            *final(self) == old(self).give_up(),
    {
        if self.outstanding == Some(ControlRequest::SpinDownControl(SpinDownControl::Start)) {
            self.spin_down = SpinDownState::Error;
        }
        self.outstanding = None;
    }

    /// Holds a response against the outstanding request.
    pub fn accept(&mut self, response: ControlResponse) -> (completed: Result<
        ControlRequest,
        Error,
    >)
        ensures
            *final(self) == old(self).settle(response),
            completed == old(self).outcome(response),
    {
        let request = match self.outstanding {
            Some(request) => request,
            None => {
                return Err(Error::ProtocolError);
            },
        };
        if request.op_code() != response.request_op_code {
            return Err(Error::ProtocolError);
        }
        self.outstanding = None;
        let is_spin_down = request == ControlRequest::SpinDownControl(SpinDownControl::Start);
        if response.result_code != FTMSControlResultCode::Success {
            if is_spin_down {
                self.spin_down = SpinDownState::Error;
            }
            return Err(Error::WriteFailure);
        }
        if is_spin_down {
            self.spin_down = SpinDownState::InProgress;
        }
        Ok(request)
    }

    /// Notes a phase of the spin-down that the trainer reported.
    pub fn note_spin_down(&mut self, status: SpinDownStatus)
        ensures
            *final(self) == old(self).observe(status),
    {
        self.spin_down = match status {
            SpinDownStatus::SpinDownRequested => SpinDownState::Requested,
            SpinDownStatus::StopPedaling => SpinDownState::InProgress,
            SpinDownStatus::Success => SpinDownState::Success,
            SpinDownStatus::Error => SpinDownState::Error,
        };
    }
}

/// At most one request is outstanding: while one is, no other is taken,
/// and the one that is outstanding stays.
pub proof fn lemma_single_outstanding_request(
    control_point: ControlPoint,
    request: ControlRequest,
)
    ensures
        control_point.hold(request).outstanding == Some(request),
        !control_point.hold(request).is_free(),
{
}

/// A response that echoes another opcode than that of the outstanding
/// request, or that comes while none is outstanding, leaves the guard as it
/// was and completes nothing.
pub proof fn lemma_mismatched_response_is_discarded(
    control_point: ControlPoint,
    response: ControlResponse,
)
    requires
        control_point.outstanding matches Some(request) ==> request.spec_op_code()
            != response.request_op_code,
    ensures
        control_point.settle(response) == control_point,
        control_point.outcome(response) == Err::<ControlRequest, Error>(Error::ProtocolError),
{
}

/// A response that answers the outstanding request frees the guard,
/// whatever its result code.
pub proof fn lemma_matching_response_frees_the_guard(
    control_point: ControlPoint,
    response: ControlResponse,
)
    requires
        control_point.answers(response),
    ensures
        control_point.settle(response).is_free(),
        control_point.outcome(response) is Ok <==> response.result_code
            == FTMSControlResultCode::Success,
{
}

} // verus!
