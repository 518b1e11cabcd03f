//! Assigned numbers of the Bluetooth SIG and the codes of the Fitness Machine
//! Service (FTMS).
//!
//! UUIDs are held as their 128-bit value, most significant byte first, which
//! is the order of the textual form `xxxxxxxx-xxxx-xxxx-xxxx-xxxxxxxxxxxx`.

use vstd::prelude::*;

verus! {

/// The Bluetooth Base UUID, `00000000-0000-1000-8000-00805F9B34FB`.
pub const BLUETOOTH_BASE_UUID: u128 = 0x00000000_0000_1000_8000_00805f9b34fb;

/// The factor that moves a short UUID into the top 32 bits of a 128-bit UUID.
pub const SHORT_UUID_FACTOR: u128 = 0x1_00000000_00000000_00000000;

// Heart Rate
pub const HEART_RATE_SERVICE_UUID: u128 = 0x0000180d_0000_1000_8000_00805f9b34fb;

pub const HEART_RATE_MEASUREMENT_UUID: u128 = 0x00002a37_0000_1000_8000_00805f9b34fb;

// Speed and Cadence
pub const SPEED_CADENCE_SERVICE_UUID: u128 = 0x00001816_0000_1000_8000_00805f9b34fb;

// Fitness Machine
pub const FITNESS_MACHINE_SERVICE_UUID: u128 = 0x00001826_0000_1000_8000_00805f9b34fb;

pub const INDOOR_BIKE_DATA_UUID: u128 = 0x00002ad2_0000_1000_8000_00805f9b34fb;

pub const FITNESS_MACHINE_CONTROL_POINT_UUID: u128 = 0x00002ad9_0000_1000_8000_00805f9b34fb;

pub const FITNESS_MACHINE_STATUS_UUID: u128 = 0x00002ada_0000_1000_8000_00805f9b34fb;

// Cycling Power
pub const CYCLING_POWER_SERVICE_UUID: u128 = 0x00001818_0000_1000_8000_00805f9b34fb;

pub const CYCLING_POWER_MEASUREMENT_UUID: u128 = 0x00002a63_0000_1000_8000_00805f9b34fb;

/// First byte of every indication that answers a control point request.
pub const FTMS_RESPONSE_CODE: u8 = 0x80;

/// The full UUID that a 16- or 32-bit assigned number stands for: the number
/// takes the place of the first 32 bits of the Bluetooth Base UUID.
pub open spec fn expand_short_uuid(short: u32) -> int {
    BLUETOOTH_BASE_UUID as int + (short as int) * (SHORT_UUID_FACTOR as int)
}

/// Expands a 32-bit short UUID to its 128-bit form.
pub fn uuid_from_u32(short: u32) -> (uuid: u128)
    ensures
        uuid as int == expand_short_uuid(short),
{
    let wide: u128 = short as u128;
    assert((0x00000000_0000_1000_8000_00805f9b34fbu128 | (wide << 96))
        == 0x00000000_0000_1000_8000_00805f9b34fbu128 + wide
        * 0x1_00000000_00000000_00000000u128) by (bit_vector)
        requires
            wide < 0x1_0000_0000u128,
    ;
    BLUETOOTH_BASE_UUID | (wide << 96)
}

/// Expands a 16-bit short UUID to its 128-bit form.
pub fn uuid_from_u16(short: u16) -> (uuid: u128)
    ensures
        uuid as int == expand_short_uuid(short as u32),
{
    uuid_from_u32(short as u32)
}

/// Each UUID constant of this module is the expansion of its assigned number.
pub proof fn lemma_assigned_numbers()
    ensures
        HEART_RATE_SERVICE_UUID == expand_short_uuid(0x180D),
        HEART_RATE_MEASUREMENT_UUID == expand_short_uuid(0x2A37),
        SPEED_CADENCE_SERVICE_UUID == expand_short_uuid(0x1816),
        FITNESS_MACHINE_SERVICE_UUID == expand_short_uuid(0x1826),
        INDOOR_BIKE_DATA_UUID == expand_short_uuid(0x2AD2),
        FITNESS_MACHINE_CONTROL_POINT_UUID == expand_short_uuid(0x2AD9),
        FITNESS_MACHINE_STATUS_UUID == expand_short_uuid(0x2ADA),
        CYCLING_POWER_SERVICE_UUID == expand_short_uuid(0x1818),
        CYCLING_POWER_MEASUREMENT_UUID == expand_short_uuid(0x2A63),
{
}

/// Opcodes of the requests that are written to the control point.
#[derive(Clone, Copy, Debug, PartialEq, Eq, Structural)]
pub enum FTMSControlOpCode {
    RequestControl,
    TargetPower,
    /// Start or resume.
    Start,
    /// Stop or pause.
    Stop,
    SpinDownControl,
    TargetCadence,
}

/// Result codes of a control point response.
#[derive(Clone, Copy, Debug, PartialEq, Eq, Structural)]
pub enum FTMSControlResultCode {
    Success,
    OpCodeNotSupported,
    InvalidParameter,
    OperationFailed,
    ControlNotPermitted,
}

/// Parameter of a spin-down control request.
#[derive(Clone, Copy, Debug, PartialEq, Eq, Structural)]
pub enum SpinDownControl {
    Start,
    Ignore,
}

/// Parameter of a stop request, and of the status that reports one.
#[derive(Clone, Copy, Debug, PartialEq, Eq, Structural)]
pub enum StopControl {
    Stop,
    Pause,
}

/// Sub-code of a spin-down status notification.
#[derive(Clone, Copy, Debug, PartialEq, Eq, Structural)]
pub enum SpinDownStatus {
    SpinDownRequested,
    Success,
    Error,
    StopPedaling,
}

/// Codes of the notifications on the Fitness Machine Status characteristic.
#[derive(Clone, Copy, Debug, PartialEq, Eq, Structural)]
pub enum FTMSStatusCode {
    StoppedOrPaused,
    StoppedBySafetyKey,
    StartedOrResumed,
    TargetPowerChanged,
    SpinDownStatus,
    TargetCadenceChanged,
    ControlPermissionLost,
}

impl FTMSControlOpCode {
    /// The byte that stands for this opcode on the wire.
    pub open spec fn spec_code(self) -> u8 {
        match self {
            FTMSControlOpCode::RequestControl => 0x00,
            FTMSControlOpCode::TargetPower => 0x05,
            FTMSControlOpCode::Start => 0x07,
            FTMSControlOpCode::Stop => 0x08,
            FTMSControlOpCode::SpinDownControl => 0x13,
            FTMSControlOpCode::TargetCadence => 0x14,
        }
    }

    /// The byte that stands for this code on the wire.
    #[verifier::when_used_as_spec(spec_code)]
    pub fn code(self) -> (byte: u8)
        ensures
            byte == self.spec_code(),
    {
        match self {
            FTMSControlOpCode::RequestControl => 0x00,
            FTMSControlOpCode::TargetPower => 0x05,
            FTMSControlOpCode::Start => 0x07,
            FTMSControlOpCode::Stop => 0x08,
            FTMSControlOpCode::SpinDownControl => 0x13,
            FTMSControlOpCode::TargetCadence => 0x14,
        }
    }
}

impl FTMSControlResultCode {
    /// The byte that stands for this result on the wire.
    pub open spec fn spec_code(self) -> u8 {
        match self {
            FTMSControlResultCode::Success => 0x01,
            FTMSControlResultCode::OpCodeNotSupported => 0x02,
            FTMSControlResultCode::InvalidParameter => 0x03,
            FTMSControlResultCode::OperationFailed => 0x04,
            FTMSControlResultCode::ControlNotPermitted => 0x05,
        }
    }

    /// The byte that stands for this code on the wire.
    #[verifier::when_used_as_spec(spec_code)]
    pub fn code(self) -> (byte: u8)
        ensures
            byte == self.spec_code(),
    {
        match self {
            FTMSControlResultCode::Success => 0x01,
            FTMSControlResultCode::OpCodeNotSupported => 0x02,
            FTMSControlResultCode::InvalidParameter => 0x03,
            FTMSControlResultCode::OperationFailed => 0x04,
            FTMSControlResultCode::ControlNotPermitted => 0x05,
        }
    }
}

impl SpinDownControl {
    /// The byte that stands for this parameter on the wire.
    pub open spec fn spec_code(self) -> u8 {
        match self {
            SpinDownControl::Start => 0x01,
            SpinDownControl::Ignore => 0x02,
        }
    }

    /// The byte that stands for this code on the wire.
    #[verifier::when_used_as_spec(spec_code)]
    pub fn code(self) -> (byte: u8)
        ensures
            byte == self.spec_code(),
    {
        match self {
            SpinDownControl::Start => 0x01,
            SpinDownControl::Ignore => 0x02,
        }
    }
}

impl StopControl {
    /// The byte that stands for this parameter on the wire.
    pub open spec fn spec_code(self) -> u8 {
        match self {
            StopControl::Stop => 0x01,
            StopControl::Pause => 0x02,
        }
    }

    /// The byte that stands for this code on the wire.
    #[verifier::when_used_as_spec(spec_code)]
    pub fn code(self) -> (byte: u8)
        ensures
            byte == self.spec_code(),
    {
        match self {
            StopControl::Stop => 0x01,
            StopControl::Pause => 0x02,
        }
    }

    /// The action that the user interface names: `"stop"` or `"pause"`, and
    /// no other.
    pub open spec fn spec_from_action(action: Seq<char>) -> Option<StopControl> {
        if action == "stop"@ {
            Some(StopControl::Stop)
        } else if action == "pause"@ {
            Some(StopControl::Pause)
        } else {
            None
        }
    }

    /// Reads the name of an action as the user interface sends it.
    pub fn from_action(action: &str) -> (control: Option<StopControl>)
        ensures
            control == StopControl::spec_from_action(action@),
    {
        let name = action.to_owned();
        if name == "stop".to_owned() {
            Some(StopControl::Stop)
        } else if name == "pause".to_owned() {
            Some(StopControl::Pause)
        } else {
            None
        }
    }

    /// The name by which the user interface knows this action.
    pub open spec fn spec_action(self) -> &'static str {
        match self {
            StopControl::Stop => "stop",
            StopControl::Pause => "pause",
        }
    }

    /// The name by which the user interface knows this action: `"stop"` or
    /// `"pause"`.
    pub fn action(self) -> (name: &'static str)
        ensures
            name@ == self.spec_action()@,
    {
        match self {
            StopControl::Stop => "stop",
            StopControl::Pause => "pause",
        }
    }
}

impl SpinDownStatus {
    /// The byte that stands for this sub-code on the wire.
    pub open spec fn spec_code(self) -> u8 {
        match self {
            SpinDownStatus::SpinDownRequested => 0x01,
            SpinDownStatus::Success => 0x02,
            SpinDownStatus::Error => 0x03,
            SpinDownStatus::StopPedaling => 0x04,
        }
    }

    /// The byte that stands for this code on the wire.
    #[verifier::when_used_as_spec(spec_code)]
    pub fn code(self) -> (byte: u8)
        ensures
            byte == self.spec_code(),
    {
        match self {
            SpinDownStatus::SpinDownRequested => 0x01,
            SpinDownStatus::Success => 0x02,
            SpinDownStatus::Error => 0x03,
            SpinDownStatus::StopPedaling => 0x04,
        }
    }
}

impl FTMSStatusCode {
    /// The byte that stands for this status on the wire.
    pub open spec fn spec_code(self) -> u8 {
        match self {
            FTMSStatusCode::StoppedOrPaused => 0x02,
            FTMSStatusCode::StoppedBySafetyKey => 0x03,
            FTMSStatusCode::StartedOrResumed => 0x04,
            FTMSStatusCode::TargetPowerChanged => 0x08,
            FTMSStatusCode::SpinDownStatus => 0x14,
            FTMSStatusCode::TargetCadenceChanged => 0x15,
            FTMSStatusCode::ControlPermissionLost => 0xFF,
        }
    }

    /// The byte that stands for this code on the wire.
    #[verifier::when_used_as_spec(spec_code)]
    pub fn code(self) -> (byte: u8)
        ensures
            byte == self.spec_code(),
    {
        match self {
            FTMSStatusCode::StoppedOrPaused => 0x02,
            FTMSStatusCode::StoppedBySafetyKey => 0x03,
            FTMSStatusCode::StartedOrResumed => 0x04,
            FTMSStatusCode::TargetPowerChanged => 0x08,
            FTMSStatusCode::SpinDownStatus => 0x14,
            FTMSStatusCode::TargetCadenceChanged => 0x15,
            FTMSStatusCode::ControlPermissionLost => 0xFF,
        }
    }
}

} // verus!
