//! The failures that the engine reports to its host.

use vstd::prelude::*;

verus! {

/// Why an operation of the engine did not succeed.
#[derive(Clone, Copy, Debug, PartialEq, Eq, Structural)]
pub enum Error {
    /// No Bluetooth adapter can be enumerated. This is the one fatal
    /// condition: the engine has to be initialised again.
    AdapterUnavailable,
    /// The host stack refused to start or stop a scan.
    ScanFailure,
    /// No known peripheral carries the requested identifier, or the slot
    /// that an operation needs is empty.
    DeviceNotFound,
    /// The link to a peripheral could not be brought up or taken down.
    ConnectionFailure,
    /// A characteristic could not be subscribed to.
    SubscriptionFailure,
    /// A control point write was refused, failed on the link, or was
    /// answered with a result code other than success.
    WriteFailure,
    /// A payload is shorter than its layout requires.
    ParseError,
    /// A code is not part of the protocol, or a response does not belong to
    /// the request that is outstanding.
    ProtocolError,
    /// The operation needs a session and there is none.
    SessionStateError,
}

impl Error {
    /// A short description for logs and for the user interface.
    pub fn to_string(&self) -> (text: String)
        ensures
            text@ == self.message()@,
    {
        match self {
            Error::AdapterUnavailable => "no bluetooth adapter available".to_owned(),
            Error::ScanFailure => "unable to start or stop the scan".to_owned(),
            Error::DeviceNotFound => "no device found".to_owned(),
            Error::ConnectionFailure => "unable to connect to or disconnect from the device".to_owned(),
            Error::SubscriptionFailure => "unable to subscribe to a characteristic".to_owned(),
            Error::WriteFailure => "unable to write to the control point".to_owned(),
            Error::ParseError => "payload too short".to_owned(),
            Error::ProtocolError => "unexpected opcode or result code".to_owned(),
            Error::SessionStateError => "no session to operate on".to_owned(),
        }
    }

    /// The text that [`Error::to_string`] produces.
    pub open spec fn message(&self) -> &'static str {
        match self {
            Error::AdapterUnavailable => "no bluetooth adapter available",
            Error::ScanFailure => "unable to start or stop the scan",
            Error::DeviceNotFound => "no device found",
            Error::ConnectionFailure => "unable to connect to or disconnect from the device",
            Error::SubscriptionFailure => "unable to subscribe to a characteristic",
            Error::WriteFailure => "unable to write to the control point",
            Error::ParseError => "payload too short",
            Error::ProtocolError => "unexpected opcode or result code",
            Error::SessionStateError => "no session to operate on",
        }
    }
}

} // verus!
