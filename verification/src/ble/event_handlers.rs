//! What the engine does with what the host stack reports: discovery events
//! and the notifications of the subscribed characteristics.

use crate::ble::bluetooth::{
    BTDevice, Bluetooth, BluetoothStatus, BluetoothView, DeviceType, Peripheral,
};
use crate::ble::constants::{
    FTMSStatusCode, SpinDownStatus, StopControl, CYCLING_POWER_MEASUREMENT_UUID,
    FITNESS_MACHINE_CONTROL_POINT_UUID, FITNESS_MACHINE_STATUS_UUID, HEART_RATE_MEASUREMENT_UUID,
    INDOOR_BIKE_DATA_UUID,
};
use crate::ble::control_point::{
    control_response_of, decode_control_response, ControlRequest, ControlResponse,
};
use crate::ble::discovery::{announce, discovered_device};
use crate::data::heart_rate_measurement::{heart_rate_of, parse_hrm_data, HeartRateMeasurement};
use crate::data::indoor_bike_data::{indoor_bike_data_of, parse_indoor_bike_data, IndoorBikeData};
use crate::data::session::{Session, SessionView};
use crate::error::Error;
use crate::utils::bluetooth_utils::{characteristic_of, get_uuid_characteristic};
use crate::utils::byte::{combine_u8_to_u16, le_u16};
use crate::utils::code_values::{
    convert_u8_to_ftms_status_code_enum, convert_u8_to_spin_down_status_code_enum,
    convert_u8_to_stop_control_code_enum, spin_down_status_of, status_code_of, stop_control_of,
};
use vstd::prelude::*;

verus! {

/// What is done to the notifications of a characteristic.
#[derive(Clone, Copy, Debug, PartialEq, Eq, Structural)]
pub enum CharacteristicAction {
    Subscribe,
    Unsubscribe,
}

impl CharacteristicAction {
    /// The name of the action.
    pub open spec fn name(self) -> &'static str {
        match self {
            CharacteristicAction::Subscribe => "Subscribe",
            CharacteristicAction::Unsubscribe => "Unsubscribe",
        }
    }

    /// `"Subscribe"` or `"Unsubscribe"`.
    pub fn to_string(&self) -> (text: String)
        ensures
            text@ == self.name()@,
    {
        match self {
            CharacteristicAction::Subscribe => "Subscribe".to_owned(),
            CharacteristicAction::Unsubscribe => "Unsubscribe".to_owned(),
        }
    }
}

/// The characteristics that the engine knows.
#[derive(Clone, Copy, Debug, PartialEq, Eq, Structural)]
pub enum Characteristic {
    CyclingPowerMeasurement,
    HeartRateMeasurement,
    IndoorBikeData,
    FitnessMachineControlPoint,
    FitnessMachineStatus,
    Unknown,
}

impl Characteristic {
    /// The UUID of the characteristic; none for the unknown one.
    pub open spec fn spec_uuid(self) -> Option<u128> {
        match self {
            Characteristic::CyclingPowerMeasurement => Some(CYCLING_POWER_MEASUREMENT_UUID),
            Characteristic::HeartRateMeasurement => Some(HEART_RATE_MEASUREMENT_UUID),
            Characteristic::IndoorBikeData => Some(INDOOR_BIKE_DATA_UUID),
            Characteristic::FitnessMachineControlPoint => Some(FITNESS_MACHINE_CONTROL_POINT_UUID),
            Characteristic::FitnessMachineStatus => Some(FITNESS_MACHINE_STATUS_UUID),
            Characteristic::Unknown => None,
        }
    }

    /// The UUID of the characteristic; none for the unknown one.
    pub fn uuid(self) -> (uuid: Option<u128>)
        ensures
            uuid == self.spec_uuid(),
    {
        match self {
            Characteristic::CyclingPowerMeasurement => Some(CYCLING_POWER_MEASUREMENT_UUID),
            Characteristic::HeartRateMeasurement => Some(HEART_RATE_MEASUREMENT_UUID),
            Characteristic::IndoorBikeData => Some(INDOOR_BIKE_DATA_UUID),
            Characteristic::FitnessMachineControlPoint => Some(FITNESS_MACHINE_CONTROL_POINT_UUID),
            Characteristic::FitnessMachineStatus => Some(FITNESS_MACHINE_STATUS_UUID),
            Characteristic::Unknown => None,
        }
    }
}

/// What the engine publishes to its host.
#[derive(Clone, Debug)]
pub enum Event {
    /// A peripheral with a name, not yet connected, was seen.
    DeviceDiscovered(BTDevice),
    HeartRateSample(HeartRateMeasurement),
    IndoorBikeSample(IndoorBikeData),
    /// The trainer started or resumed.
    SessionStarted,
    /// The trainer stopped or paused.
    SessionStopped(StopControl),
    /// The trainer accepted a spin-down; the rider has to reach this speed.
    SpinDownStart(u16),
    /// The rider has to stop pedalling.
    SpinDownStopPedaling,
    /// The spin-down is complete; it took this long.
    SpinDownSuccess(u16),
    TargetPowerChanged,
    TargetCadenceChanged,
}

impl Event {
    /// The name under which the event is published.
    pub open spec fn spec_name(self) -> &'static str {
        match self {
            Event::DeviceDiscovered(_) => "device-discovered",
            Event::HeartRateSample(_) => "heart-rate-sample",
            Event::IndoorBikeSample(_) => "indoor-bike-sample",
            Event::SessionStarted => "session-started",
            Event::SessionStopped(_) => "session-stopped",
            Event::SpinDownStart(_) => "spin-down-start",
            Event::SpinDownStopPedaling => "spin-down-stop-pedaling",
            Event::SpinDownSuccess(_) => "spin-down-success",
            Event::TargetPowerChanged => "target-power-changed",
            Event::TargetCadenceChanged => "target-cadence-changed",
        }
    }

    /// The name under which the event is published.
    pub fn name(&self) -> (name: &'static str)
        ensures
            name@ == self.spec_name()@,
    {
        match self {
            Event::DeviceDiscovered(_) => "device-discovered",
            Event::HeartRateSample(_) => "heart-rate-sample",
            Event::IndoorBikeSample(_) => "indoor-bike-sample",
            Event::SessionStarted => "session-started",
            Event::SessionStopped(_) => "session-stopped",
            Event::SpinDownStart(_) => "spin-down-start",
            Event::SpinDownStopPedaling => "spin-down-stop-pedaling",
            Event::SpinDownSuccess(_) => "spin-down-success",
            Event::TargetPowerChanged => "target-power-changed",
            Event::TargetCadenceChanged => "target-cadence-changed",
        }
    }
}

/// What the host stack reports on its stream of central events.
#[derive(Debug)]
pub enum CentralEvent {
    /// A peripheral was seen, with what the stack could tell of it: nothing
    /// where the stack could not find it again.
    DeviceDiscovered(Option<Peripheral>),
    DeviceConnected(String),
    DeviceDisconnected(String),
    /// Any other event.
    Other,
}

/// A notification of the Fitness Machine Status characteristic.
#[derive(Clone, Copy, Debug, PartialEq, Eq, Structural)]
pub enum FtmsStatus {
    StoppedOrPaused(StopControl),
    StoppedBySafetyKey,
    StartedOrResumed,
    TargetPowerChanged,
    /// A phase of the spin-down; with the time it took, where it succeeded.
    SpinDown(SpinDownStatus, Option<u16>),
    TargetCadenceChanged,
    ControlPermissionLost,
}

/// What a Fitness Machine Status payload stands for.
///
/// Byte 0 is the status code. A stop carries in byte 1 whether the trainer
/// stopped or paused. A spin-down status carries its phase in byte 1, and,
/// where the phase is success, the time that the spin-down took in bytes 2
/// and 3, low byte first. A payload that ends before the last byte it has to
/// hold is a parse error; a code that is not part of the protocol is a
/// protocol error.
pub open spec fn ftms_status_of(data: Seq<u8>) -> Result<FtmsStatus, Error> {
    if data.len() < 1 {
        Err(Error::ParseError)
    } else {
        match status_code_of(data[0]) {
            None => Err(Error::ProtocolError),
            Some(FTMSStatusCode::StoppedBySafetyKey) => Ok(FtmsStatus::StoppedBySafetyKey),
            Some(FTMSStatusCode::StartedOrResumed) => Ok(FtmsStatus::StartedOrResumed),
            Some(FTMSStatusCode::TargetPowerChanged) => Ok(FtmsStatus::TargetPowerChanged),
            Some(FTMSStatusCode::TargetCadenceChanged) => Ok(FtmsStatus::TargetCadenceChanged),
            Some(FTMSStatusCode::ControlPermissionLost) => Ok(FtmsStatus::ControlPermissionLost),
            Some(FTMSStatusCode::StoppedOrPaused) => {
                if data.len() < 2 {
                    Err(Error::ParseError)
                } else {
                    match stop_control_of(data[1]) {
                        Some(control) => Ok(FtmsStatus::StoppedOrPaused(control)),
                        None => Err(Error::ProtocolError),
                    }
                }
            },
            Some(FTMSStatusCode::SpinDownStatus) => {
                if data.len() < 2 {
                    Err(Error::ParseError)
                } else {
                    match spin_down_status_of(data[1]) {
                        Some(SpinDownStatus::Success) => {
                            if data.len() < 4 {
                                Err(Error::ParseError)
                            } else {
                                Ok(
                                    FtmsStatus::SpinDown(
                                        SpinDownStatus::Success,
                                        Some(le_u16(data[2], data[3]) as u16),
                                    ),
                                )
                            }
                        },
                        Some(status) => Ok(FtmsStatus::SpinDown(status, None)),
                        None => Err(Error::ProtocolError),
                    }
                }
            },
        }
    }
}

impl FtmsStatus {
    /// The event that the status is published as, if any.
    pub open spec fn spec_event(self) -> Option<Event> {
        match self {
            FtmsStatus::StoppedOrPaused(control) => Some(Event::SessionStopped(control)),
            FtmsStatus::StartedOrResumed => Some(Event::SessionStarted),
            FtmsStatus::TargetPowerChanged => Some(Event::TargetPowerChanged),
            FtmsStatus::TargetCadenceChanged => Some(Event::TargetCadenceChanged),
            FtmsStatus::SpinDown(SpinDownStatus::StopPedaling, _) => Some(
                Event::SpinDownStopPedaling,
            ),
            FtmsStatus::SpinDown(SpinDownStatus::Success, Some(time)) => Some(
                Event::SpinDownSuccess(time),
            ),
            _ => None,
        }
    }

    /// The event that the status is published as, if any.
    pub fn event(self) -> (event: Option<Event>)
        ensures
            event == self.spec_event(),
    {
        match self {
            FtmsStatus::StoppedOrPaused(control) => Some(Event::SessionStopped(control)),
            FtmsStatus::StartedOrResumed => Some(Event::SessionStarted),
            FtmsStatus::TargetPowerChanged => Some(Event::TargetPowerChanged),
            FtmsStatus::TargetCadenceChanged => Some(Event::TargetCadenceChanged),
            FtmsStatus::SpinDown(SpinDownStatus::StopPedaling, _) => Some(
                Event::SpinDownStopPedaling,
            ),
            FtmsStatus::SpinDown(SpinDownStatus::Success, Some(time)) => Some(
                Event::SpinDownSuccess(time),
            ),
            _ => None,
        }
    }
}

/// Decodes a Fitness Machine Status payload.
pub fn decode_ftms_status(data: &Vec<u8>) -> (status: Result<FtmsStatus, Error>)
    ensures
        status == ftms_status_of(data@),
{
    if data.len() < 1 {
        return Err(Error::ParseError);
    }
    let status_code = match convert_u8_to_ftms_status_code_enum(data[0]) {
        Some(code) => code,
        None => {
            return Err(Error::ProtocolError);
        },
    };
    match status_code {
        FTMSStatusCode::SpinDownStatus => {
            if data.len() < 2 {
                return Err(Error::ParseError);
            }
            match convert_u8_to_spin_down_status_code_enum(data[1]) {
                Some(SpinDownStatus::Success) => {
                    if data.len() < 4 {
                        return Err(Error::ParseError);
                    }
                    let spin_down_time = combine_u8_to_u16(data[2], data[3]);
                    Ok(FtmsStatus::SpinDown(SpinDownStatus::Success, Some(spin_down_time)))
                },
                Some(status) => Ok(FtmsStatus::SpinDown(status, None)),
                None => Err(Error::ProtocolError),
            }
        },
        FTMSStatusCode::StartedOrResumed => Ok(FtmsStatus::StartedOrResumed),
        FTMSStatusCode::StoppedOrPaused => {
            if data.len() < 2 {
                return Err(Error::ParseError);
            }
            match convert_u8_to_stop_control_code_enum(data[1]) {
                Some(control) => Ok(FtmsStatus::StoppedOrPaused(control)),
                None => Err(Error::ProtocolError),
            }
        },
        FTMSStatusCode::StoppedBySafetyKey => Ok(FtmsStatus::StoppedBySafetyKey),
        FTMSStatusCode::TargetPowerChanged => Ok(FtmsStatus::TargetPowerChanged),
        FTMSStatusCode::TargetCadenceChanged => Ok(FtmsStatus::TargetCadenceChanged),
        FTMSStatusCode::ControlPermissionLost => Ok(FtmsStatus::ControlPermissionLost),
    }
}

impl SessionView {
    /// The session of the engine after the trainer confirmed a request:
    /// a start begins a session where there is none and starts it, a stop
    /// stops or pauses the session that there is, and any other request
    /// leaves it alone.
    pub open spec fn confirmed(session: Option<SessionView>, request: ControlRequest) -> Option<
        SessionView,
    > {
        match (request, session) {
            (ControlRequest::Start, Some(session)) => Some(session.start()),
            (ControlRequest::Start, None) => Some(SessionView::new().start()),
            (ControlRequest::Stop(StopControl::Stop), Some(session)) => Some(session.stop()),
            (ControlRequest::Stop(StopControl::Pause), Some(session)) => Some(session.pause()),
            (_, session) => session,
        }
    }
}

impl BluetoothView {
    /// The engine and what it publishes after a report of the host stack.
    /// While the engine scans, a peripheral that is seen, has a name and is
    /// not connected goes onto the feed of discovered devices. Nothing else
    /// is published.
    pub open spec fn central_event(self, event: CentralEvent) -> (BluetoothView, Option<Event>) {
        match event {
            CentralEvent::DeviceDiscovered(peripheral) if self.is_scanning => {
                match discovered_device(peripheral) {
                    Some(device) => (
                        BluetoothView { discovery: self.discovery.push(device), ..self },
                        Some(Event::DeviceDiscovered(device)),
                    ),
                    None => (self, None),
                }
            },
            _ => (self, None),
        }
    }

    /// The engine and what it publishes after a notification of the heart
    /// rate monitor: the measurement, which the session takes if there is
    /// one.
    pub open spec fn heart_rate_notified(self, data: Seq<u8>) -> (
        BluetoothView,
        Result<Event, Error>,
    ) {
        match heart_rate_of(data) {
            Err(error) => (self, Err(error)),
            Ok(measurement) => (
                BluetoothView {
                    session: match self.session {
                        Some(session) => Some(session.add_heart_rate_data(measurement.bpm)),
                        None => None,
                    },
                    ..self
                },
                Ok(Event::HeartRateSample(measurement)),
            ),
        }
    }

    /// The engine and what it publishes after a notification of the indoor
    /// bike data at `now_ms`: the sample as the session passes it on, or as
    /// it came where there is no session. A session whose total distance
    /// cannot take the sample is left alone, and a session state error is
    /// reported.
    pub open spec fn bike_data_notified(self, data: Seq<u8>, now_ms: u64) -> (
        BluetoothView,
        Result<Option<Event>, Error>,
    ) {
        match indoor_bike_data_of(data) {
            Err(error) => (self, Err(error)),
            Ok(sample) => match self.session {
                None => (self, Ok(Some(Event::IndoorBikeSample(sample)))),
                Some(session) => {
                    if session.can_record(sample, now_ms) {
                        (
                            BluetoothView {
                                session: Some(session.record(sample, now_ms)),
                                ..self
                            },
                            Ok(Some(Event::IndoorBikeSample(session.passed_on(sample, now_ms)))),
                        )
                    } else {
                        (self, Err(Error::SessionStateError))
                    }
                },
            },
        }
    }

    /// The engine and what it publishes after a response of the control
    /// point was decoded.
    ///
    /// A response that does not answer the outstanding request changes
    /// nothing and is a protocol error. One that answers it frees the guard.
    /// If its result is not success, the request failed: a write failure.
    /// If it is, the session follows a start or a stop, and a spin-down is
    /// published with its target speed. A stop without a session is a
    /// session state error.
    pub open spec fn control_response(self, response: ControlResponse) -> (
        BluetoothView,
        Result<Option<Event>, Error>,
    ) {
        let settled = BluetoothView {
            control_point: self.control_point.settle(response),
            ..self
        };
        match self.control_point.outcome(response) {
            Err(error) => (settled, Err(error)),
            Ok(request) => match (request, self.session) {
                (ControlRequest::Stop(_), None) => (settled, Err(Error::SessionStateError)),
                _ => (
                    BluetoothView {
                        session: SessionView::confirmed(self.session, request),
                        ..settled
                    },
                    Ok(
                        match response.target_speed {
                            Some(target_speed) => Some(Event::SpinDownStart(target_speed)),
                            None => None,
                        },
                    ),
                ),
            },
        }
    }

    /// The engine and what it publishes after an indication of the control
    /// point. An indication that cannot be decoded changes nothing.
    pub open spec fn control_point_notified(self, data: Seq<u8>) -> (
        BluetoothView,
        Result<Option<Event>, Error>,
    ) {
        match control_response_of(data) {
            Err(error) => (self, Err(error)),
            Ok(response) => self.control_response(response),
        }
    }

    /// The engine and what it publishes after a notification of the status
    /// of the trainer. A phase of the spin-down is noted on the guard of the
    /// control point. A notification that cannot be decoded changes nothing.
    pub open spec fn status_notified(self, data: Seq<u8>) -> (
        BluetoothView,
        Result<Option<Event>, Error>,
    ) {
        match ftms_status_of(data) {
            Err(error) => (self, Err(error)),
            Ok(status) => (
                match status {
                    FtmsStatus::SpinDown(phase, _) => BluetoothView {
                        control_point: self.control_point.observe(phase),
                        ..self
                    },
                    _ => self,
                },
                Ok(status.spec_event()),
            ),
        }
    }

    /// The engine and what it publishes after a notification of the trainer
    /// on the characteristic with this UUID, at `now_ms`. Notifications of
    /// characteristics other than the indoor bike data, the control point
    /// and the status are passed over.
    pub open spec fn cycling_device_notified(self, uuid: u128, data: Seq<u8>, now_ms: u64) -> (
        BluetoothView,
        Result<Option<Event>, Error>,
    ) {
        match characteristic_of(uuid) {
            Characteristic::IndoorBikeData => self.bike_data_notified(data, now_ms),
            Characteristic::FitnessMachineControlPoint => self.control_point_notified(data),
            Characteristic::FitnessMachineStatus => self.status_notified(data),
            _ => (self, Ok(None)),
        }
    }
}

/// Takes a report of the host stack. While the engine scans, a peripheral
/// that is seen, has a name and is not connected is published on the feed of
/// discovered devices, and returned as an event.
pub fn handle_events(bluetooth: &mut Bluetooth, event: &CentralEvent) -> (published: Option<Event>)
    ensures
        (final(bluetooth)@, published) == old(bluetooth)@.central_event(*event),
{
    match event {
        CentralEvent::DeviceDiscovered(peripheral) => {
            if !bluetooth.is_scanning {
                return None;
            }
            match announce(peripheral) {
                Some(device) => {
                    let copy = BTDevice {
                        id: device.id.clone(),
                        local_name: device.local_name.clone(),
                    };
                    bluetooth.discovery.publish(copy);
                    Some(Event::DeviceDiscovered(device))
                },
                None => None,
            }
        },
        _ => None,
    }
}

/// Decides whether the stream of central events can be listened to. Without
/// an adapter it cannot. Where the host stack has the adapter but not its
/// events, the adapter counts as lost.
pub fn listen_to_events(bluetooth: &mut Bluetooth, has_events: bool) -> (listening: bool)
    ensures
        listening == (old(bluetooth).status == BluetoothStatus::Ready && has_events),
        old(bluetooth).status == BluetoothStatus::Ready && !has_events ==> final(bluetooth)@
            == old(bluetooth)@.adapter_lost(),
        old(bluetooth).status == BluetoothStatus::Error || has_events ==> final(bluetooth)@
            == old(bluetooth)@,
{
    if bluetooth.status == BluetoothStatus::Error {
        return false;
    }
    if !has_events {
        bluetooth.adapter_lost();
        return false;
    }
    true
}

/// Takes a notification of the heart rate monitor: decodes it, hands the
/// heart rate to the session if there is one, and returns the measurement
/// as an event. A payload that cannot be decoded changes nothing.
pub fn handle_heart_rate_notifications(bluetooth: &mut Bluetooth, data: &Vec<u8>) -> (published:
    Result<Event, Error>)
    ensures
        (final(bluetooth)@, published) == old(bluetooth)@.heart_rate_notified(data@),
{
    let measurement = parse_hrm_data(data)?;
    match &mut bluetooth.session {
        Some(session) => {
            session.add_heart_rate_data(measurement.bpm);
        },
        None => {},
    }
    Ok(Event::HeartRateSample(measurement))
}

/// Takes a notification of the indoor bike data at `now_ms` on the host's
/// monotonic clock.
pub fn handle_indoor_bike_notifications(
    bluetooth: &mut Bluetooth,
    data: &Vec<u8>,
    now_ms: u64,
) -> (published: Result<Option<Event>, Error>)
    ensures
        (final(bluetooth)@, published) == old(bluetooth)@.bike_data_notified(data@, now_ms),
{
    let sample = parse_indoor_bike_data(data)?;
    match &mut bluetooth.session {
        Some(session) => {
            if !session.can_record(&sample, now_ms) {
                return Err(Error::SessionStateError);
            }
            let passed_on = session.record(sample, now_ms);
            Ok(Some(Event::IndoorBikeSample(passed_on)))
        },
        None => Ok(Some(Event::IndoorBikeSample(sample))),
    }
}

/// Takes a notification of the trainer on the characteristic with this
/// UUID, at `now_ms` on the host's monotonic clock, and returns what is to
/// be published. An error means that the notification was dropped; the
/// stream goes on.
pub fn handle_cycling_device_notifications(
    bluetooth: &mut Bluetooth,
    uuid: u128,
    data: &Vec<u8>,
    now_ms: u64,
) -> (published: Result<Option<Event>, Error>)
    ensures
        (final(bluetooth)@, published) == old(bluetooth)@.cycling_device_notified(
            uuid,
            data@,
            now_ms,
        ),
{
    match get_uuid_characteristic(uuid) {
        Characteristic::IndoorBikeData => handle_indoor_bike_notifications(bluetooth, data, now_ms),
        Characteristic::FitnessMachineControlPoint => handle_control_point_response(
            bluetooth,
            data,
        ),
        Characteristic::FitnessMachineStatus => handle_ftms_status(bluetooth, data),
        // Cycling power is not read.
        _ => Ok(None),
    }
}

/// The places of the characteristics with this UUID among those of a
/// peripheral, in rising order.
pub open spec fn places_of(characteristics: Seq<u128>, uuid: u128) -> Seq<usize>
    decreases characteristics.len(),
{
    if characteristics.len() == 0 {
        Seq::empty()
    } else {
        let before = places_of(characteristics.drop_last(), uuid);
        if characteristics.last() == uuid {
            before.push((characteristics.len() - 1) as usize)
        } else {
            before
        }
    }
}

/// Picks the characteristics of a peripheral that are to be subscribed or
/// unsubscribed for this UUID: every one that has it, by its place among the
/// characteristics of the peripheral, in rising order.
pub fn handle_characteristic_subscription(uuid: u128, characteristics: &Vec<u128>) -> (places: Vec<
    usize,
>)
    ensures
        places@ == places_of(characteristics@, uuid),
{
    let mut places: Vec<usize> = Vec::new();
    let mut i: usize = 0;
    assert(characteristics@.subrange(0, 0) =~= Seq::<u128>::empty());
    while i < characteristics.len()
        invariant
            i <= characteristics.len(),
            places@ == places_of(characteristics@.subrange(0, i as int), uuid),
        decreases characteristics.len() - i,
    {
        proof {
            let upto = characteristics@.subrange(0, i + 1);
            assert(upto.drop_last() =~= characteristics@.subrange(0, i as int));
        }
        if characteristics[i] == uuid {
            places.push(i);
        }
        i += 1;
    }
    assert(characteristics@.subrange(0, i as int) =~= characteristics@);
    places
}

/// Picks the characteristic of a peripheral that is to be written to for
/// this UUID: the first that has it. Without one the write fails.
pub fn write_to_characteristic(uuid: u128, characteristics: &Vec<u128>) -> (place: Result<
    usize,
    Error,
>)
    ensures
        match place {
            Ok(index) => index < characteristics@.len() && characteristics@[index as int] == uuid
                && forall|j: int| 0 <= j < index ==> characteristics@[j] != uuid,
            Err(error) => error == Error::WriteFailure && !characteristics@.contains(uuid),
        },
{
    let mut i: usize = 0;
    while i < characteristics.len()
        invariant
            i <= characteristics.len(),
            forall|j: int| 0 <= j < i ==> characteristics@[j] != uuid,
        decreases characteristics.len() - i,
    {
        if characteristics[i] == uuid {
            return Ok(i);
        }
        i += 1;
    }
    Err(Error::WriteFailure)
}

/// Takes an indication of the control point and returns what is to be
/// published. See [`BluetoothView::control_response`].
pub fn handle_control_point_response(bluetooth: &mut Bluetooth, data: &Vec<u8>) -> (published:
    Result<Option<Event>, Error>)
    ensures
        (final(bluetooth)@, published) == old(bluetooth)@.control_point_notified(data@),
{
    let response = decode_control_response(data)?;
    let request = bluetooth.control_point.accept(response)?;
    match request {
        ControlRequest::Start => {
            match &mut bluetooth.session {
                Some(session) => {
                    session.start_session();
                },
                None => {
                    let mut session = Session::new();
                    session.start_session();
                    bluetooth.session = Some(session);
                },
            }
        },
        ControlRequest::Stop(control) => {
            match &mut bluetooth.session {
                Some(session) => {
                    match control {
                        StopControl::Stop => session.stop_session(),
                        StopControl::Pause => session.pause_session(),
                    }
                },
                None => {
                    return Err(Error::SessionStateError);
                },
            }
        },
        _ => {},
    }
    match response.target_speed {
        Some(target_speed) => Ok(Some(Event::SpinDownStart(target_speed))),
        None => Ok(None),
    }
}

/// Takes a notification of the status of the trainer and returns what is to
/// be published. See [`BluetoothView::status_notified`].
pub fn handle_ftms_status(bluetooth: &mut Bluetooth, data: &Vec<u8>) -> (published: Result<
    Option<Event>,
    Error,
>)
    ensures
        (final(bluetooth)@, published) == old(bluetooth)@.status_notified(data@),
{
    let status = decode_ftms_status(data)?;
    match status {
        FtmsStatus::SpinDown(phase, _) => {
            bluetooth.control_point.note_spin_down(phase);
        },
        _ => {},
    }
    Ok(status.event())
}

/// A response of the control point that echoes another opcode than that of
/// the outstanding request, or that comes while no request is outstanding,
/// publishes nothing and leaves the engine, and with it the outstanding
/// request, as it was.
pub proof fn lemma_unmatched_response_changes_nothing(engine: BluetoothView, data: Seq<u8>)
    requires
        control_response_of(data) matches Ok(response) ==> !engine.control_point.answers(response),
    ensures
        engine.control_point_notified(data).0 == engine,
        engine.control_point_notified(data).1 is Err,
{
}

/// A request waits for its response only while there is a trainer to give
/// it: whatever the host stack reports and whatever the user asks for, an
/// engine without a trainer has no outstanding request.
pub proof fn lemma_no_request_without_trainer(
    engine: BluetoothView,
    event: CentralEvent,
    uuid: u128,
    data: Seq<u8>,
    now_ms: u64,
    request: ControlRequest,
    id: Seq<char>,
    device_type: DeviceType,
)
    requires
        engine.is_valid(),
    ensures
        BluetoothView::init(true, true).is_valid(),
        engine.adapter_lost().is_valid(),
        engine.central_event(event).0.is_valid(),
        engine.heart_rate_notified(data).0.is_valid(),
        engine.cycling_device_notified(uuid, data, now_ms).0.is_valid(),
        engine.control_request(request).0.is_valid(),
        engine.add_device(id, device_type).is_valid(),
        engine.remove_device(device_type).is_valid(),
{
}

} // verus!
