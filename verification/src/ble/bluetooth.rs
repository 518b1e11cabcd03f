//! The roles of devices, what the host stack knows of a peripheral, and the
//! engine that owns the two connection slots and the session.

use crate::ble::connection::{subscription_at, subscription_count, subscriptions};
use crate::ble::constants::{SpinDownControl, StopControl};
use crate::ble::control_point::{ControlPoint, ControlRequest};
use crate::ble::discovery::{scan_filter_of, scan_filter_services, DiscoveryFeed};
use crate::ble::event_handlers::Characteristic;
use crate::data::session::{Session, SessionView};
use crate::error::Error;
use crate::utils::bluetooth_utils::{classify, get_device_type};
use crate::utils::byte::{signed_of_u16, u16_to_i16};
use vstd::prelude::*;

verus! {

/// Whether the engine has an adapter to work with.
#[derive(Clone, Copy, Debug, PartialEq, Eq, Structural)]
pub enum BluetoothStatus {
    Error,
    Ready,
}

/// What the user asks of a device.
#[derive(Clone, Copy, Debug, PartialEq, Eq, Structural)]
pub enum Connection {
    Connect,
    Disconnect,
}

/// The role of a device, derived from the services it offers.
#[derive(Clone, Copy, Debug, PartialEq, Eq, Structural)]
pub enum DeviceType {
    HeartRate,
    SmartTrainer,
    Generic,
}

impl DeviceType {
    /// The name by which the user interface knows this role.
    pub open spec fn name(self) -> &'static str {
        match self {
            DeviceType::HeartRate => "heart_rate",
            DeviceType::SmartTrainer => "smart_trainer",
            DeviceType::Generic => "generic",
        }
    }

    /// The role that the user interface names; any name but those of the
    /// heart rate monitor and the smart trainer stands for a generic device.
    pub open spec fn spec_from_name(name: Seq<char>) -> DeviceType {
        if name == "heart_rate"@ {
            DeviceType::HeartRate
        } else if name == "smart_trainer"@ {
            DeviceType::SmartTrainer
        } else {
            DeviceType::Generic
        }
    }

    /// `"heart_rate"`, `"smart_trainer"` or `"generic"`.
    pub fn to_string(&self) -> (text: String)
        ensures
            text@ == self.name()@,
    {
        match self {
            DeviceType::HeartRate => "heart_rate".to_owned(),
            DeviceType::SmartTrainer => "smart_trainer".to_owned(),
            DeviceType::Generic => "generic".to_owned(),
        }
    }

    /// Reads the name of a role as the user interface sends it.
    pub fn from_name(name: &str) -> (device_type: DeviceType)
        ensures
            device_type == DeviceType::spec_from_name(name@),
    {
        let name = name.to_owned();
        if name == "heart_rate".to_owned() {
            DeviceType::HeartRate
        } else if name == "smart_trainer".to_owned() {
            DeviceType::SmartTrainer
        } else {
            DeviceType::Generic
        }
    }
}

/// A device as the user interface sees it.
#[derive(Clone, Debug)]
pub struct BTDevice {
    pub id: String,
    pub local_name: String,
}

/// What a peripheral advertises.
#[derive(Clone, Debug)]
pub struct PeripheralProperties {
    pub local_name: Option<String>,
    /// The UUIDs of the advertised services, as 128-bit values.
    pub services: Vec<u128>,
}

/// What the host stack knows of a peripheral at one moment. The stack owns
/// the peripheral; the engine only ever holds its identifier.
#[derive(Clone, Debug)]
pub struct Peripheral {
    pub id: String,
    /// Nothing where the stack could not tell the properties.
    pub properties: Option<PeripheralProperties>,
    /// Nothing where the stack could not tell whether the link is up.
    pub is_connected: Option<bool>,
}

/// What is to be done about a device that the user asked to connect or to
/// disconnect.
#[derive(Clone, Copy, Debug, PartialEq, Eq, Structural)]
pub enum ConnectionPlan {
    /// The device is already as the user wants it.
    Nothing,
    /// Bring up the link to the peripheral at this place of the list.
    AddDevice(usize),
    /// Take down the link to the peripheral at this place of the list, which
    /// occupies the slot of this role; the generic role stands for a device
    /// that occupies no slot.
    RemoveDevice(usize, DeviceType),
}

/// The engine: whether it scans, whether it has an adapter, the heart rate
/// slot and the trainer slot, each empty or holding the identifier of one
/// connected peripheral, the guard of the trainer's control point, the
/// session, and the feed of discovered devices.
#[derive(Debug)]
pub struct Bluetooth {
    pub is_scanning: bool,
    pub status: BluetoothStatus,
    pub heart_rate_device: Option<String>,
    pub cycling_device: Option<String>,
    pub session: Option<Session>,
    pub control_point: ControlPoint,
    pub discovery: DiscoveryFeed,
}

/// What the engine holds, as mathematical values.
pub struct BluetoothView {
    pub is_scanning: bool,
    pub status: BluetoothStatus,
    pub heart_rate_device: Option<Seq<char>>,
    pub cycling_device: Option<Seq<char>>,
    pub session: Option<SessionView>,
    pub control_point: ControlPoint,
    pub discovery: Seq<BTDevice>,
}

/// The characters of an identifier that may be absent.
pub open spec fn identifier_view(id: Option<String>) -> Option<Seq<char>> {
    match id {
        Some(id) => Some(id@),
        None => None,
    }
}

/// What a payload that may have been refused holds.
pub open spec fn payload_view(payload: Result<Vec<u8>, Error>) -> Result<Seq<u8>, Error> {
    match payload {
        Ok(bytes) => Ok(bytes@),
        Err(error) => Err(error),
    }
}

/// The signed 16-bit number that has the low sixteen bits of `value`.
pub open spec fn low_i16(value: usize) -> i16 {
    signed_of_u16((value % 65536) as u16) as i16
}

/// Whether the peripheral at `index` is the first of the list with this
/// identifier.
pub open spec fn is_first_with_id(peripherals: Seq<Peripheral>, id: Seq<char>, index: int) -> bool {
    &&& 0 <= index < peripherals.len()
    &&& peripherals[index].id@ == id
    &&& forall|j: int| 0 <= j < index ==> (#[trigger] peripherals[j]).id@ != id
}

/// Whether no peripheral of the list has this identifier.
pub open spec fn has_no_id(peripherals: Seq<Peripheral>, id: Seq<char>) -> bool {
    forall|j: int| 0 <= j < peripherals.len() ==> (#[trigger] peripherals[j]).id@ != id
}

/// The line of the list of connected devices that a peripheral stands for:
/// its identifier, its name and its role by the services it advertises, if
/// its link is known to be up and it has a name.
pub open spec fn connected_device(peripheral: Peripheral) -> Option<
    (Seq<char>, Seq<char>, Seq<char>),
> {
    match (peripheral.is_connected, peripheral.properties) {
        (Some(true), Some(properties)) => match properties.local_name {
            Some(local_name) => Some(
                (peripheral.id@, local_name@, classify(properties.services@.to_set()).name()@),
            ),
            None => None,
        },
        _ => None,
    }
}

/// The lines of the list of connected devices, in the order of the
/// peripherals.
pub open spec fn connected_devices(peripherals: Seq<Peripheral>) -> Seq<
    (Seq<char>, Seq<char>, Seq<char>),
>
    decreases peripherals.len(),
{
    if peripherals.len() == 0 {
        Seq::empty()
    } else {
        let before = connected_devices(peripherals.drop_last());
        match connected_device(peripherals.last()) {
            Some(line) => before.push(line),
            None => before,
        }
    }
}

/// What the lines of a list of devices hold.
pub open spec fn lines_view(lines: Seq<(String, String, String)>) -> Seq<
    (Seq<char>, Seq<char>, Seq<char>),
> {
    Seq::new(lines.len(), |i: int| (lines[i].0@, lines[i].1@, lines[i].2@))
}

impl BluetoothView {
    /// An engine that has just been set up: ready if it has both a manager
    /// and an adapter.
    pub open spec fn init(has_manager: bool, has_central: bool) -> BluetoothView {
        BluetoothView {
            is_scanning: false,
            status: if has_manager && has_central {
                BluetoothStatus::Ready
            } else {
                BluetoothStatus::Error
            },
            heart_rate_device: None,
            cycling_device: None,
            session: None,
            control_point: ControlPoint::spec_new(),
            discovery: Seq::empty(),
        }
    }

    /// What holds of an engine at all times: a request to the control point
    /// is outstanding only while a trainer is in its slot.
    pub open spec fn is_valid(self) -> bool {
        self.cycling_device is None ==> self.control_point.is_free()
    }

    /// The engine after its adapter was lost: nothing is scanned for, and
    /// what was connected is presumed lost.
    pub open spec fn adapter_lost(self) -> BluetoothView {
        BluetoothView {
            is_scanning: false,
            status: BluetoothStatus::Error,
            heart_rate_device: None,
            cycling_device: None,
            control_point: ControlPoint::spec_new(),
            ..self
        }
    }

    /// What a request for a scan leads to: nothing where a scan is under
    /// way, a failure where there is no adapter, and else a scan for the
    /// services of the role.
    pub open spec fn scan_request(self, scan_filter: DeviceType) -> Result<
        Option<Seq<u128>>,
        Error,
    > {
        if self.is_scanning {
            Ok(None)
        } else if self.status == BluetoothStatus::Error {
            Err(Error::AdapterUnavailable)
        } else {
            Ok(Some(scan_filter_of(scan_filter)))
        }
    }

    /// The identifier in the slot of a role; the generic role has no slot.
    pub open spec fn slot(self, device_type: DeviceType) -> Option<Seq<char>> {
        match device_type {
            DeviceType::HeartRate => self.heart_rate_device,
            DeviceType::SmartTrainer => self.cycling_device,
            DeviceType::Generic => None,
        }
    }

    /// The characteristics that the device in the slot of a role is
    /// subscribed to: those of the role where the slot is occupied, and none
    /// where it is empty.
    pub open spec fn subscribed(self, device_type: DeviceType) -> Seq<Characteristic> {
        if self.slot(device_type) is Some {
            subscriptions(device_type)
        } else {
            Seq::empty()
        }
    }

    /// The role whose slot holds this identifier; the generic role if none
    /// does.
    pub open spec fn slot_of(self, id: Seq<char>) -> DeviceType {
        if self.heart_rate_device == Some(id) {
            DeviceType::HeartRate
        } else if self.cycling_device == Some(id) {
            DeviceType::SmartTrainer
        } else {
            DeviceType::Generic
        }
    }

    /// The engine after a connected device took the slot of its role. A
    /// trainer has just been asked for control, so that request is
    /// outstanding.
    pub open spec fn add_device(self, id: Seq<char>, device_type: DeviceType) -> BluetoothView {
        match device_type {
            DeviceType::HeartRate => BluetoothView { heart_rate_device: Some(id), ..self },
            DeviceType::SmartTrainer => BluetoothView {
                cycling_device: Some(id),
                control_point: ControlPoint::spec_awaiting(ControlRequest::RequestControl),
                ..self
            },
            DeviceType::Generic => self,
        }
    }

    /// The engine after the slot of a role was emptied.
    pub open spec fn remove_device(self, device_type: DeviceType) -> BluetoothView {
        match device_type {
            DeviceType::HeartRate => BluetoothView { heart_rate_device: None, ..self },
            DeviceType::SmartTrainer => BluetoothView {
                cycling_device: None,
                control_point: ControlPoint::spec_new(),
                ..self
            },
            DeviceType::Generic => self,
        }
    }

    /// What becomes of a request to the control point: without a trainer
    /// there is no device for it; while another request is outstanding it
    /// is refused; else it becomes the outstanding request and its bytes
    /// are to be written.
    pub open spec fn control_request(self, request: ControlRequest) -> (
        BluetoothView,
        Result<Seq<u8>, Error>,
    ) {
        if self.cycling_device is None {
            (self, Err(Error::DeviceNotFound))
        } else if !self.control_point.is_free() {
            (self, Err(Error::WriteFailure))
        } else {
            (
                BluetoothView { control_point: self.control_point.hold(request), ..self },
                Ok(request.encoding()),
            )
        }
    }
}

impl View for Bluetooth {
    type V = BluetoothView;

    open spec fn view(&self) -> BluetoothView {
        BluetoothView {
            is_scanning: self.is_scanning,
            status: self.status,
            heart_rate_device: identifier_view(self.heart_rate_device),
            cycling_device: identifier_view(self.cycling_device),
            session: match self.session {
                Some(session) => Some(session@),
                None => None,
            },
            control_point: self.control_point,
            discovery: self.discovery@,
        }
    }
}

/// Tells whether a slot holds this identifier.
fn slot_holds(slot: &Option<String>, id: &String) -> (holds: bool)
    ensures
        holds == (identifier_view(*slot) == Some(id@)),
{
    match slot {
        Some(held) => *held == *id,
        None => false,
    }
}

impl Bluetooth {
    /// Sets the engine up. It is ready if the host stack gave both a manager
    /// and an adapter.
    pub fn init(has_manager: bool, has_central: bool) -> (bluetooth: Bluetooth)
        ensures
            bluetooth@ == BluetoothView::init(has_manager, has_central),
    {
        let status = match (has_manager, has_central) {
            (true, true) => BluetoothStatus::Ready,
            _ => BluetoothStatus::Error,
        };
        Bluetooth {
            is_scanning: false,
            status,
            heart_rate_device: None,
            cycling_device: None,
            session: None,
            control_point: ControlPoint::new(),
            discovery: DiscoveryFeed::new(),
        }
    }

    /// Notes that the adapter is gone. The engine has to be set up again.
    pub fn adapter_lost(&mut self)
        ensures
            final(self)@ == old(self)@.adapter_lost(),
    {
        self.is_scanning = false;
        self.status = BluetoothStatus::Error;
        self.heart_rate_device = None;
        self.cycling_device = None;
        self.control_point = ControlPoint::new();
    }

    /// Decides on a request for a scan: the services to scan for, nothing
    /// where a scan is under way already, or a failure where there is no
    /// adapter.
    pub fn start_scan(&self, scan_filter: DeviceType) -> (filter: Result<Option<Vec<u128>>, Error>)
        ensures
            match filter {
                Ok(Some(services)) => self@.scan_request(scan_filter) == Ok::<
                    Option<Seq<u128>>,
                    Error,
                >(Some(services@)),
                Ok(None) => self@.scan_request(scan_filter) == Ok::<Option<Seq<u128>>, Error>(
                    None,
                ),
                Err(error) => self@.scan_request(scan_filter) == Err::<Option<Seq<u128>>, Error>(
                    error,
                ),
            },
    {
        if self.is_scanning {
            return Ok(None);
        }
        if self.status == BluetoothStatus::Error {
            return Err(Error::AdapterUnavailable);
        }
        Ok(Some(scan_filter_services(scan_filter)))
    }

    /// Notes how the host stack took the request to scan: the engine scans
    /// if the stack started, and reports a scan failure if it did not.
    pub fn scan_started(&mut self, started: bool) -> (outcome: Result<(), Error>)
        ensures
            started ==> outcome is Ok && final(self)@ == (BluetoothView {
                is_scanning: true,
                ..old(self)@
            }),
            !started ==> outcome == Err::<(), Error>(Error::ScanFailure) && final(self)@ == old(
                self,
            )@,
    {
        if !started {
            return Err(Error::ScanFailure);
        }
        self.is_scanning = true;
        Ok(())
    }

    /// Decides on a request to stop the scan: it fails where there is no
    /// adapter.
    pub fn stop_scan(&self) -> (outcome: Result<(), Error>)
        ensures
            self.status == BluetoothStatus::Error ==> outcome == Err::<(), Error>(
                Error::AdapterUnavailable,
            ),
            self.status == BluetoothStatus::Ready ==> outcome is Ok,
    {
        if self.status == BluetoothStatus::Error {
            return Err(Error::AdapterUnavailable);
        }
        Ok(())
    }

    /// Notes how the host stack took the request to stop the scan: the
    /// engine scans no more if the stack stopped, and reports a scan failure
    /// if it did not.
    pub fn scan_stopped(&mut self, stopped: bool) -> (outcome: Result<(), Error>)
        ensures
            stopped ==> outcome is Ok && final(self)@ == (BluetoothView {
                is_scanning: false,
                ..old(self)@
            }),
            !stopped ==> outcome == Err::<(), Error>(Error::ScanFailure) && final(self)@ == old(
                self,
            )@,
    {
        if !stopped {
            return Err(Error::ScanFailure);
        }
        self.is_scanning = false;
        Ok(())
    }

    /// Decides what to do about the device with this identifier, among the
    /// peripherals that the host stack knows.
    ///
    /// There must be an adapter, a peripheral with the identifier, and the
    /// stack must know whether its link is up. A device that is to be
    /// connected and is not gets its link brought up; one that is to be
    /// disconnected and is connected gets it taken down; any other is left
    /// alone.
    pub fn handle_connection(&self, id: &str, action: &Connection, peripherals: &Vec<Peripheral>) -> (plan:
        Result<ConnectionPlan, Error>)
        ensures
            self.status == BluetoothStatus::Error ==> plan == Err::<ConnectionPlan, Error>(
                Error::AdapterUnavailable,
            ),
            self.status == BluetoothStatus::Ready && has_no_id(peripherals@, id@) ==> plan == Err::<
                ConnectionPlan,
                Error,
            >(Error::DeviceNotFound),
            forall|index: int|
                self.status == BluetoothStatus::Ready && is_first_with_id(
                    peripherals@,
                    id@,
                    index,
                ) ==> plan == (match (*action, peripherals@[index].is_connected) {
                    (_, None) => Err::<ConnectionPlan, Error>(Error::ConnectionFailure),
                    (Connection::Connect, Some(false)) => Ok(
                        ConnectionPlan::AddDevice(index as usize),
                    ),
                    (Connection::Disconnect, Some(true)) => Ok(
                        ConnectionPlan::RemoveDevice(index as usize, self@.slot_of(id@)),
                    ),
                    _ => Ok(ConnectionPlan::Nothing),
                }),
    {
        if self.status == BluetoothStatus::Error {
            return Err(Error::AdapterUnavailable);
        }
        let wanted = id.to_owned();
        let mut i: usize = 0;
        let mut found = false;
        while i < peripherals.len() && !found
            invariant
                i <= peripherals.len(),
                wanted@ == id@,
                forall|j: int| 0 <= j < i ==> (#[trigger] peripherals@[j]).id@ != id@,
                found ==> i < peripherals.len() && peripherals@[i as int].id@ == id@,
            decreases peripherals.len() - i + (if found { 0int } else { 1int }),
        {
            if peripherals[i].id == wanted {
                found = true;
            } else {
                i += 1;
            }
        }
        if !found {
            return Err(Error::DeviceNotFound);
        }
        assert(is_first_with_id(peripherals@, id@, i as int));
        let is_connected = match peripherals[i].is_connected {
            Some(is_connected) => is_connected,
            None => {
                return Err(Error::ConnectionFailure);
            },
        };
        match (action, is_connected) {
            (Connection::Connect, false) => Ok(ConnectionPlan::AddDevice(i)),
            (Connection::Disconnect, true) => {
                let device_type = if slot_holds(&self.heart_rate_device, &wanted) {
                    DeviceType::HeartRate
                } else if slot_holds(&self.cycling_device, &wanted) {
                    DeviceType::SmartTrainer
                } else {
                    DeviceType::Generic
                };
                Ok(ConnectionPlan::RemoveDevice(i, device_type))
            },
            _ => Ok(ConnectionPlan::Nothing),
        }
    }

    /// Whether a device of this role can take its slot: the slot is empty,
    /// or the role is the generic one, which needs none.
    pub fn slot_is_free(&self, device_type: DeviceType) -> (free: bool)
        ensures
            free == (self@.slot(device_type) is None),
    {
        match device_type {
            DeviceType::HeartRate => self.heart_rate_device.is_none(),
            DeviceType::SmartTrainer => self.cycling_device.is_none(),
            DeviceType::Generic => true,
        }
    }

    /// The characteristics that the device in the slot of a role is
    /// subscribed to, in the order in which they were subscribed.
    pub fn subscribed_characteristics(&self, device_type: DeviceType) -> (characteristics: Vec<
        Characteristic,
    >)
        ensures
            characteristics@ == self@.subscribed(device_type),
    {
        let mut characteristics: Vec<Characteristic> = Vec::new();
        if self.slot_is_free(device_type) {
            return characteristics;
        }
        let count = subscription_count(device_type);
        let mut i: usize = 0;
        while i < count
            invariant
                i <= count,
                count == subscriptions(device_type).len(),
                characteristics@ == subscriptions(device_type).subrange(0, i as int),
            decreases count - i,
        {
            characteristics.push(subscription_at(device_type, i));
            assert(characteristics@ =~= subscriptions(device_type).subrange(0, i + 1));
            i += 1;
        }
        assert(characteristics@ =~= subscriptions(device_type));
        characteristics
    }

    /// Puts a device whose link has come up into the slot of its role. A
    /// slot holds one device: where the slot is taken nothing changes and a
    /// connection failure is reported.
    pub fn add_device(&mut self, id: &str, device_type: DeviceType) -> (outcome: Result<(), Error>)
        ensures
            old(self)@.slot(device_type) is None ==> outcome is Ok && final(self)@ == old(
                self,
            )@.add_device(id@, device_type),
            old(self)@.slot(device_type) is Some ==> outcome == Err::<(), Error>(
                Error::ConnectionFailure,
            ) && final(self)@ == old(self)@,
    {
        if !self.slot_is_free(device_type) {
            return Err(Error::ConnectionFailure);
        }
        match device_type {
            DeviceType::HeartRate => {
                self.heart_rate_device = Some(id.to_owned());
            },
            DeviceType::SmartTrainer => {
                self.cycling_device = Some(id.to_owned());
                self.control_point = ControlPoint::awaiting(ControlRequest::RequestControl);
            },
            DeviceType::Generic => {},
        }
        Ok(())
    }

    /// Empties the slot of a role before the link of its device is taken
    /// down. A generic device holds no slot, so there is nothing to empty.
    /// Where the slot of another role is empty already nothing changes and
    /// the device is reported as not found.
    pub fn remove_device(&mut self, device_type: DeviceType) -> (outcome: Result<(), Error>)
        ensures
            device_type == DeviceType::Generic || old(self)@.slot(device_type) is Some
                ==> outcome is Ok && final(self)@ == old(self)@.remove_device(device_type),
            device_type != DeviceType::Generic && old(self)@.slot(device_type) is None
                ==> outcome == Err::<(), Error>(Error::DeviceNotFound) && final(self)@ == old(
                self,
            )@,
    {
        match device_type {
            DeviceType::HeartRate => {
                if self.heart_rate_device.is_none() {
                    return Err(Error::DeviceNotFound);
                }
                self.heart_rate_device = None;
            },
            DeviceType::SmartTrainer => {
                if self.cycling_device.is_none() {
                    return Err(Error::DeviceNotFound);
                }
                self.cycling_device = None;
                self.control_point = ControlPoint::new();
            },
            DeviceType::Generic => {},
        }
        Ok(())
    }

    /// The devices whose link is up and which have a name, each with its
    /// identifier, its name and the name of the role that the services it
    /// advertises give it.
    pub fn get_connected_devices(&self, peripherals: &Vec<Peripheral>) -> (devices: Vec<
        (String, String, String),
    >)
        ensures
            lines_view(devices@) == connected_devices(peripherals@),
    {
        let mut devices: Vec<(String, String, String)> = Vec::new();
        let mut i: usize = 0;
        assert(peripherals@.subrange(0, 0) =~= Seq::<Peripheral>::empty());
        assert(lines_view(devices@) =~= connected_devices(peripherals@.subrange(0, 0)));
        while i < peripherals.len()
            invariant
                i <= peripherals.len(),
                lines_view(devices@) == connected_devices(peripherals@.subrange(0, i as int)),
            decreases peripherals.len() - i,
        {
            let peripheral = &peripherals[i];
            let ghost before = lines_view(devices@);
            proof {
                let upto = peripherals@.subrange(0, i + 1);
                assert(upto.drop_last() =~= peripherals@.subrange(0, i as int));
                assert(upto.last() == peripherals@[i as int]);
            }
            i += 1;
            let Some(is_connected) = peripheral.is_connected else {
                continue ;
            };
            if !is_connected {
                continue ;
            }
            let Some(properties) = &peripheral.properties else {
                continue ;
            };
            let Some(local_name) = &properties.local_name else {
                continue ;
            };
            let device_type = get_device_type(properties.services.clone());
            devices.push((peripheral.id.clone(), local_name.clone(), device_type.to_string()));
            assert(lines_view(devices@) =~= before.push(
                (peripheral.id@, local_name@, device_type.name()@),
            ));
        }
        assert(peripherals@.subrange(0, i as int) =~= peripherals@);
        devices
    }

    /// Takes a request to the control point, if there is a trainer and no
    /// other request is outstanding, and returns the bytes to write.
    pub fn control_request(&mut self, request: ControlRequest) -> (payload: Result<Vec<u8>, Error>)
        ensures
            (final(self)@, payload_view(payload)) == old(self)@.control_request(request),
    {
        if self.cycling_device.is_none() {
            return Err(Error::DeviceNotFound);
        }
        self.control_point.write_request(request)
    }

    /// Notes that the bytes of the outstanding request could not be written,
    /// or that its response did not come: the request is given up, and the
    /// caller is owed a write failure.
    pub fn control_request_failed(&mut self) -> (error: Error)
        ensures
            error == Error::WriteFailure,
            final(self)@ == (BluetoothView {
                control_point: old(self).control_point.give_up(),
                ..old(self)@
            }),
    {
        self.control_point.abandon_request();
        Error::WriteFailure
    }

    /// Asks the trainer for a target power in watts. The low sixteen bits of
    /// `power` are sent.
    pub fn set_target_power(&mut self, power: usize) -> (payload: Result<Vec<u8>, Error>)
        ensures
            (final(self)@, payload_view(payload)) == old(self)@.control_request(
                ControlRequest::TargetPower(low_i16(power)),
            ),
    {
        let data = u16_to_i16((power % 65536) as u16);
        self.control_request(ControlRequest::TargetPower(data))
    }

    /// Asks the trainer for a target cadence. The low sixteen bits of
    /// `cadence` are sent.
    pub fn set_target_cadence(&mut self, cadence: usize) -> (payload: Result<Vec<u8>, Error>)
        ensures
            (final(self)@, payload_view(payload)) == old(self)@.control_request(
                ControlRequest::TargetCadence(low_i16(cadence)),
            ),
    {
        let data = u16_to_i16((cadence % 65536) as u16);
        self.control_request(ControlRequest::TargetCadence(data))
    }

    /// Asks the trainer to start a spin-down calibration.
    pub fn request_spin_down(&mut self) -> (payload: Result<Vec<u8>, Error>)
        ensures
            (final(self)@, payload_view(payload)) == old(self)@.control_request(
                ControlRequest::SpinDownControl(SpinDownControl::Start),
            ),
    {
        self.control_request(ControlRequest::SpinDownControl(SpinDownControl::Start))
    }

    /// Asks the trainer to start or resume. The session starts when the
    /// trainer answers with success.
    pub fn start_session(&mut self) -> (payload: Result<Vec<u8>, Error>)
        ensures
            (final(self)@, payload_view(payload)) == old(self)@.control_request(
                ControlRequest::Start,
            ),
    {
        self.control_request(ControlRequest::Start)
    }

    /// Asks the trainer to stop, for the action `"stop"`, or to pause, for
    /// `"pause"`. Any other action is a protocol error, unless there is no
    /// trainer to begin with. The session follows when the trainer answers
    /// with success.
    pub fn stop_session(&mut self, action: &str) -> (payload: Result<Vec<u8>, Error>)
        ensures
            (final(self)@, payload_view(payload)) == (if old(self)@.cycling_device is None {
                (old(self)@, Err::<Seq<u8>, Error>(Error::DeviceNotFound))
            } else {
                match StopControl::spec_from_action(action@) {
                    Some(control) => old(self)@.control_request(ControlRequest::Stop(control)),
                    None => (old(self)@, Err::<Seq<u8>, Error>(Error::ProtocolError)),
                }
            }),
    {
        if self.cycling_device.is_none() {
            return Err(Error::DeviceNotFound);
        }
        let action_code = match StopControl::from_action(action) {
            Some(control) => control,
            None => {
                return Err(Error::ProtocolError);
            },
        };
        self.control_request(ControlRequest::Stop(action_code))
    }

    /// A copy of the session, or a session state error where there is none.
    pub fn get_session_data(&self) -> (data: Result<Session, Error>)
        ensures
            match data {
                Ok(session) => self@.session == Some(session@),
                Err(error) => error == Error::SessionStateError && self@.session is None,
            },
    {
        match &self.session {
            Some(session) => Ok(session.get_session_data()),
            None => Err(Error::SessionStateError),
        }
    }
}

} // verus!
