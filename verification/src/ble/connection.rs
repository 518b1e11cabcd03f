//! The life cycle of the link to one peripheral.
//!
//! The link is a state machine. The host performs one radio operation at a
//! time and reports how it went; the machine answers with the next operation.
//! On the way up it goes through `Connecting`, `DiscoveringServices` and
//! `Subscribing` to `Connected`; on the way down through `Unsubscribing` and
//! `Disconnecting` to `Disconnected`. A failure on the way up turns the
//! machine round: what was subscribed is unsubscribed, the link is taken
//! down, and the failure is reported at the end.

use crate::ble::bluetooth::DeviceType;
use crate::ble::control_point::ControlRequest;
use crate::ble::event_handlers::Characteristic;
use crate::error::Error;
use vstd::prelude::*;

verus! {

/// Where the link to a peripheral stands.
#[derive(Clone, Copy, Debug, PartialEq, Eq, Structural)]
pub enum ConnectionState {
    Disconnected,
    Connecting,
    DiscoveringServices,
    Subscribing,
    Connected,
    Unsubscribing,
    Disconnecting,
}

/// What the host reports to the machine.
#[derive(Clone, Copy, Debug, PartialEq, Eq, Structural)]
pub enum ConnectionEvent {
    /// The user asks for the device to be connected.
    ConnectRequested,
    /// The user asks for the device to be disconnected.
    DisconnectRequested,
    /// The operation that the machine asked for succeeded.
    Succeeded,
    /// The operation that the machine asked for failed.
    Failed,
    /// The services were discovered: the role they give the device, and
    /// whether the slot of that role is free to take it.
    Discovered(DeviceType, bool),
}

/// What the machine asks of the host.
#[derive(Clone, Copy, Debug, PartialEq, Eq, Structural)]
pub enum ConnectionAction {
    /// Bring the link up.
    Connect,
    DiscoverServices,
    Subscribe(Characteristic),
    /// Write the request to the control point, with response.
    Write(ControlRequest),
    Unsubscribe(Characteristic),
    /// Take the link down.
    Disconnect,
    /// The operation is complete; the machine rests.
    Finished,
    /// The operation ended in this failure; the machine rests.
    Failed(Error),
    /// Another operation is under way: the request is refused.
    Busy,
    /// The report answers no operation of the machine: it is passed over.
    Nothing,
}

/// The link to one peripheral.
#[derive(Clone, Copy, Debug, PartialEq, Eq, Structural)]
pub struct Link {
    pub state: ConnectionState,
    /// The role of the device; generic until its services are discovered.
    pub device_type: DeviceType,
    /// How many of the characteristics of the role are subscribed: always
    /// the first so many, in the order of [`subscriptions`].
    pub subscribed: usize,
    /// The failure that turned the machine round, to be reported when the
    /// link is down.
    pub failure: Option<Error>,
}

/// The characteristics that a device of this role is subscribed to, in the
/// order in which they are subscribed.
pub open spec fn subscriptions(device_type: DeviceType) -> Seq<Characteristic> {
    match device_type {
        DeviceType::HeartRate => seq![Characteristic::HeartRateMeasurement],
        DeviceType::SmartTrainer => seq![
            Characteristic::FitnessMachineStatus,
            Characteristic::IndoorBikeData,
            Characteristic::FitnessMachineControlPoint,
        ],
        DeviceType::Generic => Seq::empty(),
    }
}

/// Whether the devices of this role are asked for control once they are
/// subscribed: the trainers are.
pub open spec fn requests_control(device_type: DeviceType) -> bool {
    device_type == DeviceType::SmartTrainer
}

/// The number of characteristics that a device of this role is subscribed
/// to.
pub fn subscription_count(device_type: DeviceType) -> (count: usize)
    ensures
        count == subscriptions(device_type).len(),
{
    match device_type {
        DeviceType::HeartRate => 1,
        DeviceType::SmartTrainer => 3,
        DeviceType::Generic => 0,
    }
}

/// The characteristic that a device of this role subscribes to at this
/// place of the order.
pub fn subscription_at(device_type: DeviceType, index: usize) -> (characteristic: Characteristic)
    requires
        index < subscriptions(device_type).len(),
    ensures
        characteristic == subscriptions(device_type)[index as int],
{
    match device_type {
        DeviceType::HeartRate => Characteristic::HeartRateMeasurement,
        DeviceType::SmartTrainer => {
            if index == 0 {
                Characteristic::FitnessMachineStatus
            } else if index == 1 {
                Characteristic::IndoorBikeData
            } else {
                Characteristic::FitnessMachineControlPoint
            }
        },
        DeviceType::Generic => Characteristic::Unknown,
    }
}

impl Link {
    /// A link that is down.
    pub open spec fn spec_new() -> Link {
        Link {
            state: ConnectionState::Disconnected,
            device_type: DeviceType::Generic,
            subscribed: 0,
            failure: None,
        }
    }

    /// The link of a connected device of this role, with every
    /// characteristic of the role subscribed.
    pub open spec fn spec_connected(device_type: DeviceType) -> Link {
        Link {
            state: ConnectionState::Connected,
            device_type,
            subscribed: subscriptions(device_type).len() as usize,
            failure: None,
        }
    }

    /// The characteristics of the role of the device.
    pub open spec fn wanted(self) -> Seq<Characteristic> {
        subscriptions(self.device_type)
    }

    /// What holds of a link at all times: the characteristics that are
    /// subscribed are the first of the role, none while the link comes up or
    /// is down, all of them once it is connected; and a failure is kept only
    /// while the link is taken down.
    pub open spec fn is_valid(self) -> bool {
        &&& self.subscribed <= self.wanted().len()
        &&& match self.state {
            ConnectionState::Disconnected => self.subscribed == 0 && self.failure is None,
            ConnectionState::Connecting => self.subscribed == 0 && self.failure is None,
            ConnectionState::DiscoveringServices => self.subscribed == 0 && self.failure is None,
            ConnectionState::Subscribing => self.failure is None && (self.subscribed
                < self.wanted().len() || requests_control(self.device_type)),
            ConnectionState::Connected => self.subscribed == self.wanted().len() && self.failure
                is None,
            ConnectionState::Unsubscribing => self.subscribed >= 1,
            ConnectionState::Disconnecting => self.subscribed == 0,
        }
    }

    /// Whether no operation is under way.
    pub open spec fn is_resting(self) -> bool {
        self.state == ConnectionState::Disconnected || self.state == ConnectionState::Connected
    }

    /// The link and the next operation once the way down begins: the last
    /// characteristic that was subscribed is unsubscribed first; with none
    /// subscribed the link is taken down at once.
    pub open spec fn take_down(self, failure: Option<Error>) -> (Link, ConnectionAction) {
        if self.subscribed == 0 {
            (
                Link { state: ConnectionState::Disconnecting, failure, ..self },
                ConnectionAction::Disconnect,
            )
        } else {
            (
                Link { state: ConnectionState::Unsubscribing, failure, ..self },
                ConnectionAction::Unsubscribe(self.wanted()[self.subscribed - 1]),
            )
        }
    }

    /// The link and the answer of the machine after a report of the host.
    pub open spec fn next(self, event: ConnectionEvent) -> (Link, ConnectionAction) {
        match self.state {
            ConnectionState::Disconnected => match event {
                ConnectionEvent::ConnectRequested => (
                    Link { state: ConnectionState::Connecting, ..Link::spec_new() },
                    ConnectionAction::Connect,
                ),
                ConnectionEvent::DisconnectRequested => (self, ConnectionAction::Finished),
                _ => (self, ConnectionAction::Nothing),
            },
            ConnectionState::Connected => match event {
                ConnectionEvent::ConnectRequested => (self, ConnectionAction::Finished),
                ConnectionEvent::DisconnectRequested => self.take_down(None),
                _ => (self, ConnectionAction::Nothing),
            },
            ConnectionState::Connecting => match event {
                ConnectionEvent::Succeeded => (
                    Link { state: ConnectionState::DiscoveringServices, ..self },
                    ConnectionAction::DiscoverServices,
                ),
                ConnectionEvent::Failed => (
                    Link::spec_new(),
                    ConnectionAction::Failed(Error::ConnectionFailure),
                ),
                ConnectionEvent::Discovered(_, _) => (self, ConnectionAction::Nothing),
                _ => (self, ConnectionAction::Busy),
            },
            ConnectionState::DiscoveringServices => match event {
                ConnectionEvent::Discovered(device_type, slot_is_free) => {
                    if device_type != DeviceType::Generic && !slot_is_free {
                        self.take_down(Some(Error::ConnectionFailure))
                    } else if subscriptions(device_type).len() == 0 {
                        (
                            Link { state: ConnectionState::Connected, device_type, ..self },
                            ConnectionAction::Finished,
                        )
                    } else {
                        (
                            Link { state: ConnectionState::Subscribing, device_type, ..self },
                            ConnectionAction::Subscribe(subscriptions(device_type)[0]),
                        )
                    }
                },
                ConnectionEvent::Failed => self.take_down(Some(Error::ConnectionFailure)),
                ConnectionEvent::Succeeded => (self, ConnectionAction::Nothing),
                _ => (self, ConnectionAction::Busy),
            },
            ConnectionState::Subscribing => match event {
                ConnectionEvent::Succeeded => {
                    if self.subscribed == self.wanted().len() {
                        // The request for control was written.
                        (
                            Link { state: ConnectionState::Connected, ..self },
                            ConnectionAction::Finished,
                        )
                    } else if self.subscribed + 1 < self.wanted().len() {
                        (
                            Link { subscribed: (self.subscribed + 1) as usize, ..self },
                            ConnectionAction::Subscribe(self.wanted()[self.subscribed + 1]),
                        )
                    } else if requests_control(self.device_type) {
                        (
                            Link { subscribed: (self.subscribed + 1) as usize, ..self },
                            ConnectionAction::Write(ControlRequest::RequestControl),
                        )
                    } else {
                        (
                            Link {
                                state: ConnectionState::Connected,
                                subscribed: (self.subscribed + 1) as usize,
                                ..self
                            },
                            ConnectionAction::Finished,
                        )
                    }
                },
                ConnectionEvent::Failed => self.take_down(
                    Some(
                        if self.subscribed == self.wanted().len() {
                            Error::WriteFailure
                        } else {
                            Error::SubscriptionFailure
                        },
                    ),
                ),
                ConnectionEvent::Discovered(_, _) => (self, ConnectionAction::Nothing),
                _ => (self, ConnectionAction::Busy),
            },
            ConnectionState::Unsubscribing => match event {
                // A characteristic that cannot be unsubscribed does not hold
                // up the way down.
                ConnectionEvent::Succeeded | ConnectionEvent::Failed => Link {
                    subscribed: (self.subscribed - 1) as usize,
                    ..self
                }.take_down(self.failure),
                ConnectionEvent::Discovered(_, _) => (self, ConnectionAction::Nothing),
                _ => (self, ConnectionAction::Busy),
            },
            ConnectionState::Disconnecting => match event {
                ConnectionEvent::Succeeded => (
                    Link::spec_new(),
                    match self.failure {
                        Some(failure) => ConnectionAction::Failed(failure),
                        None => ConnectionAction::Finished,
                    },
                ),
                ConnectionEvent::Failed => (
                    Link::spec_new(),
                    ConnectionAction::Failed(
                        match self.failure {
                            Some(failure) => failure,
                            None => Error::ConnectionFailure,
                        },
                    ),
                ),
                ConnectionEvent::Discovered(_, _) => (self, ConnectionAction::Nothing),
                _ => (self, ConnectionAction::Busy),
            },
        }
    }

    /// How many reports of the host the operation under way still takes at
    /// most, whatever they say.
    pub open spec fn steps_left(self) -> nat {
        match self.state {
            ConnectionState::Disconnected => 0,
            ConnectionState::Connected => 0,
            ConnectionState::Disconnecting => 1,
            ConnectionState::Unsubscribing => (self.subscribed + 1) as nat,
            ConnectionState::Subscribing => (2 * (self.wanted().len() + 2) - self.subscribed) as nat,
            ConnectionState::DiscoveringServices => 12,
            ConnectionState::Connecting => 13,
        }
    }

    /// A link that is down.
    pub fn new() -> (link: Link)
        ensures
            link == Link::spec_new(),
            link.is_valid(),
    {
        Link {
            state: ConnectionState::Disconnected,
            device_type: DeviceType::Generic,
            subscribed: 0,
            failure: None,
        }
    }

    /// The link of a connected device of this role.
    pub fn connected(device_type: DeviceType) -> (link: Link)
        ensures
            link == Link::spec_connected(device_type),
            link.is_valid(),
    {
        Link {
            state: ConnectionState::Connected,
            device_type,
            subscribed: subscription_count(device_type),
            failure: None,
        }
    }

    /// Whether the link is as [`Link::is_valid`] asks.
    pub fn check(&self) -> (valid: bool)
        ensures
            valid == self.is_valid(),
    {
        let wanted = subscription_count(self.device_type);
        if self.subscribed > wanted {
            return false;
        }
        match self.state {
            ConnectionState::Disconnected
            | ConnectionState::Connecting
            | ConnectionState::DiscoveringServices => self.subscribed == 0
                && self.failure.is_none(),
            ConnectionState::Subscribing => self.failure.is_none() && (self.subscribed < wanted
                || self.device_type == DeviceType::SmartTrainer),
            ConnectionState::Connected => self.subscribed == wanted && self.failure.is_none(),
            ConnectionState::Unsubscribing => self.subscribed >= 1,
            ConnectionState::Disconnecting => self.subscribed == 0,
        }
    }

    /// Begins the way down and says what to do first.
    fn begin_take_down(&mut self, failure: Option<Error>) -> (action: ConnectionAction)
        requires
            old(self).subscribed <= old(self).wanted().len(),
        ensures
            (*final(self), action) == old(self).take_down(failure),
    {
        self.failure = failure;
        if self.subscribed == 0 {
            self.state = ConnectionState::Disconnecting;
            ConnectionAction::Disconnect
        } else {
            self.state = ConnectionState::Unsubscribing;
            ConnectionAction::Unsubscribe(subscription_at(self.device_type, self.subscribed - 1))
        }
    }

    /// Takes a report of the host and answers with what to do next.
    pub fn step(&mut self, event: ConnectionEvent) -> (action: ConnectionAction)
        requires
            old(self).is_valid(),
        ensures
            (*final(self), action) == old(self).next(event),
            final(self).is_valid(),
    {
        match self.state {
            ConnectionState::Disconnected => match event {
                ConnectionEvent::ConnectRequested => {
                    *self = Link::new();
                    self.state = ConnectionState::Connecting;
                    ConnectionAction::Connect
                },
                ConnectionEvent::DisconnectRequested => ConnectionAction::Finished,
                _ => ConnectionAction::Nothing,
            },
            ConnectionState::Connected => match event {
                ConnectionEvent::ConnectRequested => ConnectionAction::Finished,
                ConnectionEvent::DisconnectRequested => self.begin_take_down(None),
                _ => ConnectionAction::Nothing,
            },
            ConnectionState::Connecting => match event {
                ConnectionEvent::Succeeded => {
                    self.state = ConnectionState::DiscoveringServices;
                    ConnectionAction::DiscoverServices
                },
                ConnectionEvent::Failed => {
                    *self = Link::new();
                    ConnectionAction::Failed(Error::ConnectionFailure)
                },
                ConnectionEvent::Discovered(_, _) => ConnectionAction::Nothing,
                _ => ConnectionAction::Busy,
            },
            ConnectionState::DiscoveringServices => match event {
                ConnectionEvent::Discovered(device_type, slot_is_free) => {
                    if device_type != DeviceType::Generic && !slot_is_free {
                        self.begin_take_down(Some(Error::ConnectionFailure))
                    } else if subscription_count(device_type) == 0 {
                        self.device_type = device_type;
                        self.state = ConnectionState::Connected;
                        ConnectionAction::Finished
                    } else {
                        self.device_type = device_type;
                        self.state = ConnectionState::Subscribing;
                        ConnectionAction::Subscribe(subscription_at(device_type, 0))
                    }
                },
                ConnectionEvent::Failed => self.begin_take_down(Some(Error::ConnectionFailure)),
                ConnectionEvent::Succeeded => ConnectionAction::Nothing,
                _ => ConnectionAction::Busy,
            },
            ConnectionState::Subscribing => match event {
                ConnectionEvent::Succeeded => {
                    let wanted = subscription_count(self.device_type);
                    if self.subscribed == wanted {
                        self.state = ConnectionState::Connected;
                        ConnectionAction::Finished
                    } else if self.subscribed + 1 < wanted {
                        self.subscribed = self.subscribed + 1;
                        ConnectionAction::Subscribe(
                            subscription_at(self.device_type, self.subscribed),
                        )
                    } else if self.device_type == DeviceType::SmartTrainer {
                        self.subscribed = self.subscribed + 1;
                        ConnectionAction::Write(ControlRequest::RequestControl)
                    } else {
                        self.subscribed = self.subscribed + 1;
                        self.state = ConnectionState::Connected;
                        ConnectionAction::Finished
                    }
                },
                ConnectionEvent::Failed => {
                    let failure = if self.subscribed == subscription_count(self.device_type) {
                        Error::WriteFailure
                    } else {
                        Error::SubscriptionFailure
                    };
                    self.begin_take_down(Some(failure))
                },
                ConnectionEvent::Discovered(_, _) => ConnectionAction::Nothing,
                _ => ConnectionAction::Busy,
            },
            ConnectionState::Unsubscribing => match event {
                ConnectionEvent::Succeeded | ConnectionEvent::Failed => {
                    self.subscribed = self.subscribed - 1;
                    let failure = self.failure;
                    self.begin_take_down(failure)
                },
                ConnectionEvent::Discovered(_, _) => ConnectionAction::Nothing,
                _ => ConnectionAction::Busy,
            },
            ConnectionState::Disconnecting => match event {
                ConnectionEvent::Succeeded => {
                    let failure = self.failure;
                    *self = Link::new();
                    match failure {
                        Some(failure) => ConnectionAction::Failed(failure),
                        None => ConnectionAction::Finished,
                    }
                },
                ConnectionEvent::Failed => {
                    let failure = self.failure;
                    *self = Link::new();
                    match failure {
                        Some(failure) => ConnectionAction::Failed(failure),
                        None => ConnectionAction::Failed(Error::ConnectionFailure),
                    }
                },
                ConnectionEvent::Discovered(_, _) => ConnectionAction::Nothing,
                _ => ConnectionAction::Busy,
            },
        }
    }
}

/// The machine asks for an operation exactly when it does not rest
/// afterwards, and it says that the operation is over, one way or the other,
/// only when it rests.
pub proof fn lemma_resting_when_done(link: Link, event: ConnectionEvent)
    requires
        link.is_valid(),
    ensures
        ({
            let (after, action) = link.next(event);
            &&& after.is_valid()
            &&& (action == ConnectionAction::Finished || action is Failed) ==> after.is_resting()
            &&& (action is Connect || action is DiscoverServices || action is Subscribe || action
                is Write || action is Unsubscribe || action is Disconnect) ==> !after.is_resting()
            &&& (action == ConnectionAction::Busy || action == ConnectionAction::Nothing) ==> after
                == link
        }),
{
}

/// Every report on the operation under way brings the machine nearer to
/// rest: after at most thirteen of them the link is connected or down.
pub proof fn lemma_operation_ends(link: Link, event: ConnectionEvent)
    requires
        link.is_valid(),
        !link.is_resting(),
        event == ConnectionEvent::Succeeded || event == ConnectionEvent::Failed || (link.state
            == ConnectionState::DiscoveringServices && event is Discovered),
        link.state == ConnectionState::DiscoveringServices ==> event
            != ConnectionEvent::Succeeded,
    ensures
        link.next(event).0.steps_left() < link.steps_left(),
        link.steps_left() <= 13,
{
}

/// A device is left as it was found where the way up fails: from any step
/// of the way up, a failure leads to a link that is down without anything
/// having been subscribed anew, and the failure is the one reported.
pub proof fn lemma_failure_turns_round(link: Link)
    requires
        link.is_valid(),
        link.state == ConnectionState::Connecting || link.state
            == ConnectionState::DiscoveringServices || link.state == ConnectionState::Subscribing,
    ensures
        ({
            let (after, action) = link.next(ConnectionEvent::Failed);
            &&& after.subscribed == link.subscribed
            &&& after.state == ConnectionState::Disconnected || after.state
                == ConnectionState::Unsubscribing || after.state == ConnectionState::Disconnecting
            &&& after.state == ConnectionState::Disconnected ==> action == ConnectionAction::Failed(
                Error::ConnectionFailure,
            )
            &&& after.state != ConnectionState::Disconnected ==> after.failure is Some
        }),
{
}

/// On the way down the characteristics are unsubscribed in the reverse of
/// the order in which they were subscribed, whether or not each of them can
/// be unsubscribed, and then the link is taken down.
pub proof fn lemma_way_down_reverses_way_up(link: Link, event: ConnectionEvent)
    requires
        link.is_valid(),
        link.state == ConnectionState::Unsubscribing,
        event == ConnectionEvent::Succeeded || event == ConnectionEvent::Failed,
    ensures
        ({
            let (after, action) = link.next(event);
            &&& after.subscribed == link.subscribed - 1
            &&& after.failure == link.failure
            &&& link.subscribed >= 2 ==> after.state == ConnectionState::Unsubscribing && action
                == ConnectionAction::Unsubscribe(link.wanted()[link.subscribed - 2])
            &&& link.subscribed == 1 ==> after.state == ConnectionState::Disconnecting && action
                == ConnectionAction::Disconnect
        }),
{
}

/// The way up of a trainer: the status, the bike data and the control point
/// are subscribed in this order, control is requested, and the link is
/// connected.
pub proof fn lemma_trainer_way_up()
    ensures
        ({
            let ok = ConnectionEvent::Succeeded;
            let found = ConnectionEvent::Discovered(DeviceType::SmartTrainer, true);
            let s0 = Link::spec_new();
            let (s1, a1) = s0.next(ConnectionEvent::ConnectRequested);
            let (s2, a2) = s1.next(ok);
            let (s3, a3) = s2.next(found);
            let (s4, a4) = s3.next(ok);
            let (s5, a5) = s4.next(ok);
            let (s6, a6) = s5.next(ok);
            let (s7, a7) = s6.next(ok);
            &&& a1 == ConnectionAction::Connect
            &&& a2 == ConnectionAction::DiscoverServices
            &&& a3 == ConnectionAction::Subscribe(Characteristic::FitnessMachineStatus)
            &&& a4 == ConnectionAction::Subscribe(Characteristic::IndoorBikeData)
            &&& a5 == ConnectionAction::Subscribe(Characteristic::FitnessMachineControlPoint)
            &&& a6 == ConnectionAction::Write(ControlRequest::RequestControl)
            &&& a7 == ConnectionAction::Finished
            &&& s7 == Link::spec_connected(DeviceType::SmartTrainer)
        }),
{
}

/// The way up of a heart rate monitor: the measurement is subscribed and the
/// link is connected.
pub proof fn lemma_heart_rate_way_up()
    ensures
        ({
            let ok = ConnectionEvent::Succeeded;
            let found = ConnectionEvent::Discovered(DeviceType::HeartRate, true);
            let s0 = Link::spec_new();
            let (s1, a1) = s0.next(ConnectionEvent::ConnectRequested);
            let (s2, a2) = s1.next(ok);
            let (s3, a3) = s2.next(found);
            let (s4, a4) = s3.next(ok);
            &&& a1 == ConnectionAction::Connect
            &&& a2 == ConnectionAction::DiscoverServices
            &&& a3 == ConnectionAction::Subscribe(Characteristic::HeartRateMeasurement)
            &&& a4 == ConnectionAction::Finished
            &&& s4 == Link::spec_connected(DeviceType::HeartRate)
        }),
{
}

} // verus!
