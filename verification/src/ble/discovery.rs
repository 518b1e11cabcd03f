//! Discovery: which services a scan asks the host stack for, which of the
//! peripherals that the stack reports are published, and the feed that
//! carries them to its subscribers.

use crate::ble::bluetooth::{BTDevice, DeviceType, Peripheral};
use crate::ble::constants::{
    CYCLING_POWER_SERVICE_UUID, FITNESS_MACHINE_SERVICE_UUID, HEART_RATE_SERVICE_UUID,
    SPEED_CADENCE_SERVICE_UUID,
};
use crate::utils::bluetooth_utils::contains_uuid;
use vstd::prelude::*;

verus! {

/// The services that a scan for devices of this role asks for: the Heart
/// Rate Service for heart rate monitors; the Fitness Machine, Speed and
/// Cadence and Cycling Power Services for trainers; none, which stands for
/// every device, for generic devices.
pub open spec fn scan_filter_of(scan_filter: DeviceType) -> Seq<u128> {
    match scan_filter {
        DeviceType::HeartRate => seq![HEART_RATE_SERVICE_UUID],
        DeviceType::SmartTrainer => seq![
            FITNESS_MACHINE_SERVICE_UUID,
            SPEED_CADENCE_SERVICE_UUID,
            CYCLING_POWER_SERVICE_UUID,
        ],
        DeviceType::Generic => Seq::empty(),
    }
}

/// Whether a scan with this filter reports a peripheral that advertises
/// these services: a filter without services lets every peripheral pass, and
/// any other filter those that advertise at least one of its services. The
/// filter is applied by the host stack while it scans; nothing is filtered
/// afterwards.
pub open spec fn filter_passes(filter: Seq<u128>, advertised: Seq<u128>) -> bool {
    filter.len() == 0 || exists|i: int|
        0 <= i < filter.len() && advertised.contains(#[trigger] filter[i])
}

/// The services to hand to the host stack for a scan for devices of this
/// role.
pub fn scan_filter_services(scan_filter: DeviceType) -> (services: Vec<u128>)
    ensures
        services@ == scan_filter_of(scan_filter),
{
    let mut services: Vec<u128> = Vec::new();
    match scan_filter {
        DeviceType::HeartRate => {
            services.push(HEART_RATE_SERVICE_UUID);
        },
        DeviceType::SmartTrainer => {
            services.push(FITNESS_MACHINE_SERVICE_UUID);
            services.push(SPEED_CADENCE_SERVICE_UUID);
            services.push(CYCLING_POWER_SERVICE_UUID);
        },
        DeviceType::Generic => {},
    }
    assert(services@ =~= scan_filter_of(scan_filter));
    services
}

/// Whether a scan with this filter reports a peripheral that advertises
/// these services.
pub fn passes_filter(filter: &Vec<u128>, advertised: &Vec<u128>) -> (passes: bool)
    ensures
        passes == filter_passes(filter@, advertised@),
{
    if filter.len() == 0 {
        return true;
    }
    let mut i: usize = 0;
    while i < filter.len()
        invariant
            i <= filter.len(),
            forall|j: int| 0 <= j < i ==> !advertised@.contains(#[trigger] filter@[j]),
        decreases filter.len() - i,
    {
        if contains_uuid(advertised, filter[i]) {
            return true;
        }
        i += 1;
    }
    false
}

/// A scan for heart rate monitors reports no peripheral that does not
/// advertise the Heart Rate Service.
pub proof fn lemma_heart_rate_scan_wants_heart_rate_service(advertised: Seq<u128>)
    ensures
        filter_passes(scan_filter_of(DeviceType::HeartRate), advertised) <==> advertised.contains(
            HEART_RATE_SERVICE_UUID,
        ),
{
    let filter = scan_filter_of(DeviceType::HeartRate);
    if advertised.contains(HEART_RATE_SERVICE_UUID) {
        assert(advertised.contains(filter[0]));
    }
}

/// The device that a report of the host stack makes known, if any: a
/// peripheral whose properties the stack could tell, which has a name, and
/// which is known not to be connected.
pub open spec fn discovered_device(peripheral: Option<Peripheral>) -> Option<BTDevice> {
    match peripheral {
        Some(peripheral) => match (peripheral.properties, peripheral.is_connected) {
            (Some(properties), Some(false)) => match properties.local_name {
                Some(local_name) => Some(BTDevice { id: peripheral.id, local_name }),
                None => None,
            },
            _ => None,
        },
        None => None,
    }
}

/// The device that a report of the host stack makes known, if any.
pub fn announce(peripheral: &Option<Peripheral>) -> (device: Option<BTDevice>)
    ensures
        device == discovered_device(*peripheral),
{
    match peripheral {
        Some(peripheral) => {
            let local_name = match &peripheral.properties {
                Some(properties) => match &properties.local_name {
                    Some(local_name) => local_name,
                    None => {
                        return None;
                    },
                },
                None => {
                    return None;
                },
            };
            match peripheral.is_connected {
                Some(false) => Some(
                    BTDevice { id: peripheral.id.clone(), local_name: local_name.clone() },
                ),
                _ => None,
            }
        },
        None => None,
    }
}

/// The feed of discovered devices. It keeps what was published, in order.
#[derive(Debug)]
pub struct DiscoveryFeed {
    pub published: Vec<BTDevice>,
}

/// One reader of the feed. It knows how much of the feed lies behind it: at
/// first all that was published before it subscribed.
#[derive(Clone, Copy, Debug, PartialEq, Eq, Structural)]
pub struct Subscriber {
    pub position: usize,
}

impl View for DiscoveryFeed {
    type V = Seq<BTDevice>;

    open spec fn view(&self) -> Seq<BTDevice> {
        self.published@
    }
}

/// What a subscriber at `position` has still to receive of a feed.
pub open spec fn pending(feed: Seq<BTDevice>, position: usize) -> Seq<BTDevice> {
    if position <= feed.len() {
        feed.subrange(position as int, feed.len() as int)
    } else {
        Seq::empty()
    }
}

impl DiscoveryFeed {
    /// A feed on which nothing was published.
    pub fn new() -> (feed: DiscoveryFeed)
        ensures
            feed@ == Seq::<BTDevice>::empty(),
    {
        DiscoveryFeed { published: Vec::new() }
    }

    /// Publishes a device to every subscriber there is.
    pub fn publish(&mut self, device: BTDevice)
        ensures
            final(self)@ == old(self)@.push(device),
    {
        self.published.push(device);
    }

    /// Attaches a subscriber. It receives what is published from now on, and
    /// nothing of what was published before.
    pub fn subscribe(&self) -> (subscriber: Subscriber)
        ensures
            subscriber.position == self@.len(),
            pending(self@, subscriber.position) == Seq::<BTDevice>::empty(),
    {
        Subscriber { position: self.published.len() }
    }

    /// Hands a subscriber what was published since it last received, in the
    /// order of publication.
    pub fn receive(&self, subscriber: &mut Subscriber) -> (devices: Vec<BTDevice>)
        ensures
            devices@ == pending(self@, old(subscriber).position),
            final(subscriber).position == self@.len(),
    {
        let mut devices: Vec<BTDevice> = Vec::new();
        let start = subscriber.position;
        let end = self.published.len();
        subscriber.position = end;
        if start > end {
            return devices;
        }
        let mut i: usize = start;
        while i < end
            invariant
                start <= i <= end,
                end == self.published@.len(),
                devices@ == self.published@.subrange(start as int, i as int),
            decreases end - i,
        {
            let device = &self.published[i];
            devices.push(BTDevice { id: device.id.clone(), local_name: device.local_name.clone() });
            assert(devices@ =~= self.published@.subrange(start as int, i + 1));
            i += 1;
        }
        devices
    }
}

/// A subscriber receives exactly what is published after it subscribed: of
/// a feed that grew by some devices since, those devices, and none of what
/// was there before.
pub proof fn lemma_no_replay(before: Seq<BTDevice>, after: Seq<BTDevice>)
    requires
        before.len() <= usize::MAX,
    ensures
        pending(before + after, before.len() as usize) == after,
{
    assert((before + after).subrange(before.len() as int, (before + after).len() as int)
        =~= after);
}

} // verus!
