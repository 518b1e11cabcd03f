use cycling_trainer::ble::bluetooth::{
    BTDevice, Bluetooth, DeviceType, Peripheral, PeripheralProperties,
};
use cycling_trainer::ble::constants::{
    uuid_from_u32, CYCLING_POWER_SERVICE_UUID, FITNESS_MACHINE_SERVICE_UUID,
    HEART_RATE_SERVICE_UUID, SPEED_CADENCE_SERVICE_UUID,
};
use cycling_trainer::ble::discovery::{
    announce, passes_filter, scan_filter_services, DiscoveryFeed, Subscriber,
};
use cycling_trainer::ble::event_handlers::{handle_events, CentralEvent, Event};

fn peripheral(id: &str, name: Option<&str>, is_connected: Option<bool>) -> Peripheral {
    Peripheral {
        id: id.to_string(),
        properties: Some(PeripheralProperties {
            local_name: name.map(|name| name.to_string()),
            services: vec![],
        }),
        is_connected,
    }
}

fn names(devices: &[BTDevice]) -> Vec<(String, String)> {
    devices.iter().map(|device| (device.id.clone(), device.local_name.clone())).collect()
}

fn device(id: &str, name: &str) -> BTDevice {
    BTDevice { id: id.to_string(), local_name: name.to_string() }
}

#[test]
fn scan_filters_of_each_role() {
    assert_eq!(scan_filter_services(DeviceType::HeartRate), vec![HEART_RATE_SERVICE_UUID]);
    assert_eq!(
        scan_filter_services(DeviceType::SmartTrainer),
        vec![FITNESS_MACHINE_SERVICE_UUID, SPEED_CADENCE_SERVICE_UUID, CYCLING_POWER_SERVICE_UUID]
    );
    assert_eq!(scan_filter_services(DeviceType::Generic), Vec::<u128>::new());
}

#[test]
fn a_heart_rate_scan_does_not_surface_a_trainer() {
    let filter = scan_filter_services(DeviceType::HeartRate);
    assert!(!passes_filter(&filter, &vec![uuid_from_u32(0x1826)]));
    assert!(passes_filter(&filter, &vec![uuid_from_u32(0x180D)]));
    assert!(passes_filter(&filter, &vec![uuid_from_u32(0x1826), uuid_from_u32(0x180D)]));
    assert!(!passes_filter(&filter, &vec![]));
}

#[test]
fn scan_filters_pass_any_of_their_services() {
    let filter = scan_filter_services(DeviceType::SmartTrainer);
    assert!(passes_filter(&filter, &vec![FITNESS_MACHINE_SERVICE_UUID]));
    assert!(passes_filter(&filter, &vec![1, 2, CYCLING_POWER_SERVICE_UUID]));
    assert!(passes_filter(&filter, &vec![SPEED_CADENCE_SERVICE_UUID]));
    assert!(!passes_filter(&filter, &vec![HEART_RATE_SERVICE_UUID]));
    let everything = scan_filter_services(DeviceType::Generic);
    assert!(passes_filter(&everything, &vec![]));
    assert!(passes_filter(&everything, &vec![HEART_RATE_SERVICE_UUID]));
}

#[test]
fn a_named_unconnected_peripheral_is_announced() {
    let seen = announce(&Some(peripheral("aa:bb", Some("KICKR CORE"), Some(false)))).unwrap();
    assert_eq!(seen.id, "aa:bb");
    assert_eq!(seen.local_name, "KICKR CORE");
}

#[test]
fn peripherals_without_name_or_already_connected_are_skipped() {
    assert!(announce(&None).is_none());
    assert!(announce(&Some(peripheral("a", None, Some(false)))).is_none());
    assert!(announce(&Some(peripheral("a", Some("name"), Some(true)))).is_none());
    assert!(announce(&Some(peripheral("a", Some("name"), None))).is_none());
    let unknown = Peripheral { id: "a".to_string(), properties: None, is_connected: Some(false) };
    assert!(announce(&Some(unknown)).is_none());
}

#[test]
fn subscribers_receive_only_what_is_published_after_they_attach() {
    let mut feed = DiscoveryFeed::new();
    feed.publish(device("1", "first"));
    let mut early = feed.subscribe();
    feed.publish(device("2", "second"));
    let mut late = feed.subscribe();
    feed.publish(device("3", "third"));
    assert_eq!(
        names(&feed.receive(&mut early)),
        vec![("2".to_string(), "second".to_string()), ("3".to_string(), "third".to_string())]
    );
    assert_eq!(names(&feed.receive(&mut late)), vec![("3".to_string(), "third".to_string())]);
    // Nothing is received twice.
    assert!(feed.receive(&mut early).is_empty());
    feed.publish(device("4", "fourth"));
    assert_eq!(names(&feed.receive(&mut early)), vec![("4".to_string(), "fourth".to_string())]);
    assert_eq!(names(&feed.receive(&mut late)), vec![("4".to_string(), "fourth".to_string())]);
}

#[test]
fn a_subscriber_of_an_empty_feed_receives_nothing() {
    let feed = DiscoveryFeed::new();
    let mut subscriber = feed.subscribe();
    assert_eq!(subscriber.position, 0);
    assert!(feed.receive(&mut subscriber).is_empty());
    // A position beyond the feed is brought back to its end.
    let mut lost = Subscriber { position: 17 };
    assert!(feed.receive(&mut lost).is_empty());
    assert_eq!(lost.position, 0);
}

#[test]
fn discoveries_are_published_while_scanning() {
    let mut bluetooth = Bluetooth::init(true, true);
    bluetooth.scan_started(true).unwrap();
    let mut subscriber = bluetooth.discovery.subscribe();
    let event = CentralEvent::DeviceDiscovered(Some(peripheral("id-1", Some("HRM"), Some(false))));
    match handle_events(&mut bluetooth, &event) {
        Some(Event::DeviceDiscovered(found)) => {
            assert_eq!(found.id, "id-1");
            assert_eq!(found.local_name, "HRM");
        }
        other => panic!("unexpected {:?}", other),
    }
    let received = bluetooth.discovery.receive(&mut subscriber);
    assert_eq!(names(&received), vec![("id-1".to_string(), "HRM".to_string())]);
}

#[test]
fn nothing_is_published_once_the_scan_has_stopped() {
    let mut bluetooth = Bluetooth::init(true, true);
    let event = CentralEvent::DeviceDiscovered(Some(peripheral("id-1", Some("HRM"), Some(false))));
    assert!(handle_events(&mut bluetooth, &event).is_none());
    bluetooth.scan_started(true).unwrap();
    assert!(handle_events(&mut bluetooth, &event).is_some());
    bluetooth.scan_stopped(true).unwrap();
    assert!(handle_events(&mut bluetooth, &event).is_none());
    assert_eq!(bluetooth.discovery.published.len(), 1);
}

#[test]
fn other_central_events_publish_nothing() {
    let mut bluetooth = Bluetooth::init(true, true);
    bluetooth.scan_started(true).unwrap();
    assert!(handle_events(&mut bluetooth, &CentralEvent::DeviceConnected("x".to_string()))
        .is_none());
    assert!(handle_events(&mut bluetooth, &CentralEvent::DeviceDisconnected("x".to_string()))
        .is_none());
    assert!(handle_events(&mut bluetooth, &CentralEvent::Other).is_none());
    assert!(handle_events(&mut bluetooth, &CentralEvent::DeviceDiscovered(None)).is_none());
    let nameless = CentralEvent::DeviceDiscovered(Some(peripheral("x", None, Some(false))));
    assert!(handle_events(&mut bluetooth, &nameless).is_none());
    assert!(bluetooth.discovery.published.is_empty());
}

#[test]
fn a_heart_rate_scan_surfaces_no_peripheral_that_advertises_only_the_fitness_machine() {
    let mut bluetooth = Bluetooth::init(true, true);
    let filter = bluetooth.start_scan(DeviceType::HeartRate).unwrap().unwrap();
    bluetooth.scan_started(true).unwrap();
    let mut subscriber = bluetooth.discovery.subscribe();
    let mut trainer = peripheral("trainer", Some("KICKR"), Some(false));
    trainer.properties.as_mut().unwrap().services = vec![uuid_from_u32(0x1826)];
    let mut monitor = peripheral("monitor", Some("HRM"), Some(false));
    monitor.properties.as_mut().unwrap().services = vec![uuid_from_u32(0x180D)];
    // The host stack reports what passes the filter of the scan, and no more.
    for seen in [trainer, monitor] {
        let advertised = seen.properties.as_ref().unwrap().services.clone();
        if passes_filter(&filter, &advertised) {
            handle_events(&mut bluetooth, &CentralEvent::DeviceDiscovered(Some(seen)));
        }
    }
    let received = bluetooth.discovery.receive(&mut subscriber);
    assert_eq!(names(&received), vec![("monitor".to_string(), "HRM".to_string())]);
}

