use healthpi::api::BleCharacteristicEvent;
use healthpi::devices::contour::ElitePlus;
use healthpi::devices::device::{Device, DeviceInfo, FactoryImpl};
use healthpi::devices::soehnle::Shape200;
use healthpi::loader::{Loader, LoaderAction, LoaderEvent, LoaderState};
use healthpi::macaddress::MacAddress;
use healthpi::measurement::{Ratio, Record, Value};
use healthpi::time::Timestamp;

fn scale_address() -> MacAddress {
    MacAddress::from([0x10, 0x20, 0x30, 0x40, 0x50, 0x60])
}

fn meter_address() -> MacAddress {
    MacAddress::from([0x10, 0x20, 0x30, 0x40, 0x50, 0x61])
}

fn scale() -> Device {
    Device::Shape200(Shape200::new(scale_address()))
}

fn meter() -> Device {
    Device::ElitePlus(ElitePlus::new(meter_address()))
}

fn info(in_range: bool, mac_address: MacAddress, name: &str) -> DeviceInfo {
    DeviceInfo { in_range, mac_address, name: name.to_string() }
}

fn event(value: Vec<u8>) -> BleCharacteristicEvent {
    BleCharacteristicEvent { value }
}

/// What the caller does for a scale: it reads the profile, then the
/// measurements.
fn read_scale_out(device: Device, profile: Option<Vec<u8>>, samples: Vec<Vec<u8>>) -> Option<Vec<Record>> {
    let Device::Shape200(device) = device else {
        panic!("not a scale");
    };
    let profile = profile.map(event);
    let user = Shape200::read_user(profile.as_ref()).ok()?;
    Some(device.get_data(&user, samples.into_iter().map(event).collect()))
}

fn started(now: Timestamp) -> Loader {
    let mut loader = Loader::new(FactoryImpl::new(&vec![scale_address(), meter_address()]));
    assert_eq!(loader.state(), LoaderState::Idle);
    assert!(loader.expects(&LoaderEvent::Begin));
    assert!(matches!(
        loader.step(LoaderEvent::Begin, true, now),
        LoaderAction::StartDiscovery
    ));
    assert!(matches!(
        loader.step(LoaderEvent::DiscoveryStarted, true, now),
        LoaderAction::Enumerate { after_ms: 1000 }
    ));
    assert_eq!(loader.state(), LoaderState::Enumerating);
    loader
}

#[test]
fn shape_200_returns_no_records() {
    let now = Timestamp::new(1_000, 0);
    let mut loader = started(now);
    let seen = vec![info(true, scale_address(), "Shape200")];
    let action = loader.step(LoaderEvent::Devices(seen), false, now);
    let LoaderAction::Connect { device, timeout_ms: 5000 } = action else {
        panic!("no connection asked for");
    };
    assert!(matches!(
        loader.step(LoaderEvent::Connected(true), false, now),
        LoaderAction::Extract { .. }
    ));
    let records = read_scale_out(device, Some(vec![12, 1, 1, 29, 0, 0, 187, 0, 0, 1]), vec![]);
    assert_eq!(records, Some(vec![]));
    assert!(matches!(
        loader.step(LoaderEvent::Extracted(records), false, now),
        LoaderAction::Disconnect { timeout_ms: 5000, .. }
    ));
    let action = loader.step(LoaderEvent::Disconnected(true), false, now);
    let LoaderAction::Persist { records } = action else {
        panic!("nothing handed to the store");
    };
    assert_eq!(records, vec![]);
    assert!(matches!(
        loader.step(LoaderEvent::Persisted(true), false, now),
        LoaderAction::StopDiscovery
    ));
    assert!(matches!(
        loader.step(LoaderEvent::DiscoveryStopped, false, now),
        LoaderAction::Return
    ));
    assert_eq!(loader.state(), LoaderState::Stopped);
}

#[test]
fn one_tick_stores_one_record_of_the_scale() {
    let now = Timestamp::new(1_000, 0);
    let mut loader = started(now);
    let seen = vec![info(true, scale_address(), "Shape200-xyz")];
    let action = loader.step(LoaderEvent::Devices(seen.clone()), true, now);
    let LoaderAction::Connect { device, .. } = action else {
        panic!("no connection asked for");
    };
    assert_eq!(device, scale());
    loader.step(LoaderEvent::Connected(true), true, now);
    // 70.0 kg on 2022-08-22 16:02:19, both impedances zero
    let sample = vec![9, 1, 0x07, 0xE6, 8, 22, 16, 2, 19, 0x02, 0xBC, 0, 0, 0, 0];
    let records =
        read_scale_out(device, Some(vec![12, 1, 1, 29, 0, 0, 187, 0, 0, 1]), vec![sample]);
    loader.step(LoaderEvent::Extracted(records), true, now);
    let action = loader.step(LoaderEvent::Disconnected(true), true, now);
    let LoaderAction::Persist { records } = action else {
        panic!("nothing handed to the store");
    };
    assert_eq!(records.len(), 1);
    assert_eq!(
        records[0].values,
        vec![
            Value::Weight(Ratio { num: 700, den: 10 }),
            Value::BodyMassIndex(Ratio { num: 700_000, den: 34_969 }),
            Value::BasalMetabolicRate(Ratio { num: 17_589_320, den: 10_000 }),
        ]
    );
    // stored: the device is marked, and the next tick passes it over
    assert!(matches!(
        loader.step(LoaderEvent::Persisted(true), true, now),
        LoaderAction::Enumerate { after_ms: 1000 }
    ));
    assert!(matches!(
        loader.step(LoaderEvent::Devices(seen.clone()), true, Timestamp::new(1_299, 0)),
        LoaderAction::Enumerate { after_ms: 1000 }
    ));
    assert!(matches!(
        loader.step(LoaderEvent::Devices(seen), true, Timestamp::new(1_300, 0)),
        LoaderAction::Connect { .. }
    ));
}

#[test]
fn failures_move_on_to_the_next_device_without_marking() {
    let now = Timestamp::new(50, 0);
    let mut loader = started(now);
    let seen = vec![
        info(false, scale_address(), "Shape200"),
        info(true, MacAddress::from([9, 9, 9, 9, 9, 9]), "Shape200"),
        info(true, scale_address(), "Unknown"),
        info(true, scale_address(), "Shape200"),
        info(true, meter_address(), "Contour"),
        info(true, meter_address(), "Contour"),
    ];
    // the first three get no decoder; the scale fails to connect
    let action = loader.step(LoaderEvent::Devices(seen.clone()), true, now);
    assert!(matches!(action, LoaderAction::Connect { device, .. } if device == scale()));
    assert!(!loader.expects(&LoaderEvent::Persisted(true)));
    assert!(loader.expects(&LoaderEvent::Connected(false)));
    // the meter fails to be read
    let action = loader.step(LoaderEvent::Connected(false), true, now);
    assert!(matches!(action, LoaderAction::Connect { device, .. } if device == meter()));
    loader.step(LoaderEvent::Connected(true), true, now);
    // the meter again: read, not disconnected, refused by the store
    let action = loader.step(LoaderEvent::Extracted(None), true, now);
    assert!(matches!(action, LoaderAction::Connect { device, .. } if device == meter()));
    loader.step(LoaderEvent::Connected(true), true, now);
    let action = loader.step(LoaderEvent::Extracted(Some(vec![])), true, now);
    assert!(matches!(action, LoaderAction::Disconnect { device, .. } if device == meter()));
    let action = loader.step(LoaderEvent::Disconnected(false), true, now);
    assert!(matches!(action, LoaderAction::Persist { .. }));
    let action = loader.step(LoaderEvent::Persisted(false), true, now);
    assert!(matches!(action, LoaderAction::Enumerate { .. }));
    // nothing was marked: both are tried again in the next tick
    let action = loader.step(LoaderEvent::Devices(seen), true, now);
    assert!(matches!(action, LoaderAction::Connect { device, .. } if device == scale()));
}

#[test]
fn loader_stops_when_it_is_no_longer_to_run() {
    let now = Timestamp::new(50, 0);
    let mut loader = Loader::new(FactoryImpl::new(&vec![]));
    loader.step(LoaderEvent::Begin, true, now);
    assert!(matches!(
        loader.step(LoaderEvent::DiscoveryStarted, false, now),
        LoaderAction::StopDiscovery
    ));
    assert_eq!(loader.state(), LoaderState::Stopping);
    assert!(matches!(loader.step(LoaderEvent::DiscoveryStopped, false, now), LoaderAction::Return));

    let mut loader = started(now);
    assert!(matches!(
        loader.step(LoaderEvent::Devices(vec![]), true, now),
        LoaderAction::Enumerate { after_ms: 1000 }
    ));
    assert!(matches!(
        loader.step(LoaderEvent::Devices(vec![]), false, now),
        LoaderAction::StopDiscovery
    ));
}

#[test]
fn failed_enumeration_waits_for_the_next_tick() {
    let now = Timestamp::new(50, 0);
    let mut loader = started(now);
    assert!(loader.expects(&LoaderEvent::EnumerationFailed));
    assert!(matches!(
        loader.step(LoaderEvent::EnumerationFailed, true, now),
        LoaderAction::Enumerate { after_ms: 1000 }
    ));
    assert_eq!(loader.state(), LoaderState::Enumerating);
    // the next tick is as any other
    let seen = vec![info(true, scale_address(), "Shape200")];
    assert!(matches!(
        loader.step(LoaderEvent::Devices(seen), true, now),
        LoaderAction::Connect { .. }
    ));
    loader.step(LoaderEvent::Connected(false), true, now);
    // once the loader is to stop, a failed enumeration stops discovery
    assert!(matches!(
        loader.step(LoaderEvent::EnumerationFailed, false, now),
        LoaderAction::StopDiscovery
    ));
    assert!(matches!(
        loader.step(LoaderEvent::DiscoveryStopped, false, now),
        LoaderAction::Return
    ));
}

#[test]
fn event_that_was_not_asked_for_changes_nothing() {
    let now = Timestamp::new(50, 0);
    let mut loader = started(now);
    assert!(!loader.expects(&LoaderEvent::Persisted(true)));
    assert!(matches!(
        loader.step(LoaderEvent::Persisted(true), true, now),
        LoaderAction::Return
    ));
    assert_eq!(loader.state(), LoaderState::Enumerating);
    let seen = vec![info(true, scale_address(), "Shape200")];
    assert!(matches!(
        loader.step(LoaderEvent::Devices(seen), true, now),
        LoaderAction::Connect { .. }
    ));
    assert!(!loader.expects(&LoaderEvent::EnumerationFailed));
}

#[test]
fn loader_marks_at_the_time_of_persistence() {
    let mut loader = Loader::new(FactoryImpl::new(&vec![scale_address()]));
    let seen = vec![info(true, scale_address(), "Shape200")];
    let now = Timestamp::new(1_000, 0);
    loader.step(LoaderEvent::Begin, true, now);
    loader.step(LoaderEvent::DiscoveryStarted, true, now);
    loader.step(LoaderEvent::Devices(seen.clone()), true, now);
    loader.step(LoaderEvent::Connected(true), true, now);
    loader.step(LoaderEvent::Extracted(Some(vec![])), true, now);
    loader.step(LoaderEvent::Disconnected(true), true, now);
    // stored 100 s later: the backoff counts from then
    loader.step(LoaderEvent::Persisted(true), true, Timestamp::new(1_100, 0));
    assert!(matches!(
        loader.step(LoaderEvent::Devices(seen.clone()), true, Timestamp::new(1_399, 0)),
        LoaderAction::Enumerate { .. }
    ));
    assert!(matches!(
        loader.step(LoaderEvent::Devices(seen), true, Timestamp::new(1_400, 0)),
        LoaderAction::Connect { .. }
    ));
}
