use healthpi::devices::contour::ElitePlus;
use healthpi::devices::device::{
    display_device, parse_registry, Device, DeviceInfo, FactoryImpl,
};
use healthpi::devices::huawei::AH100;
use healthpi::devices::soehnle::{Shape200, SystoMC400};
use healthpi::macaddress::{MacAddress, MacAddressError};
use healthpi::time::Timestamp;

fn mac() -> MacAddress {
    MacAddress::from([0x12, 0x34, 0x56, 0x78, 0x9A, 0xBC])
}

fn other() -> MacAddress {
    MacAddress::from([0x12, 0x34, 0x56, 0x78, 0x9A, 0xBD])
}

fn info(in_range: bool, mac_address: MacAddress, name: &str) -> DeviceInfo {
    DeviceInfo { in_range, mac_address, name: name.to_string() }
}

#[test]
fn address_is_parsed_from_text() {
    assert_eq!(MacAddress::from_str("12:34:56:78:9A:BC"), Ok(mac()));
    assert_eq!(MacAddress::from_str("12:34:56:78:9a:bc"), Ok(mac()));
    assert_eq!(
        MacAddress::from_str("00:ff:0A:a0:Ff:09"),
        Ok(MacAddress::from([0x00, 0xFF, 0x0A, 0xA0, 0xFF, 0x09]))
    );
    assert_eq!(
        MacAddress::from_str("+1:02:03:04:05:+f"),
        Ok(MacAddress::from([1, 2, 3, 4, 5, 15]))
    );
    assert_eq!(MacAddress::parse(b"12:34:56:78:9A:BC"), Ok(mac()));
}

#[test]
fn text_that_is_no_address_is_refused() {
    for text in [
        "",
        ":",
        "1",
        "12:",
        "12:34:56:78:9A:B",
        "12:34:56:78:9A:BCD",
        "12:34:56:78:9A:BC:",
        "12-34-56-78-9A-BC",
        "12:34:56:78:9A:BG",
        "12:34:56:78:9A: 1",
        "12:34:56:78:9A:-1",
        "12:34:56:78:9A:1+",
        "12:34:56:78:9A:++",
        " 12:34:56:78:9A:BC",
        "12:34:56:78:9A:BC\r",
        "1234:56:78:9A:BC:DE",
        "é:34:56:78:9A:BC",
    ] {
        assert_eq!(MacAddress::from_str(text), Err(MacAddressError::InvalidOctet), "{}", text);
    }
    for text in ["12", "12:34", "12:34:56:78:9A", "12:34:56:78:9A:BC:DE", "+1:+2"] {
        assert_eq!(MacAddress::from_str(text), Err(MacAddressError::InvalidLength), "{}", text);
    }
}

#[test]
fn address_is_written_in_upper_case() {
    assert_eq!(mac().to_string(), "12:34:56:78:9A:BC");
    assert_eq!(MacAddress::from([0, 1, 0x0A, 0xF0, 0xFF, 0x9E]).to_string(), "00:01:0A:F0:FF:9E");
    for address in [mac(), other(), MacAddress::from([0; 6]), MacAddress::from([255; 6])] {
        assert_eq!(MacAddress::from_str(&address.to_string()), Ok(address));
    }
}

#[test]
fn address_key_and_bytes() {
    assert_eq!(mac().key(), 0x1234_5678_9ABC);
    assert_eq!(MacAddress::from([0; 6]).key(), 0);
    assert_eq!(MacAddress::from([255; 6]).key(), 0xFFFF_FFFF_FFFF);
    let bytes: [u8; 6] = mac().into();
    assert_eq!(bytes, [0x12, 0x34, 0x56, 0x78, 0x9A, 0xBC]);
    assert!(mac() == mac());
    assert!(mac() != other());
}

#[test]
fn registry_skips_lines_that_spell_no_address() {
    let lines: Vec<String> = ["12:34:56:78:9A:BC", "", "# scale", "12:34:56:78:9A:BD ", "12:34:56:78:9a:bd", "12:34"]
        .iter()
        .map(|l| l.to_string())
        .collect();
    assert_eq!(parse_registry(&lines), vec![mac(), other()]);
    assert_eq!(parse_registry(&vec![]), vec![]);
    let factory = FactoryImpl::from_lines(&lines);
    let now = Timestamp::new(0, 0);
    assert!(factory.make_device(&info(true, other(), "Contour"), now).is_some());
    assert!(factory
        .make_device(&info(true, MacAddress::from([1, 2, 3, 4, 5, 6]), "Contour"), now)
        .is_none());
}

#[test]
fn name_decides_the_decoder() {
    let factory = FactoryImpl::new(&vec![mac()]);
    let now = Timestamp::new(1_000, 0);
    for (name, device) in [
        ("Contour7830H", Some(Device::ElitePlus(ElitePlus::new(mac())))),
        ("My Contour", Some(Device::ElitePlus(ElitePlus::new(mac())))),
        ("Shape200-xyz", Some(Device::Shape200(Shape200::new(mac())))),
        ("Systo MC 400", Some(Device::SystoMC400(SystoMC400::new(mac())))),
        ("CH100-ABC", Some(Device::AH100(AH100::new(mac())))),
        ("Shape200 Contour", Some(Device::ElitePlus(ElitePlus::new(mac())))),
        ("CH100 Systo MC 400", Some(Device::SystoMC400(SystoMC400::new(mac())))),
        ("contour", None),
        ("SHAPE200", None),
        ("Systo MC400", None),
        ("Shape 200", None),
        ("", None),
    ] {
        assert_eq!(factory.make_device(&info(true, mac(), name), now), device, "{}", name);
    }
    assert_eq!(Device::Shape200(Shape200::new(mac())).mac_address(), mac());
}

#[test]
fn device_out_of_range_is_never_classified() {
    let factory = FactoryImpl::new(&vec![mac()]);
    let now = Timestamp::new(1_000, 0);
    for name in ["Contour", "Shape200", "Systo MC 400", "CH100", "other"] {
        assert_eq!(factory.make_device(&info(false, mac(), name), now), None);
        assert_eq!(factory.make_device(&info(false, other(), name), now), None);
    }
}

#[test]
fn unpaired_device_is_never_classified() {
    let factory = FactoryImpl::new(&vec![mac()]);
    let now = Timestamp::new(1_000, 0);
    assert_eq!(factory.make_device(&info(true, other(), "Contour"), now), None);
    let empty = FactoryImpl::new(&vec![]);
    assert_eq!(empty.make_device(&info(true, mac(), "Contour"), now), None);
}

#[test]
fn processed_device_is_backed_off_for_five_minutes() {
    let mut factory = FactoryImpl::new(&vec![mac(), other()]);
    let device = Device::Shape200(Shape200::new(mac()));
    let scale = info(true, mac(), "Shape200");
    let processed = Timestamp::new(10_000, 500);
    assert_eq!(factory.make_device(&scale, processed), Some(device));

    let expiry = factory.mark_processed(&device, processed);
    assert_eq!(expiry, Timestamp::new(10_300, 500));

    assert_eq!(factory.make_device(&scale, processed), None);
    assert_eq!(factory.make_device(&scale, Timestamp::new(10_299, 999_999_999)), None);
    assert_eq!(factory.make_device(&scale, Timestamp::new(10_300, 499)), None);
    // from the expiry on the device is classified again
    assert_eq!(factory.make_device(&scale, Timestamp::new(10_300, 500)), Some(device));
    assert_eq!(factory.make_device(&scale, Timestamp::new(10_300, 501)), Some(device));
    assert_eq!(factory.make_device(&scale, Timestamp::new(99_999, 0)), Some(device));
    // another device is not touched
    assert!(factory.make_device(&info(true, other(), "Shape200"), processed).is_some());
}

#[test]
fn marking_again_moves_the_expiry() {
    let mut factory = FactoryImpl::new(&vec![mac()]);
    let device = Device::ElitePlus(ElitePlus::new(mac()));
    let meter = info(true, mac(), "Contour");
    factory.mark_processed(&device, Timestamp::new(100, 0));
    assert!(factory.make_device(&meter, Timestamp::new(400, 0)).is_some());
    factory.mark_processed(&device, Timestamp::new(400, 0));
    assert!(factory.make_device(&meter, Timestamp::new(650, 0)).is_none());
    assert!(factory.make_device(&meter, Timestamp::new(700, 0)).is_some());
}

#[test]
fn marking_at_the_time_of_the_clock_backs_off() {
    let mut factory = FactoryImpl::new(&vec![mac()]);
    let device = Device::ElitePlus(ElitePlus::new(mac()));
    let clock = chrono::Utc::now();
    let now = Timestamp::new(clock.timestamp(), clock.timestamp_subsec_nanos());
    let expiry = factory.mark_processed(&device, now);
    assert_eq!(expiry, Timestamp::new(now.secs + 300, now.nanos));
    assert_eq!(factory.make_device(&info(true, mac(), "Contour"), now), None);
    assert_eq!(
        factory.mark_processed(&device, Timestamp::new(i64::MAX - 300, 7)),
        Timestamp::new(i64::MAX, 7)
    );
}

#[test]
fn device_is_shown_by_name_or_address() {
    assert_eq!(display_device(Some("Shape200".to_string()), &mac()), "Shape200");
    assert_eq!(display_device(Some(String::new()), &mac()), "");
    assert_eq!(display_device(None, &mac()), "12:34:56:78:9A:BC");
}
