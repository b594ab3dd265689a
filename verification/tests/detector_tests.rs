use scarlett_control::detector::{DeviceDetector, HotplugEvent, RawUsbDevice};
use scarlett_control::device::{DeviceGeneration, DeviceInfo, DeviceModel};
use scarlett_control::error::Error;
use scarlett_control::FOCUSRITE_VENDOR_ID;

fn raw(vid: u16, pid: u16, serial: Option<&str>, path: &str) -> RawUsbDevice {
    RawUsbDevice {
        vendor_id: vid,
        product_id: pid,
        serial_number: serial.map(|s| s.to_string()),
        usb_path: path.to_string(),
    }
}

fn dev(model: DeviceModel, serial: &str, path: &str) -> DeviceInfo {
    DeviceInfo::new(model, serial.to_string(), path.to_string())
}

#[test]
fn known_product_ids_resolve_end_to_end() {
    // Product id 0x821E is the Scarlett 18i20 (4th Gen).
    let model = DeviceModel::from_product_id(0x821E).unwrap();
    assert_eq!(model, DeviceModel::Scarlett18i20Gen4);
    assert_eq!(model.name(), "Scarlett 18i20 (4th Gen)");
    assert_eq!(model.generation(), DeviceGeneration::Gen4);

    // Product id 0x8204 is the Scarlett 8i6 (1st Gen).
    let model = DeviceModel::from_product_id(0x8204).unwrap();
    assert_eq!(model, DeviceModel::Scarlett8i6Gen1);
    assert_eq!(model.name(), "Scarlett 8i6 (1st Gen)");
    assert_eq!(model.generation(), DeviceGeneration::Gen1);

    // An unrecognized product id yields no match.
    assert_eq!(DeviceModel::from_product_id(0x0000), None);
}

#[test]
fn scan_keeps_focusrite_devices_with_known_ids() {
    let detector = DeviceDetector::new();
    let records = vec![
        // Unrecognized Focusrite product id: skipped, not an error.
        raw(FOCUSRITE_VENDOR_ID, 0x0000, Some("A1"), "usb-001-002"),
        // A known device with a readable serial.
        raw(FOCUSRITE_VENDOR_ID, 0x8214, Some("S2i2"), "usb-001-003"),
        // Another vendor entirely.
        raw(0x046D, 0x8214, None, "usb-001-004"),
        // A known device with no readable serial.
        raw(FOCUSRITE_VENDOR_ID, 0x821E, None, "usb-001-005"),
    ];

    let devices = detector.scan_devices(&records);
    assert_eq!(devices.len(), 2);
    assert_eq!(devices[0].model, DeviceModel::Scarlett2i2Gen3);
    assert_eq!(devices[0].serial_number, "S2i2");
    assert_eq!(devices[0].usb_path, "usb-001-003");
    assert_eq!(devices[0].firmware_version, None);
    assert_eq!(devices[1].model, DeviceModel::Scarlett18i20Gen4);
    assert_eq!(devices[1].serial_number, "Unknown");
    assert_eq!(devices[1].usb_path, "usb-001-005");
}

#[test]
fn diff_emits_connects_then_disconnects() {
    let d1 = dev(DeviceModel::Scarlett2i2Gen3, "A", "usb-001-001");
    let d2 = dev(DeviceModel::Scarlett18i20Gen4, "B", "usb-001-002");
    let d3 = dev(DeviceModel::Scarlett4i4Gen4, "C", "usb-001-003");

    let mut detector = DeviceDetector::new();

    // First scan: both devices connect, in scan order.
    let events = detector.tick(Ok(vec![d1.clone(), d2.clone()]));
    assert_eq!(
        events,
        vec![HotplugEvent::Connected(d1.clone()), HotplugEvent::Connected(d2.clone())]
    );

    // Second scan: d1 vanished, d3 appeared. Connects come first.
    let events = detector.tick(Ok(vec![d2.clone(), d3.clone()]));
    assert_eq!(
        events,
        vec![
            HotplugEvent::Connected(d3.clone()),
            HotplugEvent::Disconnected("usb-001-001".to_string()),
        ]
    );

    // A scan that sees the same set emits nothing.
    let events = detector.tick(Ok(vec![d2.clone(), d3.clone()]));
    assert_eq!(events, vec![]);
}

#[test]
fn failed_scan_skips_the_tick_and_keeps_the_snapshot() {
    let d1 = dev(DeviceModel::Scarlett2i2Gen3, "A", "usb-001-001");

    let mut detector = DeviceDetector::new();
    detector.tick(Ok(vec![d1.clone()]));

    // A transient enumeration failure: no events, snapshot retained.
    let events = detector.tick(Err(Error::Usb("enumeration failed".to_string())));
    assert_eq!(events, vec![]);
    assert_eq!(detector.current_devices.len(), 1);

    // The next successful scan diffs against the retained snapshot, so the
    // unchanged device does not reconnect spuriously.
    let events = detector.tick(Ok(vec![d1.clone()]));
    assert_eq!(events, vec![]);

    // Only when a scan really sees it gone does it disconnect.
    let events = detector.tick(Ok(vec![]));
    assert_eq!(
        events,
        vec![HotplugEvent::Disconnected("usb-001-001".to_string())]
    );
}

#[test]
fn diff_of_two_empty_snapshots_is_empty() {
    let mut detector = DeviceDetector::new();
    let events = detector.tick(Ok(vec![]));
    assert_eq!(events, vec![]);
}

#[test]
fn identity_table_round_trips_every_model() {
    let models = [
        DeviceModel::Scarlett6i6Gen1,
        DeviceModel::Scarlett8i6Gen1,
        DeviceModel::Scarlett18i6Gen1,
        DeviceModel::Scarlett18i8Gen1,
        DeviceModel::Scarlett18i20Gen1,
        DeviceModel::Scarlett6i6Gen2,
        DeviceModel::Scarlett18i8Gen2,
        DeviceModel::Scarlett18i20Gen2,
        DeviceModel::ScarlettSoloGen3,
        DeviceModel::Scarlett2i2Gen3,
        DeviceModel::Scarlett4i4Gen3,
        DeviceModel::Scarlett8i6Gen3,
        DeviceModel::Scarlett18i8Gen3,
        DeviceModel::Scarlett18i20Gen3,
        DeviceModel::ScarlettSoloGen4,
        DeviceModel::Scarlett2i2Gen4,
        DeviceModel::Scarlett4i4Gen4,
        DeviceModel::Scarlett16i16Gen4,
        DeviceModel::Scarlett18i16Gen4,
        DeviceModel::Scarlett18i20Gen4,
        DeviceModel::Clarett2PreUsb,
        DeviceModel::Clarett4PreUsb,
        DeviceModel::Clarett8PreUsb,
        DeviceModel::Clarett2PrePlus,
        DeviceModel::Clarett4PrePlus,
        DeviceModel::VocasterOne,
        DeviceModel::VocasterTwo,
    ];
    for model in models {
        assert_eq!(DeviceModel::from_product_id(model.product_id()), Some(model));
    }

    // The one documented collision: the Clarett+ 8Pre shares 0x820C with
    // the Scarlett 18i20 Gen 2, and the reverse lookup resolves to the
    // latter.
    assert_eq!(DeviceModel::Clarett8PrePlus.product_id(), 0x820C);
    assert_eq!(
        DeviceModel::from_product_id(0x820C),
        Some(DeviceModel::Scarlett18i20Gen2)
    );
}
