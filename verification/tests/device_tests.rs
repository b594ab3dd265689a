use scarlett_control::device::{Device, DeviceGeneration, DeviceInfo, DeviceModel};
use scarlett_control::device_impl::{DeviceType, UsbDevice};
use scarlett_control::error::Error;
use scarlett_control::fcp::{device_units_of_db, db_of_device_units};
use scarlett_control::hotkeys::VolumeCommand;
use scarlett_control::protocol::{create_protocol, ProtocolEngine, UsbControl};
use scarlett_control::routing::RoutingMatrix;
use scarlett_control::transport::{BulkTransfer, ControlTransfer, UsbTransport};
use scarlett_control::wire;

/// Test double speaking the device side of the FCP command envelope.
struct DeviceDouble {
    last_seq: u16,
    response_budget: usize,
}

impl UsbTransport for DeviceDouble {
    fn control_out(&mut self, _transfer: &ControlTransfer, data: &Vec<u8>) -> Result<usize, Error> {
        self.last_seq = u16::from_le_bytes([data[6], data[7]]);
        Ok(data.len())
    }

    fn control_in(&mut self, _transfer: &ControlTransfer, length: usize) -> Result<Vec<u8>, Error> {
        if self.response_budget == 0 {
            return Err(Error::Usb("no response".to_string()));
        }
        self.response_budget -= 1;
        let mut resp = vec![0u8; 16.min(length)];
        if resp.len() >= 12 {
            resp[6..8].copy_from_slice(&self.last_seq.to_le_bytes());
        }
        // Pad to the requested length so the declared sizes are served.
        while resp.len() < length {
            resp.push(0);
        }
        Ok(resp)
    }

    fn bulk_out(&mut self, _transfer: &BulkTransfer, data: &Vec<u8>) -> Result<usize, Error> {
        Ok(data.len())
    }

    fn bulk_in(&mut self, _transfer: &BulkTransfer, length: usize) -> Result<Vec<u8>, Error> {
        Ok(vec![0u8; length])
    }

    fn is_connected(&self) -> bool {
        true
    }

    fn transport_name(&self) -> &'static str {
        "Mock"
    }
}

fn double() -> DeviceDouble {
    DeviceDouble { last_seq: 0, response_budget: usize::MAX }
}

fn info(model: DeviceModel) -> DeviceInfo {
    DeviceInfo::new(model, "SER".to_string(), "usb-001-001".to_string())
}

#[test]
fn open_binds_the_engine_by_generation() {
    let device = UsbDevice::open(info(DeviceModel::Scarlett18i20Gen4), double()).unwrap();
    assert!(matches!(device.device_type, DeviceType::Gen4Fcp { .. }));
    assert!(device.is_connected());

    let device = UsbDevice::open(info(DeviceModel::Scarlett18i20Gen2), double()).unwrap();
    assert!(matches!(device.device_type, DeviceType::Gen2Or3 { .. }));

    let device = UsbDevice::open(info(DeviceModel::Scarlett2i2Gen3), double()).unwrap();
    assert!(matches!(device.device_type, DeviceType::Gen2Or3 { .. }));

    let result = UsbDevice::open(info(DeviceModel::Scarlett8i6Gen1), double());
    assert!(matches!(result, Err(Error::NotSupported(_))));

    let result = UsbDevice::open(info(DeviceModel::VocasterOne), double());
    assert!(matches!(result, Err(Error::NotSupported(_))));
}

#[test]
fn initialize_runs_the_handshake_for_gen4() {
    let mut device = UsbDevice::open(info(DeviceModel::Scarlett18i20Gen4), double()).unwrap();
    device.initialize().unwrap();
    match &device.device_type {
        DeviceType::Gen4Fcp { protocol } => assert!(protocol.initialized),
        _ => panic!("wrong engine"),
    }

    // Gen 2/3 initialization is a no-op here.
    let mut device = UsbDevice::open(info(DeviceModel::Scarlett18i20Gen2), double()).unwrap();
    device.initialize().unwrap();
}

#[test]
fn capability_tables() {
    let d = UsbDevice::open(info(DeviceModel::Scarlett18i20Gen4), double()).unwrap();
    assert_eq!(d.num_inputs(), 18);
    assert_eq!(d.num_outputs(), 20);
    assert_eq!(d.num_mixer_inputs(), 25);
    assert!(d.has_mixer());
    assert!(d.has_routing());
    assert_eq!(d.info().serial_number, "SER");

    let d = UsbDevice::open(info(DeviceModel::Scarlett2i2Gen4), double()).unwrap();
    assert_eq!(d.num_inputs(), 2);
    assert_eq!(d.num_outputs(), 2);
    assert_eq!(d.num_mixer_inputs(), 0);
    assert!(!d.has_mixer());
    assert!(!d.has_routing());

    let d = UsbDevice::open(info(DeviceModel::Scarlett16i16Gen4), double()).unwrap();
    assert_eq!(d.num_inputs(), 16);
    assert_eq!(d.num_outputs(), 16);
    assert_eq!(d.num_mixer_inputs(), 18);
}

#[test]
fn dispatcher_is_total_over_generations() {
    assert!(matches!(
        create_protocol(DeviceGeneration::Gen4, double()),
        ProtocolEngine::Fcp(_)
    ));
    assert!(matches!(
        create_protocol(DeviceGeneration::Gen2, double()),
        ProtocolEngine::Scarlett2(_)
    ));
    assert!(matches!(
        create_protocol(DeviceGeneration::Gen3, double()),
        ProtocolEngine::Scarlett2(_)
    ));
    assert!(matches!(
        create_protocol(DeviceGeneration::Gen1, double()),
        ProtocolEngine::Stub(DeviceGeneration::Gen1)
    ));
    assert!(matches!(
        create_protocol(DeviceGeneration::Clarett, double()),
        ProtocolEngine::Stub(DeviceGeneration::Clarett)
    ));
    assert!(matches!(
        create_protocol(DeviceGeneration::ClarettPlus, double()),
        ProtocolEngine::Stub(DeviceGeneration::ClarettPlus)
    ));
    assert!(matches!(
        create_protocol(DeviceGeneration::Vocaster, double()),
        ProtocolEngine::Stub(DeviceGeneration::Vocaster)
    ));
}

#[test]
fn volume_unit_conversions_round_trip() {
    // Every device unit in [0, 127] survives the trip through dB.
    for units in 0..=127 {
        assert_eq!(device_units_of_db(db_of_device_units(units)), units);
    }
    // Every dB value in [-127, 0] survives the trip through units.
    for db in -127..=0 {
        assert_eq!(db_of_device_units(device_units_of_db(db)), db);
    }
    // Unit 0 encodes -127 dB; unit 127 encodes 0 dB; out-of-range dB clamps.
    assert_eq!(db_of_device_units(0), -127);
    assert_eq!(db_of_device_units(127), 0);
    assert_eq!(device_units_of_db(-128), 0);
    assert_eq!(device_units_of_db(5), 127);
}

#[test]
fn routing_matrix_routes() {
    let mut m = RoutingMatrix::new();
    assert_eq!(m.get_route(0), None);

    m.routes.push(None);
    m.routes.push(Some(7));
    assert_eq!(m.get_route(0), None);
    assert_eq!(m.get_route(1), Some(7));

    m.set_route(0, Some(3));
    assert_eq!(m.get_route(0), Some(3));
    m.set_route(1, None);
    assert_eq!(m.get_route(1), None);

    // A destination beyond the table leaves the matrix unchanged.
    m.set_route(9, Some(1));
    assert_eq!(m.get_route(9), None);
    assert_eq!(m.routes.len(), 2);
}

#[test]
fn wire_codecs() {
    assert_eq!(wire::u16_from_be(0x12, 0x35), 0x1235);
    assert_eq!(wire::u32_from_be(0x01, 0x02, 0x03, 0x04), 0x01020304);
    assert_eq!(wire::u16_from_le(0x35, 0x12), 0x1235);
    assert_eq!(wire::u32_from_le(0x04, 0x03, 0x02, 0x01), 0x01020304);
    assert_eq!(wire::i8_ext_from(0xFF), -1);
    assert_eq!(wire::i8_ext_from(0x7F), 127);
    assert_eq!(wire::i16_from_le(0x00, 0x80), -32768);
    assert_eq!(wire::i16_exact_from_le(0xFF, 0xFF), -1i16);
    assert_eq!(wire::i32_from_le(0xFF, 0xFF, 0xFF, 0xFF), -1);
    assert_eq!(wire::u32_of_i32(-1), 0xFFFFFFFF);
    assert_eq!(wire::u32_of_i32(5), 5);
}

#[test]
fn misc_engine_surface() {
    assert!(scarlett_control::init().is_ok());
    assert_eq!(scarlett_control::FOCUSRITE_VENDOR_ID, 0x1235);
    assert_eq!(scarlett_control::MAX_CHANNELS, 92);

    let c = UsbControl::new(0x21, 2, 0, 3);
    assert_eq!(c.request_type, 0x21);
    assert_eq!(c.request, 2);
    assert_eq!(c.value, 0);
    assert_eq!(c.index, 3);

    let cmd = VolumeCommand::VolumeUp;
    assert!(matches!(cmd, VolumeCommand::VolumeUp));
}
