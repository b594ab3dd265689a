use scarlett_control::error::{Error, ProtocolError};
use scarlett_control::fcp::{
    adjusted_volume, decode_meter_levels, decode_mix_info, mute_state_of, parse_fcp_response,
    FcpErrorCode, FcpMessageHeader, FcpOpcode, FcpProtocol, FcpResponse, FcpResponseType,
    FcpVersionMessage, FCP_MAGIC_REQUEST, FCP_MAGIC_RESPONSE, FCP_PROTOCOL_VERSION,
};
use scarlett_control::transport::{BulkTransfer, ControlTransfer, UsbTransport};

/// Test double speaking the device side of the command envelope: it echoes
/// the sequence number of the last request (shifted by `echo_offset` to
/// fake a misbehaving device), embeds `error_code`, and serves the scripted
/// payloads in order.
struct DeviceDouble {
    out_log: Vec<(ControlTransfer, Vec<u8>)>,
    in_log: Vec<(ControlTransfer, usize)>,
    responses: Vec<Vec<u8>>,
    last_seq: u16,
    echo_offset: u16,
    error_code: u32,
}

impl DeviceDouble {
    fn new(responses: Vec<Vec<u8>>) -> Self {
        DeviceDouble {
            out_log: Vec::new(),
            in_log: Vec::new(),
            responses,
            last_seq: 0,
            echo_offset: 0,
            error_code: 0,
        }
    }

    fn transfers_seen(&self) -> usize {
        self.out_log.len() + self.in_log.len()
    }
}

impl UsbTransport for DeviceDouble {
    fn control_out(&mut self, transfer: &ControlTransfer, data: &Vec<u8>) -> Result<usize, Error> {
        self.last_seq = u16::from_le_bytes([data[6], data[7]]);
        self.out_log.push((*transfer, data.clone()));
        Ok(data.len())
    }

    fn control_in(&mut self, transfer: &ControlTransfer, length: usize) -> Result<Vec<u8>, Error> {
        self.in_log.push((*transfer, length));
        let payload = if self.responses.is_empty() {
            Vec::new()
        } else {
            self.responses.remove(0)
        };
        let mut resp = Vec::new();
        resp.extend_from_slice(&0u32.to_le_bytes());
        resp.extend_from_slice(&(payload.len() as u16).to_le_bytes());
        resp.extend_from_slice(&self.last_seq.wrapping_add(self.echo_offset).to_le_bytes());
        resp.extend_from_slice(&self.error_code.to_le_bytes());
        resp.extend_from_slice(&0u32.to_le_bytes());
        resp.extend_from_slice(&payload);
        Ok(resp)
    }

    fn bulk_out(&mut self, _transfer: &BulkTransfer, data: &Vec<u8>) -> Result<usize, Error> {
        Ok(data.len())
    }

    fn bulk_in(&mut self, _transfer: &BulkTransfer, length: usize) -> Result<Vec<u8>, Error> {
        Ok(vec![0u8; length])
    }

    fn is_connected(&self) -> bool {
        true
    }

    fn transport_name(&self) -> &'static str {
        "Mock"
    }
}

fn initialized_engine(mut responses: Vec<Vec<u8>>) -> FcpProtocol<DeviceDouble> {
    let mut scripted = vec![vec![0u8; 24], vec![0u8; 84]];
    scripted.append(&mut responses);
    let mut engine = FcpProtocol::new(DeviceDouble::new(scripted));
    engine.init().unwrap();
    engine
}

#[test]
fn test_header_serialization() {
    let header = FcpMessageHeader::new_request(0x01, 100);
    let bytes = header.to_bytes();
    let decoded = FcpMessageHeader::from_bytes(&bytes).unwrap();

    assert_eq!(decoded.magic, FCP_MAGIC_REQUEST);
    assert_eq!(decoded.msg_type, 0x01);
    assert_eq!(decoded.payload_length, 100);
}

#[test]
fn test_version_message() {
    let msg = FcpVersionMessage::new(FCP_PROTOCOL_VERSION);
    let bytes = msg.to_bytes();
    let decoded = FcpVersionMessage::from_bytes(&bytes).unwrap();

    assert_eq!(decoded.version, FCP_PROTOCOL_VERSION);
}

#[test]
fn init_runs_the_two_step_handshake() {
    let mut engine = FcpProtocol::new(DeviceDouble::new(vec![vec![1u8; 24], vec![2u8; 84]]));
    assert!(!engine.initialized);

    let (step0, step2) = engine.init().unwrap();
    assert!(engine.initialized);
    assert_eq!(step0.len(), 24);
    assert_eq!(step2.len(), 84);

    // Two commands went out, each a class OUT (request 2) then class IN
    // (request 3) on interface 0, and the first request carried Init1.
    assert_eq!(engine.transport.out_log.len(), 2);
    assert_eq!(engine.transport.in_log.len(), 2);
    assert_eq!(engine.transport.out_log[0].0.request_type, 0x21);
    assert_eq!(engine.transport.out_log[0].0.request, 2);
    assert_eq!(engine.transport.in_log[0].0.request_type, 0xA1);
    assert_eq!(engine.transport.in_log[0].0.request, 3);
    let init1 = &engine.transport.out_log[0].1;
    assert_eq!(&init1[0..4], &0x0000u32.to_le_bytes());
    let init2 = &engine.transport.out_log[1].1;
    assert_eq!(&init2[0..4], &0x0002u32.to_le_bytes());
    // Sequence numbers 1 then 2.
    assert_eq!(&init1[6..8], &1u16.to_le_bytes());
    assert_eq!(&init2[6..8], &2u16.to_le_bytes());
}

#[test]
fn firmware_version_is_read_from_the_second_init_reply() {
    let mut step2 = vec![0u8; 84];
    step2[8..12].copy_from_slice(&1234u32.to_le_bytes());
    assert_eq!(
        FcpProtocol::<DeviceDouble>::firmware_version_of_init(&step2),
        Some(1234)
    );
    assert_eq!(
        FcpProtocol::<DeviceDouble>::firmware_version_of_init(&vec![0u8; 11]),
        None
    );
}

#[test]
fn data_operation_before_init_is_refused_without_traffic() {
    let mut engine = FcpProtocol::new(DeviceDouble::new(vec![]));
    assert_eq!(engine.read_data(0, 2).unwrap_err(), Error::NotInitialized);
    assert_eq!(engine.write_data(0, 2, 1).unwrap_err(), Error::NotInitialized);
    assert_eq!(engine.transport.transfers_seen(), 0);
}

#[test]
fn invalid_data_size_is_refused_before_any_transfer() {
    let mut engine = initialized_engine(vec![]);
    let seen = engine.transport.transfers_seen();

    for size in [0u32, 3, 5, 8, 1000] {
        assert_eq!(
            engine.read_data(0x34, size).unwrap_err(),
            Error::Protocol(ProtocolError::InvalidDataSize { size })
        );
        assert_eq!(
            engine.write_data(0x34, size, 1).unwrap_err(),
            Error::Protocol(ProtocolError::InvalidDataSize { size })
        );
    }

    // No USB traffic was observed for any invalid size.
    assert_eq!(engine.transport.transfers_seen(), seen);
}

#[test]
fn read_data_decodes_each_width_with_sign_extension() {
    let mut engine = initialized_engine(vec![
        vec![0xFF],
        vec![0x00, 0x80],
        vec![0xFF, 0xFF, 0xFF, 0x7F],
    ]);
    assert_eq!(engine.read_data(0, 1).unwrap(), -1);
    assert_eq!(engine.read_data(0, 2).unwrap(), -32768);
    assert_eq!(engine.read_data(0, 4).unwrap(), 0x7FFFFFFF);
}

#[test]
fn get_volume_unbiases_the_device_units() {
    // Device unit 115 encodes -12 dB.
    let mut engine = initialized_engine(vec![vec![115, 0]]);
    assert_eq!(engine.get_volume(0).unwrap(), -12);
}

#[test]
fn set_volume_clamps_and_writes_biased_units() {
    let mut engine = initialized_engine(vec![vec![], vec![], vec![]]);
    let first = engine.transport.out_log.len();

    engine.set_volume(3, -12).unwrap();
    let req = &engine.transport.out_log[first].1;
    // Envelope (16 bytes), then offset, size, value - all little-endian.
    assert_eq!(&req[0..4], &0x7001u32.to_le_bytes());
    assert_eq!(&req[16..20], &(0x34u32 + 6).to_le_bytes());
    assert_eq!(&req[20..24], &2u32.to_le_bytes());
    assert_eq!(&req[24..26], &115u16.to_le_bytes());

    // A request above 0 dB clamps to 0 dB (unit 127).
    engine.set_volume(0, 35).unwrap();
    let req = &engine.transport.out_log[first + 1].1;
    assert_eq!(&req[24..26], &127u16.to_le_bytes());

    // A request below -127 dB clamps to -127 dB (unit 0).
    engine.set_volume(0, -500).unwrap();
    let req = &engine.transport.out_log[first + 2].1;
    assert_eq!(&req[24..26], &0u16.to_le_bytes());
}

#[test]
fn adjust_volume_moves_by_the_delta_and_clamps() {
    // Current volume -12 dB; adjust by -6 dB; expect -18 dB written.
    let mut engine = initialized_engine(vec![vec![115, 0], vec![]]);
    assert_eq!(engine.adjust_volume(0, -6).unwrap(), -18);

    // Clamps at 0 dB.
    let mut engine = initialized_engine(vec![vec![115, 0], vec![]]);
    assert_eq!(engine.adjust_volume(0, 100).unwrap(), 0);
}

#[test]
fn mute_round_trip() {
    let mut engine = initialized_engine(vec![vec![0], vec![0]]);
    assert_eq!(engine.get_mute(2).unwrap(), false);
    assert_eq!(engine.toggle_mute(2).unwrap(), true);

    let req = engine.transport.out_log.last().unwrap().1.clone();
    assert_eq!(&req[16..20], &(0x5Cu32 + 2).to_le_bytes());
    assert_eq!(&req[20..24], &1u32.to_le_bytes());
    assert_eq!(req[24], 1);
}

#[test]
fn sequence_mismatch_in_a_response_is_a_protocol_error() {
    let mut transport = DeviceDouble::new(vec![vec![0u8; 24]]);
    transport.echo_offset = 1;
    let mut engine = FcpProtocol::new(transport);
    match engine.init().unwrap_err() {
        Error::Protocol(ProtocolError::SequenceMismatch { expected, got }) => {
            assert_eq!(expected, 1);
            assert_eq!(got, 2);
        }
        other => panic!("unexpected error: {:?}", other),
    }
    assert!(!engine.initialized);
}

#[test]
fn device_error_code_in_a_response_is_surfaced() {
    let mut transport = DeviceDouble::new(vec![vec![0u8; 24]]);
    transport.error_code = 9;
    let mut engine = FcpProtocol::new(transport);
    assert_eq!(
        engine.init().unwrap_err(),
        Error::Protocol(ProtocolError::DeviceError { code: 9 })
    );
}

#[test]
fn read_meters_decodes_little_endian_levels() {
    let mut payload = Vec::new();
    payload.extend_from_slice(&100u32.to_le_bytes());
    payload.extend_from_slice(&0x01020304u32.to_le_bytes());
    let mut engine = initialized_engine(vec![payload]);

    let levels = engine.read_meters(2).unwrap();
    assert_eq!(levels, vec![100, 0x01020304]);
}

#[test]
fn read_mix_info_returns_the_geometry() {
    let mut engine = initialized_engine(vec![vec![10, 25, 0, 0, 0, 0, 0, 0]]);
    assert_eq!(engine.read_mix_info().unwrap(), (10, 25));

    // A reply shorter than two bytes is a framing error.
    let mut engine = initialized_engine(vec![vec![10]]);
    assert_eq!(
        engine.read_mix_info().unwrap_err(),
        Error::Protocol(ProtocolError::ResponseTooShort)
    );
}

#[test]
fn reply_decoders() {
    assert_eq!(decode_mix_info(&vec![4, 9, 0, 0]).unwrap(), (4, 9));
    assert_eq!(
        decode_mix_info(&vec![4]).unwrap_err(),
        Error::Protocol(ProtocolError::ResponseTooShort)
    );

    assert!(mute_state_of(1));
    assert!(mute_state_of(-3));
    assert!(!mute_state_of(0));

    assert_eq!(adjusted_volume(-12, -6), -18);
    assert_eq!(adjusted_volume(-12, 100), 0);
    assert_eq!(adjusted_volume(-120, -100), -127);
    assert_eq!(adjusted_volume(i32::MAX, i32::MAX), 0);
    assert_eq!(adjusted_volume(i32::MIN, i32::MIN), -127);
}

#[test]
fn response_envelope_validation() {
    // Too short for the envelope.
    assert_eq!(
        parse_fcp_response(&vec![0u8; 15], 1).unwrap_err(),
        Error::Protocol(ProtocolError::ResponseTooShort)
    );

    // Well-formed: payload after the 16-byte envelope comes back.
    let mut resp = vec![0u8; 16];
    resp[6..8].copy_from_slice(&7u16.to_le_bytes());
    resp.push(0xEE);
    assert_eq!(parse_fcp_response(&resp, 7).unwrap(), vec![0xEE]);
}

#[test]
fn meter_level_decoding_drops_trailing_fragment() {
    let mut payload = Vec::new();
    payload.extend_from_slice(&5u32.to_le_bytes());
    payload.push(0xAA);
    assert_eq!(decode_meter_levels(&payload), vec![5]);
}

#[test]
fn firmware_update_message_parsing() {
    // Version message round trip is covered above; check the dispatcher.
    let msg = FcpVersionMessage::new(3);
    let bytes = msg.to_bytes();
    match FcpResponse::from_bytes(&bytes).unwrap() {
        FcpResponse::Version(v) => assert_eq!(v.version, 3),
        other => panic!("unexpected response: {:?}", other),
    }

    // A success message is just a validated header.
    let header = FcpMessageHeader::new_response(0x01, 0);
    match FcpResponse::from_bytes(&header.to_bytes()).unwrap() {
        FcpResponse::Success(s) => assert_eq!(s.header.msg_type, 0x01),
        other => panic!("unexpected response: {:?}", other),
    }

    // An error message carries a signed 16-bit code.
    let header = FcpMessageHeader::new_response(0x02, 2);
    let mut bytes = header.to_bytes();
    bytes.extend_from_slice(&8i16.to_le_bytes());
    match FcpResponse::from_bytes(&bytes).unwrap() {
        FcpResponse::Error(e) => {
            assert_eq!(e.error_code, 8);
            assert_eq!(e.error_code_enum(), Some(FcpErrorCode::Timeout));
        }
        other => panic!("unexpected response: {:?}", other),
    }

    // A progress message carries a percentage byte.
    let header = FcpMessageHeader::new_response(0x03, 1);
    let mut bytes = header.to_bytes();
    bytes.push(55);
    match FcpResponse::from_bytes(&bytes).unwrap() {
        FcpResponse::Progress(p) => assert_eq!(p.percent, 55),
        other => panic!("unexpected response: {:?}", other),
    }

    // A bad magic byte is rejected.
    let mut bytes = FcpMessageHeader::new_response(0x01, 0).to_bytes();
    bytes[0] = 0x11;
    assert_eq!(
        FcpResponse::from_bytes(&bytes).unwrap_err(),
        Error::Protocol(ProtocolError::InvalidMagic { got: 0x11 })
    );

    // An unknown response type is rejected.
    let bytes = FcpMessageHeader::new_response(0x09, 0).to_bytes();
    assert_eq!(
        FcpResponse::from_bytes(&bytes).unwrap_err(),
        Error::Protocol(ProtocolError::UnknownResponseType { got: 0x09 })
    );

    assert_eq!(FcpResponse::from_bytes(&vec![0x73u8]).unwrap_err(),
        Error::Protocol(ProtocolError::ResponseTooShort));
}

#[test]
fn message_header_validation_limits() {
    let header = FcpMessageHeader::new_request(0, 2 * 1024 * 1024);
    assert!(header.validate().is_ok());
    let header = FcpMessageHeader::new_request(0, 2 * 1024 * 1024 + 1);
    assert_eq!(
        header.validate().unwrap_err(),
        Error::Protocol(ProtocolError::PayloadTooLarge)
    );
    assert_eq!(FCP_MAGIC_RESPONSE, 0x73);
}

#[test]
fn error_codes_round_trip() {
    for (code, msg) in [
        (1i16, "Invalid magic byte"),
        (4, "Invalid hash"),
        (8, "Timeout"),
        (12, "Invalid state"),
    ] {
        let decoded = FcpErrorCode::from_i16(code).unwrap();
        assert_eq!(decoded.code(), code);
        assert_eq!(decoded.message(), msg);
    }
    assert_eq!(FcpErrorCode::from_i16(0), None);
    assert_eq!(FcpErrorCode::from_i16(13), None);
}

#[test]
fn opcodes_round_trip() {
    for (val, op) in [
        (0x0000u16, FcpOpcode::Init1),
        (0x0002, FcpOpcode::Init2),
        (0x1001, FcpOpcode::MeterRead),
        (0x2002, FcpOpcode::MixWrite),
        (0x4005, FcpOpcode::FlashRead),
        (0x5004, FcpOpcode::SyncRead),
        (0x700d, FcpOpcode::DevmapRead),
    ] {
        assert_eq!(FcpOpcode::from_u16(val), Some(op));
        assert_eq!(op.code(), val);
    }
    assert_eq!(FcpOpcode::from_u16(0x0004), None);
    assert_eq!(FcpOpcode::from_u16(0xFFFF), None);
    assert_eq!(FcpResponseType::from_u8(0x02), Some(FcpResponseType::Error));
    assert_eq!(FcpResponseType::from_u8(0x04), None);
}
