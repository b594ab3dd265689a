use scarlett_control::error::{Error, ProtocolError};
use scarlett_control::scarlett2::{
    decode_meter_levels, parse_scarlett2_response, Scarlett2Command, Scarlett2Protocol,
    SCARLETT2_USB_CMD_INIT, SCARLETT2_USB_CMD_REQ, SCARLETT2_USB_CMD_RESP,
};
use scarlett_control::transport::{BulkTransfer, ControlTransfer, UsbTransport};

/// Test double speaking the device side of the Scarlett2 envelope: echoes
/// the sequence number of the last request (shifted by `echo_offset`) and
/// serves the scripted payloads in order.
struct DeviceDouble {
    out_log: Vec<(ControlTransfer, Vec<u8>)>,
    in_log: Vec<(ControlTransfer, usize)>,
    responses: Vec<Vec<u8>>,
    last_seq: u8,
    echo_offset: u8,
}

impl DeviceDouble {
    fn new(responses: Vec<Vec<u8>>) -> Self {
        DeviceDouble {
            out_log: Vec::new(),
            in_log: Vec::new(),
            responses,
            last_seq: 0,
            echo_offset: 0,
        }
    }
}

impl UsbTransport for DeviceDouble {
    fn control_out(&mut self, transfer: &ControlTransfer, data: &Vec<u8>) -> Result<usize, Error> {
        if data.len() >= 2 && data[0] == SCARLETT2_USB_CMD_REQ {
            self.last_seq = data[1];
        }
        self.out_log.push((*transfer, data.clone()));
        Ok(data.len())
    }

    fn control_in(&mut self, transfer: &ControlTransfer, length: usize) -> Result<Vec<u8>, Error> {
        self.in_log.push((*transfer, length));
        let payload = if self.responses.is_empty() {
            Vec::new()
        } else {
            self.responses.remove(0)
        };
        let mut resp = Vec::new();
        resp.push(SCARLETT2_USB_CMD_RESP);
        resp.push(self.last_seq.wrapping_add(self.echo_offset));
        resp.extend_from_slice(&(payload.len() as u16).to_le_bytes());
        resp.extend_from_slice(&payload);
        Ok(resp)
    }

    fn bulk_out(&mut self, _transfer: &BulkTransfer, data: &Vec<u8>) -> Result<usize, Error> {
        Ok(data.len())
    }

    fn bulk_in(&mut self, _transfer: &BulkTransfer, length: usize) -> Result<Vec<u8>, Error> {
        Ok(vec![0u8; length])
    }

    fn is_connected(&self) -> bool {
        true
    }

    fn transport_name(&self) -> &'static str {
        "Mock"
    }
}

#[test]
fn init_sends_the_init_packet() {
    let mut engine = Scarlett2Protocol::new(DeviceDouble::new(vec![]));
    engine.init().unwrap();

    assert_eq!(engine.transport.out_log.len(), 1);
    let (transfer, data) = &engine.transport.out_log[0];
    assert_eq!(transfer.request_type, 0x40);
    assert_eq!(data, &vec![SCARLETT2_USB_CMD_INIT, 0x00]);
    assert_eq!(engine.sequence, 0);
}

#[test]
fn send_command_frames_the_request() {
    let mut engine = Scarlett2Protocol::new(DeviceDouble::new(vec![vec![0xAB, 0xCD]]));
    let payload = engine
        .send_command(Scarlett2Command::GetConfig, &vec![0x10, 0x20])
        .unwrap();
    assert_eq!(payload, vec![0xAB, 0xCD]);
    assert_eq!(engine.sequence, 1);

    let (_, request) = &engine.transport.out_log[0];
    // Command byte, sequence, command code (LE), payload length (LE), payload.
    assert_eq!(request[0], SCARLETT2_USB_CMD_REQ);
    assert_eq!(request[1], 1);
    assert_eq!(&request[2..4], &0x1002u16.to_le_bytes());
    assert_eq!(&request[4..6], &2u16.to_le_bytes());
    assert_eq!(&request[6..8], &[0x10, 0x20]);
}

#[test]
fn echoed_sequence_mismatch_is_rejected() {
    // The response is otherwise well formed: RESPONSE command byte and a
    // correct length; only the echoed sequence differs from the one sent.
    let mut transport = DeviceDouble::new(vec![vec![]]);
    transport.echo_offset = 1;
    let mut engine = Scarlett2Protocol::new(transport);

    let err = engine
        .send_command(Scarlett2Command::GetMeterLevels, &vec![])
        .unwrap_err();
    assert_eq!(
        err,
        Error::Protocol(ProtocolError::SequenceMismatch { expected: 1, got: 2 })
    );
}

#[test]
fn mixer_volume_round() {
    let mut engine = Scarlett2Protocol::new(DeviceDouble::new(vec![vec![0x34, 0x12], vec![]]));
    assert_eq!(engine.get_mixer_volume(3).unwrap(), 0x1234);
    engine.set_mixer_volume(3, 0x4321).unwrap();

    let (_, request) = &engine.transport.out_log[1];
    assert_eq!(&request[2..4], &0x3002u16.to_le_bytes());
    assert_eq!(&request[6..8], &3u16.to_le_bytes());
    assert_eq!(&request[8..10], &0x4321u16.to_le_bytes());
}

#[test]
fn meter_levels_decode_as_signed() {
    let mut payload = Vec::new();
    payload.extend_from_slice(&(-5i32).to_le_bytes());
    payload.extend_from_slice(&16777216i32.to_le_bytes());
    let mut engine = Scarlett2Protocol::new(DeviceDouble::new(vec![payload]));
    assert_eq!(engine.get_meter_levels().unwrap(), vec![-5, 16777216]);
}

#[test]
fn response_validation_gates() {
    // Too short.
    assert_eq!(
        parse_scarlett2_response(&vec![3, 1, 0], 1).unwrap_err(),
        Error::Protocol(ProtocolError::ResponseTooShort)
    );

    // Wrong command byte.
    assert_eq!(
        parse_scarlett2_response(&vec![2, 1, 0, 0], 1).unwrap_err(),
        Error::Protocol(ProtocolError::BadResponseCommand { got: 2 })
    );

    // Declared payload longer than carried.
    assert_eq!(
        parse_scarlett2_response(&vec![3, 1, 5, 0, 0xAA], 1).unwrap_err(),
        Error::Protocol(ProtocolError::PayloadTruncated)
    );

    // Well-formed: exactly the declared payload comes back, extra bytes
    // beyond it are dropped.
    assert_eq!(
        parse_scarlett2_response(&vec![3, 1, 2, 0, 0xAA, 0xBB, 0xCC], 1).unwrap(),
        vec![0xAA, 0xBB]
    );
}

#[test]
fn sequence_counter_wraps_at_eight_bits() {
    let mut responses = Vec::new();
    for _ in 0..256 {
        responses.push(Vec::new());
    }
    let mut engine = Scarlett2Protocol::new(DeviceDouble::new(responses));
    for _ in 0..255 {
        engine.send_command(Scarlett2Command::GetConfig, &vec![]).unwrap();
    }
    assert_eq!(engine.sequence, 255);
    engine.send_command(Scarlett2Command::GetConfig, &vec![]).unwrap();
    assert_eq!(engine.sequence, 0);
}

#[test]
fn command_codes() {
    assert_eq!(Scarlett2Command::GetMeterLevels.code(), 0x1001);
    assert_eq!(Scarlett2Command::SetConfig.code(), 0x1003);
    assert_eq!(Scarlett2Command::GetMixer.code(), 0x3001);
    assert_eq!(Scarlett2Command::GetRouting.code(), 0x3101);
    assert_eq!(Scarlett2Command::SetRouting.code(), 0x3102);
    assert_eq!(decode_meter_levels(&vec![1, 0, 0, 0, 0xFF]), vec![1]);
}
