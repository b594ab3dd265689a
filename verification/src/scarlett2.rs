//! Scarlett2 protocol, the framing for Gen 2 and Gen 3 devices.
//!
//! The envelope is simpler than the FCP one: a command byte (INIT, REQUEST
//! or RESPONSE), a one-byte sequence number, a little-endian 16-bit command
//! code (requests only), a little-endian 16-bit payload length, then the
//! payload. A response is valid only if it is at least four bytes long,
//! carries the RESPONSE command byte, and echoes the sequence number of the
//! matching request; any mismatch is a protocol error, never ignored.

use vstd::prelude::*;

use crate::error::{Error, ProtocolError};
use crate::transport::{ControlTransfer, TransferRecord, UsbTransport};
use crate::wire::{i32_from_le, spec_i32_le, spec_le16, spec_u16_le, push_le16, u16_from_le};

verus! {

/// Request type byte of a class-specific host-to-device control transfer.
pub const USB_REQUEST_TYPE_CLASS: u8 = 0x21;

/// Request type byte of a vendor-specific device-to-host control transfer.
pub const USB_REQUEST_TYPE_VENDOR_IN: u8 = 0xC0;

/// Request type byte of a vendor-specific host-to-device control transfer.
pub const USB_REQUEST_TYPE_VENDOR_OUT: u8 = 0x40;

/// USB interface carrying audio control.
pub const USB_AUDIO_CONTROL_INTERFACE: u8 = 0;

/// Command byte of an init packet.
pub const SCARLETT2_USB_CMD_INIT: u8 = 0x00;

/// Command byte of a request packet.
pub const SCARLETT2_USB_CMD_REQ: u8 = 0x02;

/// Command byte of a response packet.
pub const SCARLETT2_USB_CMD_RESP: u8 = 0x03;

/// Length of a device response read, in bytes.
pub const SCARLETT2_RESPONSE_LENGTH: usize = 1024;

/// Logical commands of the Scarlett2 protocol.
#[derive(Debug, Clone, Copy, PartialEq, Eq, Structural)]
pub enum Scarlett2Command {
    /// Get meter levels.
    GetMeterLevels,
    /// Get configuration.
    GetConfig,
    /// Set configuration.
    SetConfig,
    /// Get mixer values.
    GetMixer,
    /// Set mixer values.
    SetMixer,
    /// Get routing.
    GetRouting,
    /// Set routing.
    SetRouting,
}

impl Scarlett2Command {
    /// Numeric command code, as a pure function.
    pub open spec fn spec_code(self) -> u16 {
        match self {
            Scarlett2Command::GetMeterLevels => 0x1001,
            Scarlett2Command::GetConfig => 0x1002,
            Scarlett2Command::SetConfig => 0x1003,
            Scarlett2Command::GetMixer => 0x3001,
            Scarlett2Command::SetMixer => 0x3002,
            Scarlett2Command::GetRouting => 0x3101,
            Scarlett2Command::SetRouting => 0x3102,
        }
    }

    /// Numeric command code.
    pub fn code(&self) -> (r: u16)
        ensures
            r == self.spec_code(),
    {
        match self {
            Scarlett2Command::GetMeterLevels => 0x1001,
            Scarlett2Command::GetConfig => 0x1002,
            Scarlett2Command::SetConfig => 0x1003,
            Scarlett2Command::GetMixer => 0x3001,
            Scarlett2Command::SetMixer => 0x3002,
            Scarlett2Command::GetRouting => 0x3101,
            Scarlett2Command::SetRouting => 0x3102,
        }
    }
}

/// The 8-bit sequence counter after one command: increments and wraps.
pub open spec fn spec_inc8(s: u8) -> u8 {
    if s == 0xFF {
        0
    } else {
        (s + 1) as u8
    }
}

/// Wire bytes of one request packet: REQUEST command byte, sequence
/// number, little-endian command code, little-endian payload length, then
/// the payload.
pub open spec fn spec_scarlett2_request_bytes(cmd: u16, seq: u8, data: Seq<u8>) -> Seq<u8> {
    seq![SCARLETT2_USB_CMD_REQ, seq] + spec_le16(cmd) + spec_le16(data.len() as u16) + data
}

/// The OUT transfer record of one framed request: a vendor-specific OUT
/// transfer carrying the request packet.
pub open spec fn spec_s2_out_record(cmd: u16, seq: u8, payload: Seq<u8>) -> TransferRecord {
    TransferRecord::ControlOut {
        transfer: ControlTransfer::spec_vendor_out(0, 0, 0),
        data: spec_scarlett2_request_bytes(cmd, seq, payload),
    }
}

/// The IN transfer record fetching one response: a vendor-specific IN
/// transfer of the fixed response length.
pub open spec fn spec_s2_in_record() -> TransferRecord {
    TransferRecord::ControlIn {
        transfer: ControlTransfer::spec_vendor_in(0, 0, 0),
        length: SCARLETT2_RESPONSE_LENGTH as int,
    }
}

/// Sequence number echoed in a response packet (byte 1).
pub open spec fn spec_scarlett2_resp_seq(b: Seq<u8>) -> u8 {
    b[1]
}

/// Payload length declared in a response packet (bytes 2..4).
pub open spec fn spec_scarlett2_resp_len(b: Seq<u8>) -> u16 {
    spec_u16_le(b[2], b[3])
}

/// Validate a raw response packet and extract its payload.
///
/// A response is valid only if: it is at least four bytes long, its command
/// byte is RESPONSE, its echoed sequence number equals the sequence sent
/// with the matching request, and it carries at least as many payload bytes
/// as it declares. Each violation is a distinct protocol error; on success
/// exactly the declared payload is returned.
pub fn parse_scarlett2_response(resp: &Vec<u8>, expected_seq: u8) -> (r: Result<Vec<u8>, Error>)
    ensures
        resp@.len() < 4 ==> r == Err::<Vec<u8>, Error>(
            Error::Protocol(ProtocolError::ResponseTooShort),
        ),
        resp@.len() >= 4 && resp@[0] != SCARLETT2_USB_CMD_RESP ==> r == Err::<Vec<u8>, Error>(
            Error::Protocol(ProtocolError::BadResponseCommand { got: resp@[0] }),
        ),
        resp@.len() >= 4 && resp@[0] == SCARLETT2_USB_CMD_RESP && spec_scarlett2_resp_seq(resp@)
            != expected_seq ==> r == Err::<Vec<u8>, Error>(
            Error::Protocol(ProtocolError::SequenceMismatch {
                expected: expected_seq as u16,
                got: spec_scarlett2_resp_seq(resp@) as u16,
            }),
        ),
        resp@.len() >= 4 && resp@[0] == SCARLETT2_USB_CMD_RESP && spec_scarlett2_resp_seq(resp@)
            == expected_seq && resp@.len() < 4 + spec_scarlett2_resp_len(resp@) ==> r == Err::<
            Vec<u8>,
            Error,
        >(Error::Protocol(ProtocolError::PayloadTruncated)),
        resp@.len() >= 4 && resp@[0] == SCARLETT2_USB_CMD_RESP && spec_scarlett2_resp_seq(resp@)
            == expected_seq && resp@.len() >= 4 + spec_scarlett2_resp_len(resp@) ==> {
            &&& r matches Ok(d)
            &&& d@ == resp@.subrange(4, 4 + spec_scarlett2_resp_len(resp@) as int)
        },
{
    if resp.len() < 4 {
        return Err(Error::Protocol(ProtocolError::ResponseTooShort));
    }
    if resp[0] != SCARLETT2_USB_CMD_RESP {
        return Err(Error::Protocol(ProtocolError::BadResponseCommand { got: resp[0] }));
    }
    if resp[1] != expected_seq {
        return Err(
            Error::Protocol(ProtocolError::SequenceMismatch {
                expected: expected_seq as u16,
                got: resp[1] as u16,
            }),
        );
    }

    let payload_len = u16_from_le(resp[2], resp[3]) as usize;
    if resp.len() - 4 < payload_len {
        return Err(Error::Protocol(ProtocolError::PayloadTruncated));
    }

    let mut data: Vec<u8> = Vec::new();
    let mut i: usize = 4;
    while i < 4 + payload_len
        invariant
            4 <= i <= 4 + payload_len,
            payload_len <= 0xFFFF,
            4 + payload_len <= resp@.len(),
            data@ == resp@.subrange(4, i as int),
        decreases 4 + payload_len - i,
    {
        data.push(resp[i]);
        i = i + 1;
        proof {
            assert(data@ =~= resp@.subrange(4, i as int));
        }
    }
    Ok(data)
}

/// Decode a response payload as a sequence of little-endian signed 32-bit
/// meter levels; a trailing fragment shorter than four bytes is dropped.
pub fn decode_meter_levels(payload: &Vec<u8>) -> (r: Vec<i32>)
    ensures
        r@.len() == payload@.len() / 4,
        forall|i: int|
            0 <= i < r@.len() ==> r@[i] == spec_i32_le(
                payload@[4 * i],
                payload@[4 * i + 1],
                payload@[4 * i + 2],
                payload@[4 * i + 3],
            ),
{
    let mut levels: Vec<i32> = Vec::new();
    let count = payload.len() / 4;
    proof {
        assert(4 * (payload@.len() / 4) <= payload@.len()) by (nonlinear_arith);
    }
    let mut i: usize = 0;
    while i < count
        invariant
            0 <= i <= count,
            count == payload@.len() / 4,
            4 * count <= payload@.len(),
            payload@.len() <= usize::MAX,
            levels@.len() == i,
            forall|j: int|
                0 <= j < i ==> levels@[j] == spec_i32_le(
                    payload@[4 * j],
                    payload@[4 * j + 1],
                    payload@[4 * j + 2],
                    payload@[4 * j + 3],
                ),
        decreases count - i,
    {
        let v = i32_from_le(payload[4 * i], payload[4 * i + 1], payload[4 * i + 2], payload[4 * i
            + 3]);
        levels.push(v);
        i = i + 1;
    }
    levels
}

/// Protocol engine for Gen 2 and Gen 3 devices.
///
/// The engine owns its transport exclusively: the framing is strictly
/// request-then-response with a shared sequence counter. A single INIT
/// command must precede use, by convention.
pub struct Scarlett2Protocol<T: UsbTransport> {
    /// Transport the engine issues transfers through.
    pub transport: T,
    /// Sequence number of the last command sent; wraps at 8 bits.
    pub sequence: u8,
}

impl<T: UsbTransport> Scarlett2Protocol<T> {
    /// Create an engine with the sequence counter at zero.
    pub fn new(transport: T) -> (r: Self)
        ensures
            r.transport == transport,
            r.sequence == 0,
    {
        Scarlett2Protocol { transport, sequence: 0 }
    }

    /// Send the INIT packet that must precede any command.
    pub fn init(&mut self) -> (r: Result<(), Error>)
        ensures
            final(self).sequence == old(self).sequence,
            final(self).transport.requests() == old(self).transport.requests().push(
                TransferRecord::ControlOut {
                    transfer: ControlTransfer::spec_vendor_out(0, 0, 0),
                    data: seq![SCARLETT2_USB_CMD_INIT, 0x00u8],
                },
            ),
    {
        let mut data: Vec<u8> = Vec::new();
        data.push(SCARLETT2_USB_CMD_INIT);
        data.push(0x00);
        proof {
            assert(data@ =~= seq![SCARLETT2_USB_CMD_INIT, 0x00u8]);
        }
        self.control_write(0x00, 0x00, &data)
    }

    /// Send one command and read, validate and strip its response.
    pub fn send_command(&mut self, cmd: Scarlett2Command, data: &Vec<u8>) -> (r: Result<
        Vec<u8>,
        Error,
    >)
        requires
            data@.len() <= 0xFFFF,
        ensures
            final(self).sequence == spec_inc8(old(self).sequence),
            ({
                let out_rec = spec_s2_out_record(
                    cmd.spec_code(),
                    spec_inc8(old(self).sequence),
                    data@,
                );
                &&& (final(self).transport.requests() == old(self).transport.requests().push(
                    out_rec,
                ) || final(self).transport.requests() == old(self).transport.requests().push(
                    out_rec,
                ).push(spec_s2_in_record()))
                &&& (r is Ok ==> final(self).transport.requests() == old(
                    self,
                ).transport.requests().push(out_rec).push(spec_s2_in_record()))
            }),
            r matches Ok(d) ==> d@.len() <= SCARLETT2_RESPONSE_LENGTH - 4,
    {
        let seq: u8 = if self.sequence == 0xFF {
            0
        } else {
            self.sequence + 1
        };
        self.sequence = seq;

        let ghost total: Seq<u8> = spec_scarlett2_request_bytes(cmd.spec_code(), seq, data@);
        let mut request: Vec<u8> = Vec::new();
        request.push(SCARLETT2_USB_CMD_REQ);
        request.push(seq);
        push_le16(&mut request, cmd.code());
        push_le16(&mut request, data.len() as u16);
        proof {
            assert(total.len() == 6 + data@.len());
            assert(request@ =~= total.subrange(0, 6));
        }
        let mut i: usize = 0;
        while i < data.len()
            invariant
                0 <= i <= data@.len(),
                total == spec_scarlett2_request_bytes(cmd.spec_code(), seq, data@),
                total.len() == 6 + data@.len(),
                request@ == total.subrange(0, 6 + i as int),
            decreases data@.len() - i,
        {
            proof {
                assert(total[6 + i as int] == data@[i as int]);
            }
            request.push(data[i]);
            i = i + 1;
            proof {
                assert(request@ =~= total.subrange(0, 6 + i as int));
            }
        }
        proof {
            assert(request@ =~= total);
        }

        match self.control_write(0x00, 0x00, &request) {
            Ok(()) => {},
            Err(e) => {
                return Err(e);
            },
        }

        let response = match self.control_read(0x00, 0x00, SCARLETT2_RESPONSE_LENGTH) {
            Ok(v) => v,
            Err(e) => {
                return Err(e);
            },
        };

        parse_scarlett2_response(&response, seq)
    }

    /// Get the meter levels: each is a signed little-endian 32-bit value.
    pub fn get_meter_levels(&mut self) -> (r: Result<Vec<i32>, Error>)
        ensures
            final(self).sequence == spec_inc8(old(self).sequence),
            r matches Ok(v) ==> v@.len() <= (SCARLETT2_RESPONSE_LENGTH - 4) / 4,
            r is Ok ==> final(self).transport.requests() == old(self).transport.requests().push(
                spec_s2_out_record(0x1001, spec_inc8(old(self).sequence), Seq::empty()),
            ).push(spec_s2_in_record()),
    {
        let empty: Vec<u8> = Vec::new();
        let response = match self.send_command(Scarlett2Command::GetMeterLevels, &empty) {
            Ok(v) => v,
            Err(e) => {
                return Err(e);
            },
        };

        Ok(decode_meter_levels(&response))
    }

    /// Get the mixer volume of one input, in 16-bit volume units.
    pub fn get_mixer_volume(&mut self, input_index: u16) -> (r: Result<u16, Error>)
        ensures
            final(self).sequence == spec_inc8(old(self).sequence),
            r is Ok ==> final(self).transport.requests() == old(self).transport.requests().push(
                spec_s2_out_record(0x3001, spec_inc8(old(self).sequence), spec_le16(input_index)),
            ).push(spec_s2_in_record()),
    {
        let mut data: Vec<u8> = Vec::new();
        push_le16(&mut data, input_index);
        proof {
            assert(data@ =~= spec_le16(input_index));
        }

        let response = match self.send_command(Scarlett2Command::GetMixer, &data) {
            Ok(v) => v,
            Err(e) => {
                return Err(e);
            },
        };

        if response.len() < 2 {
            return Err(Error::Protocol(ProtocolError::ResponseTooShort));
        }

        Ok(u16_from_le(response[0], response[1]))
    }

    /// Set the mixer volume of one input, in 16-bit volume units.
    pub fn set_mixer_volume(&mut self, input_index: u16, volume: u16) -> (r: Result<(), Error>)
        ensures
            final(self).sequence == spec_inc8(old(self).sequence),
            r is Ok ==> final(self).transport.requests() == old(self).transport.requests().push(
                spec_s2_out_record(
                    0x3002,
                    spec_inc8(old(self).sequence),
                    spec_le16(input_index) + spec_le16(volume),
                ),
            ).push(spec_s2_in_record()),
    {
        let mut data: Vec<u8> = Vec::new();
        push_le16(&mut data, input_index);
        push_le16(&mut data, volume);
        proof {
            assert(data@ =~= spec_le16(input_index) + spec_le16(volume));
        }

        match self.send_command(Scarlett2Command::SetMixer, &data) {
            Ok(_) => Ok(()),
            Err(e) => Err(e),
        }
    }

    /// Low-level write: a vendor-specific OUT control transfer.
    fn control_write(&mut self, value: u16, index: u16, data: &Vec<u8>) -> (r: Result<(), Error>)
        ensures
            final(self).sequence == old(self).sequence,
            final(self).transport.requests() == old(self).transport.requests().push(
                TransferRecord::ControlOut {
                    transfer: ControlTransfer::spec_vendor_out(0, value, index),
                    data: data@,
                },
            ),
    {
        let transfer = ControlTransfer::vendor_out(0x00, value, index);
        match self.transport.control_out(&transfer, data) {
            Ok(_) => Ok(()),
            Err(e) => Err(e),
        }
    }

    /// Low-level read: a vendor-specific IN control transfer.
    fn control_read(&mut self, value: u16, index: u16, length: usize) -> (r: Result<
        Vec<u8>,
        Error,
    >)
        ensures
            final(self).sequence == old(self).sequence,
            final(self).transport.requests() == old(self).transport.requests().push(
                TransferRecord::ControlIn {
                    transfer: ControlTransfer::spec_vendor_in(0, value, index),
                    length: length as int,
                },
            ),
            r matches Ok(buf) ==> buf@.len() <= length,
    {
        let transfer = ControlTransfer::vendor_in(0x00, value, index);
        self.transport.control_in(&transfer, length)
    }
}

} // verus!
