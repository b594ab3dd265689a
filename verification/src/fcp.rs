//! Focusrite Control Protocol (FCP), the opcode-based framing for Gen 4
//! devices.
//!
//! Every request and response shares a 16-byte little-endian envelope:
//! 4-byte opcode, 2-byte payload length, 2-byte sequence number, 4-byte
//! error code (zero on requests) and 4-byte padding, followed by the
//! payload. Requests go out via a class-specific OUT control transfer
//! (request code 2) addressed to the claimed interface; responses come back
//! via a class-specific IN control transfer (request code 3). The engine
//! validates the echoed sequence number and the embedded error code of
//! every response and treats a mismatch as a protocol error.
//!
//! A second, 6-byte message framing (magic byte, message type, 32-bit
//! payload length) carries firmware-update traffic: version, success,
//! error and progress messages.

use vstd::prelude::*;

use crate::error::{Error, ProtocolError};
use crate::transport::{ControlTransfer, TransferRecord, UsbTransport};
use crate::wire::{
    i16_exact_from_le, i16_from_le, i32_from_le, i8_ext_from, push_le16, push_le32, spec_i16_of,
    spec_le16, spec_le32, spec_u16_le, spec_u32_le, spec_u32_of_i32, u16_from_le, u32_from_le,
    u32_of_i32,
};

verus! {

/// FCP protocol version carried in version messages.
pub const FCP_PROTOCOL_VERSION: u8 = 1;

/// Magic byte opening every firmware-update request message.
pub const FCP_MAGIC_REQUEST: u8 = 0x53;

/// Magic byte opening every firmware-update response message.
pub const FCP_MAGIC_RESPONSE: u8 = 0x73;

/// Maximum payload length of a firmware-update message (2 MiB).
pub const MAX_PAYLOAD_LENGTH: usize = 2 * 1024 * 1024;

/// FCP error codes a device can report in an error message.
#[derive(Debug, Clone, Copy, PartialEq, Eq, Structural)]
pub enum FcpErrorCode {
    InvalidMagic,
    InvalidCommand,
    InvalidLength,
    InvalidHash,
    InvalidUsbId,
    Config,
    Fcp,
    Timeout,
    Read,
    Write,
    NotLeapfrog,
    InvalidState,
}

impl FcpErrorCode {
    /// Numeric code of the error, as a pure function.
    pub open spec fn spec_code(self) -> i16 {
        match self {
            FcpErrorCode::InvalidMagic => 1,
            FcpErrorCode::InvalidCommand => 2,
            FcpErrorCode::InvalidLength => 3,
            FcpErrorCode::InvalidHash => 4,
            FcpErrorCode::InvalidUsbId => 5,
            FcpErrorCode::Config => 6,
            FcpErrorCode::Fcp => 7,
            FcpErrorCode::Timeout => 8,
            FcpErrorCode::Read => 9,
            FcpErrorCode::Write => 10,
            FcpErrorCode::NotLeapfrog => 11,
            FcpErrorCode::InvalidState => 12,
        }
    }

    /// Numeric code of the error.
    pub fn code(&self) -> (r: i16)
        ensures
            r == self.spec_code(),
    {
        match self {
            FcpErrorCode::InvalidMagic => 1,
            FcpErrorCode::InvalidCommand => 2,
            FcpErrorCode::InvalidLength => 3,
            FcpErrorCode::InvalidHash => 4,
            FcpErrorCode::InvalidUsbId => 5,
            FcpErrorCode::Config => 6,
            FcpErrorCode::Fcp => 7,
            FcpErrorCode::Timeout => 8,
            FcpErrorCode::Read => 9,
            FcpErrorCode::Write => 10,
            FcpErrorCode::NotLeapfrog => 11,
            FcpErrorCode::InvalidState => 12,
        }
    }

    /// Reverse lookup from the numeric code, as a pure function.
    pub open spec fn spec_from_i16(val: i16) -> Option<FcpErrorCode> {
        if val == 1 {
            Some(FcpErrorCode::InvalidMagic)
        } else if val == 2 {
            Some(FcpErrorCode::InvalidCommand)
        } else if val == 3 {
            Some(FcpErrorCode::InvalidLength)
        } else if val == 4 {
            Some(FcpErrorCode::InvalidHash)
        } else if val == 5 {
            Some(FcpErrorCode::InvalidUsbId)
        } else if val == 6 {
            Some(FcpErrorCode::Config)
        } else if val == 7 {
            Some(FcpErrorCode::Fcp)
        } else if val == 8 {
            Some(FcpErrorCode::Timeout)
        } else if val == 9 {
            Some(FcpErrorCode::Read)
        } else if val == 10 {
            Some(FcpErrorCode::Write)
        } else if val == 11 {
            Some(FcpErrorCode::NotLeapfrog)
        } else if val == 12 {
            Some(FcpErrorCode::InvalidState)
        } else {
            None
        }
    }

    /// Try to decode a numeric error code.
    pub fn from_i16(val: i16) -> (r: Option<FcpErrorCode>)
        ensures
            r == Self::spec_from_i16(val),
    {
        match val {
            1 => Some(FcpErrorCode::InvalidMagic),
            2 => Some(FcpErrorCode::InvalidCommand),
            3 => Some(FcpErrorCode::InvalidLength),
            4 => Some(FcpErrorCode::InvalidHash),
            5 => Some(FcpErrorCode::InvalidUsbId),
            6 => Some(FcpErrorCode::Config),
            7 => Some(FcpErrorCode::Fcp),
            8 => Some(FcpErrorCode::Timeout),
            9 => Some(FcpErrorCode::Read),
            10 => Some(FcpErrorCode::Write),
            11 => Some(FcpErrorCode::NotLeapfrog),
            12 => Some(FcpErrorCode::InvalidState),
            _ => None,
        }
    }

    /// Human-readable description of the error, as a pure function.
    pub open spec fn spec_message(self) -> Seq<char> {
        match self {
            FcpErrorCode::InvalidMagic => "Invalid magic byte"@,
            FcpErrorCode::InvalidCommand => "Invalid command"@,
            FcpErrorCode::InvalidLength => "Invalid length"@,
            FcpErrorCode::InvalidHash => "Invalid hash"@,
            FcpErrorCode::InvalidUsbId => "Invalid USB ID"@,
            FcpErrorCode::Config => "Configuration error"@,
            FcpErrorCode::Fcp => "FCP error"@,
            FcpErrorCode::Timeout => "Timeout"@,
            FcpErrorCode::Read => "Read error"@,
            FcpErrorCode::Write => "Write error"@,
            FcpErrorCode::NotLeapfrog => "Not leapfrog"@,
            FcpErrorCode::InvalidState => "Invalid state"@,
        }
    }

    /// Human-readable description of the error.
    pub fn message(&self) -> (r: &'static str)
        ensures
            r@ == self.spec_message(),
    {
        match self {
            FcpErrorCode::InvalidMagic => "Invalid magic byte",
            FcpErrorCode::InvalidCommand => "Invalid command",
            FcpErrorCode::InvalidLength => "Invalid length",
            FcpErrorCode::InvalidHash => "Invalid hash",
            FcpErrorCode::InvalidUsbId => "Invalid USB ID",
            FcpErrorCode::Config => "Configuration error",
            FcpErrorCode::Fcp => "FCP error",
            FcpErrorCode::Timeout => "Timeout",
            FcpErrorCode::Read => "Read error",
            FcpErrorCode::Write => "Write error",
            FcpErrorCode::NotLeapfrog => "Not leapfrog",
            FcpErrorCode::InvalidState => "Invalid state",
        }
    }
}

/// Firmware-update request types.
#[derive(Debug, Clone, Copy, PartialEq, Eq, Structural)]
pub enum FcpRequestType {
    Reboot,
    ConfigErase,
    AppFirmwareErase,
    AppFirmwareUpdate,
    EspFirmwareUpdate,
}

impl FcpRequestType {
    /// Numeric code of the request type, as a pure function.
    pub open spec fn spec_code(self) -> u16 {
        match self {
            FcpRequestType::Reboot => 0x0001,
            FcpRequestType::ConfigErase => 0x0002,
            FcpRequestType::AppFirmwareErase => 0x0003,
            FcpRequestType::AppFirmwareUpdate => 0x0004,
            FcpRequestType::EspFirmwareUpdate => 0x0005,
        }
    }

    /// Numeric code of the request type.
    pub fn code(&self) -> (r: u16)
        ensures
            r == self.spec_code(),
    {
        match self {
            FcpRequestType::Reboot => 0x0001,
            FcpRequestType::ConfigErase => 0x0002,
            FcpRequestType::AppFirmwareErase => 0x0003,
            FcpRequestType::AppFirmwareUpdate => 0x0004,
            FcpRequestType::EspFirmwareUpdate => 0x0005,
        }
    }
}

/// Firmware-update response types.
#[derive(Debug, Clone, Copy, PartialEq, Eq, Structural)]
pub enum FcpResponseType {
    Version,
    Success,
    Error,
    Progress,
}

impl FcpResponseType {
    /// Numeric code of the response type, as a pure function.
    pub open spec fn spec_code(self) -> u8 {
        match self {
            FcpResponseType::Version => 0x00,
            FcpResponseType::Success => 0x01,
            FcpResponseType::Error => 0x02,
            FcpResponseType::Progress => 0x03,
        }
    }

    /// Numeric code of the response type.
    pub fn code(&self) -> (r: u8)
        ensures
            r == self.spec_code(),
    {
        match self {
            FcpResponseType::Version => 0x00,
            FcpResponseType::Success => 0x01,
            FcpResponseType::Error => 0x02,
            FcpResponseType::Progress => 0x03,
        }
    }

    /// Reverse lookup from the numeric code, as a pure function.
    pub open spec fn spec_from_u8(val: u8) -> Option<FcpResponseType> {
        if val == 0x00 {
            Some(FcpResponseType::Version)
        } else if val == 0x01 {
            Some(FcpResponseType::Success)
        } else if val == 0x02 {
            Some(FcpResponseType::Error)
        } else if val == 0x03 {
            Some(FcpResponseType::Progress)
        } else {
            None
        }
    }

    /// Try to decode a numeric response type.
    pub fn from_u8(val: u8) -> (r: Option<FcpResponseType>)
        ensures
            r == Self::spec_from_u8(val),
    {
        match val {
            0x00 => Some(FcpResponseType::Version),
            0x01 => Some(FcpResponseType::Success),
            0x02 => Some(FcpResponseType::Error),
            0x03 => Some(FcpResponseType::Progress),
            _ => None,
        }
    }
}

/// Header of a firmware-update message: magic byte, message type, and a
/// little-endian 32-bit payload length; 6 bytes on the wire.
#[derive(Debug, Clone, Copy, PartialEq, Eq, Structural)]
pub struct FcpMessageHeader {
    pub magic: u8,
    pub msg_type: u8,
    pub payload_length: u32,
}

/// Wire bytes of a firmware-update message header.
pub open spec fn spec_fcp_header_bytes(h: FcpMessageHeader) -> Seq<u8> {
    seq![h.magic, h.msg_type] + spec_le32(h.payload_length)
}

/// Header decoded from the first six bytes of a message.
pub open spec fn spec_fcp_header_of(b: Seq<u8>) -> FcpMessageHeader {
    FcpMessageHeader {
        magic: b[0],
        msg_type: b[1],
        payload_length: spec_u32_le(b[2], b[3], b[4], b[5]),
    }
}

/// Whether a message header passes validation: a known magic byte and a
/// payload length within the protocol maximum.
pub open spec fn spec_fcp_header_valid(h: FcpMessageHeader) -> bool {
    (h.magic == FCP_MAGIC_REQUEST || h.magic == FCP_MAGIC_RESPONSE) && h.payload_length
        <= MAX_PAYLOAD_LENGTH
}

impl FcpMessageHeader {
    /// Build a request header.
    pub fn new_request(msg_type: u8, payload_length: u32) -> (r: Self)
        ensures
            r == (FcpMessageHeader { magic: FCP_MAGIC_REQUEST, msg_type, payload_length }),
    {
        FcpMessageHeader { magic: FCP_MAGIC_REQUEST, msg_type, payload_length }
    }

    /// Build a response header.
    pub fn new_response(msg_type: u8, payload_length: u32) -> (r: Self)
        ensures
            r == (FcpMessageHeader { magic: FCP_MAGIC_RESPONSE, msg_type, payload_length }),
    {
        FcpMessageHeader { magic: FCP_MAGIC_RESPONSE, msg_type, payload_length }
    }

    /// Serialize the header to its six wire bytes.
    pub fn to_bytes(&self) -> (r: Vec<u8>)
        ensures
            r@ == spec_fcp_header_bytes(*self),
    {
        let mut bytes: Vec<u8> = Vec::new();
        bytes.push(self.magic);
        bytes.push(self.msg_type);
        push_le32(&mut bytes, self.payload_length);
        proof {
            assert(bytes@ =~= spec_fcp_header_bytes(*self));
        }
        bytes
    }

    /// Parse a header from raw bytes.
    pub fn from_bytes(bytes: &Vec<u8>) -> (r: Result<FcpMessageHeader, Error>)
        ensures
            bytes@.len() < 6 ==> r == Err::<FcpMessageHeader, Error>(
                Error::Protocol(ProtocolError::ResponseTooShort),
            ),
            bytes@.len() >= 6 ==> r == Ok::<FcpMessageHeader, Error>(spec_fcp_header_of(bytes@)),
    {
        if bytes.len() < 6 {
            return Err(Error::Protocol(ProtocolError::ResponseTooShort));
        }
        let magic = bytes[0];
        let msg_type = bytes[1];
        let payload_length = u32_from_le(bytes[2], bytes[3], bytes[4], bytes[5]);
        Ok(FcpMessageHeader { magic, msg_type, payload_length })
    }

    /// Validate the magic byte and the payload length.
    pub fn validate(&self) -> (r: Result<(), Error>)
        ensures
            self.magic != FCP_MAGIC_REQUEST && self.magic != FCP_MAGIC_RESPONSE ==> r == Err::<
                (),
                Error,
            >(Error::Protocol(ProtocolError::InvalidMagic { got: self.magic })),
            (self.magic == FCP_MAGIC_REQUEST || self.magic == FCP_MAGIC_RESPONSE)
                && self.payload_length > MAX_PAYLOAD_LENGTH ==> r == Err::<(), Error>(
                Error::Protocol(ProtocolError::PayloadTooLarge),
            ),
            spec_fcp_header_valid(*self) ==> r == Ok::<(), Error>(()),
    {
        if self.magic != FCP_MAGIC_REQUEST && self.magic != FCP_MAGIC_RESPONSE {
            return Err(Error::Protocol(ProtocolError::InvalidMagic { got: self.magic }));
        }
        if self.payload_length as usize > MAX_PAYLOAD_LENGTH {
            return Err(Error::Protocol(ProtocolError::PayloadTooLarge));
        }
        Ok(())
    }
}

/// Version message: header plus a protocol version byte.
#[derive(Debug, Clone, Copy, PartialEq, Eq, Structural)]
pub struct FcpVersionMessage {
    pub header: FcpMessageHeader,
    pub version: u8,
}

impl FcpVersionMessage {
    /// Build a version response carrying the given protocol version.
    pub fn new(version: u8) -> (r: Self)
        ensures
            r.header == (FcpMessageHeader {
                magic: FCP_MAGIC_RESPONSE,
                msg_type: 0x00,
                payload_length: 1,
            }),
            r.version == version,
    {
        FcpVersionMessage { header: FcpMessageHeader::new_response(0x00, 1), version }
    }

    /// Serialize the message: header bytes then the version byte.
    pub fn to_bytes(&self) -> (r: Vec<u8>)
        ensures
            r@ == spec_fcp_header_bytes(self.header).push(self.version),
    {
        let mut bytes = self.header.to_bytes();
        bytes.push(self.version);
        bytes
    }

    /// Parse a version message: 6-byte header, validated, then one byte.
    pub fn from_bytes(bytes: &Vec<u8>) -> (r: Result<FcpVersionMessage, Error>)
        ensures
            bytes@.len() < 7 ==> r == Err::<FcpVersionMessage, Error>(
                Error::Protocol(ProtocolError::ResponseTooShort),
            ),
            bytes@.len() >= 7 && !spec_fcp_header_valid(spec_fcp_header_of(bytes@)) ==> r is Err,
            bytes@.len() >= 7 && spec_fcp_header_valid(spec_fcp_header_of(bytes@)) ==> r == Ok::<
                FcpVersionMessage,
                Error,
            >(FcpVersionMessage { header: spec_fcp_header_of(bytes@), version: bytes@[6] }),
    {
        if bytes.len() < 7 {
            return Err(Error::Protocol(ProtocolError::ResponseTooShort));
        }
        let header = match FcpMessageHeader::from_bytes(bytes) {
            Ok(h) => h,
            Err(e) => {
                return Err(e);
            },
        };
        match header.validate() {
            Ok(()) => {},
            Err(e) => {
                return Err(e);
            },
        }
        Ok(FcpVersionMessage { header, version: bytes[6] })
    }
}

/// Progress message: header plus a percentage byte.
#[derive(Debug, Clone, Copy, PartialEq, Eq, Structural)]
pub struct FcpProgressMessage {
    pub header: FcpMessageHeader,
    pub percent: u8,
}

impl FcpProgressMessage {
    /// Parse a progress message: 6-byte header, validated, then one byte.
    pub fn from_bytes(bytes: &Vec<u8>) -> (r: Result<FcpProgressMessage, Error>)
        ensures
            bytes@.len() < 7 ==> r == Err::<FcpProgressMessage, Error>(
                Error::Protocol(ProtocolError::ResponseTooShort),
            ),
            bytes@.len() >= 7 && !spec_fcp_header_valid(spec_fcp_header_of(bytes@)) ==> r is Err,
            bytes@.len() >= 7 && spec_fcp_header_valid(spec_fcp_header_of(bytes@)) ==> r == Ok::<
                FcpProgressMessage,
                Error,
            >(FcpProgressMessage { header: spec_fcp_header_of(bytes@), percent: bytes@[6] }),
    {
        if bytes.len() < 7 {
            return Err(Error::Protocol(ProtocolError::ResponseTooShort));
        }
        let header = match FcpMessageHeader::from_bytes(bytes) {
            Ok(h) => h,
            Err(e) => {
                return Err(e);
            },
        };
        match header.validate() {
            Ok(()) => {},
            Err(e) => {
                return Err(e);
            },
        }
        Ok(FcpProgressMessage { header, percent: bytes[6] })
    }
}

/// Error message: header plus a signed 16-bit error code.
#[derive(Debug, Clone, Copy, PartialEq, Eq, Structural)]
pub struct FcpErrorMessage {
    pub header: FcpMessageHeader,
    pub error_code: i16,
}

impl FcpErrorMessage {
    /// Parse an error message: 6-byte header, validated, then a
    /// little-endian signed 16-bit error code.
    pub fn from_bytes(bytes: &Vec<u8>) -> (r: Result<FcpErrorMessage, Error>)
        ensures
            bytes@.len() < 8 ==> r == Err::<FcpErrorMessage, Error>(
                Error::Protocol(ProtocolError::ResponseTooShort),
            ),
            bytes@.len() >= 8 && !spec_fcp_header_valid(spec_fcp_header_of(bytes@)) ==> r is Err,
            bytes@.len() >= 8 && spec_fcp_header_valid(spec_fcp_header_of(bytes@)) ==> r == Ok::<
                FcpErrorMessage,
                Error,
            >(FcpErrorMessage {
                header: spec_fcp_header_of(bytes@),
                error_code: spec_i16_of(bytes@[6], bytes@[7]),
            }),
    {
        if bytes.len() < 8 {
            return Err(Error::Protocol(ProtocolError::ResponseTooShort));
        }
        let header = match FcpMessageHeader::from_bytes(bytes) {
            Ok(h) => h,
            Err(e) => {
                return Err(e);
            },
        };
        match header.validate() {
            Ok(()) => {},
            Err(e) => {
                return Err(e);
            },
        }
        let error_code = i16_exact_from_le(bytes[6], bytes[7]);
        Ok(FcpErrorMessage { header, error_code })
    }

    /// Decode the numeric error code, if it is a known one.
    pub fn error_code_enum(&self) -> (r: Option<FcpErrorCode>)
        ensures
            r == FcpErrorCode::spec_from_i16(self.error_code),
    {
        FcpErrorCode::from_i16(self.error_code)
    }
}

/// Success message: just a validated header.
#[derive(Debug, Clone, Copy, PartialEq, Eq, Structural)]
pub struct FcpSuccessMessage {
    pub header: FcpMessageHeader,
}

impl FcpSuccessMessage {
    /// Parse a success message: a 6-byte header, validated.
    pub fn from_bytes(bytes: &Vec<u8>) -> (r: Result<FcpSuccessMessage, Error>)
        ensures
            bytes@.len() < 6 ==> r == Err::<FcpSuccessMessage, Error>(
                Error::Protocol(ProtocolError::ResponseTooShort),
            ),
            bytes@.len() >= 6 && !spec_fcp_header_valid(spec_fcp_header_of(bytes@)) ==> r is Err,
            bytes@.len() >= 6 && spec_fcp_header_valid(spec_fcp_header_of(bytes@)) ==> r == Ok::<
                FcpSuccessMessage,
                Error,
            >(FcpSuccessMessage { header: spec_fcp_header_of(bytes@) }),
    {
        let header = match FcpMessageHeader::from_bytes(bytes) {
            Ok(h) => h,
            Err(e) => {
                return Err(e);
            },
        };
        match header.validate() {
            Ok(()) => {},
            Err(e) => {
                return Err(e);
            },
        }
        Ok(FcpSuccessMessage { header })
    }
}

/// Any firmware-update response message.
#[derive(Debug, Clone, Copy, PartialEq, Eq, Structural)]
pub enum FcpResponse {
    Version(FcpVersionMessage),
    Success(FcpSuccessMessage),
    Error(FcpErrorMessage),
    Progress(FcpProgressMessage),
}

impl FcpResponse {
    /// Parse any response message, dispatching on the message type byte.
    pub fn from_bytes(bytes: &Vec<u8>) -> (r: Result<FcpResponse, Error>)
        ensures
            bytes@.len() < 6 ==> r == Err::<FcpResponse, Error>(
                Error::Protocol(ProtocolError::ResponseTooShort),
            ),
            bytes@.len() >= 6 && !spec_fcp_header_valid(spec_fcp_header_of(bytes@)) ==> r is Err,
            bytes@.len() >= 6 && spec_fcp_header_valid(spec_fcp_header_of(bytes@)) ==> {
                let h = spec_fcp_header_of(bytes@);
                &&& (FcpResponseType::spec_from_u8(h.msg_type) is None ==> r == Err::<
                    FcpResponse,
                    Error,
                >(Error::Protocol(ProtocolError::UnknownResponseType { got: h.msg_type })))
                &&& (h.msg_type == 0x00 && bytes@.len() >= 7 ==> r == Ok::<FcpResponse, Error>(
                    FcpResponse::Version(FcpVersionMessage { header: h, version: bytes@[6] }),
                ))
                &&& (h.msg_type == 0x00 && bytes@.len() < 7 ==> r == Err::<FcpResponse, Error>(
                    Error::Protocol(ProtocolError::ResponseTooShort),
                ))
                &&& (h.msg_type == 0x01 ==> r == Ok::<FcpResponse, Error>(
                    FcpResponse::Success(FcpSuccessMessage { header: h }),
                ))
                &&& (h.msg_type == 0x02 && bytes@.len() >= 8 ==> r == Ok::<FcpResponse, Error>(
                    FcpResponse::Error(FcpErrorMessage {
                        header: h,
                        error_code: spec_i16_of(bytes@[6], bytes@[7]),
                    }),
                ))
                &&& (h.msg_type == 0x02 && bytes@.len() < 8 ==> r == Err::<FcpResponse, Error>(
                    Error::Protocol(ProtocolError::ResponseTooShort),
                ))
                &&& (h.msg_type == 0x03 && bytes@.len() >= 7 ==> r == Ok::<FcpResponse, Error>(
                    FcpResponse::Progress(FcpProgressMessage { header: h, percent: bytes@[6] }),
                ))
                &&& (h.msg_type == 0x03 && bytes@.len() < 7 ==> r == Err::<FcpResponse, Error>(
                    Error::Protocol(ProtocolError::ResponseTooShort),
                ))
            },
    {
        let header = match FcpMessageHeader::from_bytes(bytes) {
            Ok(h) => h,
            Err(e) => {
                return Err(e);
            },
        };
        match header.validate() {
            Ok(()) => {},
            Err(e) => {
                return Err(e);
            },
        }
        let response_type = match FcpResponseType::from_u8(header.msg_type) {
            Some(t) => t,
            None => {
                return Err(
                    Error::Protocol(ProtocolError::UnknownResponseType { got: header.msg_type }),
                );
            },
        };
        match response_type {
            FcpResponseType::Version => match FcpVersionMessage::from_bytes(bytes) {
                Ok(m) => Ok(FcpResponse::Version(m)),
                Err(e) => Err(e),
            },
            FcpResponseType::Success => match FcpSuccessMessage::from_bytes(bytes) {
                Ok(m) => Ok(FcpResponse::Success(m)),
                Err(e) => Err(e),
            },
            FcpResponseType::Error => match FcpErrorMessage::from_bytes(bytes) {
                Ok(m) => Ok(FcpResponse::Error(m)),
                Err(e) => Err(e),
            },
            FcpResponseType::Progress => match FcpProgressMessage::from_bytes(bytes) {
                Ok(m) => Ok(FcpResponse::Progress(m)),
                Err(e) => Err(e),
            },
        }
    }
}

/// Opcodes of the command envelope, organized as category and command.
#[derive(Debug, Clone, Copy, PartialEq, Eq, Structural)]
pub enum FcpOpcode {
    // Init category (0x0)
    Init1,
    CapRead,
    Init2,
    Reboot,
    // Meter category (0x1)
    MeterInfo,
    MeterRead,
    // Mix category (0x2)
    MixInfo,
    MixRead,
    MixWrite,
    // Mux (routing) category (0x3)
    MuxInfo,
    MuxRead,
    MuxWrite,
    // Flash category (0x4)
    FlashInfo,
    FlashSegmentInfo,
    FlashErase,
    FlashEraseProgress,
    FlashWrite,
    FlashRead,
    // Sync category (0x5)
    SyncRead,
    // ESP DFU category (0x6)
    EspDfuStart,
    EspDfuWrite,
    // Data category (0x7)
    DataRead,
    DataWrite,
    DataNotify,
    DevmapInfo,
    DevmapRead,
}

impl FcpOpcode {
    /// Numeric opcode: category in the top four bits, command below.
    pub open spec fn spec_code(self) -> u16 {
        match self {
            FcpOpcode::Init1 => 0x0000,
            FcpOpcode::CapRead => 0x0001,
            FcpOpcode::Init2 => 0x0002,
            FcpOpcode::Reboot => 0x0003,
            FcpOpcode::MeterInfo => 0x1000,
            FcpOpcode::MeterRead => 0x1001,
            FcpOpcode::MixInfo => 0x2000,
            FcpOpcode::MixRead => 0x2001,
            FcpOpcode::MixWrite => 0x2002,
            FcpOpcode::MuxInfo => 0x3000,
            FcpOpcode::MuxRead => 0x3001,
            FcpOpcode::MuxWrite => 0x3002,
            FcpOpcode::FlashInfo => 0x4000,
            FcpOpcode::FlashSegmentInfo => 0x4001,
            FcpOpcode::FlashErase => 0x4002,
            FcpOpcode::FlashEraseProgress => 0x4003,
            FcpOpcode::FlashWrite => 0x4004,
            FcpOpcode::FlashRead => 0x4005,
            FcpOpcode::SyncRead => 0x5004,
            FcpOpcode::EspDfuStart => 0x6000,
            FcpOpcode::EspDfuWrite => 0x6001,
            FcpOpcode::DataRead => 0x7000,
            FcpOpcode::DataWrite => 0x7001,
            FcpOpcode::DataNotify => 0x7002,
            FcpOpcode::DevmapInfo => 0x700c,
            FcpOpcode::DevmapRead => 0x700d,
        }
    }

    /// Numeric opcode.
    pub fn code(&self) -> (r: u16)
        ensures
            r == self.spec_code(),
    {
        match self {
            FcpOpcode::Init1 => 0x0000,
            FcpOpcode::CapRead => 0x0001,
            FcpOpcode::Init2 => 0x0002,
            FcpOpcode::Reboot => 0x0003,
            FcpOpcode::MeterInfo => 0x1000,
            FcpOpcode::MeterRead => 0x1001,
            FcpOpcode::MixInfo => 0x2000,
            FcpOpcode::MixRead => 0x2001,
            FcpOpcode::MixWrite => 0x2002,
            FcpOpcode::MuxInfo => 0x3000,
            FcpOpcode::MuxRead => 0x3001,
            FcpOpcode::MuxWrite => 0x3002,
            FcpOpcode::FlashInfo => 0x4000,
            FcpOpcode::FlashSegmentInfo => 0x4001,
            FcpOpcode::FlashErase => 0x4002,
            FcpOpcode::FlashEraseProgress => 0x4003,
            FcpOpcode::FlashWrite => 0x4004,
            FcpOpcode::FlashRead => 0x4005,
            FcpOpcode::SyncRead => 0x5004,
            FcpOpcode::EspDfuStart => 0x6000,
            FcpOpcode::EspDfuWrite => 0x6001,
            FcpOpcode::DataRead => 0x7000,
            FcpOpcode::DataWrite => 0x7001,
            FcpOpcode::DataNotify => 0x7002,
            FcpOpcode::DevmapInfo => 0x700c,
            FcpOpcode::DevmapRead => 0x700d,
        }
    }

    /// Reverse lookup from the numeric opcode, as a pure function.
    pub open spec fn spec_from_u16(val: u16) -> Option<FcpOpcode> {
        if val == 0x0000 {
            Some(FcpOpcode::Init1)
        } else if val == 0x0001 {
            Some(FcpOpcode::CapRead)
        } else if val == 0x0002 {
            Some(FcpOpcode::Init2)
        } else if val == 0x0003 {
            Some(FcpOpcode::Reboot)
        } else if val == 0x1000 {
            Some(FcpOpcode::MeterInfo)
        } else if val == 0x1001 {
            Some(FcpOpcode::MeterRead)
        } else if val == 0x2000 {
            Some(FcpOpcode::MixInfo)
        } else if val == 0x2001 {
            Some(FcpOpcode::MixRead)
        } else if val == 0x2002 {
            Some(FcpOpcode::MixWrite)
        } else if val == 0x3000 {
            Some(FcpOpcode::MuxInfo)
        } else if val == 0x3001 {
            Some(FcpOpcode::MuxRead)
        } else if val == 0x3002 {
            Some(FcpOpcode::MuxWrite)
        } else if val == 0x4000 {
            Some(FcpOpcode::FlashInfo)
        } else if val == 0x4001 {
            Some(FcpOpcode::FlashSegmentInfo)
        } else if val == 0x4002 {
            Some(FcpOpcode::FlashErase)
        } else if val == 0x4003 {
            Some(FcpOpcode::FlashEraseProgress)
        } else if val == 0x4004 {
            Some(FcpOpcode::FlashWrite)
        } else if val == 0x4005 {
            Some(FcpOpcode::FlashRead)
        } else if val == 0x5004 {
            Some(FcpOpcode::SyncRead)
        } else if val == 0x6000 {
            Some(FcpOpcode::EspDfuStart)
        } else if val == 0x6001 {
            Some(FcpOpcode::EspDfuWrite)
        } else if val == 0x7000 {
            Some(FcpOpcode::DataRead)
        } else if val == 0x7001 {
            Some(FcpOpcode::DataWrite)
        } else if val == 0x7002 {
            Some(FcpOpcode::DataNotify)
        } else if val == 0x700c {
            Some(FcpOpcode::DevmapInfo)
        } else if val == 0x700d {
            Some(FcpOpcode::DevmapRead)
        } else {
            None
        }
    }

    /// Try to decode a numeric opcode.
    #[verifier::rlimit(20)]
    pub fn from_u16(val: u16) -> (r: Option<FcpOpcode>)
        ensures
            r == Self::spec_from_u16(val),
    {
        match val {
            0x0000 => Some(FcpOpcode::Init1),
            0x0001 => Some(FcpOpcode::CapRead),
            0x0002 => Some(FcpOpcode::Init2),
            0x0003 => Some(FcpOpcode::Reboot),
            0x1000 => Some(FcpOpcode::MeterInfo),
            0x1001 => Some(FcpOpcode::MeterRead),
            0x2000 => Some(FcpOpcode::MixInfo),
            0x2001 => Some(FcpOpcode::MixRead),
            0x2002 => Some(FcpOpcode::MixWrite),
            0x3000 => Some(FcpOpcode::MuxInfo),
            0x3001 => Some(FcpOpcode::MuxRead),
            0x3002 => Some(FcpOpcode::MuxWrite),
            0x4000 => Some(FcpOpcode::FlashInfo),
            0x4001 => Some(FcpOpcode::FlashSegmentInfo),
            0x4002 => Some(FcpOpcode::FlashErase),
            0x4003 => Some(FcpOpcode::FlashEraseProgress),
            0x4004 => Some(FcpOpcode::FlashWrite),
            0x4005 => Some(FcpOpcode::FlashRead),
            0x5004 => Some(FcpOpcode::SyncRead),
            0x6000 => Some(FcpOpcode::EspDfuStart),
            0x6001 => Some(FcpOpcode::EspDfuWrite),
            0x7000 => Some(FcpOpcode::DataRead),
            0x7001 => Some(FcpOpcode::DataWrite),
            0x7002 => Some(FcpOpcode::DataNotify),
            0x700c => Some(FcpOpcode::DevmapInfo),
            0x700d => Some(FcpOpcode::DevmapRead),
            _ => None,
        }
    }
}

/// Volume bias of the FCP device model: device unit 0 encodes -127 dB and
/// device unit 127 encodes 0 dB.
pub const VOLUME_BIAS: i32 = 127;

/// Smallest device volume unit.
pub const VOLUME_MIN: i32 = 0;

/// Largest device volume unit.
pub const VOLUME_MAX: i32 = 127;

/// Offset of the 16-bit line-out volume fields in the device data space.
pub const LINE_OUT_VOLUME_OFFSET: u32 = 0x34;

/// Offset of the 1-byte mute switch fields in the device data space.
pub const MUTE_SWITCH_OFFSET: u32 = 0x5c;

/// Device volume units of a dB value, clamped to [-127, 0] first.
pub open spec fn spec_device_units_of_db(db: i32) -> i32 {
    if db < -127 {
        0
    } else if db > 0 {
        127
    } else {
        (db + 127) as i32
    }
}

/// Convert a dB value to device volume units, clamping to [-127, 0] first.
pub fn device_units_of_db(db: i32) -> (r: i32)
    ensures
        r == spec_device_units_of_db(db),
        0 <= r <= 127,
{
    if db < -127 {
        0
    } else if db > 0 {
        127
    } else {
        db + 127
    }
}

/// dB value of a device volume unit.
pub open spec fn spec_db_of_device_units(units: i32) -> i32 {
    (units - 127) as i32
}

/// Convert device volume units to dB.
pub fn db_of_device_units(units: i32) -> (r: i32)
    requires
        units as int - 127 >= i32::MIN,
    ensures
        r == spec_db_of_device_units(units),
{
    units - 127
}

/// Law: the FCP volume model round-trips. Converting device units to dB
/// and back yields the units for every unit in [0, 127], and converting a
/// dB value in [-127, 0] to units and back yields the dB value.
pub proof fn lemma_volume_units_roundtrip(units: i32, db: i32)
    requires
        0 <= units <= 127,
        -127 <= db <= 0,
    ensures
        spec_device_units_of_db(spec_db_of_device_units(units)) == units,
        spec_db_of_device_units(spec_device_units_of_db(db)) == db,
{
}

/// The 16-bit sequence counter after one command: increments and wraps.
pub open spec fn spec_inc16(s: u16) -> u16 {
    if s == 0xFFFF {
        0
    } else {
        (s + 1) as u16
    }
}

/// Wire bytes of one command envelope: little-endian opcode, payload
/// length, sequence number, zero error code, zero padding, then payload.
pub open spec fn spec_fcp_request_bytes(opcode: u16, seq: u16, data: Seq<u8>) -> Seq<u8> {
    spec_le32(opcode as u32) + spec_le16(data.len() as u16) + spec_le16(seq) + spec_le32(0)
        + spec_le32(0) + data
}

/// The OUT transfer record of one framed command addressed to an interface:
/// a class-specific OUT transfer (request code 2) carrying the envelope.
pub open spec fn spec_cmd_out_record(opcode: u16, seq: u16, payload: Seq<u8>, interface_num: u8)
    -> TransferRecord {
    TransferRecord::ControlOut {
        transfer: ControlTransfer::spec_class_out(2, 0, interface_num as u16),
        data: spec_fcp_request_bytes(opcode, seq, payload),
    }
}

/// The IN transfer record fetching one response of the given payload size:
/// a class-specific IN transfer (request code 3) of envelope plus payload.
pub open spec fn spec_cmd_in_record(response_size: int, interface_num: u8) -> TransferRecord {
    TransferRecord::ControlIn {
        transfer: ControlTransfer::spec_class_in(3, 0, interface_num as u16),
        length: 16 + response_size,
    }
}

/// The four transfer records of a completed init handshake, appended to a
/// log: Init1 OUT and IN (24-byte reply), then Init2 OUT and IN (84-byte
/// reply), both with empty request payloads.
pub open spec fn spec_init_requests(log: Seq<TransferRecord>, seq: u16, interface_num: u8) -> Seq<
    TransferRecord,
> {
    log.push(spec_cmd_out_record(0x0000, spec_inc16(seq), Seq::empty(), interface_num)).push(
        spec_cmd_in_record(24, interface_num),
    ).push(
        spec_cmd_out_record(0x0002, spec_inc16(spec_inc16(seq)), Seq::empty(), interface_num),
    ).push(spec_cmd_in_record(84, interface_num))
}

/// Sequence number echoed in a response envelope (bytes 6..8).
pub open spec fn spec_fcp_resp_seq(b: Seq<u8>) -> u16 {
    spec_u16_le(b[6], b[7])
}

/// Error code carried in a response envelope (bytes 8..12).
pub open spec fn spec_fcp_resp_error(b: Seq<u8>) -> u32 {
    spec_u32_le(b[8], b[9], b[10], b[11])
}

/// Payload of a data-write command: offset, width, then the value
/// truncated to the width, all little-endian.
pub open spec fn spec_data_write_payload(offset: u32, size: u32, value: i32) -> Seq<u8> {
    spec_le32(offset) + spec_le32(size) + (if size == 1 {
        seq![(spec_u32_of_i32(value) as int % 0x100) as u8]
    } else if size == 2 {
        spec_le16((spec_u32_of_i32(value) as int % 0x10000) as u16)
    } else {
        spec_le32(spec_u32_of_i32(value))
    })
}

/// Validate a raw command response and strip its 16-byte envelope.
///
/// A response shorter than the envelope is a framing error. The echoed
/// sequence number must equal the sequence number sent, and the embedded
/// error code must be zero; a mismatch of either is a protocol error, never
/// ignored. On success the payload after the envelope is returned.
pub fn parse_fcp_response(resp: &Vec<u8>, expected_seq: u16) -> (r: Result<Vec<u8>, Error>)
    ensures
        resp@.len() < 16 ==> r == Err::<Vec<u8>, Error>(
            Error::Protocol(ProtocolError::ResponseTooShort),
        ),
        resp@.len() >= 16 && spec_fcp_resp_seq(resp@) != expected_seq ==> r == Err::<Vec<u8>, Error>(
            Error::Protocol(ProtocolError::SequenceMismatch {
                expected: expected_seq,
                got: spec_fcp_resp_seq(resp@),
            }),
        ),
        resp@.len() >= 16 && spec_fcp_resp_seq(resp@) == expected_seq && spec_fcp_resp_error(resp@)
            != 0 ==> r == Err::<Vec<u8>, Error>(
            Error::Protocol(ProtocolError::DeviceError { code: spec_fcp_resp_error(resp@) }),
        ),
        resp@.len() >= 16 && spec_fcp_resp_seq(resp@) == expected_seq && spec_fcp_resp_error(resp@)
            == 0 ==> {
            &&& r matches Ok(d)
            &&& d@ == resp@.subrange(16, resp@.len() as int)
        },
{
    if resp.len() < 16 {
        return Err(Error::Protocol(ProtocolError::ResponseTooShort));
    }
    let echoed_seq = u16_from_le(resp[6], resp[7]);
    if echoed_seq != expected_seq {
        return Err(
            Error::Protocol(ProtocolError::SequenceMismatch {
                expected: expected_seq,
                got: echoed_seq,
            }),
        );
    }
    let error_code = u32_from_le(resp[8], resp[9], resp[10], resp[11]);
    if error_code != 0 {
        return Err(Error::Protocol(ProtocolError::DeviceError { code: error_code }));
    }
    let mut data: Vec<u8> = Vec::new();
    let mut i: usize = 16;
    while i < resp.len()
        invariant
            16 <= i <= resp@.len(),
            data@ == resp@.subrange(16, i as int),
        decreases resp@.len() - i,
    {
        data.push(resp[i]);
        i = i + 1;
        proof {
            assert(data@ =~= resp@.subrange(16, i as int));
        }
    }
    Ok(data)
}

/// Decode a response payload as a sequence of little-endian 32-bit meter
/// levels; a trailing fragment shorter than four bytes is dropped.
pub fn decode_meter_levels(payload: &Vec<u8>) -> (r: Vec<u32>)
    ensures
        r@.len() == payload@.len() / 4,
        forall|i: int|
            0 <= i < r@.len() ==> r@[i] == spec_u32_le(
                payload@[4 * i],
                payload@[4 * i + 1],
                payload@[4 * i + 2],
                payload@[4 * i + 3],
            ),
{
    let mut levels: Vec<u32> = Vec::new();
    let count = payload.len() / 4;
    proof {
        assert(4 * (payload@.len() / 4) <= payload@.len()) by (nonlinear_arith);
    }
    let mut i: usize = 0;
    while i < count
        invariant
            0 <= i <= count,
            count == payload@.len() / 4,
            4 * count <= payload@.len(),
            payload@.len() <= usize::MAX,
            levels@.len() == i,
            forall|j: int|
                0 <= j < i ==> levels@[j] == spec_u32_le(
                    payload@[4 * j],
                    payload@[4 * j + 1],
                    payload@[4 * j + 2],
                    payload@[4 * j + 3],
                ),
        decreases count - i,
    {
        let v = u32_from_le(payload[4 * i], payload[4 * i + 1], payload[4 * i + 2], payload[4 * i
            + 3]);
        levels.push(v);
        i = i + 1;
    }
    levels
}

/// Decode a mix-info reply: the first byte is the number of mixer outputs,
/// the second the number of mixer inputs; fewer than two bytes is a
/// framing error.
pub fn decode_mix_info(payload: &Vec<u8>) -> (r: Result<(u8, u8), Error>)
    ensures
        payload@.len() < 2 ==> r == Err::<(u8, u8), Error>(
            Error::Protocol(ProtocolError::ResponseTooShort),
        ),
        payload@.len() >= 2 ==> r == Ok::<(u8, u8), Error>((payload@[0], payload@[1])),
{
    if payload.len() < 2 {
        return Err(Error::Protocol(ProtocolError::ResponseTooShort));
    }
    Ok((payload[0], payload[1]))
}

/// Interpret a mute switch byte read from the device: nonzero means muted.
pub fn mute_state_of(value: i32) -> (r: bool)
    ensures
        r == (value != 0),
{
    value != 0
}

/// New volume after adjusting a current dB value by a delta: the sum,
/// clamped to [-127, 0].
pub open spec fn spec_adjusted_volume(current: i32, delta_db: i32) -> i32 {
    if current + delta_db < -127 {
        (-127) as i32
    } else if current + delta_db > 0 {
        0 as i32
    } else {
        (current + delta_db) as i32
    }
}

/// Adjust a current dB value by a delta, clamping the sum to [-127, 0].
pub fn adjusted_volume(current: i32, delta_db: i32) -> (r: i32)
    ensures
        r == spec_adjusted_volume(current, delta_db),
        -127 <= r <= 0,
{
    let sum: i64 = (current as i64) + (delta_db as i64);
    if sum < -127 {
        -127
    } else if sum > 0 {
        0
    } else {
        sum as i32
    }
}

/// Protocol engine for Gen 4 devices.
///
/// The engine owns its transport exclusively: the framing is strictly
/// request-then-response with a shared sequence counter, so no two
/// operations may be in flight at once. Data operations are gated by the
/// `initialized` flag, set only by the two-step init handshake.
pub struct FcpProtocol<T: UsbTransport> {
    /// Transport the engine issues transfers through.
    pub transport: T,
    /// Whether the two-step init handshake has completed.
    pub initialized: bool,
    /// Sequence number of the last command sent; wraps at 16 bits.
    pub seq_num: u16,
    /// USB interface number addressed by the control transfers.
    pub interface_num: u8,
}

impl<T: UsbTransport> FcpProtocol<T> {
    /// Create an engine on interface 0, uninitialized.
    pub fn new(transport: T) -> (r: Self)
        ensures
            r.transport == transport,
            !r.initialized,
            r.seq_num == 0,
            r.interface_num == 0,
    {
        Self::new_with_interface(transport, 0)
    }

    /// Create an engine on the given interface, uninitialized.
    pub fn new_with_interface(transport: T, interface_num: u8) -> (r: Self)
        ensures
            r.transport == transport,
            !r.initialized,
            r.seq_num == 0,
            r.interface_num == interface_num,
    {
        FcpProtocol { transport, initialized: false, seq_num: 0, interface_num }
    }

    /// Send one command and read its response.
    ///
    /// Increments the sequence counter, frames the request into the command
    /// envelope, sends it via a class-specific OUT transfer (request code 2)
    /// addressed to the claimed interface, and, if a response is expected,
    /// reads envelope plus payload via a class-specific IN transfer (request
    /// code 3) and validates the envelope.
    fn send_command(&mut self, opcode: FcpOpcode, request_data: &Vec<u8>, response_size: usize)
        -> (r: Result<Vec<u8>, Error>)
        requires
            request_data@.len() <= 0xFFFF,
            response_size <= usize::MAX - 16,
        ensures
            final(self).initialized == old(self).initialized,
            final(self).interface_num == old(self).interface_num,
            final(self).seq_num == spec_inc16(old(self).seq_num),
            ({
                let out_rec = spec_cmd_out_record(
                    opcode.spec_code(),
                    spec_inc16(old(self).seq_num),
                    request_data@,
                    old(self).interface_num,
                );
                let in_rec = spec_cmd_in_record(response_size as int, old(self).interface_num);
                &&& (final(self).transport.requests() == old(self).transport.requests().push(
                    out_rec,
                ) || final(self).transport.requests() == old(self).transport.requests().push(
                    out_rec,
                ).push(in_rec))
                &&& (response_size == 0 ==> final(self).transport.requests() == old(
                    self,
                ).transport.requests().push(out_rec))
                &&& (response_size == 0 ==> (r matches Ok(d) ==> d@ == Seq::<u8>::empty()))
                &&& (response_size > 0 ==> (r matches Ok(d) ==> final(self).transport.requests()
                    == old(self).transport.requests().push(out_rec).push(in_rec) && d@.len()
                    <= response_size))
            }),
    {
        let seq: u16 = if self.seq_num == 0xFFFF {
            0
        } else {
            self.seq_num + 1
        };
        self.seq_num = seq;

        let ghost total: Seq<u8> = spec_fcp_request_bytes(opcode.spec_code(), seq, request_data@);
        let mut request: Vec<u8> = Vec::new();
        push_le32(&mut request, opcode.code() as u32);
        push_le16(&mut request, request_data.len() as u16);
        push_le16(&mut request, seq);
        push_le32(&mut request, 0);
        push_le32(&mut request, 0);
        proof {
            assert(total.len() == 16 + request_data@.len());
            assert(request@ =~= total.subrange(0, 16));
        }
        let mut i: usize = 0;
        while i < request_data.len()
            invariant
                0 <= i <= request_data@.len(),
                total == spec_fcp_request_bytes(opcode.spec_code(), seq, request_data@),
                total.len() == 16 + request_data@.len(),
                request@ == total.subrange(0, 16 + i as int),
            decreases request_data@.len() - i,
        {
            proof {
                assert(total[16 + i as int] == request_data@[i as int]);
            }
            request.push(request_data[i]);
            i = i + 1;
            proof {
                assert(request@ =~= total.subrange(0, 16 + i as int));
            }
        }
        proof {
            assert(request@ =~= total);
        }

        let transfer_out = ControlTransfer::class_out(2, 0, self.interface_num as u16);
        match self.transport.control_out(&transfer_out, &request) {
            Ok(_) => {},
            Err(e) => {
                return Err(e);
            },
        }

        if response_size == 0 {
            return Ok(Vec::new());
        }

        let transfer_in = ControlTransfer::class_in(3, 0, self.interface_num as u16);
        let buf = match self.transport.control_in(&transfer_in, 16 + response_size) {
            Ok(b) => b,
            Err(e) => {
                return Err(e);
            },
        };

        parse_fcp_response(&buf, seq)
    }

    /// Run the two-step init handshake: opcode Init1 (24-byte reply), then
    /// opcode Init2 (84-byte reply). Only after both steps succeed does the
    /// engine accept data operations. The replies are returned raw.
    pub fn init(&mut self) -> (r: Result<(Vec<u8>, Vec<u8>), Error>)
        ensures
            final(self).interface_num == old(self).interface_num,
            r is Ok ==> final(self).initialized,
            r is Err ==> final(self).initialized == old(self).initialized,
            r matches Ok((a, b)) ==> a@.len() <= 24 && b@.len() <= 84,
            r is Ok ==> final(self).seq_num == spec_inc16(spec_inc16(old(self).seq_num))
                && final(self).transport.requests() == spec_init_requests(
                old(self).transport.requests(),
                old(self).seq_num,
                old(self).interface_num,
            ),
    {
        let empty: Vec<u8> = Vec::new();
        let step0_resp = match self.send_command(FcpOpcode::Init1, &empty, 24) {
            Ok(v) => v,
            Err(e) => {
                return Err(e);
            },
        };
        let step2_resp = match self.send_command(FcpOpcode::Init2, &empty, 84) {
            Ok(v) => v,
            Err(e) => {
                return Err(e);
            },
        };
        self.initialized = true;
        Ok((step0_resp, step2_resp))
    }

    /// Read the device firmware version out of the second init reply
    /// (bytes 8..12, little-endian), if the reply is long enough.
    pub fn firmware_version_of_init(step2_resp: &Vec<u8>) -> (r: Option<u32>)
        ensures
            step2_resp@.len() >= 12 ==> r == Some(
                spec_u32_le(step2_resp@[8], step2_resp@[9], step2_resp@[10], step2_resp@[11]),
            ),
            step2_resp@.len() < 12 ==> r is None,
    {
        if step2_resp.len() >= 12 {
            Some(u32_from_le(step2_resp[8], step2_resp[9], step2_resp[10], step2_resp[11]))
        } else {
            None
        }
    }

    /// Read `count` meter levels through opcode MeterRead.
    pub fn read_meters(&mut self, count: u16) -> (r: Result<Vec<u32>, Error>)
        ensures
            !old(self).initialized ==> r == Err::<Vec<u32>, Error>(Error::NotInitialized)
                && *final(self) == *old(self),
            final(self).initialized == old(self).initialized,
            final(self).interface_num == old(self).interface_num,
            old(self).initialized ==> final(self).seq_num == spec_inc16(old(self).seq_num),
            r matches Ok(v) ==> v@.len() <= count,
            old(self).initialized && r is Ok ==> ({
                let out_rec = spec_cmd_out_record(
                    0x1001,
                    spec_inc16(old(self).seq_num),
                    spec_le16(0) + spec_le16(count) + spec_le32(0),
                    old(self).interface_num,
                );
                if count > 0 {
                    final(self).transport.requests() == old(self).transport.requests().push(
                        out_rec,
                    ).push(spec_cmd_in_record(4 * count as int, old(self).interface_num))
                } else {
                    final(self).transport.requests() == old(self).transport.requests().push(
                        out_rec,
                    )
                }
            }),
    {
        if !self.initialized {
            return Err(Error::NotInitialized);
        }

        // Request: offset (u16), count (u16), padding (u32).
        let mut request: Vec<u8> = Vec::new();
        push_le16(&mut request, 0);
        push_le16(&mut request, count);
        push_le32(&mut request, 0);
        proof {
            assert(request@ =~= spec_le16(0) + spec_le16(count) + spec_le32(0));
        }

        let response = match self.send_command(
            FcpOpcode::MeterRead,
            &request,
            (count as usize) * 4,
        ) {
            Ok(v) => v,
            Err(e) => {
                return Err(e);
            },
        };

        Ok(decode_meter_levels(&response))
    }

    /// Read the mixer geometry (number of outputs, number of inputs)
    /// through opcode MixInfo.
    pub fn read_mix_info(&mut self) -> (r: Result<(u8, u8), Error>)
        ensures
            !old(self).initialized ==> r == Err::<(u8, u8), Error>(Error::NotInitialized)
                && *final(self) == *old(self),
            final(self).initialized == old(self).initialized,
            final(self).interface_num == old(self).interface_num,
            old(self).initialized ==> final(self).seq_num == spec_inc16(old(self).seq_num),
            old(self).initialized && r is Ok ==> final(self).transport.requests() == old(
                self,
            ).transport.requests().push(
                spec_cmd_out_record(
                    0x2000,
                    spec_inc16(old(self).seq_num),
                    Seq::empty(),
                    old(self).interface_num,
                ),
            ).push(spec_cmd_in_record(8, old(self).interface_num)),
    {
        if !self.initialized {
            return Err(Error::NotInitialized);
        }

        let empty: Vec<u8> = Vec::new();
        let response = match self.send_command(FcpOpcode::MixInfo, &empty, 8) {
            Ok(v) => v,
            Err(e) => {
                return Err(e);
            },
        };

        decode_mix_info(&response)
    }

    /// Read a 1-, 2- or 4-byte value at an offset in the device data space
    /// through opcode DataRead, sign-extended to 32 bits.
    ///
    /// A size outside {1, 2, 4} is rejected before any transfer is issued:
    /// the engine, its sequence counter and the transport log are unchanged.
    pub fn read_data(&mut self, offset: u32, size: u32) -> (r: Result<i32, Error>)
        ensures
            !old(self).initialized ==> r == Err::<i32, Error>(Error::NotInitialized) && *final(self)
                == *old(self),
            old(self).initialized && size != 1 && size != 2 && size != 4 ==> r == Err::<i32, Error>(
                Error::Protocol(ProtocolError::InvalidDataSize { size }),
            ) && *final(self) == *old(self),
            final(self).initialized == old(self).initialized,
            final(self).interface_num == old(self).interface_num,
            old(self).initialized && (size == 1 || size == 2 || size == 4) ==> final(self).seq_num
                == spec_inc16(old(self).seq_num),
            size == 1 ==> (r matches Ok(v) ==> -0x80 <= v < 0x80),
            size == 2 ==> (r matches Ok(v) ==> -0x8000 <= v < 0x8000),
            old(self).initialized && (size == 1 || size == 2 || size == 4) ==> ({
                let out_rec = spec_cmd_out_record(
                    0x7000,
                    spec_inc16(old(self).seq_num),
                    spec_le32(offset) + spec_le32(size),
                    old(self).interface_num,
                );
                let in_rec = spec_cmd_in_record(size as int, old(self).interface_num);
                &&& (final(self).transport.requests() == old(self).transport.requests().push(
                    out_rec,
                ) || final(self).transport.requests() == old(self).transport.requests().push(
                    out_rec,
                ).push(in_rec))
                &&& (r is Ok ==> final(self).transport.requests() == old(
                    self,
                ).transport.requests().push(out_rec).push(in_rec))
            }),
    {
        if !self.initialized {
            return Err(Error::NotInitialized);
        }
        if size != 1 && size != 2 && size != 4 {
            return Err(Error::Protocol(ProtocolError::InvalidDataSize { size }));
        }

        let mut request: Vec<u8> = Vec::new();
        push_le32(&mut request, offset);
        push_le32(&mut request, size);
        proof {
            assert(request@ =~= spec_le32(offset) + spec_le32(size));
        }

        let response = match self.send_command(FcpOpcode::DataRead, &request, size as usize) {
            Ok(v) => v,
            Err(e) => {
                return Err(e);
            },
        };

        if response.len() < size as usize {
            return Err(Error::Protocol(ProtocolError::ResponseTooShort));
        }

        let value: i32 = if size == 1 {
            i8_ext_from(response[0])
        } else if size == 2 {
            i16_from_le(response[0], response[1])
        } else {
            i32_from_le(response[0], response[1], response[2], response[3])
        };

        Ok(value)
    }

    /// Write a 1-, 2- or 4-byte value at an offset in the device data space
    /// through opcode DataWrite, truncating the value to the given width.
    ///
    /// A size outside {1, 2, 4} is rejected before any transfer is issued:
    /// the engine, its sequence counter and the transport log are unchanged.
    pub fn write_data(&mut self, offset: u32, size: u32, value: i32) -> (r: Result<(), Error>)
        ensures
            !old(self).initialized ==> r == Err::<(), Error>(Error::NotInitialized) && *final(self)
                == *old(self),
            old(self).initialized && size != 1 && size != 2 && size != 4 ==> r == Err::<(), Error>(
                Error::Protocol(ProtocolError::InvalidDataSize { size }),
            ) && *final(self) == *old(self),
            final(self).initialized == old(self).initialized,
            final(self).interface_num == old(self).interface_num,
            old(self).initialized && (size == 1 || size == 2 || size == 4) ==> final(self).seq_num
                == spec_inc16(old(self).seq_num),
            old(self).initialized && (size == 1 || size == 2 || size == 4) ==> final(self).transport.requests() == old(self).transport.requests().push(
                spec_cmd_out_record(
                    0x7001,
                    spec_inc16(old(self).seq_num),
                    spec_data_write_payload(offset, size, value),
                    old(self).interface_num,
                ),
            ),
    {
        if !self.initialized {
            return Err(Error::NotInitialized);
        }
        if size != 1 && size != 2 && size != 4 {
            return Err(Error::Protocol(ProtocolError::InvalidDataSize { size }));
        }

        let mut request: Vec<u8> = Vec::new();
        push_le32(&mut request, offset);
        push_le32(&mut request, size);

        let bits = u32_of_i32(value);
        if size == 1 {
            request.push((bits % 0x100) as u8);
        } else if size == 2 {
            push_le16(&mut request, (bits % 0x10000) as u16);
        } else {
            push_le32(&mut request, bits);
        }
        proof {
            assert(request@ =~= spec_data_write_payload(offset, size, value));
        }

        match self.send_command(FcpOpcode::DataWrite, &request, 0) {
            Ok(_) => Ok(()),
            Err(e) => Err(e),
        }
    }

    /// Read the volume of one output, in dB (-127 to 0 on a well-behaved
    /// device). The device stores volume as a 16-bit field at
    /// `LINE_OUT_VOLUME_OFFSET + 2 * output_index`, biased by 127.
    pub fn get_volume(&mut self, output_index: u8) -> (r: Result<i32, Error>)
        ensures
            !old(self).initialized ==> r == Err::<i32, Error>(Error::NotInitialized) && *final(self)
                == *old(self),
            final(self).initialized == old(self).initialized,
            final(self).interface_num == old(self).interface_num,
            old(self).initialized ==> final(self).seq_num == spec_inc16(old(self).seq_num),
            r matches Ok(db) ==> -0x8000 - 127 <= db < 0x8000 - 127,
            old(self).initialized && r is Ok ==> final(self).transport.requests() == old(
                self,
            ).transport.requests().push(
                spec_cmd_out_record(
                    0x7000,
                    spec_inc16(old(self).seq_num),
                    spec_le32((0x34 + 2 * output_index) as u32) + spec_le32(2),
                    old(self).interface_num,
                ),
            ).push(spec_cmd_in_record(2, old(self).interface_num)),
    {
        if !self.initialized {
            return Err(Error::NotInitialized);
        }

        let offset = LINE_OUT_VOLUME_OFFSET + (output_index as u32) * 2;
        let raw_value = match self.read_data(offset, 2) {
            Ok(v) => v,
            Err(e) => {
                return Err(e);
            },
        };

        Ok(db_of_device_units(raw_value))
    }

    /// Set the volume of one output. The requested dB value is clamped to
    /// [-127, 0] and written, biased by 127, as a 16-bit field at
    /// `LINE_OUT_VOLUME_OFFSET + 2 * output_index`.
    pub fn set_volume(&mut self, output_index: u8, volume_db: i32) -> (r: Result<(), Error>)
        ensures
            !old(self).initialized ==> r == Err::<(), Error>(Error::NotInitialized) && *final(self)
                == *old(self),
            final(self).initialized == old(self).initialized,
            final(self).interface_num == old(self).interface_num,
            old(self).initialized ==> final(self).seq_num == spec_inc16(old(self).seq_num),
            old(self).initialized ==> final(self).transport.requests() == old(
                self,
            ).transport.requests().push(
                spec_cmd_out_record(
                    0x7001,
                    spec_inc16(old(self).seq_num),
                    spec_data_write_payload(
                        (0x34 + 2 * output_index) as u32,
                        2,
                        spec_device_units_of_db(volume_db),
                    ),
                    old(self).interface_num,
                ),
            ),
    {
        if !self.initialized {
            return Err(Error::NotInitialized);
        }

        let device_value = device_units_of_db(volume_db);
        let offset = LINE_OUT_VOLUME_OFFSET + (output_index as u32) * 2;
        self.write_data(offset, 2, device_value)
    }

    /// Adjust the volume of one output by a dB delta; the new volume is
    /// clamped to [-127, 0]. Read-modify-write, with no atomicity guarantee
    /// against concurrent access.
    pub fn adjust_volume(&mut self, output_index: u8, delta_db: i32) -> (r: Result<i32, Error>)
        ensures
            !old(self).initialized ==> r == Err::<i32, Error>(Error::NotInitialized) && *final(self)
                == *old(self),
            final(self).initialized == old(self).initialized,
            final(self).interface_num == old(self).interface_num,
            r matches Ok(v) ==> -127 <= v <= 0,
            old(self).initialized ==> (r matches Ok(v) ==> ({
                let offset = (0x34 + 2 * output_index) as u32;
                &&& final(self).transport.requests() == old(self).transport.requests().push(
                    spec_cmd_out_record(
                        0x7000,
                        spec_inc16(old(self).seq_num),
                        spec_le32(offset) + spec_le32(2),
                        old(self).interface_num,
                    ),
                ).push(spec_cmd_in_record(2, old(self).interface_num)).push(
                    spec_cmd_out_record(
                        0x7001,
                        spec_inc16(spec_inc16(old(self).seq_num)),
                        spec_data_write_payload(offset, 2, spec_device_units_of_db(v)),
                        old(self).interface_num,
                    ),
                )
                &&& final(self).seq_num == spec_inc16(spec_inc16(old(self).seq_num))
                &&& exists|current: i32| v == #[trigger] spec_adjusted_volume(current, delta_db)
            })),
    {
        let current = match self.get_volume(output_index) {
            Ok(v) => v,
            Err(e) => {
                return Err(e);
            },
        };

        let new_volume = adjusted_volume(current, delta_db);
        proof {
            assert(new_volume == spec_adjusted_volume(current, delta_db));
        }

        match self.set_volume(output_index, new_volume) {
            Ok(()) => Ok(new_volume),
            Err(e) => Err(e),
        }
    }

    /// Read the mute switch of one output: a 1-byte field at
    /// `MUTE_SWITCH_OFFSET + output_index`, nonzero meaning muted.
    pub fn get_mute(&mut self, output_index: u8) -> (r: Result<bool, Error>)
        ensures
            !old(self).initialized ==> r == Err::<bool, Error>(Error::NotInitialized) && *final(self)
                == *old(self),
            final(self).initialized == old(self).initialized,
            final(self).interface_num == old(self).interface_num,
            old(self).initialized ==> final(self).seq_num == spec_inc16(old(self).seq_num),
            old(self).initialized && r is Ok ==> final(self).transport.requests() == old(
                self,
            ).transport.requests().push(
                spec_cmd_out_record(
                    0x7000,
                    spec_inc16(old(self).seq_num),
                    spec_le32((0x5C + output_index) as u32) + spec_le32(1),
                    old(self).interface_num,
                ),
            ).push(spec_cmd_in_record(1, old(self).interface_num)),
    {
        if !self.initialized {
            return Err(Error::NotInitialized);
        }

        let offset = MUTE_SWITCH_OFFSET + output_index as u32;
        let muted = match self.read_data(offset, 1) {
            Ok(v) => v,
            Err(e) => {
                return Err(e);
            },
        };

        Ok(mute_state_of(muted))
    }

    /// Set the mute switch of one output: writes 1 for muted, 0 for live.
    pub fn set_mute(&mut self, output_index: u8, muted: bool) -> (r: Result<(), Error>)
        ensures
            !old(self).initialized ==> r == Err::<(), Error>(Error::NotInitialized) && *final(self)
                == *old(self),
            final(self).initialized == old(self).initialized,
            final(self).interface_num == old(self).interface_num,
            old(self).initialized ==> final(self).seq_num == spec_inc16(old(self).seq_num),
            old(self).initialized ==> final(self).transport.requests() == old(
                self,
            ).transport.requests().push(
                spec_cmd_out_record(
                    0x7001,
                    spec_inc16(old(self).seq_num),
                    spec_data_write_payload(
                        (0x5C + output_index) as u32,
                        1,
                        if muted {
                            1i32
                        } else {
                            0i32
                        },
                    ),
                    old(self).interface_num,
                ),
            ),
    {
        if !self.initialized {
            return Err(Error::NotInitialized);
        }

        let offset = MUTE_SWITCH_OFFSET + output_index as u32;
        self.write_data(offset, 1, if muted { 1 } else { 0 })
    }

    /// Toggle the mute switch of one output and return the new state.
    /// Read-modify-write, with no atomicity guarantee.
    pub fn toggle_mute(&mut self, output_index: u8) -> (r: Result<bool, Error>)
        ensures
            !old(self).initialized ==> r == Err::<bool, Error>(Error::NotInitialized) && *final(self)
                == *old(self),
            final(self).initialized == old(self).initialized,
            final(self).interface_num == old(self).interface_num,
            old(self).initialized ==> (r matches Ok(state) ==> ({
                let offset = (0x5C + output_index) as u32;
                &&& final(self).transport.requests() == old(self).transport.requests().push(
                    spec_cmd_out_record(
                        0x7000,
                        spec_inc16(old(self).seq_num),
                        spec_le32(offset) + spec_le32(1),
                        old(self).interface_num,
                    ),
                ).push(spec_cmd_in_record(1, old(self).interface_num)).push(
                    spec_cmd_out_record(
                        0x7001,
                        spec_inc16(spec_inc16(old(self).seq_num)),
                        spec_data_write_payload(
                            offset,
                            1,
                            if state {
                                1i32
                            } else {
                                0i32
                            },
                        ),
                        old(self).interface_num,
                    ),
                )
                &&& final(self).seq_num == spec_inc16(spec_inc16(old(self).seq_num))
            })),
    {
        let current = match self.get_mute(output_index) {
            Ok(v) => v,
            Err(e) => {
                return Err(e);
            },
        };
        let new_state = !current;
        match self.set_mute(output_index, new_state) {
            Ok(()) => Ok(new_state),
            Err(e) => Err(e),
        }
    }
}

} // verus!
