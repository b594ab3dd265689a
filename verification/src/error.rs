//! Error taxonomy for the Scarlett control engine.
//!
//! Transport failures, protocol failures and state violations are kept
//! apart so that callers can tell "the link is unusable" from "the device
//! sent garbage" from "the caller broke the contract".

use vstd::prelude::*;

verus! {

/// Why a firmware image was rejected by the container parser.
#[derive(Debug, Clone, Copy, PartialEq, Eq, Structural)]
pub enum FirmwareError {
    /// Fewer bytes than the fixed header needs.
    HeaderTooShort,
    /// The first eight bytes are not the expected magic string.
    BadMagic,
    /// The file length differs from header size plus declared payload length.
    SizeMismatch,
    /// The SHA-256 of the payload differs from the digest in the header.
    DigestMismatch,
    /// The image was built for another USB vendor id.
    VidMismatch,
    /// The image was built for another USB product id.
    PidMismatch,
}

/// Why a wire exchange was rejected by a protocol engine.
#[derive(Debug, Clone, Copy, PartialEq, Eq, Structural)]
#[allow(inconsistent_fields)]
pub enum ProtocolError {
    /// A response was shorter than its fixed envelope.
    ResponseTooShort,
    /// A response carried an unexpected command byte.
    BadResponseCommand { got: u8 },
    /// A response echoed a sequence number other than the one sent.
    SequenceMismatch { expected: u16, got: u16 },
    /// A response declared more payload than it carried.
    PayloadTruncated,
    /// A data operation asked for a width other than 1, 2 or 4 bytes.
    InvalidDataSize { size: u32 },
    /// A response envelope carried a nonzero device error code.
    DeviceError { code: u32 },
    /// A message carried an unknown response type byte.
    UnknownResponseType { got: u8 },
    /// A message declared a payload beyond the protocol maximum.
    PayloadTooLarge,
    /// A message carried a magic byte that is neither request nor response.
    InvalidMagic { got: u8 },
}

/// Top-level error type of the engine.
#[derive(Debug, Clone, PartialEq, Eq)]
pub enum Error {
    /// USB transfer failure: timeout, disconnection, stack error.
    Usb(String),
    /// The device or the host sent bytes that break the wire protocol.
    Protocol(ProtocolError),
    /// A firmware image failed validation.
    Firmware(FirmwareError),
    /// A data operation was attempted before the init handshake.
    NotInitialized,
    /// No matching device was found.
    DeviceNotFound,
    /// A caller-supplied parameter was out of range.
    InvalidParameter(String),
    /// The generation or platform has no implementation for the operation.
    NotSupported(String),
    /// Failure in the preferences or device-config store.
    Config(String),
    /// Failure reading or writing a file.
    Io(String),
}

} // verus!
