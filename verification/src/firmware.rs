//! Scarlett firmware container format.
//!
//! A firmware file is a 52-byte big-endian header (magic "SCARLETT", USB
//! vendor id, USB product id, firmware version, payload length, SHA-256
//! digest) followed by the raw payload. Parsing is a pure function over the
//! file bytes; every gate is hard: a file is either fully valid or rejected,
//! never partially parsed.

use vstd::prelude::*;

use crate::error::{Error, FirmwareError};
use crate::wire::{spec_u16_be, spec_u32_be, u16_from_be, u32_from_be};

use sha2::Digest;

verus! {

/// Size of the fixed firmware header in bytes.
pub const FIRMWARE_HEADER_SIZE: usize = 52;

/// The magic string "SCARLETT" that opens every firmware file.
pub open spec fn spec_firmware_magic() -> Seq<u8> {
    seq![0x53u8, 0x43u8, 0x41u8, 0x52u8, 0x4Cu8, 0x45u8, 0x54u8, 0x54u8]
}

/// Whether the byte string opens with the firmware magic.
pub open spec fn spec_magic_ok(b: Seq<u8>) -> bool {
    b.len() >= 8 && b.subrange(0, 8) == spec_firmware_magic()
}

/// SHA-256 digest of a byte string; 32 bytes, a function of the input alone.
pub uninterp spec fn sha256_of(data: Seq<u8>) -> Seq<u8>;

/// Relies on sha2::Sha256 through the Digest::digest one-shot: the result
/// is the 32-byte SHA-256 digest of the input, a function of the input
/// bytes alone.
#[verifier::external_body]
fn sha256_digest(data: &Vec<u8>) -> (r: Vec<u8>)
    ensures
        r@ == sha256_of(data@),
        r@.len() == 32,
{
    sha2::Sha256::digest(data.as_slice()).to_vec()
}

/// Scarlett firmware file header. All multi-byte integers are stored
/// big-endian in the file. A well-formed header carries a 32-byte digest.
#[derive(Debug, Clone)]
pub struct FirmwareHeader {
    /// USB vendor id the image was built for (0x1235 for Focusrite).
    pub usb_vid: u16,
    /// USB product id the image was built for.
    pub usb_pid: u16,
    /// Firmware version number.
    pub firmware_version: u32,
    /// Declared length of the payload in bytes.
    pub firmware_length: u32,
    /// Declared SHA-256 digest of the payload.
    pub sha256: Vec<u8>,
}

impl FirmwareHeader {
    /// Size of the header in bytes.
    pub const SIZE: usize = 52;

    /// Well-formedness: the digest is exactly 32 bytes.
    pub open spec fn wf(self) -> bool {
        self.sha256@.len() == 32
    }

    /// The header fields a byte string with a valid start decodes to.
    pub open spec fn spec_fields_of(self, b: Seq<u8>) -> bool {
        &&& self.usb_vid == spec_u16_be(b[8], b[9])
        &&& self.usb_pid == spec_u16_be(b[10], b[11])
        &&& self.firmware_version == spec_u32_be(b[12], b[13], b[14], b[15])
        &&& self.firmware_length == spec_u32_be(b[16], b[17], b[18], b[19])
        &&& self.sha256@ == b.subrange(20, 52)
    }

    /// Parse a header from raw bytes. Rejects a short buffer, then a bad
    /// magic; otherwise decodes the big-endian fields.
    pub fn from_bytes(bytes: &Vec<u8>) -> (r: Result<FirmwareHeader, Error>)
        ensures
            bytes@.len() < 52 ==> r == Err::<FirmwareHeader, Error>(
                Error::Firmware(FirmwareError::HeaderTooShort),
            ),
            bytes@.len() >= 52 && !spec_magic_ok(bytes@) ==> r == Err::<FirmwareHeader, Error>(
                Error::Firmware(FirmwareError::BadMagic),
            ),
            bytes@.len() >= 52 && spec_magic_ok(bytes@) ==> {
                &&& r matches Ok(h)
                &&& h.wf()
                &&& h.spec_fields_of(bytes@)
            },
    {
        if bytes.len() < FIRMWARE_HEADER_SIZE {
            return Err(Error::Firmware(FirmwareError::HeaderTooShort));
        }

        let magic_ok = bytes[0] == 0x53 && bytes[1] == 0x43 && bytes[2] == 0x41
            && bytes[3] == 0x52 && bytes[4] == 0x4C && bytes[5] == 0x45 && bytes[6] == 0x54
            && bytes[7] == 0x54;
        proof {
            if magic_ok {
                assert(bytes@.subrange(0, 8) =~= spec_firmware_magic());
            } else {
                assert(bytes@.subrange(0, 8) != spec_firmware_magic()) by {
                    if bytes@.subrange(0, 8) == spec_firmware_magic() {
                        assert(bytes@[0] == spec_firmware_magic()[0]);
                        assert(bytes@[1] == spec_firmware_magic()[1]);
                        assert(bytes@[2] == spec_firmware_magic()[2]);
                        assert(bytes@[3] == spec_firmware_magic()[3]);
                        assert(bytes@[4] == spec_firmware_magic()[4]);
                        assert(bytes@[5] == spec_firmware_magic()[5]);
                        assert(bytes@[6] == spec_firmware_magic()[6]);
                        assert(bytes@[7] == spec_firmware_magic()[7]);
                    }
                }
            }
        }
        if !magic_ok {
            return Err(Error::Firmware(FirmwareError::BadMagic));
        }

        let usb_vid = u16_from_be(bytes[8], bytes[9]);
        let usb_pid = u16_from_be(bytes[10], bytes[11]);
        let firmware_version = u32_from_be(bytes[12], bytes[13], bytes[14], bytes[15]);
        let firmware_length = u32_from_be(bytes[16], bytes[17], bytes[18], bytes[19]);

        let mut sha256: Vec<u8> = Vec::new();
        let mut i: usize = 20;
        while i < 52
            invariant
                20 <= i <= 52,
                bytes@.len() >= 52,
                sha256@ == bytes@.subrange(20, i as int),
            decreases 52 - i,
        {
            sha256.push(bytes[i]);
            i = i + 1;
            proof {
                assert(sha256@ =~= bytes@.subrange(20, i as int));
            }
        }

        Ok(FirmwareHeader { usb_vid, usb_pid, firmware_version, firmware_length, sha256 })
    }
}

/// Declared payload length of a firmware byte string (bytes 16..20, big-endian).
pub open spec fn spec_declared_length(b: Seq<u8>) -> int {
    spec_u32_be(b[16], b[17], b[18], b[19]) as int
}

/// Payload of a firmware byte string: everything after the header.
pub open spec fn spec_payload(b: Seq<u8>) -> Seq<u8> {
    b.subrange(52, b.len() as int)
}

/// Declared digest of a firmware byte string (bytes 20..52).
pub open spec fn spec_declared_digest(b: Seq<u8>) -> Seq<u8> {
    b.subrange(20, 52)
}

/// Whether a firmware byte string passes every gate of the parser: long
/// enough, correct magic, exact total length, and a payload whose SHA-256
/// matches the declared digest.
pub open spec fn spec_firmware_valid(b: Seq<u8>) -> bool {
    &&& b.len() >= 52
    &&& spec_magic_ok(b)
    &&& b.len() == 52 + spec_declared_length(b)
    &&& sha256_of(spec_payload(b)) == spec_declared_digest(b)
}

/// A complete, validated firmware image: header plus payload. Constructed
/// only by the parser, never partially valid.
#[derive(Debug, Clone)]
pub struct FirmwareFile {
    /// Parsed firmware header.
    pub header: FirmwareHeader,
    /// Firmware payload bytes.
    pub data: Vec<u8>,
}

impl FirmwareFile {
    /// Well-formedness: the header is well formed, the payload length
    /// matches the declared length, and the payload hashes to the declared
    /// digest.
    pub open spec fn wf(self) -> bool {
        &&& self.header.wf()
        &&& self.data@.len() == self.header.firmware_length
        &&& sha256_of(self.data@) == self.header.sha256@
    }

    /// Parse and validate a complete firmware file from its bytes.
    ///
    /// The gates run in order: header length, magic, total file length
    /// against the declared payload length, then the SHA-256 of the payload
    /// against the declared digest. Exactly the byte strings accepted are
    /// those that pass all four gates, and the parsed image carries the
    /// payload unchanged.
    pub fn parse(bytes: &Vec<u8>) -> (r: Result<FirmwareFile, Error>)
        ensures
            bytes@.len() < 52 ==> r == Err::<FirmwareFile, Error>(
                Error::Firmware(FirmwareError::HeaderTooShort),
            ),
            bytes@.len() >= 52 && !spec_magic_ok(bytes@) ==> r == Err::<FirmwareFile, Error>(
                Error::Firmware(FirmwareError::BadMagic),
            ),
            bytes@.len() >= 52 && spec_magic_ok(bytes@) && bytes@.len() != 52
                + spec_declared_length(bytes@) ==> r == Err::<FirmwareFile, Error>(
                Error::Firmware(FirmwareError::SizeMismatch),
            ),
            bytes@.len() >= 52 && spec_magic_ok(bytes@) && bytes@.len() == 52
                + spec_declared_length(bytes@) && sha256_of(spec_payload(bytes@))
                != spec_declared_digest(bytes@) ==> r == Err::<FirmwareFile, Error>(
                Error::Firmware(FirmwareError::DigestMismatch),
            ),
            spec_firmware_valid(bytes@) ==> {
                &&& r matches Ok(f)
                &&& f.wf()
                &&& f.header.spec_fields_of(bytes@)
                &&& f.data@ == spec_payload(bytes@)
            },
    {
        let header = match FirmwareHeader::from_bytes(bytes) {
            Ok(h) => h,
            Err(e) => {
                return Err(e);
            },
        };

        // Total file length must equal header size plus declared payload length.
        if bytes.len() - FIRMWARE_HEADER_SIZE != header.firmware_length as usize {
            return Err(Error::Firmware(FirmwareError::SizeMismatch));
        }

        // Copy the payload out of the file.
        let mut data: Vec<u8> = Vec::new();
        let mut i: usize = FIRMWARE_HEADER_SIZE;
        while i < bytes.len()
            invariant
                52 <= i <= bytes@.len(),
                data@ == bytes@.subrange(52, i as int),
            decreases bytes@.len() - i,
        {
            data.push(bytes[i]);
            i = i + 1;
            proof {
                assert(data@ =~= bytes@.subrange(52, i as int));
            }
        }
        proof {
            assert(data@ =~= spec_payload(bytes@));
        }

        // The payload must hash to the declared digest.
        let computed = sha256_digest(&data);
        if !(computed == header.sha256) {
            proof {
                assert(computed@ =~= header.sha256@ ==> computed == header.sha256);
            }
            return Err(Error::Firmware(FirmwareError::DigestMismatch));
        }
        proof {
            assert(computed@ =~= header.sha256@);
        }

        Ok(FirmwareFile { header, data })
    }

    /// Check that the image was built for the given device ids: first the
    /// vendor id, then the product id; both must match exactly.
    pub fn validate_for_device(&self, vid: u16, pid: u16) -> (r: Result<(), Error>)
        ensures
            self.header.usb_vid != vid ==> r == Err::<(), Error>(
                Error::Firmware(FirmwareError::VidMismatch),
            ),
            self.header.usb_vid == vid && self.header.usb_pid != pid ==> r == Err::<(), Error>(
                Error::Firmware(FirmwareError::PidMismatch),
            ),
            self.header.usb_vid == vid && self.header.usb_pid == pid ==> r == Ok::<(), Error>(()),
    {
        if self.header.usb_vid != vid {
            return Err(Error::Firmware(FirmwareError::VidMismatch));
        }
        if self.header.usb_pid != pid {
            return Err(Error::Firmware(FirmwareError::PidMismatch));
        }
        Ok(())
    }

    /// Get the firmware version.
    pub fn version(&self) -> (r: u32)
        ensures
            r == self.header.firmware_version,
    {
        self.header.firmware_version
    }

    /// Get the firmware payload.
    pub fn data(&self) -> (r: &[u8])
        ensures
            r@ == self.data@,
    {
        self.data.as_slice()
    }

    /// Get the firmware payload length.
    pub fn len(&self) -> (r: usize)
        ensures
            r == self.data@.len(),
    {
        self.data.len()
    }

    /// Check whether the payload is empty.
    pub fn is_empty(&self) -> (r: bool)
        ensures
            r == (self.data@.len() == 0),
    {
        self.data.is_empty()
    }
}

} // verus!
