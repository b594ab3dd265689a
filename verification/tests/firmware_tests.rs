use scarlett_control::error::{Error, FirmwareError};
use scarlett_control::firmware::{FirmwareFile, FirmwareHeader};
use sha2::Digest;

/// Build a well-formed firmware image: 52-byte big-endian header with a
/// correct SHA-256 digest, then the payload.
fn make_firmware(vid: u16, pid: u16, version: u32, payload: &[u8]) -> Vec<u8> {
    let mut bytes = Vec::new();
    bytes.extend_from_slice(b"SCARLETT");
    bytes.extend_from_slice(&vid.to_be_bytes());
    bytes.extend_from_slice(&pid.to_be_bytes());
    bytes.extend_from_slice(&version.to_be_bytes());
    bytes.extend_from_slice(&(payload.len() as u32).to_be_bytes());
    let digest = sha2::Sha256::digest(payload);
    bytes.extend_from_slice(&digest);
    bytes.extend_from_slice(payload);
    bytes
}

#[test]
fn test_header_size() {
    // 8 (magic) + 2 (vid) + 2 (pid) + 4 (version) + 4 (length) + 32 (sha256) = 52
    assert_eq!(FirmwareHeader::SIZE, 52);
}

#[test]
fn test_invalid_magic() {
    let mut bytes = vec![0u8; FirmwareHeader::SIZE];
    bytes[0..8].copy_from_slice(b"NOTMAGIC");

    let result = FirmwareHeader::from_bytes(&bytes);
    assert!(result.is_err());
    assert_eq!(result.unwrap_err(), Error::Firmware(FirmwareError::BadMagic));
}

#[test]
fn test_valid_header() {
    let mut bytes = vec![0u8; FirmwareHeader::SIZE];

    // Set magic
    bytes[0..8].copy_from_slice(b"SCARLETT");

    // Set VID (0x1235 big-endian)
    bytes[8] = 0x12;
    bytes[9] = 0x35;

    // Set PID (0x821D big-endian)
    bytes[10] = 0x82;
    bytes[11] = 0x1D;

    let header = FirmwareHeader::from_bytes(&bytes).unwrap();
    assert_eq!(header.usb_vid, 0x1235);
    assert_eq!(header.usb_pid, 0x821D);
}

#[test]
fn parse_valid_image_returns_payload_unchanged() {
    let payload: Vec<u8> = (0u8..=255).cycle().take(300).collect();
    let bytes = make_firmware(0x1235, 0x821E, 42, &payload);

    let image = FirmwareFile::parse(&bytes).unwrap();
    assert_eq!(image.header.usb_vid, 0x1235);
    assert_eq!(image.header.usb_pid, 0x821E);
    assert_eq!(image.header.firmware_version, 42);
    assert_eq!(image.header.firmware_length, 300);
    assert_eq!(image.data, payload);
    assert_eq!(image.version(), 42);
    assert_eq!(image.len(), 300);
    assert!(!image.is_empty());
    assert_eq!(image.data(), payload.as_slice());
}

#[test]
fn parse_empty_payload_image() {
    let bytes = make_firmware(0x1235, 0x8215, 1, &[]);
    let image = FirmwareFile::parse(&bytes).unwrap();
    assert!(image.is_empty());
    assert_eq!(image.len(), 0);
}

#[test]
fn parse_rejects_corrupted_payload_byte() {
    let payload = vec![7u8; 64];
    for corrupt_at in [0usize, 13, 63] {
        let mut bytes = make_firmware(0x1235, 0x821E, 7, &payload);
        bytes[52 + corrupt_at] ^= 0x01;
        let result = FirmwareFile::parse(&bytes);
        assert_eq!(
            result.unwrap_err(),
            Error::Firmware(FirmwareError::DigestMismatch)
        );
    }
}

#[test]
fn parse_rejects_short_input() {
    for len in [0usize, 1, 8, 51] {
        let bytes = vec![0x53u8; len];
        let result = FirmwareFile::parse(&bytes);
        assert_eq!(
            result.unwrap_err(),
            Error::Firmware(FirmwareError::HeaderTooShort)
        );
    }
}

#[test]
fn parse_rejects_length_mismatch() {
    let payload = vec![1u8, 2, 3];
    let mut bytes = make_firmware(0x1235, 0x821E, 7, &payload);
    bytes.push(0xFF); // one trailing byte beyond the declared length
    let result = FirmwareFile::parse(&bytes);
    assert_eq!(
        result.unwrap_err(),
        Error::Firmware(FirmwareError::SizeMismatch)
    );
}

#[test]
fn parse_rejects_wrong_magic_at_full_length() {
    let payload = vec![9u8; 10];
    let mut bytes = make_firmware(0x1235, 0x821E, 7, &payload);
    bytes[7] = b'X';
    let result = FirmwareFile::parse(&bytes);
    assert_eq!(result.unwrap_err(), Error::Firmware(FirmwareError::BadMagic));
}

#[test]
fn validate_for_device_checks_both_ids() {
    let bytes = make_firmware(0x1235, 0x821E, 7, &[1, 2, 3]);
    let image = FirmwareFile::parse(&bytes).unwrap();

    assert!(image.validate_for_device(0x1235, 0x821E).is_ok());
    assert_eq!(
        image.validate_for_device(0x1236, 0x821E).unwrap_err(),
        Error::Firmware(FirmwareError::VidMismatch)
    );
    assert_eq!(
        image.validate_for_device(0x1235, 0x8215).unwrap_err(),
        Error::Firmware(FirmwareError::PidMismatch)
    );
}
