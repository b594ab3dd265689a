//! USB transport abstraction.
//!
//! A transport carries bytes to and from a device via USB control or bulk
//! transfers. The engines never touch a USB stack directly: they go through
//! the [`UsbTransport`] trait, so that a direct local backend, a network
//! backend or a test double can stand behind the same contracts.

use vstd::prelude::*;

use crate::error::Error;

verus! {

/// Direction of a USB transfer.
#[derive(Debug, Clone, Copy, PartialEq, Eq, Structural)]
pub enum Direction {
    /// Host to device.
    Out,
    /// Device to host.
    In,
}

/// Default timeout for a transfer, in milliseconds.
pub const DEFAULT_TIMEOUT_MS: u64 = 1000;

/// Descriptor of a USB control transfer: request type byte, request code,
/// 16-bit value, 16-bit index, direction and timeout.
#[derive(Debug, Clone, Copy, PartialEq, Eq, Structural)]
pub struct ControlTransfer {
    /// Request type (vendor, class, standard x recipient x direction).
    pub request_type: u8,
    /// Specific request code.
    pub request: u8,
    /// Request value.
    pub value: u16,
    /// Request index (often the interface number).
    pub index: u16,
    /// Direction (in or out).
    pub direction: Direction,
    /// Timeout for the transfer, in milliseconds.
    pub timeout_ms: u64,
}

impl ControlTransfer {
    /// Create a control transfer descriptor with the default timeout.
    pub fn new(request_type: u8, request: u8, value: u16, index: u16, direction: Direction)
        -> (r: Self)
        ensures
            r == (ControlTransfer {
                request_type,
                request,
                value,
                index,
                direction,
                timeout_ms: DEFAULT_TIMEOUT_MS,
            }),
    {
        ControlTransfer { request_type, request, value, index, direction, timeout_ms: DEFAULT_TIMEOUT_MS }
    }

    /// Replace the timeout.
    pub fn with_timeout(self, timeout_ms: u64) -> (r: Self)
        ensures
            r == (ControlTransfer { timeout_ms, ..self }),
    {
        ControlTransfer { timeout_ms, ..self }
    }

    /// Descriptor shape of a vendor-specific OUT transfer (request type 0x40).
    pub open spec fn spec_vendor_out(request: u8, value: u16, index: u16) -> ControlTransfer {
        ControlTransfer {
            request_type: 0x40,
            request,
            value,
            index,
            direction: Direction::Out,
            timeout_ms: DEFAULT_TIMEOUT_MS,
        }
    }

    /// Create a vendor-specific OUT transfer.
    pub fn vendor_out(request: u8, value: u16, index: u16) -> (r: Self)
        ensures
            r == Self::spec_vendor_out(request, value, index),
    {
        Self::new(0x40, request, value, index, Direction::Out)
    }

    /// Descriptor shape of a vendor-specific IN transfer (request type 0xC0).
    pub open spec fn spec_vendor_in(request: u8, value: u16, index: u16) -> ControlTransfer {
        ControlTransfer {
            request_type: 0xC0,
            request,
            value,
            index,
            direction: Direction::In,
            timeout_ms: DEFAULT_TIMEOUT_MS,
        }
    }

    /// Create a vendor-specific IN transfer.
    pub fn vendor_in(request: u8, value: u16, index: u16) -> (r: Self)
        ensures
            r == Self::spec_vendor_in(request, value, index),
    {
        Self::new(0xC0, request, value, index, Direction::In)
    }

    /// Descriptor shape of a class-specific OUT transfer (request type 0x21).
    pub open spec fn spec_class_out(request: u8, value: u16, index: u16) -> ControlTransfer {
        ControlTransfer {
            request_type: 0x21,
            request,
            value,
            index,
            direction: Direction::Out,
            timeout_ms: DEFAULT_TIMEOUT_MS,
        }
    }

    /// Create a class-specific OUT transfer.
    pub fn class_out(request: u8, value: u16, index: u16) -> (r: Self)
        ensures
            r == Self::spec_class_out(request, value, index),
    {
        Self::new(0x21, request, value, index, Direction::Out)
    }

    /// Descriptor shape of a class-specific IN transfer (request type 0xA1).
    pub open spec fn spec_class_in(request: u8, value: u16, index: u16) -> ControlTransfer {
        ControlTransfer {
            request_type: 0xA1,
            request,
            value,
            index,
            direction: Direction::In,
            timeout_ms: DEFAULT_TIMEOUT_MS,
        }
    }

    /// Create a class-specific IN transfer.
    pub fn class_in(request: u8, value: u16, index: u16) -> (r: Self)
        ensures
            r == Self::spec_class_in(request, value, index),
    {
        Self::new(0xA1, request, value, index, Direction::In)
    }
}

/// Transfer class a request type byte encodes in bits 5..7: standard,
/// class-specific or vendor-specific.
#[derive(Debug, Clone, Copy, PartialEq, Eq, Structural)]
pub enum ControlClass {
    Standard,
    Class,
    Vendor,
}

/// Recipient a request type byte encodes in bits 0..5.
#[derive(Debug, Clone, Copy, PartialEq, Eq, Structural)]
pub enum ControlRecipient {
    Device,
    Interface,
    Endpoint,
    Other,
}

/// Transfer class of a request type byte, as a pure function: bits 5..7,
/// where 0 is standard, 1 class, 2 vendor and 3 reserved.
pub open spec fn spec_control_class_of(request_type: u8) -> Option<ControlClass> {
    let bits = request_type / 32 % 4;
    if bits == 0 {
        Some(ControlClass::Standard)
    } else if bits == 1 {
        Some(ControlClass::Class)
    } else if bits == 2 {
        Some(ControlClass::Vendor)
    } else {
        None
    }
}

/// Decode the transfer class of a request type byte; the reserved value is
/// refused.
pub fn control_class_of(request_type: u8) -> (r: Option<ControlClass>)
    ensures
        r == spec_control_class_of(request_type),
{
    let bits = request_type / 32 % 4;
    if bits == 0 {
        Some(ControlClass::Standard)
    } else if bits == 1 {
        Some(ControlClass::Class)
    } else if bits == 2 {
        Some(ControlClass::Vendor)
    } else {
        None
    }
}

/// Recipient of a request type byte, as a pure function: bits 0..5, where
/// 0 is the device, 1 an interface, 2 an endpoint and 3 "other"; higher
/// values are reserved.
pub open spec fn spec_control_recipient_of(request_type: u8) -> Option<ControlRecipient> {
    let bits = request_type % 32;
    if bits == 0 {
        Some(ControlRecipient::Device)
    } else if bits == 1 {
        Some(ControlRecipient::Interface)
    } else if bits == 2 {
        Some(ControlRecipient::Endpoint)
    } else if bits == 3 {
        Some(ControlRecipient::Other)
    } else {
        None
    }
}

/// Decode the recipient of a request type byte; reserved values are
/// refused.
pub fn control_recipient_of(request_type: u8) -> (r: Option<ControlRecipient>)
    ensures
        r == spec_control_recipient_of(request_type),
{
    let bits = request_type % 32;
    if bits == 0 {
        Some(ControlRecipient::Device)
    } else if bits == 1 {
        Some(ControlRecipient::Interface)
    } else if bits == 2 {
        Some(ControlRecipient::Endpoint)
    } else if bits == 3 {
        Some(ControlRecipient::Other)
    } else {
        None
    }
}

/// Descriptor of a USB bulk transfer.
#[derive(Debug, Clone, Copy, PartialEq, Eq, Structural)]
pub struct BulkTransfer {
    /// Endpoint address.
    pub endpoint: u8,
    /// Direction.
    pub direction: Direction,
    /// Timeout, in milliseconds.
    pub timeout_ms: u64,
}

/// One transfer attempt, as seen on the wire. The transport keeps a ghost
/// log of these, so that an engine's contract can pin down exactly which
/// bytes it asked the transport to move.
#[allow(inconsistent_fields)]
pub enum TransferRecord {
    /// A control OUT attempt carrying the given bytes.
    ControlOut { transfer: ControlTransfer, data: Seq<u8> },
    /// A control IN attempt asking for at most `length` bytes.
    ControlIn { transfer: ControlTransfer, length: int },
    /// A bulk OUT attempt carrying the given bytes.
    BulkOut { transfer: BulkTransfer, data: Seq<u8> },
    /// A bulk IN attempt asking for at most `length` bytes.
    BulkIn { transfer: BulkTransfer, length: int },
}

/// Abstraction over USB transport backends.
///
/// Implementations live outside the verified library (a direct local USB
/// backend, test doubles). The contracts below state only what every
/// backend guarantees: each call appends one record to the ghost transfer
/// log, and a successful IN transfer never hands back more bytes than were
/// asked for. What the device answers is not constrained: the engines must
/// hold for every possible response.
pub trait UsbTransport: Sized {
    /// Ghost log of the transfer attempts issued so far. Backends that
    /// want contracts over their traffic override it; the default is the
    /// empty log.
    open spec fn requests(&self) -> Seq<TransferRecord> {
        Seq::empty()
    }

    /// Perform a control transfer OUT (host to device); returns bytes written.
    fn control_out(&mut self, transfer: &ControlTransfer, data: &Vec<u8>) -> (r: Result<usize, Error>)
        ensures
            final(self).requests() == old(self).requests().push(TransferRecord::ControlOut {
                transfer: *transfer,
                data: data@,
            }),
            r matches Ok(n) ==> n <= data@.len(),
    ;

    /// Perform a control transfer IN (device to host) of at most `length` bytes.
    fn control_in(&mut self, transfer: &ControlTransfer, length: usize) -> (r: Result<Vec<u8>, Error>)
        ensures
            final(self).requests() == old(self).requests().push(TransferRecord::ControlIn {
                transfer: *transfer,
                length: length as int,
            }),
            r matches Ok(buf) ==> buf@.len() <= length,
    ;

    /// Perform a bulk transfer OUT; returns bytes written.
    fn bulk_out(&mut self, transfer: &BulkTransfer, data: &Vec<u8>) -> (r: Result<usize, Error>)
        ensures
            final(self).requests() == old(self).requests().push(TransferRecord::BulkOut {
                transfer: *transfer,
                data: data@,
            }),
            r matches Ok(n) ==> n <= data@.len(),
    ;

    /// Perform a bulk transfer IN of at most `length` bytes.
    fn bulk_in(&mut self, transfer: &BulkTransfer, length: usize) -> (r: Result<Vec<u8>, Error>)
        ensures
            final(self).requests() == old(self).requests().push(TransferRecord::BulkIn {
                transfer: *transfer,
                length: length as int,
            }),
            r matches Ok(buf) ==> buf@.len() <= length,
    ;

    /// Whether the transport believes it is connected. Advisory only: a
    /// transport may not notice a disconnection until the next transfer fails.
    fn is_connected(&self) -> bool;

    /// Name of the transport backend, for display.
    fn transport_name(&self) -> &'static str;
}

/// Transport backend selector.
#[derive(Debug, Clone, Copy, PartialEq, Eq, Structural)]
pub enum TransportType {
    /// Direct local USB.
    DirectUsb,
    /// USB over the network.
    UsbIp,
    /// Test double.
    Mock,
}

impl TransportType {
    /// Display name of the selected backend.
    pub open spec fn spec_str(self) -> Seq<char> {
        match self {
            TransportType::DirectUsb => "Direct USB"@,
            TransportType::UsbIp => "USB/IP"@,
            TransportType::Mock => "Mock"@,
        }
    }

    /// Display name of the selected backend.
    pub fn as_str(&self) -> (r: &'static str)
        ensures
            r@ == self.spec_str(),
    {
        match self {
            TransportType::DirectUsb => "Direct USB",
            TransportType::UsbIp => "USB/IP",
            TransportType::Mock => "Mock",
        }
    }
}

/// Builder collecting the parameters of a direct local USB transport. The
/// backend itself talks to the platform USB stack and lives outside the
/// verified library; it is constructed from the parameters gathered here.
#[derive(Debug, Clone, Copy, PartialEq, Eq, Structural)]
pub struct DirectUsbTransportBuilder {
    /// USB interface number the transport will claim.
    pub interface_number: u8,
}

impl DirectUsbTransportBuilder {
    /// Start from the defaults: interface 0.
    pub fn new() -> (r: Self)
        ensures
            r.interface_number == 0,
    {
        DirectUsbTransportBuilder { interface_number: 0 }
    }

    /// Set the interface number to claim.
    pub fn interface(self, number: u8) -> (r: Self)
        ensures
            r.interface_number == number,
    {
        DirectUsbTransportBuilder { interface_number: number }
    }
}

/// Perform a simple vendor OUT transfer with data.
pub fn vendor_write<T: UsbTransport>(
    transport: &mut T,
    request: u8,
    value: u16,
    index: u16,
    data: &Vec<u8>,
) -> (r: Result<(), Error>)
    ensures
        final(transport).requests() == old(transport).requests().push(TransferRecord::ControlOut {
            transfer: ControlTransfer::spec_vendor_out(request, value, index),
            data: data@,
        }),
{
    let transfer = ControlTransfer::vendor_out(request, value, index);
    match transport.control_out(&transfer, data) {
        Ok(_) => Ok(()),
        Err(e) => Err(e),
    }
}

/// Perform a simple vendor IN transfer of at most `length` bytes.
pub fn vendor_read<T: UsbTransport>(
    transport: &mut T,
    request: u8,
    value: u16,
    index: u16,
    length: usize,
) -> (r: Result<Vec<u8>, Error>)
    ensures
        final(transport).requests() == old(transport).requests().push(TransferRecord::ControlIn {
            transfer: ControlTransfer::spec_vendor_in(request, value, index),
            length: length as int,
        }),
        r matches Ok(buf) ==> buf@.len() <= length,
{
    let transfer = ControlTransfer::vendor_in(request, value, index);
    transport.control_in(&transfer, length)
}

/// Perform a class OUT transfer with data.
pub fn class_write<T: UsbTransport>(
    transport: &mut T,
    request: u8,
    value: u16,
    index: u16,
    data: &Vec<u8>,
) -> (r: Result<(), Error>)
    ensures
        final(transport).requests() == old(transport).requests().push(TransferRecord::ControlOut {
            transfer: ControlTransfer::spec_class_out(request, value, index),
            data: data@,
        }),
{
    let transfer = ControlTransfer::class_out(request, value, index);
    match transport.control_out(&transfer, data) {
        Ok(_) => Ok(()),
        Err(e) => Err(e),
    }
}

/// Perform a class IN transfer of at most `length` bytes.
pub fn class_read<T: UsbTransport>(
    transport: &mut T,
    request: u8,
    value: u16,
    index: u16,
    length: usize,
) -> (r: Result<Vec<u8>, Error>)
    ensures
        final(transport).requests() == old(transport).requests().push(TransferRecord::ControlIn {
            transfer: ControlTransfer::spec_class_in(request, value, index),
            length: length as int,
        }),
        r matches Ok(buf) ==> buf@.len() <= length,
{
    let transfer = ControlTransfer::class_in(request, value, index);
    transport.control_in(&transfer, length)
}

} // verus!
