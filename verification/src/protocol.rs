//! Protocol constants and the per-generation dispatcher.
//!
//! The dispatcher is a pure match over the generation tag: Gen 4 devices
//! get the FCP engine, Gen 2 and Gen 3 devices get the Scarlett2 engine,
//! and every other generation gets an explicit placeholder, so the
//! dispatcher stays total (those generations have no implemented wire
//! protocol yet; that is a non-goal, not a bug).

use vstd::prelude::*;

use crate::device::DeviceGeneration;
use crate::fcp::FcpProtocol;
use crate::scarlett2::Scarlett2Protocol;
use crate::transport::UsbTransport;

verus! {

/// Offset of the command region in the Gen 2/3 configuration space.
pub const CMD_OFFSET: u16 = 0x0000;

/// Flash segment holding the device settings (Gen 2/3).
pub const FLASH_SEGMENT_ID_SETTINGS: u8 = 0;

/// Flash segment holding the firmware (Gen 2/3).
pub const FLASH_SEGMENT_ID_FIRMWARE: u8 = 1;

/// Raw USB control transfer parameters.
#[derive(Debug, Clone, Copy, PartialEq, Eq, Structural)]
pub struct UsbControl {
    pub request_type: u8,
    pub request: u8,
    pub value: u16,
    pub index: u16,
}

impl UsbControl {
    /// Bundle the four control transfer parameters.
    pub fn new(request_type: u8, request: u8, value: u16, index: u16) -> (r: Self)
        ensures
            r == (UsbControl { request_type, request, value, index }),
    {
        UsbControl { request_type, request, value, index }
    }
}

/// A protocol engine bound to one device, chosen by generation.
pub enum ProtocolEngine<T: UsbTransport> {
    /// The FCP engine, for Gen 4 devices.
    Fcp(FcpProtocol<T>),
    /// The Scarlett2 engine, for Gen 2 and Gen 3 devices.
    Scarlett2(Scarlett2Protocol<T>),
    /// A generation with no implemented wire protocol: an explicit
    /// placeholder that returns well-defined empty results.
    Stub(DeviceGeneration),
}

/// Construct the protocol engine matching a device generation, bound to
/// the given transport. Pure dispatch: Gen 4 gets an uninitialized FCP
/// engine, Gen 2 and Gen 3 get a fresh Scarlett2 engine, every other
/// generation gets the placeholder.
pub fn create_protocol<T: UsbTransport>(generation: DeviceGeneration, transport: T) -> (r:
    ProtocolEngine<T>)
    ensures
        generation == DeviceGeneration::Gen4 ==> {
            &&& r matches ProtocolEngine::Fcp(p)
            &&& p.transport == transport
            &&& !p.initialized
            &&& p.seq_num == 0
            &&& p.interface_num == 0
        },
        generation == DeviceGeneration::Gen2 || generation == DeviceGeneration::Gen3 ==> {
            &&& r matches ProtocolEngine::Scarlett2(p)
            &&& p.transport == transport
            &&& p.sequence == 0
        },
        generation != DeviceGeneration::Gen2 && generation != DeviceGeneration::Gen3 && generation
            != DeviceGeneration::Gen4 ==> r == ProtocolEngine::<T>::Stub(generation),
{
    match generation {
        DeviceGeneration::Gen4 => ProtocolEngine::Fcp(FcpProtocol::new(transport)),
        DeviceGeneration::Gen2 => ProtocolEngine::Scarlett2(Scarlett2Protocol::new(transport)),
        DeviceGeneration::Gen3 => ProtocolEngine::Scarlett2(Scarlett2Protocol::new(transport)),
        _ => ProtocolEngine::Stub(generation),
    }
}

} // verus!
