//! Control engine for Focusrite Scarlett-family USB audio interfaces.
//!
//! The engine is layered leaf to root: a transport abstraction over USB
//! control transfers, two protocol engines (the Scarlett2 framing for
//! Gen 2/3 devices and the FCP framing for Gen 4 devices), a firmware
//! container parser, static device identity tables, and a hotplug
//! detector that diffs device snapshots into connect/disconnect events.

use vstd::prelude::*;

pub mod detector;
pub mod device;
pub mod device_impl;
pub mod error;
pub mod fcp;
pub mod firmware;
pub mod hotkeys;
pub mod protocol;
pub mod routing;
pub mod scarlett2;
pub mod transport;
pub mod wire;

pub use detector::{DeviceDetector, HotplugEvent};
pub use device::{Device, DeviceGeneration, DeviceInfo, DeviceModel};
pub use device_impl::UsbDevice;
pub use error::{Error, FirmwareError, ProtocolError};
pub use transport::{ControlTransfer, Direction, TransportType, UsbTransport};

verus! {

/// Focusrite USB Vendor ID.
pub const FOCUSRITE_VENDOR_ID: u16 = 0x1235;

/// Maximum number of channels supported by any known model.
pub const MAX_CHANNELS: usize = 92;

/// Prepare the USB subsystem. Nothing to do for the engine itself; kept as
/// the explicit entry point of the layer.
pub fn init() -> (r: Result<(), Error>)
    ensures
        r == Ok::<(), Error>(()),
{
    Ok(())
}

} // verus!
