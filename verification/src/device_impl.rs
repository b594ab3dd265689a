//! One open USB device: identity plus the protocol engine its generation
//! calls for, and the per-model capability tables.

use vstd::prelude::*;
use vstd::string::StringExecFns;

use crate::device::{Device, DeviceGeneration, DeviceInfo, DeviceModel};
use crate::error::Error;
use crate::fcp::{spec_inc16, spec_init_requests, FcpProtocol};
use crate::scarlett2::Scarlett2Protocol;
use crate::transport::UsbTransport;

verus! {

/// The protocol state of an open device, by generation family.
pub enum DeviceType<T: UsbTransport> {
    /// Gen 4 devices, speaking FCP.
    Gen4Fcp { protocol: FcpProtocol<T> },
    /// Gen 2 and Gen 3 devices, speaking the Scarlett2 protocol.
    Gen2Or3 { protocol: Scarlett2Protocol<T> },
}

/// An open device: identity, protocol engine, connectivity flag.
pub struct UsbDevice<T: UsbTransport> {
    pub info: DeviceInfo,
    pub device_type: DeviceType<T>,
    pub connected: bool,
}

/// Number of input channels of a model, as the capability table has it.
pub open spec fn spec_num_inputs(m: DeviceModel) -> usize {
    match m {
        DeviceModel::Scarlett2i2Gen3 | DeviceModel::Scarlett2i2Gen4 => 2,
        DeviceModel::Scarlett4i4Gen3 | DeviceModel::Scarlett4i4Gen4 => 4,
        DeviceModel::Scarlett6i6Gen2 => 6,
        DeviceModel::Scarlett8i6Gen3 => 8,
        DeviceModel::Scarlett18i8Gen2 | DeviceModel::Scarlett18i8Gen3 => 18,
        DeviceModel::Scarlett18i20Gen2
        | DeviceModel::Scarlett18i20Gen3
        | DeviceModel::Scarlett18i20Gen4 => 18,
        DeviceModel::Scarlett16i16Gen4 => 16,
        DeviceModel::Scarlett18i16Gen4 => 18,
        _ => 0,
    }
}

/// Number of output channels of a model.
pub open spec fn spec_num_outputs(m: DeviceModel) -> usize {
    match m {
        DeviceModel::Scarlett2i2Gen3 | DeviceModel::Scarlett2i2Gen4 => 2,
        DeviceModel::Scarlett4i4Gen3 | DeviceModel::Scarlett4i4Gen4 => 4,
        DeviceModel::Scarlett6i6Gen2 => 6,
        DeviceModel::Scarlett8i6Gen3 => 6,
        DeviceModel::Scarlett18i8Gen2 | DeviceModel::Scarlett18i8Gen3 => 8,
        DeviceModel::Scarlett18i20Gen2
        | DeviceModel::Scarlett18i20Gen3
        | DeviceModel::Scarlett18i20Gen4 => 20,
        DeviceModel::Scarlett16i16Gen4 => 16,
        DeviceModel::Scarlett18i16Gen4 => 16,
        _ => 0,
    }
}

/// Number of mixer inputs of a model.
pub open spec fn spec_num_mixer_inputs(m: DeviceModel) -> usize {
    match m {
        DeviceModel::Scarlett18i20Gen2
        | DeviceModel::Scarlett18i20Gen3
        | DeviceModel::Scarlett18i20Gen4 => 25,
        DeviceModel::Scarlett4i4Gen3 | DeviceModel::Scarlett4i4Gen4 => 8,
        DeviceModel::Scarlett8i6Gen3 => 18,
        DeviceModel::Scarlett18i8Gen3 => 20,
        DeviceModel::Scarlett16i16Gen4 => 18,
        DeviceModel::Scarlett18i16Gen4 => 20,
        _ => 0,
    }
}

/// Whether a model has a hardware mixer: all but the Solo and 2i2 models.
pub open spec fn spec_has_mixer(m: DeviceModel) -> bool {
    !(m == DeviceModel::ScarlettSoloGen3 || m == DeviceModel::Scarlett2i2Gen3 || m
        == DeviceModel::ScarlettSoloGen4 || m == DeviceModel::Scarlett2i2Gen4)
}

impl<T: UsbTransport> UsbDevice<T> {
    /// Open a device: bind the protocol engine its generation calls for to
    /// the given transport. Generations without an implemented wire
    /// protocol are refused as not supported.
    pub fn open(info: DeviceInfo, transport: T) -> (r: Result<UsbDevice<T>, Error>)
        ensures
            info.model.spec_generation() == DeviceGeneration::Gen4 ==> {
                &&& r matches Ok(d)
                &&& d.info == info
                &&& d.connected
                &&& d.device_type matches DeviceType::Gen4Fcp { protocol }
                &&& protocol.transport == transport
                &&& !protocol.initialized
                &&& protocol.seq_num == 0
                &&& protocol.interface_num == 0
            },
            info.model.spec_generation() == DeviceGeneration::Gen2
                || info.model.spec_generation() == DeviceGeneration::Gen3 ==> {
                &&& r matches Ok(d)
                &&& d.info == info
                &&& d.connected
                &&& d.device_type matches DeviceType::Gen2Or3 { protocol }
                &&& protocol.transport == transport
                &&& protocol.sequence == 0
            },
            info.model.spec_generation() != DeviceGeneration::Gen2 && info.model.spec_generation()
                != DeviceGeneration::Gen3 && info.model.spec_generation()
                != DeviceGeneration::Gen4 ==> (r matches Err(e) && e is NotSupported),
    {
        let generation = info.model.generation();

        let device_type = match generation {
            DeviceGeneration::Gen4 => DeviceType::Gen4Fcp {
                protocol: FcpProtocol::new(transport),
            },
            DeviceGeneration::Gen2 | DeviceGeneration::Gen3 => DeviceType::Gen2Or3 {
                protocol: Scarlett2Protocol::new(transport),
            },
            _ => {
                return Err(
                    Error::NotSupported(String::from_str("generation has no wire protocol yet")),
                );
            },
        };

        Ok(UsbDevice { info, device_type, connected: true })
    }

    /// Initialize the device: Gen 4 runs the FCP init handshake; Gen 2/3
    /// initialization is a no-op here (a single INIT command precedes use,
    /// by convention of the Scarlett2 engine).
    pub fn initialize(&mut self) -> (r: Result<(), Error>)
        ensures
            final(self).info == old(self).info,
            final(self).connected == old(self).connected,
            old(self).device_type matches DeviceType::Gen2Or3 { .. } ==> r == Ok::<(), Error>(())
                && *final(self) == *old(self),
            old(self).device_type matches DeviceType::Gen4Fcp { protocol: p0 } ==> (r is Ok ==> ({
                &&& final(self).device_type matches DeviceType::Gen4Fcp { protocol }
                &&& protocol.initialized
                &&& protocol.interface_num == p0.interface_num
                &&& protocol.seq_num == spec_inc16(spec_inc16(p0.seq_num))
                &&& protocol.transport.requests() == spec_init_requests(
                    p0.transport.requests(),
                    p0.seq_num,
                    p0.interface_num,
                )
            })),
    {
        match &mut self.device_type {
            DeviceType::Gen4Fcp { protocol } => match protocol.init() {
                Ok(_) => Ok(()),
                Err(e) => Err(e),
            },
            DeviceType::Gen2Or3 { .. } => Ok(()),
        }
    }
}

impl<T: UsbTransport> Device for UsbDevice<T> {
    /// Get device information.
    fn info(&self) -> (r: &DeviceInfo)
        ensures
            r == self.info,
    {
        &self.info
    }

    /// Check if the device is connected.
    fn is_connected(&self) -> (r: bool)
        ensures
            r == self.connected,
    {
        self.connected
    }

    /// Number of input channels.
    fn num_inputs(&self) -> (r: usize)
        ensures
            r == spec_num_inputs(self.info.model),
    {
        match self.info.model {
            DeviceModel::Scarlett2i2Gen3 | DeviceModel::Scarlett2i2Gen4 => 2,
            DeviceModel::Scarlett4i4Gen3 | DeviceModel::Scarlett4i4Gen4 => 4,
            DeviceModel::Scarlett6i6Gen2 => 6,
            DeviceModel::Scarlett8i6Gen3 => 8,
            DeviceModel::Scarlett18i8Gen2 | DeviceModel::Scarlett18i8Gen3 => 18,
            DeviceModel::Scarlett18i20Gen2
            | DeviceModel::Scarlett18i20Gen3
            | DeviceModel::Scarlett18i20Gen4 => 18,
            DeviceModel::Scarlett16i16Gen4 => 16,
            DeviceModel::Scarlett18i16Gen4 => 18,
            _ => 0,
        }
    }

    /// Number of output channels.
    fn num_outputs(&self) -> (r: usize)
        ensures
            r == spec_num_outputs(self.info.model),
    {
        match self.info.model {
            DeviceModel::Scarlett2i2Gen3 | DeviceModel::Scarlett2i2Gen4 => 2,
            DeviceModel::Scarlett4i4Gen3 | DeviceModel::Scarlett4i4Gen4 => 4,
            DeviceModel::Scarlett6i6Gen2 => 6,
            DeviceModel::Scarlett8i6Gen3 => 6,
            DeviceModel::Scarlett18i8Gen2 | DeviceModel::Scarlett18i8Gen3 => 8,
            DeviceModel::Scarlett18i20Gen2
            | DeviceModel::Scarlett18i20Gen3
            | DeviceModel::Scarlett18i20Gen4 => 20,
            DeviceModel::Scarlett16i16Gen4 => 16,
            DeviceModel::Scarlett18i16Gen4 => 16,
            _ => 0,
        }
    }

    /// Number of mixer inputs.
    fn num_mixer_inputs(&self) -> (r: usize)
        ensures
            r == spec_num_mixer_inputs(self.info.model),
    {
        match self.info.model {
            DeviceModel::Scarlett18i20Gen2
            | DeviceModel::Scarlett18i20Gen3
            | DeviceModel::Scarlett18i20Gen4 => 25,
            DeviceModel::Scarlett4i4Gen3 | DeviceModel::Scarlett4i4Gen4 => 8,
            DeviceModel::Scarlett8i6Gen3 => 18,
            DeviceModel::Scarlett18i8Gen3 => 20,
            DeviceModel::Scarlett16i16Gen4 => 18,
            DeviceModel::Scarlett18i16Gen4 => 20,
            _ => 0,
        }
    }

    /// Whether the device has a hardware mixer: the Solo and 2i2 models
    /// have none.
    fn has_mixer(&self) -> (r: bool)
        ensures
            r == spec_has_mixer(self.info.model),
    {
        !(matches!(self.info.model, DeviceModel::ScarlettSoloGen3) || matches!(
            self.info.model,
            DeviceModel::Scarlett2i2Gen3,
        ) || matches!(self.info.model, DeviceModel::ScarlettSoloGen4) || matches!(
            self.info.model,
            DeviceModel::Scarlett2i2Gen4,
        ))
    }

    /// Whether the device has a routing matrix: the same models that have
    /// a mixer.
    fn has_routing(&self) -> (r: bool)
        ensures
            r == spec_has_mixer(self.info.model),
    {
        !(matches!(self.info.model, DeviceModel::ScarlettSoloGen3) || matches!(
            self.info.model,
            DeviceModel::Scarlett2i2Gen3,
        ) || matches!(self.info.model, DeviceModel::ScarlettSoloGen4) || matches!(
            self.info.model,
            DeviceModel::Scarlett2i2Gen4,
        ))
    }
}

} // verus!
