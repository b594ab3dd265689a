//! Device identity: models, generations, USB product ids, display names.
//!
//! The tables are compile-time constants; lookups are pure functions. Within
//! the table the product id identifies the model, with one documented
//! exception: the Clarett+ 8Pre shares 0x820C with the Scarlett 18i20 Gen 2
//! (a known conflict in the source hardware tables); the reverse lookup
//! resolves that id to the Scarlett 18i20 Gen 2.

use vstd::prelude::*;

verus! {

/// Scarlett device generation.
#[derive(Debug, Clone, Copy, PartialEq, Eq, Structural)]
pub enum DeviceGeneration {
    Gen1,
    Gen2,
    Gen3,
    Gen4,
    Clarett,
    ClarettPlus,
    Vocaster,
}

/// Specific device models.
#[derive(Debug, Clone, Copy, PartialEq, Eq, Structural)]
pub enum DeviceModel {
    // Gen 1
    Scarlett6i6Gen1,
    Scarlett8i6Gen1,
    Scarlett18i6Gen1,
    Scarlett18i8Gen1,
    Scarlett18i20Gen1,
    // Gen 2
    Scarlett6i6Gen2,
    Scarlett18i8Gen2,
    Scarlett18i20Gen2,
    // Gen 3
    ScarlettSoloGen3,
    Scarlett2i2Gen3,
    Scarlett4i4Gen3,
    Scarlett8i6Gen3,
    Scarlett18i8Gen3,
    Scarlett18i20Gen3,
    // Gen 4
    ScarlettSoloGen4,
    Scarlett2i2Gen4,
    Scarlett4i4Gen4,
    Scarlett16i16Gen4,
    Scarlett18i16Gen4,
    Scarlett18i20Gen4,
    // Clarett USB
    Clarett2PreUsb,
    Clarett4PreUsb,
    Clarett8PreUsb,
    // Clarett+
    Clarett2PrePlus,
    Clarett4PrePlus,
    Clarett8PrePlus,
    // Vocaster
    VocasterOne,
    VocasterTwo,
}

impl DeviceModel {
    /// Generation of the model, as a pure function.
    pub open spec fn spec_generation(self) -> DeviceGeneration {
        match self {
            DeviceModel::Scarlett6i6Gen1
            | DeviceModel::Scarlett8i6Gen1
            | DeviceModel::Scarlett18i6Gen1
            | DeviceModel::Scarlett18i8Gen1
            | DeviceModel::Scarlett18i20Gen1 => DeviceGeneration::Gen1,
            DeviceModel::Scarlett6i6Gen2
            | DeviceModel::Scarlett18i8Gen2
            | DeviceModel::Scarlett18i20Gen2 => DeviceGeneration::Gen2,
            DeviceModel::ScarlettSoloGen3
            | DeviceModel::Scarlett2i2Gen3
            | DeviceModel::Scarlett4i4Gen3
            | DeviceModel::Scarlett8i6Gen3
            | DeviceModel::Scarlett18i8Gen3
            | DeviceModel::Scarlett18i20Gen3 => DeviceGeneration::Gen3,
            DeviceModel::ScarlettSoloGen4
            | DeviceModel::Scarlett2i2Gen4
            | DeviceModel::Scarlett4i4Gen4
            | DeviceModel::Scarlett16i16Gen4
            | DeviceModel::Scarlett18i16Gen4
            | DeviceModel::Scarlett18i20Gen4 => DeviceGeneration::Gen4,
            DeviceModel::Clarett2PreUsb
            | DeviceModel::Clarett4PreUsb
            | DeviceModel::Clarett8PreUsb => DeviceGeneration::Clarett,
            DeviceModel::Clarett2PrePlus
            | DeviceModel::Clarett4PrePlus
            | DeviceModel::Clarett8PrePlus => DeviceGeneration::ClarettPlus,
            DeviceModel::VocasterOne | DeviceModel::VocasterTwo => DeviceGeneration::Vocaster,
        }
    }

    /// Get the device generation.
    pub fn generation(&self) -> (r: DeviceGeneration)
        ensures
            r == self.spec_generation(),
    {
        match self {
            DeviceModel::Scarlett6i6Gen1
            | DeviceModel::Scarlett8i6Gen1
            | DeviceModel::Scarlett18i6Gen1
            | DeviceModel::Scarlett18i8Gen1
            | DeviceModel::Scarlett18i20Gen1 => DeviceGeneration::Gen1,
            DeviceModel::Scarlett6i6Gen2
            | DeviceModel::Scarlett18i8Gen2
            | DeviceModel::Scarlett18i20Gen2 => DeviceGeneration::Gen2,
            DeviceModel::ScarlettSoloGen3
            | DeviceModel::Scarlett2i2Gen3
            | DeviceModel::Scarlett4i4Gen3
            | DeviceModel::Scarlett8i6Gen3
            | DeviceModel::Scarlett18i8Gen3
            | DeviceModel::Scarlett18i20Gen3 => DeviceGeneration::Gen3,
            DeviceModel::ScarlettSoloGen4
            | DeviceModel::Scarlett2i2Gen4
            | DeviceModel::Scarlett4i4Gen4
            | DeviceModel::Scarlett16i16Gen4
            | DeviceModel::Scarlett18i16Gen4
            | DeviceModel::Scarlett18i20Gen4 => DeviceGeneration::Gen4,
            DeviceModel::Clarett2PreUsb
            | DeviceModel::Clarett4PreUsb
            | DeviceModel::Clarett8PreUsb => DeviceGeneration::Clarett,
            DeviceModel::Clarett2PrePlus
            | DeviceModel::Clarett4PrePlus
            | DeviceModel::Clarett8PrePlus => DeviceGeneration::ClarettPlus,
            DeviceModel::VocasterOne | DeviceModel::VocasterTwo => DeviceGeneration::Vocaster,
        }
    }

    /// USB product id of the model, as a pure function.
    pub open spec fn spec_product_id(self) -> u16 {
        match self {
            DeviceModel::Scarlett6i6Gen1 => 0x8203,
            DeviceModel::Scarlett8i6Gen1 => 0x8204,
            DeviceModel::Scarlett18i6Gen1 => 0x8201,
            DeviceModel::Scarlett18i8Gen1 => 0x8202,
            DeviceModel::Scarlett18i20Gen1 => 0x8200,
            DeviceModel::Scarlett6i6Gen2 => 0x8211,
            DeviceModel::Scarlett18i8Gen2 => 0x8210,
            DeviceModel::Scarlett18i20Gen2 => 0x820C,
            DeviceModel::ScarlettSoloGen3 => 0x8215,
            DeviceModel::Scarlett2i2Gen3 => 0x8214,
            DeviceModel::Scarlett4i4Gen3 => 0x8213,
            DeviceModel::Scarlett8i6Gen3 => 0x8212,
            DeviceModel::Scarlett18i8Gen3 => 0x8217,
            DeviceModel::Scarlett18i20Gen3 => 0x8218,
            DeviceModel::ScarlettSoloGen4 => 0x8223,
            DeviceModel::Scarlett2i2Gen4 => 0x8222,
            DeviceModel::Scarlett4i4Gen4 => 0x8221,
            DeviceModel::Scarlett16i16Gen4 => 0x8220,
            DeviceModel::Scarlett18i16Gen4 => 0x821F,
            DeviceModel::Scarlett18i20Gen4 => 0x821E,
            DeviceModel::Clarett2PreUsb => 0x8206,
            DeviceModel::Clarett4PreUsb => 0x8207,
            DeviceModel::Clarett8PreUsb => 0x8208,
            DeviceModel::Clarett2PrePlus => 0x820A,
            DeviceModel::Clarett4PrePlus => 0x820B,
            DeviceModel::Clarett8PrePlus => 0x820C,
            DeviceModel::VocasterOne => 0x8209,
            DeviceModel::VocasterTwo => 0x8219,
        }
    }

    /// Get the USB product id for this device.
    pub fn product_id(&self) -> (r: u16)
        ensures
            r == self.spec_product_id(),
    {
        match self {
            DeviceModel::Scarlett6i6Gen1 => 0x8203,
            DeviceModel::Scarlett8i6Gen1 => 0x8204,
            DeviceModel::Scarlett18i6Gen1 => 0x8201,
            DeviceModel::Scarlett18i8Gen1 => 0x8202,
            DeviceModel::Scarlett18i20Gen1 => 0x8200,
            DeviceModel::Scarlett6i6Gen2 => 0x8211,
            DeviceModel::Scarlett18i8Gen2 => 0x8210,
            DeviceModel::Scarlett18i20Gen2 => 0x820C,
            DeviceModel::ScarlettSoloGen3 => 0x8215,
            DeviceModel::Scarlett2i2Gen3 => 0x8214,
            DeviceModel::Scarlett4i4Gen3 => 0x8213,
            DeviceModel::Scarlett8i6Gen3 => 0x8212,
            DeviceModel::Scarlett18i8Gen3 => 0x8217,
            DeviceModel::Scarlett18i20Gen3 => 0x8218,
            DeviceModel::ScarlettSoloGen4 => 0x8223,
            DeviceModel::Scarlett2i2Gen4 => 0x8222,
            DeviceModel::Scarlett4i4Gen4 => 0x8221,
            DeviceModel::Scarlett16i16Gen4 => 0x8220,
            DeviceModel::Scarlett18i16Gen4 => 0x821F,
            DeviceModel::Scarlett18i20Gen4 => 0x821E,
            DeviceModel::Clarett2PreUsb => 0x8206,
            DeviceModel::Clarett4PreUsb => 0x8207,
            DeviceModel::Clarett8PreUsb => 0x8208,
            DeviceModel::Clarett2PrePlus => 0x820A,
            DeviceModel::Clarett4PrePlus => 0x820B,
            DeviceModel::Clarett8PrePlus => 0x820C,
            DeviceModel::VocasterOne => 0x8209,
            DeviceModel::VocasterTwo => 0x8219,
        }
    }

    /// Display name of the model, as a pure function.
    pub open spec fn spec_name(self) -> Seq<char> {
        match self {
            DeviceModel::Scarlett6i6Gen1 => "Scarlett 6i6 (1st Gen)"@,
            DeviceModel::Scarlett8i6Gen1 => "Scarlett 8i6 (1st Gen)"@,
            DeviceModel::Scarlett18i6Gen1 => "Scarlett 18i6 (1st Gen)"@,
            DeviceModel::Scarlett18i8Gen1 => "Scarlett 18i8 (1st Gen)"@,
            DeviceModel::Scarlett18i20Gen1 => "Scarlett 18i20 (1st Gen)"@,
            DeviceModel::Scarlett6i6Gen2 => "Scarlett 6i6 (2nd Gen)"@,
            DeviceModel::Scarlett18i8Gen2 => "Scarlett 18i8 (2nd Gen)"@,
            DeviceModel::Scarlett18i20Gen2 => "Scarlett 18i20 (2nd Gen)"@,
            DeviceModel::ScarlettSoloGen3 => "Scarlett Solo (3rd Gen)"@,
            DeviceModel::Scarlett2i2Gen3 => "Scarlett 2i2 (3rd Gen)"@,
            DeviceModel::Scarlett4i4Gen3 => "Scarlett 4i4 (3rd Gen)"@,
            DeviceModel::Scarlett8i6Gen3 => "Scarlett 8i6 (3rd Gen)"@,
            DeviceModel::Scarlett18i8Gen3 => "Scarlett 18i8 (3rd Gen)"@,
            DeviceModel::Scarlett18i20Gen3 => "Scarlett 18i20 (3rd Gen)"@,
            DeviceModel::ScarlettSoloGen4 => "Scarlett Solo (4th Gen)"@,
            DeviceModel::Scarlett2i2Gen4 => "Scarlett 2i2 (4th Gen)"@,
            DeviceModel::Scarlett4i4Gen4 => "Scarlett 4i4 (4th Gen)"@,
            DeviceModel::Scarlett16i16Gen4 => "Scarlett 16i16 (4th Gen)"@,
            DeviceModel::Scarlett18i16Gen4 => "Scarlett 18i16 (4th Gen)"@,
            DeviceModel::Scarlett18i20Gen4 => "Scarlett 18i20 (4th Gen)"@,
            DeviceModel::Clarett2PreUsb => "Clarett 2Pre USB"@,
            DeviceModel::Clarett4PreUsb => "Clarett 4Pre USB"@,
            DeviceModel::Clarett8PreUsb => "Clarett 8Pre USB"@,
            DeviceModel::Clarett2PrePlus => "Clarett+ 2Pre"@,
            DeviceModel::Clarett4PrePlus => "Clarett+ 4Pre"@,
            DeviceModel::Clarett8PrePlus => "Clarett+ 8Pre"@,
            DeviceModel::VocasterOne => "Vocaster One"@,
            DeviceModel::VocasterTwo => "Vocaster Two"@,
        }
    }

    /// Get the friendly name of the device.
    pub fn name(&self) -> (r: &'static str)
        ensures
            r@ == self.spec_name(),
    {
        match self {
            DeviceModel::Scarlett6i6Gen1 => "Scarlett 6i6 (1st Gen)",
            DeviceModel::Scarlett8i6Gen1 => "Scarlett 8i6 (1st Gen)",
            DeviceModel::Scarlett18i6Gen1 => "Scarlett 18i6 (1st Gen)",
            DeviceModel::Scarlett18i8Gen1 => "Scarlett 18i8 (1st Gen)",
            DeviceModel::Scarlett18i20Gen1 => "Scarlett 18i20 (1st Gen)",
            DeviceModel::Scarlett6i6Gen2 => "Scarlett 6i6 (2nd Gen)",
            DeviceModel::Scarlett18i8Gen2 => "Scarlett 18i8 (2nd Gen)",
            DeviceModel::Scarlett18i20Gen2 => "Scarlett 18i20 (2nd Gen)",
            DeviceModel::ScarlettSoloGen3 => "Scarlett Solo (3rd Gen)",
            DeviceModel::Scarlett2i2Gen3 => "Scarlett 2i2 (3rd Gen)",
            DeviceModel::Scarlett4i4Gen3 => "Scarlett 4i4 (3rd Gen)",
            DeviceModel::Scarlett8i6Gen3 => "Scarlett 8i6 (3rd Gen)",
            DeviceModel::Scarlett18i8Gen3 => "Scarlett 18i8 (3rd Gen)",
            DeviceModel::Scarlett18i20Gen3 => "Scarlett 18i20 (3rd Gen)",
            DeviceModel::ScarlettSoloGen4 => "Scarlett Solo (4th Gen)",
            DeviceModel::Scarlett2i2Gen4 => "Scarlett 2i2 (4th Gen)",
            DeviceModel::Scarlett4i4Gen4 => "Scarlett 4i4 (4th Gen)",
            DeviceModel::Scarlett16i16Gen4 => "Scarlett 16i16 (4th Gen)",
            DeviceModel::Scarlett18i16Gen4 => "Scarlett 18i16 (4th Gen)",
            DeviceModel::Scarlett18i20Gen4 => "Scarlett 18i20 (4th Gen)",
            DeviceModel::Clarett2PreUsb => "Clarett 2Pre USB",
            DeviceModel::Clarett4PreUsb => "Clarett 4Pre USB",
            DeviceModel::Clarett8PreUsb => "Clarett 8Pre USB",
            DeviceModel::Clarett2PrePlus => "Clarett+ 2Pre",
            DeviceModel::Clarett4PrePlus => "Clarett+ 4Pre",
            DeviceModel::Clarett8PrePlus => "Clarett+ 8Pre",
            DeviceModel::VocasterOne => "Vocaster One",
            DeviceModel::VocasterTwo => "Vocaster Two",
        }
    }

    /// Reverse lookup from a USB product id, as a pure function. Unlisted
    /// ids resolve to nothing; 0x820C resolves to the Scarlett 18i20 Gen 2.
    pub open spec fn spec_from_product_id(pid: u16) -> Option<DeviceModel> {
        if pid == 0x8200 {
            Some(DeviceModel::Scarlett18i20Gen1)
        } else if pid == 0x8201 {
            Some(DeviceModel::Scarlett18i6Gen1)
        } else if pid == 0x8202 {
            Some(DeviceModel::Scarlett18i8Gen1)
        } else if pid == 0x8203 {
            Some(DeviceModel::Scarlett6i6Gen1)
        } else if pid == 0x8204 {
            Some(DeviceModel::Scarlett8i6Gen1)
        } else if pid == 0x820C {
            Some(DeviceModel::Scarlett18i20Gen2)
        } else if pid == 0x8210 {
            Some(DeviceModel::Scarlett18i8Gen2)
        } else if pid == 0x8211 {
            Some(DeviceModel::Scarlett6i6Gen2)
        } else if pid == 0x8212 {
            Some(DeviceModel::Scarlett8i6Gen3)
        } else if pid == 0x8213 {
            Some(DeviceModel::Scarlett4i4Gen3)
        } else if pid == 0x8214 {
            Some(DeviceModel::Scarlett2i2Gen3)
        } else if pid == 0x8215 {
            Some(DeviceModel::ScarlettSoloGen3)
        } else if pid == 0x8217 {
            Some(DeviceModel::Scarlett18i8Gen3)
        } else if pid == 0x8218 {
            Some(DeviceModel::Scarlett18i20Gen3)
        } else if pid == 0x821E {
            Some(DeviceModel::Scarlett18i20Gen4)
        } else if pid == 0x821F {
            Some(DeviceModel::Scarlett18i16Gen4)
        } else if pid == 0x8220 {
            Some(DeviceModel::Scarlett16i16Gen4)
        } else if pid == 0x8221 {
            Some(DeviceModel::Scarlett4i4Gen4)
        } else if pid == 0x8222 {
            Some(DeviceModel::Scarlett2i2Gen4)
        } else if pid == 0x8223 {
            Some(DeviceModel::ScarlettSoloGen4)
        } else if pid == 0x8206 {
            Some(DeviceModel::Clarett2PreUsb)
        } else if pid == 0x8207 {
            Some(DeviceModel::Clarett4PreUsb)
        } else if pid == 0x8208 {
            Some(DeviceModel::Clarett8PreUsb)
        } else if pid == 0x820A {
            Some(DeviceModel::Clarett2PrePlus)
        } else if pid == 0x820B {
            Some(DeviceModel::Clarett4PrePlus)
        } else if pid == 0x8209 {
            Some(DeviceModel::VocasterOne)
        } else if pid == 0x8219 {
            Some(DeviceModel::VocasterTwo)
        } else {
            None
        }
    }

    /// Try to identify a device model from a USB product id.
    pub fn from_product_id(pid: u16) -> (r: Option<DeviceModel>)
        ensures
            r == Self::spec_from_product_id(pid),
    {
        match pid {
            0x8200 => Some(DeviceModel::Scarlett18i20Gen1),
            0x8201 => Some(DeviceModel::Scarlett18i6Gen1),
            0x8202 => Some(DeviceModel::Scarlett18i8Gen1),
            0x8203 => Some(DeviceModel::Scarlett6i6Gen1),
            0x8204 => Some(DeviceModel::Scarlett8i6Gen1),
            0x820C => Some(DeviceModel::Scarlett18i20Gen2),
            0x8210 => Some(DeviceModel::Scarlett18i8Gen2),
            0x8211 => Some(DeviceModel::Scarlett6i6Gen2),
            0x8212 => Some(DeviceModel::Scarlett8i6Gen3),
            0x8213 => Some(DeviceModel::Scarlett4i4Gen3),
            0x8214 => Some(DeviceModel::Scarlett2i2Gen3),
            0x8215 => Some(DeviceModel::ScarlettSoloGen3),
            0x8217 => Some(DeviceModel::Scarlett18i8Gen3),
            0x8218 => Some(DeviceModel::Scarlett18i20Gen3),
            0x821E => Some(DeviceModel::Scarlett18i20Gen4),
            0x821F => Some(DeviceModel::Scarlett18i16Gen4),
            0x8220 => Some(DeviceModel::Scarlett16i16Gen4),
            0x8221 => Some(DeviceModel::Scarlett4i4Gen4),
            0x8222 => Some(DeviceModel::Scarlett2i2Gen4),
            0x8223 => Some(DeviceModel::ScarlettSoloGen4),
            0x8206 => Some(DeviceModel::Clarett2PreUsb),
            0x8207 => Some(DeviceModel::Clarett4PreUsb),
            0x8208 => Some(DeviceModel::Clarett8PreUsb),
            0x820A => Some(DeviceModel::Clarett2PrePlus),
            0x820B => Some(DeviceModel::Clarett4PrePlus),
            0x8209 => Some(DeviceModel::VocasterOne),
            0x8219 => Some(DeviceModel::VocasterTwo),
            _ => None,
        }
    }
}

/// Law: the identity table round-trips. Looking a model's product id back
/// up yields the model itself, except for the documented 0x820C collision,
/// where the Clarett+ 8Pre resolves to the Scarlett 18i20 Gen 2.
pub proof fn lemma_product_id_roundtrip(m: DeviceModel)
    ensures
        m != DeviceModel::Clarett8PrePlus ==> DeviceModel::spec_from_product_id(
            m.spec_product_id(),
        ) == Some(m),
        DeviceModel::spec_from_product_id(DeviceModel::Clarett8PrePlus.spec_product_id())
            == Some(DeviceModel::Scarlett18i20Gen2),
{
}

/// Law: outside the documented 0x820C collision, the product id identifies
/// the model: two models with the same product id are the same model.
pub proof fn lemma_product_id_injective(a: DeviceModel, b: DeviceModel)
    requires
        a.spec_product_id() == b.spec_product_id(),
        a != DeviceModel::Clarett8PrePlus,
        b != DeviceModel::Clarett8PrePlus,
    ensures
        a == b,
{
    lemma_product_id_roundtrip(a);
    lemma_product_id_roundtrip(b);
}

/// Information about one attached device. The USB path is a stable,
/// transport-derived token used for hotplug identity; the serial number may
/// be unreadable and is then the string "Unknown".
#[derive(Debug, PartialEq, Eq)]
pub struct DeviceInfo {
    pub model: DeviceModel,
    pub serial_number: String,
    pub firmware_version: Option<String>,
    pub usb_path: String,
}

impl DeviceInfo {
    /// Create a device record with no firmware version yet.
    pub fn new(model: DeviceModel, serial_number: String, usb_path: String) -> (r: Self)
        ensures
            r == (DeviceInfo { model, serial_number, firmware_version: None, usb_path }),
    {
        DeviceInfo { model, serial_number, firmware_version: None, usb_path }
    }
}

impl Clone for DeviceInfo {
    /// Field-for-field copy.
    fn clone(&self) -> (r: Self)
        ensures
            r == *self,
    {
        DeviceInfo {
            model: self.model,
            serial_number: self.serial_number.clone(),
            firmware_version: match &self.firmware_version {
                Some(v) => Some(v.clone()),
                None => None,
            },
            usb_path: self.usb_path.clone(),
        }
    }
}

/// Operations every open device offers.
pub trait Device: Sized {
    /// Get device information.
    fn info(&self) -> &DeviceInfo;

    /// Check if the device is connected.
    fn is_connected(&self) -> bool;

    /// Number of input channels.
    fn num_inputs(&self) -> usize;

    /// Number of output channels.
    fn num_outputs(&self) -> usize;

    /// Number of mixer inputs.
    fn num_mixer_inputs(&self) -> usize;

    /// Whether the device has a hardware mixer.
    fn has_mixer(&self) -> bool;

    /// Whether the device has a routing matrix.
    fn has_routing(&self) -> bool;
}

} // verus!
