//! What a device knows about itself.
use vstd::prelude::*;

verus! {

/// Bytes of a module's version text.
pub const IDENTITY_STRING_CAPACITY: usize = 64;

/// Receivers that an identity is published to by default.
pub const DEFAULT_IDENTITY_WATCHERS: usize = 4;

/// A module's version text.
pub type FixedIdentityString = heapless::String<IDENTITY_STRING_CAPACITY>;

/// A fact that may not be known, or that cannot be known here.
#[derive(Clone, Copy, Debug, PartialEq, Eq)]
pub enum IdentityField<T> {
    Known(T),
    Unknown,
    Unavailable,
}

impl<T> Default for IdentityField<T> {
    fn default() -> (field: Self)
        ensures
            field == IdentityField::<T>::Unknown,
    {
        IdentityField::Unknown
    }
}

impl<T> IdentityField<T> {
    /// Whether the fact is known.
    pub fn is_known(&self) -> (known: bool)
        ensures
            known == (*self is Known),
    {
        match self {
            IdentityField::Known(_) => true,
            _ => false,
        }
    }

    /// The fact by reference.
    pub fn as_ref(&self) -> (field: IdentityField<&T>)
        ensures
            field == (match *self {
                IdentityField::Known(value) => IdentityField::Known(&value),
                IdentityField::Unknown => IdentityField::Unknown,
                IdentityField::Unavailable => IdentityField::Unavailable,
            }),
    {
        match self {
            IdentityField::Known(value) => IdentityField::Known(value),
            IdentityField::Unknown => IdentityField::Unknown,
            IdentityField::Unavailable => IdentityField::Unavailable,
        }
    }
}

/// The microcontroller's unique number.
#[derive(Clone, Copy, Debug, PartialEq, Eq, Structural)]
pub struct DeviceUid {
    pub word0: u32,
    pub word1: u32,
    pub word2: u32,
}

/// The microcontroller's type.
#[derive(Clone, Copy, Debug, PartialEq, Eq)]
pub struct Stm32DeviceCode {
    pub family: &'static str,
    pub device: &'static str,
    pub package: Option<&'static str>,
}

/// What the build and the board say about a device.
#[derive(Clone, Debug, PartialEq, Eq)]
pub struct IdentityConfig {
    pub stm32_device_code: IdentityField<Stm32DeviceCode>,
    pub board_revision: IdentityField<&'static str>,
    pub calculate_runtime_crc32: bool,
}

/// The type of the microcontroller that the firmware is built for, where it is
/// built for one.
pub fn default_stm32_device_code(stm32: bool) -> (code: IdentityField<Stm32DeviceCode>)
    ensures
        match code {
            IdentityField::Known(code) => {
                &&& stm32
                &&& code.family@ == "STM32U5"@
                &&& code.device@ == "STM32U595xx"@
                &&& code.package is None
            },
            IdentityField::Unknown => false,
            IdentityField::Unavailable => !stm32,
        },
{
    if stm32 {
        IdentityField::Known(
            Stm32DeviceCode { family: "STM32U5", device: "STM32U595xx", package: None },
        )
    } else {
        IdentityField::Unavailable
    }
}

impl IdentityConfig {
    /// The configuration for a device of type `device_code`, where the build
    /// may name the board's revision.
    pub fn for_build(
        device_code: IdentityField<Stm32DeviceCode>,
        board_revision: Option<&'static str>,
    ) -> (config: Self)
        ensures
            config.stm32_device_code == device_code,
            config.board_revision == (match board_revision {
                Some(revision) => IdentityField::Known(revision),
                None => IdentityField::Unavailable,
            }),
            config.calculate_runtime_crc32,
    {
        IdentityConfig {
            stm32_device_code: device_code,
            board_revision: match board_revision {
                Some(revision) => IdentityField::Known(revision),
                None => IdentityField::Unavailable,
            },
            calculate_runtime_crc32: true,
        }
    }
}

/// Everything known about a device.
#[derive(Clone, Debug, PartialEq, Eq)]
pub struct IdentityState {
    pub device: DeviceIdentity,
    pub firmware: FirmwareIdentity,
    pub hardware: HardwareIdentity,
}

impl IdentityState {
    /// A device of which nothing is known.
    pub fn unknown() -> (state: Self)
        ensures
            state.device == device_unknown(),
            state.firmware == firmware_unknown(),
            state.hardware == hardware_unknown(),
    {
        IdentityState {
            device: DeviceIdentity::unknown(),
            firmware: FirmwareIdentity::unknown(),
            hardware: HardwareIdentity::unknown(),
        }
    }
}

/// Identity of the microcontroller.
#[derive(Clone, Copy, Debug, PartialEq, Eq)]
pub struct DeviceIdentity {
    pub stm32_uid_96: IdentityField<DeviceUid>,
    pub serial_64: IdentityField<u64>,
    pub serial_48: IdentityField<u64>,
    pub serial_32: IdentityField<u32>,
    pub serial_16: IdentityField<u16>,
    pub stm32_device_code: IdentityField<Stm32DeviceCode>,
}

/// A microcontroller of which nothing is known.
pub open spec fn device_unknown() -> DeviceIdentity {
    DeviceIdentity {
        stm32_uid_96: IdentityField::Unknown,
        serial_64: IdentityField::Unknown,
        serial_48: IdentityField::Unknown,
        serial_32: IdentityField::Unknown,
        serial_16: IdentityField::Unknown,
        stm32_device_code: IdentityField::Unknown,
    }
}

impl DeviceIdentity {
    /// A microcontroller of which nothing is known.
    pub fn unknown() -> (identity: Self)
        ensures
            identity == device_unknown(),
    {
        DeviceIdentity {
            stm32_uid_96: IdentityField::Unknown,
            serial_64: IdentityField::Unknown,
            serial_48: IdentityField::Unknown,
            serial_32: IdentityField::Unknown,
            serial_16: IdentityField::Unknown,
            stm32_device_code: IdentityField::Unknown,
        }
    }
}

/// Identity of the firmware.
#[derive(Clone, Copy, Debug, PartialEq, Eq)]
pub struct FirmwareIdentity {
    pub version: IdentityField<&'static str>,
    pub git_hash: IdentityField<&'static str>,
    pub build_timestamp: IdentityField<&'static str>,
    pub build_profile: IdentityField<&'static str>,
    pub runtime_crc32: IdentityField<u32>,
    pub build_crc32: IdentityField<u32>,
}

/// A firmware of which nothing is known.
pub open spec fn firmware_unknown() -> FirmwareIdentity {
    FirmwareIdentity {
        version: IdentityField::Unknown,
        git_hash: IdentityField::Unknown,
        build_timestamp: IdentityField::Unknown,
        build_profile: IdentityField::Unknown,
        runtime_crc32: IdentityField::Unknown,
        build_crc32: IdentityField::Unknown,
    }
}

impl FirmwareIdentity {
    /// A firmware of which nothing is known.
    pub fn unknown() -> (identity: Self)
        ensures
            identity == firmware_unknown(),
    {
        FirmwareIdentity {
            version: IdentityField::Unknown,
            git_hash: IdentityField::Unknown,
            build_timestamp: IdentityField::Unknown,
            build_profile: IdentityField::Unknown,
            runtime_crc32: IdentityField::Unknown,
            build_crc32: IdentityField::Unknown,
        }
    }
}

/// Identity of the board and its modules.
#[derive(Clone, Debug, PartialEq, Eq)]
pub struct HardwareIdentity {
    pub board_revision: IdentityField<&'static str>,
    pub sd_card: IdentityField<SdCardIdentity>,
    pub gps_module: IdentityField<GpsModuleIdentity>,
    pub radio_module: IdentityField<RadioModuleIdentity>,
}

/// A board of which nothing is known.
pub open spec fn hardware_unknown() -> HardwareIdentity {
    HardwareIdentity {
        board_revision: IdentityField::Unknown,
        sd_card: IdentityField::Unknown,
        gps_module: IdentityField::Unknown,
        radio_module: IdentityField::Unknown,
    }
}

impl HardwareIdentity {
    /// A board of which nothing is known.
    pub fn unknown() -> (identity: Self)
        ensures
            identity == hardware_unknown(),
    {
        HardwareIdentity {
            board_revision: IdentityField::Unknown,
            sd_card: IdentityField::Unknown,
            gps_module: IdentityField::Unknown,
            radio_module: IdentityField::Unknown,
        }
    }
}

/// Identity of the memory card.
#[derive(Clone, Copy, Debug, PartialEq, Eq)]
pub struct SdCardIdentity {
    pub manufacturer_id: IdentityField<u8>,
    pub oem_id: IdentityField<[u8; 2]>,
    pub product_name: IdentityField<[u8; 5]>,
    pub product_revision: IdentityField<u8>,
    pub serial_number: IdentityField<u32>,
    pub manufacture_year: IdentityField<u16>,
    pub manufacture_month: IdentityField<u8>,
    pub capacity_bytes: IdentityField<u64>,
}

impl SdCardIdentity {
    /// A card of which nothing is known.
    pub fn unknown() -> (identity: Self)
        ensures
            identity == (SdCardIdentity {
                manufacturer_id: IdentityField::Unknown,
                oem_id: IdentityField::Unknown,
                product_name: IdentityField::Unknown,
                product_revision: IdentityField::Unknown,
                serial_number: IdentityField::Unknown,
                manufacture_year: IdentityField::Unknown,
                manufacture_month: IdentityField::Unknown,
                capacity_bytes: IdentityField::Unknown,
            }),
    {
        SdCardIdentity {
            manufacturer_id: IdentityField::Unknown,
            oem_id: IdentityField::Unknown,
            product_name: IdentityField::Unknown,
            product_revision: IdentityField::Unknown,
            serial_number: IdentityField::Unknown,
            manufacture_year: IdentityField::Unknown,
            manufacture_month: IdentityField::Unknown,
            capacity_bytes: IdentityField::Unknown,
        }
    }
}

/// Identity of the GPS receiver.
#[derive(Clone, Debug, PartialEq, Eq)]
pub struct GpsModuleIdentity {
    pub vendor: IdentityField<&'static str>,
    pub model: IdentityField<&'static str>,
    pub firmware_version: IdentityField<FixedIdentityString>,
    pub protocol_version: IdentityField<FixedIdentityString>,
    pub hardware_version: IdentityField<FixedIdentityString>,
}

impl GpsModuleIdentity {
    /// A receiver of which nothing is known.
    pub fn unknown() -> (identity: Self)
        ensures
            identity == (GpsModuleIdentity {
                vendor: IdentityField::Unknown,
                model: IdentityField::Unknown,
                firmware_version: IdentityField::Unknown,
                protocol_version: IdentityField::Unknown,
                hardware_version: IdentityField::Unknown,
            }),
    {
        GpsModuleIdentity {
            vendor: IdentityField::Unknown,
            model: IdentityField::Unknown,
            firmware_version: IdentityField::Unknown,
            protocol_version: IdentityField::Unknown,
            hardware_version: IdentityField::Unknown,
        }
    }
}

/// Identity of the radio.
#[derive(Clone, Debug, PartialEq, Eq)]
pub struct RadioModuleIdentity {
    pub vendor: IdentityField<&'static str>,
    pub model: IdentityField<&'static str>,
    pub firmware_version: IdentityField<FixedIdentityString>,
    pub hardware_version: IdentityField<FixedIdentityString>,
    pub protocol_version: IdentityField<FixedIdentityString>,
}

impl RadioModuleIdentity {
    /// A radio of which nothing is known.
    pub fn unknown() -> (identity: Self)
        ensures
            identity == (RadioModuleIdentity {
                vendor: IdentityField::Unknown,
                model: IdentityField::Unknown,
                firmware_version: IdentityField::Unknown,
                hardware_version: IdentityField::Unknown,
                protocol_version: IdentityField::Unknown,
            }),
    {
        RadioModuleIdentity {
            vendor: IdentityField::Unknown,
            model: IdentityField::Unknown,
            firmware_version: IdentityField::Unknown,
            hardware_version: IdentityField::Unknown,
            protocol_version: IdentityField::Unknown,
        }
    }
}

} // verus!
