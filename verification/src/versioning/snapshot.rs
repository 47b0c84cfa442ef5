//! The identity of a device as it starts.
use crate::versioning::types::{
    DeviceIdentity, DeviceUid, FirmwareIdentity, HardwareIdentity, IdentityConfig, IdentityField,
    IdentityState,
};
use vstd::prelude::*;

verus! {

/// Numbers read from the microcontroller.
#[derive(Clone, Copy, Debug, PartialEq, Eq, Structural)]
pub struct DeviceSerials {
    pub uid: DeviceUid,
    pub serial_64: u64,
    pub serial_48: u64,
    pub serial_32: u32,
    pub serial_16: u16,
}

/// What the running device and its build report.
#[derive(Clone, Copy, Debug, PartialEq, Eq)]
pub struct Traceability {
    /// Numbers of the microcontroller, where there is one.
    pub serials: Option<DeviceSerials>,
    pub version: Option<&'static str>,
    pub git_hash: Option<&'static str>,
    pub build_timestamp: Option<&'static str>,
    pub build_profile: Option<&'static str>,
    /// Checksum of the running firmware, where it can be read.
    pub runtime_crc32: Option<u32>,
    pub build_crc32: Option<u32>,
}

/// A reported fact, unknown where nothing was reported.
pub open spec fn reported<T>(value: Option<T>) -> IdentityField<T> {
    match value {
        Some(value) => IdentityField::Known(value),
        None => IdentityField::Unknown,
    }
}

/// A measured fact, unavailable where it cannot be measured.
pub open spec fn measured<T>(value: Option<T>) -> IdentityField<T> {
    match value {
        Some(value) => IdentityField::Known(value),
        None => IdentityField::Unavailable,
    }
}

/// A reported fact, unknown where nothing was reported.
fn field_from_option<T>(value: Option<T>) -> (field: IdentityField<T>)
    ensures
        field == reported(value),
{
    match value {
        Some(value) => IdentityField::Known(value),
        None => IdentityField::Unknown,
    }
}

/// Identity of the microcontroller.
fn collect_device_identity(config: &IdentityConfig, trace: &Traceability) -> (device: DeviceIdentity)
    ensures
        device == device_of(*config, *trace),
{
    match trace.serials {
        Some(serials) => DeviceIdentity {
            stm32_uid_96: IdentityField::Known(serials.uid),
            serial_64: IdentityField::Known(serials.serial_64),
            serial_48: IdentityField::Known(serials.serial_48),
            serial_32: IdentityField::Known(serials.serial_32),
            serial_16: IdentityField::Known(serials.serial_16),
            stm32_device_code: config.stm32_device_code,
        },
        None => DeviceIdentity {
            stm32_uid_96: IdentityField::Unavailable,
            serial_64: IdentityField::Unavailable,
            serial_48: IdentityField::Unavailable,
            serial_32: IdentityField::Unavailable,
            serial_16: IdentityField::Unavailable,
            stm32_device_code: config.stm32_device_code,
        },
    }
}

/// Identity of the firmware.
fn collect_firmware_identity(calculate_runtime_crc32: bool, trace: &Traceability) -> (firmware:
    FirmwareIdentity)
    ensures
        firmware == firmware_of(calculate_runtime_crc32, *trace),
{
    FirmwareIdentity {
        version: field_from_option(trace.version),
        git_hash: field_from_option(trace.git_hash),
        build_timestamp: field_from_option(trace.build_timestamp),
        build_profile: field_from_option(trace.build_profile),
        runtime_crc32: if calculate_runtime_crc32 {
            match trace.runtime_crc32 {
                Some(crc) => IdentityField::Known(crc),
                None => IdentityField::Unavailable,
            }
        } else {
            IdentityField::Unknown
        },
        build_crc32: field_from_option(trace.build_crc32),
    }
}

/// Identity of the microcontroller.
pub open spec fn device_of(config: IdentityConfig, trace: Traceability) -> DeviceIdentity {
    DeviceIdentity {
        stm32_uid_96: measured(
            match trace.serials {
                Some(serials) => Some(serials.uid),
                None => None,
            },
        ),
        serial_64: measured(
            match trace.serials {
                Some(serials) => Some(serials.serial_64),
                None => None,
            },
        ),
        serial_48: measured(
            match trace.serials {
                Some(serials) => Some(serials.serial_48),
                None => None,
            },
        ),
        serial_32: measured(
            match trace.serials {
                Some(serials) => Some(serials.serial_32),
                None => None,
            },
        ),
        serial_16: measured(
            match trace.serials {
                Some(serials) => Some(serials.serial_16),
                None => None,
            },
        ),
        stm32_device_code: config.stm32_device_code,
    }
}

/// Identity of the firmware. Its checksum is left unknown where it was not
/// asked for.
pub open spec fn firmware_of(calculate_runtime_crc32: bool, trace: Traceability) -> FirmwareIdentity {
    FirmwareIdentity {
        version: reported(trace.version),
        git_hash: reported(trace.git_hash),
        build_timestamp: reported(trace.build_timestamp),
        build_profile: reported(trace.build_profile),
        runtime_crc32: if calculate_runtime_crc32 {
            measured(trace.runtime_crc32)
        } else {
            IdentityField::Unknown
        },
        build_crc32: reported(trace.build_crc32),
    }
}

/// The identity of a device as it starts: its modules have not reported yet.
pub fn collect_identity_state(config: &IdentityConfig, trace: &Traceability) -> (state:
    IdentityState)
    ensures
        state.device == device_of(*config, *trace),
        state.firmware == firmware_of(config.calculate_runtime_crc32, *trace),
        state.hardware == (HardwareIdentity {
            board_revision: config.board_revision,
            sd_card: IdentityField::Unknown,
            gps_module: IdentityField::Unknown,
            radio_module: IdentityField::Unknown,
        }),
{
    IdentityState {
        device: collect_device_identity(config, trace),
        firmware: collect_firmware_identity(config.calculate_runtime_crc32, trace),
        hardware: HardwareIdentity {
            board_revision: config.board_revision,
            sd_card: IdentityField::Unknown,
            gps_module: IdentityField::Unknown,
            radio_module: IdentityField::Unknown,
        },
    }
}

/// What was traced of the microcontroller is told, each number in its own place;
/// where it could not be read, every number is unavailable.
pub proof fn law_traced_serials_are_told(config: IdentityConfig, trace: Traceability)
    ensures
        ({
            let device = device_of(config, trace);
            &&& device.stm32_device_code == config.stm32_device_code
            &&& trace.serials matches Some(serials) ==> {
                &&& device.stm32_uid_96 == IdentityField::Known(serials.uid)
                &&& device.serial_64 == IdentityField::Known(serials.serial_64)
                &&& device.serial_48 == IdentityField::Known(serials.serial_48)
                &&& device.serial_32 == IdentityField::Known(serials.serial_32)
                &&& device.serial_16 == IdentityField::Known(serials.serial_16)
            }
            &&& trace.serials is None ==> {
                &&& device.stm32_uid_96 is Unavailable
                &&& device.serial_64 is Unavailable
                &&& device.serial_48 is Unavailable
                &&& device.serial_32 is Unavailable
                &&& device.serial_16 is Unavailable
            }
        }),
{
}

/// What was traced of the firmware is told, each in its own place, and is unknown
/// where it was not. The checksum of the running firmware is told only where it was
/// asked for, and is unavailable where that failed.
pub proof fn law_traced_firmware_is_told(calculate_runtime_crc32: bool, trace: Traceability)
    ensures
        ({
            let firmware = firmware_of(calculate_runtime_crc32, trace);
            &&& trace.version matches Some(value) ==> firmware.version == IdentityField::Known(value)
            &&& trace.git_hash matches Some(value) ==> firmware.git_hash == IdentityField::Known(
                value,
            )
            &&& trace.build_timestamp matches Some(value) ==> firmware.build_timestamp
                == IdentityField::Known(value)
            &&& trace.build_profile matches Some(value) ==> firmware.build_profile
                == IdentityField::Known(value)
            &&& trace.build_crc32 matches Some(value) ==> firmware.build_crc32
                == IdentityField::Known(value)
            &&& trace.version is None ==> firmware.version is Unknown
            &&& trace.git_hash is None ==> firmware.git_hash is Unknown
            &&& trace.build_timestamp is None ==> firmware.build_timestamp is Unknown
            &&& trace.build_profile is None ==> firmware.build_profile is Unknown
            &&& trace.build_crc32 is None ==> firmware.build_crc32 is Unknown
            &&& !calculate_runtime_crc32 ==> firmware.runtime_crc32 is Unknown
            &&& calculate_runtime_crc32 && trace.runtime_crc32 is None ==> firmware.runtime_crc32
                is Unavailable
            &&& calculate_runtime_crc32 && trace.runtime_crc32 is Some ==> firmware.runtime_crc32
                == IdentityField::Known(trace.runtime_crc32->0)
        }),
{
}

} // verus!
