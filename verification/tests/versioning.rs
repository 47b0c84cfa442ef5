//! What a device knows about itself.
use raylar_services::versioning::service::IdentityVersioningService;
use raylar_services::versioning::snapshot::{collect_identity_state, DeviceSerials, Traceability};
use raylar_services::versioning::types::{
    DeviceUid, IdentityConfig, IdentityField, SdCardIdentity, Stm32DeviceCode,
};

fn silent() -> Traceability {
    Traceability {
        serials: None,
        version: None,
        git_hash: None,
        build_timestamp: None,
        build_profile: None,
        runtime_crc32: None,
        build_crc32: None,
    }
}

#[test]
fn non_stm32_snapshot_marks_uid_unavailable() {
    let config = IdentityConfig {
        stm32_device_code: IdentityField::Unavailable,
        board_revision: IdentityField::Known("test-board"),
        calculate_runtime_crc32: false,
    };

    let state = collect_identity_state(&config, &silent());

    assert_eq!(state.device.stm32_uid_96, IdentityField::Unavailable);
    assert_eq!(state.hardware.board_revision, IdentityField::Known("test-board"));
    assert_eq!(state.firmware.runtime_crc32, IdentityField::Unknown);
}

#[test]
fn config_can_supply_stm32_device_code() {
    let config = IdentityConfig {
        stm32_device_code: IdentityField::Known(Stm32DeviceCode {
            family: "STM32U5",
            device: "STM32U595xx",
            package: Some("VJ"),
        }),
        board_revision: IdentityField::Unavailable,
        calculate_runtime_crc32: false,
    };

    let state = collect_identity_state(&config, &silent());

    assert_eq!(
        state.device.stm32_device_code,
        IdentityField::Known(Stm32DeviceCode {
            family: "STM32U5",
            device: "STM32U595xx",
            package: Some("VJ")
        })
    );
}

#[test]
fn reports_are_known_and_a_missing_checksum_is_unavailable() {
    let trace = Traceability {
        serials: Some(DeviceSerials {
            uid: DeviceUid { word0: 1, word1: 2, word2: 3 },
            serial_64: 64,
            serial_48: 48,
            serial_32: 32,
            serial_16: 16,
        }),
        version: Some("1.0"),
        build_crc32: Some(9),
        ..silent()
    };
    let config = IdentityConfig::for_build(IdentityField::Unknown, None);
    assert!(config.calculate_runtime_crc32);
    let state = collect_identity_state(&config, &trace);
    assert_eq!(
        state.device.stm32_uid_96,
        IdentityField::Known(DeviceUid { word0: 1, word1: 2, word2: 3 })
    );
    assert_eq!(state.device.serial_16, IdentityField::Known(16));
    assert_eq!(state.firmware.version, IdentityField::Known("1.0"));
    assert_eq!(state.firmware.git_hash, IdentityField::Unknown);
    assert_eq!(state.firmware.runtime_crc32, IdentityField::Unavailable);
    assert_eq!(state.firmware.build_crc32, IdentityField::Known(9));
    assert_eq!(state.hardware.board_revision, IdentityField::Unavailable);
}

#[test]
fn modules_report_later() {
    let config = IdentityConfig::for_build(IdentityField::Unknown, Some("v1"));
    let mut service = IdentityVersioningService::new(&config, &silent());
    assert!(!service.state().hardware.sd_card.is_known());
    service.set_sd_card_identity(IdentityField::Known(SdCardIdentity::unknown()));
    assert!(service.state().hardware.sd_card.is_known());
    assert_eq!(service.state().hardware.board_revision, IdentityField::Known("v1"));
    assert!(matches!(service.state().hardware.sd_card.as_ref(), IdentityField::Known(_)));
}
