//! Laws on the lines that say what a device is made of.
use crate::firmware::line_laws::{beginning_with, ended_by, followed_by, lemma_regrouped, tells};
use crate::firmware::versions;
use crate::firmware::words;
use crate::text;
use crate::versioning::types::{
    DeviceIdentity, DeviceUid, FirmwareIdentity, GpsModuleIdentity, IdentityField,
    RadioModuleIdentity, SdCardIdentity,
};
use vstd::prelude::*;

verus! {

/// A known fact is told in brackets, and a missing one says which way it is missing.
pub proof fn law_facts_say_what_is_known(value: u64, short: u32, small: u16, tiny: u8)
    ensures
        versions::number_fact(IdentityField::Known(value)) == "Known("@ + text::signed_decimal(
            value as int,
        ) + ")"@,
        versions::number_fact(IdentityField::Unknown) == "Unknown"@,
        versions::number_fact(IdentityField::Unavailable) == "Unavailable"@,
        versions::wide32(IdentityField::Known(short)) == IdentityField::Known(short as u64),
        versions::wide16(IdentityField::Known(small)) == IdentityField::Known(small as u64),
        versions::wide8(IdentityField::Known(tiny)) == IdentityField::Known(tiny as u64),
        versions::wide32(IdentityField::Unknown) is Unknown,
        versions::wide32(IdentityField::Unavailable) is Unavailable,
        versions::wide16(IdentityField::Unknown) is Unknown,
        versions::wide16(IdentityField::Unavailable) is Unavailable,
        versions::wide8(IdentityField::Unknown) is Unknown,
        versions::wide8(IdentityField::Unavailable) is Unavailable,
{
}

/// The number of a microcontroller tells its three words in their order.
pub proof fn law_uid_tells_its_words(uid: DeviceUid)
    ensures
        ({
            let line = versions::uid_text(uid);
            &&& tells(line, "DeviceUid { word0: "@, words::number(uid.word0 as int))
            &&& tells(line, ", word1: "@, words::number(uid.word1 as int))
            &&& tells(line, ", word2: "@, words::number(uid.word2 as int))
        }),
{
    let line = beginning_with("DeviceUid { word0: "@, words::number(uid.word0 as int));
    let line = followed_by(line, ", word1: "@, words::number(uid.word1 as int));
    let line = followed_by(line, ", word2: "@, words::number(uid.word2 as int));
    let line = ended_by(line, " }"@);
    assert(line == versions::uid_text(uid));
}

/// The line on a microcontroller that is not fully known tells each number behind its
/// own word.
pub proof fn law_partial_device_line_tells_what_is_known(device: DeviceIdentity)
    ensures
        ({
            let line = versions::partial_device_text(device);
            &&& tells(line, "versioning device uid="@, versions::uid_fact(device.stm32_uid_96))
            &&& tells(line, " serial64="@, versions::number_fact(device.serial_64))
            &&& tells(line, " serial48="@, versions::number_fact(device.serial_48))
            &&& tells(
                line,
                " serial32="@,
                versions::number_fact(versions::wide32(device.serial_32)),
            )
            &&& tells(
                line,
                " serial16="@,
                versions::number_fact(versions::wide16(device.serial_16)),
            )
            &&& tells(line, " stm32="@, versions::code_fact(device.stm32_device_code))
        }),
{
    let line = beginning_with("versioning device uid="@, versions::uid_fact(device.stm32_uid_96));
    let line = followed_by(line, " serial64="@, versions::number_fact(device.serial_64));
    let line = followed_by(line, " serial48="@, versions::number_fact(device.serial_48));
    let line = followed_by(
        line,
        " serial32="@,
        versions::number_fact(versions::wide32(device.serial_32)),
    );
    let line = followed_by(
        line,
        " serial16="@,
        versions::number_fact(versions::wide16(device.serial_16)),
    );
    let line = followed_by(line, " stm32="@, versions::code_fact(device.stm32_device_code));
    assert(line == versions::partial_device_text(device));
}

/// The line on the firmware tells each fact behind its own word.
pub proof fn law_firmware_line_tells_the_firmware(firmware: FirmwareIdentity)
    ensures
        ({
            let line = versions::firmware_text(firmware);
            &&& tells(line, "versioning firmware version="@, versions::str_fact(firmware.version))
            &&& tells(line, " git_hash="@, versions::str_fact(firmware.git_hash))
            &&& tells(line, " build_timestamp="@, versions::str_fact(firmware.build_timestamp))
            &&& tells(line, " profile="@, versions::str_fact(firmware.build_profile))
            &&& tells(
                line,
                " runtime_crc32="@,
                versions::number_fact(versions::wide32(firmware.runtime_crc32)),
            )
            &&& tells(
                line,
                " build_crc32="@,
                versions::number_fact(versions::wide32(firmware.build_crc32)),
            )
        }),
{
    let line = beginning_with(
        "versioning firmware version="@,
        versions::str_fact(firmware.version),
    );
    let line = followed_by(line, " git_hash="@, versions::str_fact(firmware.git_hash));
    let line = followed_by(
        line,
        " build_timestamp="@,
        versions::str_fact(firmware.build_timestamp),
    );
    let line = followed_by(line, " profile="@, versions::str_fact(firmware.build_profile));
    let line = followed_by(
        line,
        " runtime_crc32="@,
        versions::number_fact(versions::wide32(firmware.runtime_crc32)),
    );
    let line = followed_by(
        line,
        " build_crc32="@,
        versions::number_fact(versions::wide32(firmware.build_crc32)),
    );
    assert(line == versions::firmware_text(firmware));
}

/// The line on a memory card tells each fact behind its own word.
pub proof fn law_card_line_tells_the_card(card: SdCardIdentity)
    ensures
        ({
            let line = versions::card_text(card);
            &&& tells(
                line,
                "SdCardIdentity { manufacturer_id: "@,
                versions::number_fact(versions::wide8(card.manufacturer_id)),
            )
            &&& tells(line, ", oem_id: "@, versions::pair_fact(card.oem_id))
            &&& tells(line, ", product_name: "@, versions::name_fact(card.product_name))
            &&& tells(
                line,
                ", product_revision: "@,
                versions::number_fact(versions::wide8(card.product_revision)),
            )
            &&& tells(
                line,
                ", serial_number: "@,
                versions::number_fact(versions::wide32(card.serial_number)),
            )
            &&& tells(
                line,
                ", manufacture_year: "@,
                versions::number_fact(versions::wide16(card.manufacture_year)),
            )
            &&& tells(
                line,
                ", manufacture_month: "@,
                versions::number_fact(versions::wide8(card.manufacture_month)),
            )
            &&& tells(line, ", capacity_bytes: "@, versions::number_fact(card.capacity_bytes))
        }),
{
    let line = beginning_with(
        "SdCardIdentity { manufacturer_id: "@,
        versions::number_fact(versions::wide8(card.manufacturer_id)),
    );
    let line = followed_by(line, ", oem_id: "@, versions::pair_fact(card.oem_id));
    let line = followed_by(line, ", product_name: "@, versions::name_fact(card.product_name));
    let line = followed_by(
        line,
        ", product_revision: "@,
        versions::number_fact(versions::wide8(card.product_revision)),
    );
    let line = followed_by(
        line,
        ", serial_number: "@,
        versions::number_fact(versions::wide32(card.serial_number)),
    );
    let line = followed_by(
        line,
        ", manufacture_year: "@,
        versions::number_fact(versions::wide16(card.manufacture_year)),
    );
    let line = followed_by(
        line,
        ", manufacture_month: "@,
        versions::number_fact(versions::wide8(card.manufacture_month)),
    );
    let line = followed_by(line, ", capacity_bytes: "@, versions::number_fact(card.capacity_bytes));
    let line = ended_by(line, " }"@);
    assert(line == versions::card_text(card));
}

/// The line on the GPS receiver tells each fact behind its own word.
pub proof fn law_gps_module_line_tells_the_receiver(module: GpsModuleIdentity)
    ensures
        ({
            let line = versions::gps_module_text(module);
            &&& tells(line, "GpsModuleIdentity { vendor: "@, versions::str_fact(module.vendor))
            &&& tells(line, ", model: "@, versions::str_fact(module.model))
            &&& tells(
                line,
                ", firmware_version: "@,
                versions::version_fact(module.firmware_version),
            )
            &&& tells(
                line,
                ", protocol_version: "@,
                versions::version_fact(module.protocol_version),
            )
            &&& tells(
                line,
                ", hardware_version: "@,
                versions::version_fact(module.hardware_version),
            )
        }),
{
    let line = beginning_with("GpsModuleIdentity { vendor: "@, versions::str_fact(module.vendor));
    let line = followed_by(line, ", model: "@, versions::str_fact(module.model));
    let line = followed_by(
        line,
        ", firmware_version: "@,
        versions::version_fact(module.firmware_version),
    );
    let line = followed_by(
        line,
        ", protocol_version: "@,
        versions::version_fact(module.protocol_version),
    );
    let line = followed_by(
        line,
        ", hardware_version: "@,
        versions::version_fact(module.hardware_version),
    );
    let line = ended_by(line, " }"@);
    assert(line == versions::gps_module_text(module));
}

/// The line on the radio tells each fact behind its own word.
pub proof fn law_radio_line_tells_the_radio(module: RadioModuleIdentity)
    ensures
        ({
            let line = versions::radio_text(module);
            &&& tells(line, "RadioModuleIdentity { vendor: "@, versions::str_fact(module.vendor))
            &&& tells(line, ", model: "@, versions::str_fact(module.model))
            &&& tells(
                line,
                ", firmware_version: "@,
                versions::version_fact(module.firmware_version),
            )
            &&& tells(
                line,
                ", hardware_version: "@,
                versions::version_fact(module.hardware_version),
            )
            &&& tells(
                line,
                ", protocol_version: "@,
                versions::version_fact(module.protocol_version),
            )
        }),
{
    let line = beginning_with("RadioModuleIdentity { vendor: "@, versions::str_fact(module.vendor));
    let line = followed_by(line, ", model: "@, versions::str_fact(module.model));
    let line = followed_by(
        line,
        ", firmware_version: "@,
        versions::version_fact(module.firmware_version),
    );
    let line = followed_by(
        line,
        ", hardware_version: "@,
        versions::version_fact(module.hardware_version),
    );
    let line = followed_by(
        line,
        ", protocol_version: "@,
        versions::version_fact(module.protocol_version),
    );
    let line = ended_by(line, " }"@);
    assert(line == versions::radio_text(module));
}

/// The line on a microcontroller that is fully known tells each number behind its own
/// word, with all the hexadecimal digits that it can have.
pub proof fn law_device_line_tells_all_digits(
    device: DeviceIdentity,
    uid: DeviceUid,
    serial_64: u64,
    serial_48: u64,
    serial_32: u32,
    serial_16: u16,
)
    requires
        device.stm32_uid_96 == IdentityField::Known(uid),
        device.serial_64 == IdentityField::Known(serial_64),
        device.serial_48 == IdentityField::Known(serial_48),
        device.serial_32 == IdentityField::Known(serial_32),
        device.serial_16 == IdentityField::Known(serial_16),
    ensures
        ({
            let line = versions::device_text(device);
            let uuid = versions::hex(uid.word0 as nat, 8) + "-"@ + versions::hex(
                uid.word1 as nat,
                8,
            ) + "-"@ + versions::hex(uid.word2 as nat, 8);
            &&& tells(line, "versioning device uuid="@, uuid)
            &&& tells(line, " serial64="@, versions::hex(serial_64 as nat, 16))
            &&& tells(line, " serial48="@, versions::hex(serial_48 as nat, 12))
            &&& tells(line, " serial32="@, versions::hex(serial_32 as nat, 8))
            &&& tells(line, " serial16="@, versions::hex(serial_16 as nat, 4))
            &&& tells(line, " stm32="@, versions::code_fact(device.stm32_device_code))
        }),
{
    let (a, b, c) = (
        versions::hex(uid.word0 as nat, 8),
        versions::hex(uid.word1 as nat, 8),
        versions::hex(uid.word2 as nat, 8),
    );
    let front = "versioning device uuid="@;
    lemma_regrouped(front, a, "-"@, b);
    lemma_regrouped(front, a + "-"@ + b, "-"@, c);
    let line = beginning_with(front, a + "-"@ + b + "-"@ + c);
    let line = followed_by(line, " serial64="@, versions::hex(serial_64 as nat, 16));
    let line = followed_by(line, " serial48="@, versions::hex(serial_48 as nat, 12));
    let line = followed_by(line, " serial32="@, versions::hex(serial_32 as nat, 8));
    let line = followed_by(line, " serial16="@, versions::hex(serial_16 as nat, 4));
    let line = followed_by(line, " stm32="@, versions::code_fact(device.stm32_device_code));
    assert(line == versions::device_text(device));
}

} // verus!
