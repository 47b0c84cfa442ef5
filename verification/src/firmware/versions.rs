//! What a device says about itself when it starts.
use crate::firmware::words;
use crate::firmware::words::{begin, push_number};
use crate::text;
use crate::text::text_as_str;
use crate::versioning::types::{
    DeviceIdentity, DeviceUid, FirmwareIdentity, FixedIdentityString, GpsModuleIdentity,
    IdentityField, IdentityState, RadioModuleIdentity, SdCardIdentity, Stm32DeviceCode,
};
use vstd::prelude::*;
use vstd::string::StringExecFns;

verus! {

// ---- notation --------------------------------------------------------------

/// What Rust's `Debug` shows of a text: in quotes, with escapes.
pub uninterp spec fn quoted_chars(chars: Seq<char>) -> Seq<char>;

/// Calls the formatting of `std` with `{:?}` on a string slice. The result is
/// named and not spelled out: which characters are escaped follows the Unicode
/// tables of `std`.
#[verifier::external_body]
fn quoted(part: &str) -> (line: String)
    ensures
        line@ == quoted_chars(part@),
{
    format!("{:?}", part)
}

/// The character of a hexadecimal digit.
pub open spec fn hex_digit(value: int) -> char {
    if value < 10 {
        (48 + value) as char
    } else {
        (55 + value) as char
    }
}

/// The hexadecimal notation of a number, filled with zeros on the left up to a
/// width.
pub open spec fn hex(value: nat, width: nat) -> Seq<char>
    decreases value + width,
{
    if value < 16 && width <= 1 {
        seq![hex_digit(value as int)]
    } else {
        hex(
            value / 16,
            if width == 0 {
                0
            } else {
                (width - 1) as nat
            },
        ).push(hex_digit((value % 16) as int))
    }
}

/// The character of a hexadecimal digit, as text.
fn hex_digit_str(value: u8) -> (digit: &'static str)
    requires
        value < 16,
    ensures
        digit@ == seq![hex_digit(value as int)],
{
    let digit: &'static str = match value {
        0 => "0",
        1 => "1",
        2 => "2",
        3 => "3",
        4 => "4",
        5 => "5",
        6 => "6",
        7 => "7",
        8 => "8",
        9 => "9",
        10 => "A",
        11 => "B",
        12 => "C",
        13 => "D",
        14 => "E",
        _ => "F",
    };
    proof {
        reveal_strlit("0");
        reveal_strlit("1");
        reveal_strlit("2");
        reveal_strlit("3");
        reveal_strlit("4");
        reveal_strlit("5");
        reveal_strlit("6");
        reveal_strlit("7");
        reveal_strlit("8");
        reveal_strlit("9");
        reveal_strlit("A");
        reveal_strlit("B");
        reveal_strlit("C");
        reveal_strlit("D");
        reveal_strlit("E");
        reveal_strlit("F");
        assert(digit@ =~= seq![hex_digit(value as int)]);
    }
    digit
}

/// Appends a number in hexadecimal notation.
fn push_hex(line: &mut String, value: u64, width: usize)
    ensures
        final(line)@ == old(line)@ + hex(value as nat, width as nat),
    decreases value + width,
{
    if value >= 16 || width > 1 {
        push_hex(
            line,
            value / 16,
            if width == 0 {
                0
            } else {
                width - 1
            },
        );
    }
    line.append(hex_digit_str((value % 16) as u8));
    assert(line@ =~= old(line)@ + hex(value as nat, width as nat));
}

/// The value that hexadecimal digits denote.
pub open spec fn hex_value(digits: Seq<char>) -> int
    decreases digits.len(),
{
    if digits.len() == 0 {
        0
    } else {
        let last = digits.last() as int;
        hex_value(digits.drop_last()) * 16 + (if last < 65 {
            last - 48
        } else {
            last - 55
        })
    }
}

/// Hexadecimal notation can be read back and has at least its width.
pub proof fn law_hex_reads_back(value: nat, width: nat)
    ensures
        hex_value(hex(value, width)) == value,
        hex(value, width).len() >= width,
    decreases value + width,
{
    reveal_with_fuel(hex_value, 2);
    if value < 16 && width <= 1 {
        assert(seq![hex_digit(value as int)].drop_last() =~= Seq::<char>::empty());
    } else {
        let rest = if width == 0 {
            0nat
        } else {
            (width - 1) as nat
        };
        law_hex_reads_back(value / 16, rest);
        assert(hex(value, width).drop_last() =~= hex(value / 16, rest));
    }
}

// ---- facts -----------------------------------------------------------------

/// A fact, where it is known by its notation.
pub open spec fn fact(known: IdentityField<Seq<char>>) -> Seq<char> {
    match known {
        IdentityField::Known(inner) => "Known("@ + inner + ")"@,
        IdentityField::Unknown => "Unknown"@,
        IdentityField::Unavailable => "Unavailable"@,
    }
}

/// A fact, where it is known by its notation.
pub fn fact_line(known: IdentityField<String>) -> (line: String)
    ensures
        line@ == fact(
            match known {
                IdentityField::Known(inner) => IdentityField::Known(inner@),
                IdentityField::Unknown => IdentityField::Unknown,
                IdentityField::Unavailable => IdentityField::Unavailable,
            },
        ),
{
    match known {
        IdentityField::Known(inner) => {
            let mut line: String = begin("Known(");
            line.append(inner.as_str());
            line.append(")");
            line
        },
        IdentityField::Unknown => begin("Unknown"),
        IdentityField::Unavailable => begin("Unavailable"),
    }
}

/// A number as a fact.
pub open spec fn number_fact(field: IdentityField<u64>) -> Seq<char> {
    fact(
        match field {
            IdentityField::Known(value) => IdentityField::Known(words::number(value as int)),
            IdentityField::Unknown => IdentityField::Unknown,
            IdentityField::Unavailable => IdentityField::Unavailable,
        },
    )
}

/// A number as a fact.
fn number_fact_line(field: IdentityField<u64>) -> (line: String)
    ensures
        line@ == number_fact(field),
{
    fact_line(
        match field {
            IdentityField::Known(value) => IdentityField::Known(number_line(value)),
            IdentityField::Unknown => IdentityField::Unknown,
            IdentityField::Unavailable => IdentityField::Unavailable,
        },
    )
}

/// A number as text.
fn number_line(value: u64) -> (line: String)
    ensures
        line@ == words::number(value as int),
{
    let mut line: String = String::new();
    push_number(&mut line, value);
    assert(line@ =~= words::number(value as int));
    line
}

/// A number in a wider type.
pub open spec fn wide8(field: IdentityField<u8>) -> IdentityField<u64> {
    match field {
        IdentityField::Known(value) => IdentityField::Known(value as u64),
        IdentityField::Unknown => IdentityField::Unknown,
        IdentityField::Unavailable => IdentityField::Unavailable,
    }
}

/// A number in a wider type.
pub open spec fn wide16(field: IdentityField<u16>) -> IdentityField<u64> {
    match field {
        IdentityField::Known(value) => IdentityField::Known(value as u64),
        IdentityField::Unknown => IdentityField::Unknown,
        IdentityField::Unavailable => IdentityField::Unavailable,
    }
}

/// A number in a wider type.
pub open spec fn wide32(field: IdentityField<u32>) -> IdentityField<u64> {
    match field {
        IdentityField::Known(value) => IdentityField::Known(value as u64),
        IdentityField::Unknown => IdentityField::Unknown,
        IdentityField::Unavailable => IdentityField::Unavailable,
    }
}

/// A number as a fact.
fn fact_u8(field: &IdentityField<u8>) -> (line: String)
    ensures
        line@ == number_fact(wide8(*field)),
{
    number_fact_line(
        match field {
            IdentityField::Known(value) => IdentityField::Known(*value as u64),
            IdentityField::Unknown => IdentityField::Unknown,
            IdentityField::Unavailable => IdentityField::Unavailable,
        },
    )
}

/// A number as a fact.
fn fact_u16(field: &IdentityField<u16>) -> (line: String)
    ensures
        line@ == number_fact(wide16(*field)),
{
    number_fact_line(
        match field {
            IdentityField::Known(value) => IdentityField::Known(*value as u64),
            IdentityField::Unknown => IdentityField::Unknown,
            IdentityField::Unavailable => IdentityField::Unavailable,
        },
    )
}

/// A number as a fact.
fn fact_u32(field: &IdentityField<u32>) -> (line: String)
    ensures
        line@ == number_fact(wide32(*field)),
{
    number_fact_line(
        match field {
            IdentityField::Known(value) => IdentityField::Known(*value as u64),
            IdentityField::Unknown => IdentityField::Unknown,
            IdentityField::Unavailable => IdentityField::Unavailable,
        },
    )
}

/// A number as a fact.
fn fact_u64(field: &IdentityField<u64>) -> (line: String)
    ensures
        line@ == number_fact(*field),
{
    number_fact_line(
        match field {
            IdentityField::Known(value) => IdentityField::Known(*value),
            IdentityField::Unknown => IdentityField::Unknown,
            IdentityField::Unavailable => IdentityField::Unavailable,
        },
    )
}

/// A text as a fact.
pub open spec fn str_fact(field: IdentityField<&'static str>) -> Seq<char> {
    fact(
        match field {
            IdentityField::Known(value) => IdentityField::Known(quoted_chars(value@)),
            IdentityField::Unknown => IdentityField::Unknown,
            IdentityField::Unavailable => IdentityField::Unavailable,
        },
    )
}

/// A text as a fact.
fn fact_str(field: &IdentityField<&'static str>) -> (line: String)
    ensures
        line@ == str_fact(*field),
{
    fact_line(
        match field {
            IdentityField::Known(value) => IdentityField::Known(quoted(value)),
            IdentityField::Unknown => IdentityField::Unknown,
            IdentityField::Unavailable => IdentityField::Unavailable,
        },
    )
}

/// A module's version text as a fact.
pub open spec fn version_fact(field: IdentityField<FixedIdentityString>) -> Seq<char> {
    fact(
        match field {
            IdentityField::Known(value) => IdentityField::Known(quoted_chars(text::text(value))),
            IdentityField::Unknown => IdentityField::Unknown,
            IdentityField::Unavailable => IdentityField::Unavailable,
        },
    )
}

/// A module's version text as a fact.
fn fact_version(field: &IdentityField<FixedIdentityString>) -> (line: String)
    ensures
        line@ == version_fact(*field),
{
    fact_line(
        match field {
            IdentityField::Known(value) => IdentityField::Known(quoted(text_as_str(value))),
            IdentityField::Unknown => IdentityField::Unknown,
            IdentityField::Unavailable => IdentityField::Unavailable,
        },
    )
}

// ---- the microcontroller ---------------------------------------------------

/// The microcontroller's number.
pub open spec fn uid_text(uid: DeviceUid) -> Seq<char> {
    "DeviceUid { word0: "@ + words::number(uid.word0 as int) + ", word1: "@ + words::number(
        uid.word1 as int,
    ) + ", word2: "@ + words::number(uid.word2 as int) + " }"@
}

/// The microcontroller's number as a fact.
pub open spec fn uid_fact(field: IdentityField<DeviceUid>) -> Seq<char> {
    fact(
        match field {
            IdentityField::Known(uid) => IdentityField::Known(uid_text(uid)),
            IdentityField::Unknown => IdentityField::Unknown,
            IdentityField::Unavailable => IdentityField::Unavailable,
        },
    )
}

/// The microcontroller's number.
fn uid_line(uid: &DeviceUid) -> (line: String)
    ensures
        line@ == uid_text(*uid),
{
    let mut line: String = begin("DeviceUid { word0: ");
    push_number(&mut line, uid.word0 as u64);
    line.append(", word1: ");
    push_number(&mut line, uid.word1 as u64);
    line.append(", word2: ");
    push_number(&mut line, uid.word2 as u64);
    line.append(" }");
    line
}

/// The microcontroller's number as a fact.
fn fact_uid(field: &IdentityField<DeviceUid>) -> (line: String)
    ensures
        line@ == uid_fact(*field),
{
    fact_line(
        match field {
            IdentityField::Known(uid) => IdentityField::Known(uid_line(uid)),
            IdentityField::Unknown => IdentityField::Unknown,
            IdentityField::Unavailable => IdentityField::Unavailable,
        },
    )
}

/// The microcontroller's type.
pub open spec fn code_text(code: Stm32DeviceCode) -> Seq<char> {
    "Stm32DeviceCode { family: "@ + quoted_chars(code.family@) + ", device: "@ + quoted_chars(
        code.device@,
    ) + ", package: "@ + (match code.package {
        Some(package) => words::present(quoted_chars(package@)),
        None => "None"@,
    }) + " }"@
}

/// The microcontroller's type as a fact.
pub open spec fn code_fact(field: IdentityField<Stm32DeviceCode>) -> Seq<char> {
    fact(
        match field {
            IdentityField::Known(code) => IdentityField::Known(code_text(code)),
            IdentityField::Unknown => IdentityField::Unknown,
            IdentityField::Unavailable => IdentityField::Unavailable,
        },
    )
}

/// The microcontroller's package, where it is known.
fn package_line(package: Option<&'static str>) -> (line: String)
    ensures
        line@ == (match package {
            Some(package) => words::present(quoted_chars(package@)),
            None => "None"@,
        }),
{
    match package {
        Some(package) => {
            let mut line: String = begin("Some(");
            line.append(quoted(package).as_str());
            line.append(")");
            line
        },
        None => begin("None"),
    }
}

/// The microcontroller's type.
fn code_line(code: &Stm32DeviceCode) -> (line: String)
    ensures
        line@ == code_text(*code),
{
    let mut line: String = begin("Stm32DeviceCode { family: ");
    line.append(quoted(code.family).as_str());
    line.append(", device: ");
    line.append(quoted(code.device).as_str());
    line.append(", package: ");
    line.append(package_line(code.package).as_str());
    line.append(" }");
    line
}

/// The microcontroller's type as a fact.
fn fact_code(field: &IdentityField<Stm32DeviceCode>) -> (line: String)
    ensures
        line@ == code_fact(*field),
{
    fact_line(
        match field {
            IdentityField::Known(code) => IdentityField::Known(code_line(code)),
            IdentityField::Unknown => IdentityField::Unknown,
            IdentityField::Unavailable => IdentityField::Unavailable,
        },
    )
}

/// The line on the microcontroller. Where all its numbers are known they are
/// shown in hexadecimal notation, each with all its digits.
pub open spec fn device_text(device: DeviceIdentity) -> Seq<char> {
    match (
        device.stm32_uid_96,
        device.serial_64,
        device.serial_48,
        device.serial_32,
        device.serial_16,
    ) {
        (
            IdentityField::Known(uid),
            IdentityField::Known(serial_64),
            IdentityField::Known(serial_48),
            IdentityField::Known(serial_32),
            IdentityField::Known(serial_16),
        ) => "versioning device uuid="@ + hex(uid.word0 as nat, 8) + "-"@ + hex(
            uid.word1 as nat,
            8,
        ) + "-"@ + hex(uid.word2 as nat, 8) + " serial64="@ + hex(serial_64 as nat, 16)
            + " serial48="@ + hex(serial_48 as nat, 12) + " serial32="@ + hex(serial_32 as nat, 8)
            + " serial16="@ + hex(serial_16 as nat, 4) + " stm32="@ + code_fact(
            device.stm32_device_code,
        ),
        _ => partial_device_text(device),
    }
}

/// The line on a microcontroller that is not fully known.
pub open spec fn partial_device_text(device: DeviceIdentity) -> Seq<char> {
    "versioning device uid="@ + uid_fact(device.stm32_uid_96) + " serial64="@ + number_fact(
        device.serial_64,
    ) + " serial48="@ + number_fact(device.serial_48) + " serial32="@ + number_fact(
        wide32(device.serial_32),
    ) + " serial16="@ + number_fact(wide16(device.serial_16)) + " stm32="@ + code_fact(
        device.stm32_device_code,
    )
}

/// The line on a microcontroller that is not fully known.
fn partial_device_line(device: &DeviceIdentity) -> (line: String)
    ensures
        line@ == partial_device_text(*device),
{
    let mut line: String = begin("versioning device uid=");
    line.append(fact_uid(&device.stm32_uid_96).as_str());
    line.append(" serial64=");
    line.append(fact_u64(&device.serial_64).as_str());
    line.append(" serial48=");
    line.append(fact_u64(&device.serial_48).as_str());
    line.append(" serial32=");
    line.append(fact_u32(&device.serial_32).as_str());
    line.append(" serial16=");
    line.append(fact_u16(&device.serial_16).as_str());
    line.append(" stm32=");
    line.append(fact_code(&device.stm32_device_code).as_str());
    line
}

/// The line on the microcontroller.
pub fn device_line(device: &DeviceIdentity) -> (line: String)
    ensures
        line@ == device_text(*device),
{
    match (
        &device.stm32_uid_96,
        &device.serial_64,
        &device.serial_48,
        &device.serial_32,
        &device.serial_16,
    ) {
        (
            IdentityField::Known(uid),
            IdentityField::Known(serial_64),
            IdentityField::Known(serial_48),
            IdentityField::Known(serial_32),
            IdentityField::Known(serial_16),
        ) => {
            let mut line: String = begin("versioning device uuid=");
            push_hex(&mut line, uid.word0 as u64, 8);
            line.append("-");
            push_hex(&mut line, uid.word1 as u64, 8);
            line.append("-");
            push_hex(&mut line, uid.word2 as u64, 8);
            line.append(" serial64=");
            push_hex(&mut line, *serial_64, 16);
            line.append(" serial48=");
            push_hex(&mut line, *serial_48, 12);
            line.append(" serial32=");
            push_hex(&mut line, *serial_32 as u64, 8);
            line.append(" serial16=");
            push_hex(&mut line, *serial_16 as u64, 4);
            line.append(" stm32=");
            line.append(fact_code(&device.stm32_device_code).as_str());
            line
        },
        _ => partial_device_line(device),
    }
}

// ---- the firmware ----------------------------------------------------------

/// The line on the firmware.
pub open spec fn firmware_text(firmware: FirmwareIdentity) -> Seq<char> {
    "versioning firmware version="@ + str_fact(firmware.version) + " git_hash="@ + str_fact(
        firmware.git_hash,
    ) + " build_timestamp="@ + str_fact(firmware.build_timestamp) + " profile="@ + str_fact(
        firmware.build_profile,
    ) + " runtime_crc32="@ + number_fact(wide32(firmware.runtime_crc32)) + " build_crc32="@
        + number_fact(wide32(firmware.build_crc32))
}

/// The line on the firmware.
pub fn firmware_line(firmware: &FirmwareIdentity) -> (line: String)
    ensures
        line@ == firmware_text(*firmware),
{
    let mut line: String = begin("versioning firmware version=");
    line.append(fact_str(&firmware.version).as_str());
    line.append(" git_hash=");
    line.append(fact_str(&firmware.git_hash).as_str());
    line.append(" build_timestamp=");
    line.append(fact_str(&firmware.build_timestamp).as_str());
    line.append(" profile=");
    line.append(fact_str(&firmware.build_profile).as_str());
    line.append(" runtime_crc32=");
    line.append(fact_u32(&firmware.runtime_crc32).as_str());
    line.append(" build_crc32=");
    line.append(fact_u32(&firmware.build_crc32).as_str());
    line
}

// ---- the modules -----------------------------------------------------------

/// Bytes in square brackets.
pub open spec fn byte_list(bytes: Seq<u8>) -> Seq<char> {
    "["@ + byte_items(bytes) + "]"@
}

/// Bytes with commas between them.
pub open spec fn byte_items(bytes: Seq<u8>) -> Seq<char>
    decreases bytes.len(),
{
    if bytes.len() == 0 {
        Seq::empty()
    } else if bytes.len() == 1 {
        words::number(bytes[0] as int)
    } else {
        byte_items(bytes.drop_last()) + ", "@ + words::number(bytes.last() as int)
    }
}

/// Bytes in square brackets.
fn byte_list_line(bytes: &[u8]) -> (line: String)
    ensures
        line@ == byte_list(bytes@),
{
    let mut items: String = String::new();
    let mut i: usize = 0;
    while i < bytes.len()
        invariant
            i <= bytes@.len(),
            items@ == byte_items(bytes@.take(i as int)),
        decreases bytes@.len() - i,
    {
        let ghost before = items@;
        if i > 0 {
            items.append(", ");
        }
        push_number(&mut items, bytes[i] as u64);
        proof {
            assert(bytes@.take(i + 1).drop_last() =~= bytes@.take(i as int));
            assert(bytes@.take(i + 1).last() == bytes@[i as int]);
            if i == 0 {
                assert(before =~= Seq::<char>::empty());
                assert(items@ =~= byte_items(bytes@.take(i + 1)));
            }
        }
        i = i + 1;
    }
    assert(bytes@.take(i as int) =~= bytes@);
    let mut line: String = begin("[");
    line.append(items.as_str());
    line.append("]");
    line
}

/// Two bytes as a fact.
pub open spec fn pair_fact(field: IdentityField<[u8; 2]>) -> Seq<char> {
    fact(
        match field {
            IdentityField::Known(bytes) => IdentityField::Known(byte_list(bytes@)),
            IdentityField::Unknown => IdentityField::Unknown,
            IdentityField::Unavailable => IdentityField::Unavailable,
        },
    )
}

/// Two bytes as a fact.
fn fact_pair(field: &IdentityField<[u8; 2]>) -> (line: String)
    ensures
        line@ == pair_fact(*field),
{
    fact_line(
        match field {
            IdentityField::Known(bytes) => IdentityField::Known(byte_list_line(bytes.as_slice())),
            IdentityField::Unknown => IdentityField::Unknown,
            IdentityField::Unavailable => IdentityField::Unavailable,
        },
    )
}

/// Five bytes as a fact.
pub open spec fn name_fact(field: IdentityField<[u8; 5]>) -> Seq<char> {
    fact(
        match field {
            IdentityField::Known(bytes) => IdentityField::Known(byte_list(bytes@)),
            IdentityField::Unknown => IdentityField::Unknown,
            IdentityField::Unavailable => IdentityField::Unavailable,
        },
    )
}

/// Five bytes as a fact.
fn fact_name(field: &IdentityField<[u8; 5]>) -> (line: String)
    ensures
        line@ == name_fact(*field),
{
    fact_line(
        match field {
            IdentityField::Known(bytes) => IdentityField::Known(byte_list_line(bytes.as_slice())),
            IdentityField::Unknown => IdentityField::Unknown,
            IdentityField::Unavailable => IdentityField::Unavailable,
        },
    )
}

/// The memory card.
pub open spec fn card_text(card: SdCardIdentity) -> Seq<char> {
    "SdCardIdentity { manufacturer_id: "@ + number_fact(wide8(card.manufacturer_id))
        + ", oem_id: "@ + pair_fact(card.oem_id) + ", product_name: "@ + name_fact(
        card.product_name,
    ) + ", product_revision: "@ + number_fact(wide8(card.product_revision))
        + ", serial_number: "@ + number_fact(wide32(card.serial_number)) + ", manufacture_year: "@
        + number_fact(wide16(card.manufacture_year)) + ", manufacture_month: "@ + number_fact(
        wide8(card.manufacture_month),
    ) + ", capacity_bytes: "@ + number_fact(card.capacity_bytes) + " }"@
}

/// The memory card.
fn card_line(card: &SdCardIdentity) -> (line: String)
    ensures
        line@ == card_text(*card),
{
    let mut line: String = begin("SdCardIdentity { manufacturer_id: ");
    line.append(fact_u8(&card.manufacturer_id).as_str());
    line.append(", oem_id: ");
    line.append(fact_pair(&card.oem_id).as_str());
    line.append(", product_name: ");
    line.append(fact_name(&card.product_name).as_str());
    line.append(", product_revision: ");
    line.append(fact_u8(&card.product_revision).as_str());
    line.append(", serial_number: ");
    line.append(fact_u32(&card.serial_number).as_str());
    line.append(", manufacture_year: ");
    line.append(fact_u16(&card.manufacture_year).as_str());
    line.append(", manufacture_month: ");
    line.append(fact_u8(&card.manufacture_month).as_str());
    line.append(", capacity_bytes: ");
    line.append(fact_u64(&card.capacity_bytes).as_str());
    line.append(" }");
    line
}

/// The GPS receiver.
pub open spec fn gps_module_text(module: GpsModuleIdentity) -> Seq<char> {
    "GpsModuleIdentity { vendor: "@ + str_fact(module.vendor) + ", model: "@ + str_fact(
        module.model,
    ) + ", firmware_version: "@ + version_fact(module.firmware_version) + ", protocol_version: "@
        + version_fact(module.protocol_version) + ", hardware_version: "@ + version_fact(
        module.hardware_version,
    ) + " }"@
}

/// The GPS receiver.
fn gps_module_line(module: &GpsModuleIdentity) -> (line: String)
    ensures
        line@ == gps_module_text(*module),
{
    let mut line: String = begin("GpsModuleIdentity { vendor: ");
    line.append(fact_str(&module.vendor).as_str());
    line.append(", model: ");
    line.append(fact_str(&module.model).as_str());
    line.append(", firmware_version: ");
    line.append(fact_version(&module.firmware_version).as_str());
    line.append(", protocol_version: ");
    line.append(fact_version(&module.protocol_version).as_str());
    line.append(", hardware_version: ");
    line.append(fact_version(&module.hardware_version).as_str());
    line.append(" }");
    line
}

/// The radio.
pub open spec fn radio_text(module: RadioModuleIdentity) -> Seq<char> {
    "RadioModuleIdentity { vendor: "@ + str_fact(module.vendor) + ", model: "@ + str_fact(
        module.model,
    ) + ", firmware_version: "@ + version_fact(module.firmware_version) + ", hardware_version: "@
        + version_fact(module.hardware_version) + ", protocol_version: "@ + version_fact(
        module.protocol_version,
    ) + " }"@
}

/// The radio.
fn radio_line(module: &RadioModuleIdentity) -> (line: String)
    ensures
        line@ == radio_text(*module),
{
    let mut line: String = begin("RadioModuleIdentity { vendor: ");
    line.append(fact_str(&module.vendor).as_str());
    line.append(", model: ");
    line.append(fact_str(&module.model).as_str());
    line.append(", firmware_version: ");
    line.append(fact_version(&module.firmware_version).as_str());
    line.append(", hardware_version: ");
    line.append(fact_version(&module.hardware_version).as_str());
    line.append(", protocol_version: ");
    line.append(fact_version(&module.protocol_version).as_str());
    line.append(" }");
    line
}

/// A line that ends in a fact.
fn ending_in(head: &str, fact: String) -> (line: String)
    ensures
        line@ == head@ + fact@,
{
    let mut line: String = begin(head);
    line.append(fact.as_str());
    line
}

// ---- all lines -------------------------------------------------------------

/// The lines on a device.
pub open spec fn identity_text(state: IdentityState) -> Seq<Seq<char>> {
    seq![
        device_text(state.device),
        firmware_text(state.firmware),
        "versioning board_revision="@ + str_fact(state.hardware.board_revision),
        "versioning sd_card="@ + fact(
            match state.hardware.sd_card {
                IdentityField::Known(card) => IdentityField::Known(card_text(card)),
                IdentityField::Unknown => IdentityField::Unknown,
                IdentityField::Unavailable => IdentityField::Unavailable,
            },
        ),
        "versioning gps_module="@ + fact(
            match state.hardware.gps_module {
                IdentityField::Known(module) => IdentityField::Known(gps_module_text(module)),
                IdentityField::Unknown => IdentityField::Unknown,
                IdentityField::Unavailable => IdentityField::Unavailable,
            },
        ),
        "versioning radio_module="@ + fact(
            match state.hardware.radio_module {
                IdentityField::Known(module) => IdentityField::Known(radio_text(module)),
                IdentityField::Unknown => IdentityField::Unknown,
                IdentityField::Unavailable => IdentityField::Unavailable,
            },
        ),
    ]
}

/// The lines on a device.
pub fn identity_lines(state: &IdentityState) -> (lines: Vec<String>)
    ensures
        crate::firmware::report::views(lines@) == identity_text(*state),
{
    let mut lines: Vec<String> = Vec::new();
    lines.push(device_line(&state.device));
    lines.push(firmware_line(&state.firmware));
    lines.push(ending_in("versioning board_revision=", fact_str(&state.hardware.board_revision)));
    let card: IdentityField<String> = match &state.hardware.sd_card {
        IdentityField::Known(card) => IdentityField::Known(card_line(card)),
        IdentityField::Unknown => IdentityField::Unknown,
        IdentityField::Unavailable => IdentityField::Unavailable,
    };
    lines.push(ending_in("versioning sd_card=", fact_line(card)));
    let gps: IdentityField<String> = match &state.hardware.gps_module {
        IdentityField::Known(module) => IdentityField::Known(gps_module_line(module)),
        IdentityField::Unknown => IdentityField::Unknown,
        IdentityField::Unavailable => IdentityField::Unavailable,
    };
    lines.push(ending_in("versioning gps_module=", fact_line(gps)));
    let radio: IdentityField<String> = match &state.hardware.radio_module {
        IdentityField::Known(module) => IdentityField::Known(radio_line(module)),
        IdentityField::Unknown => IdentityField::Unknown,
        IdentityField::Unavailable => IdentityField::Unavailable,
    };
    lines.push(ending_in("versioning radio_module=", fact_line(radio)));
    assert(crate::firmware::report::views(lines@) =~= identity_text(*state));
    lines
}

} // verus!
