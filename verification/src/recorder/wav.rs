//! The header of a PCM sound file.
use crate::arith;
use crate::recorder::metadata::{
    RecordingMetadata, DEVICE_ID_CAPACITY, FIRMWARE_VERSION_CAPACITY,
};
use crate::text;
use crate::text::{padded_text, signed_text, text_as_str, text_new, text_push_str};
use vstd::prelude::*;

verus! {

/// Length of the header, one storage block.
pub const WAV_HEADER_BYTES: usize = 512;

/// Length of the comment in the header.
pub const COMMENT_BYTES: usize = 448;

/// Bytes of one sample.
pub const SAMPLE_BYTES: u32 = 4;

/// Format of a sound.
#[derive(Clone, Copy, Debug, PartialEq, Eq, Structural)]
pub struct AudioFormat {
    pub sample_rate_hz: u32,
    pub channels: u8,
    /// Rate of the clock that timestamps the samples.
    pub timestamp_hz: u32,
}

impl AudioFormat {
    /// A format.
    pub fn new(sample_rate_hz: u32, channels: u8, timestamp_hz: u32) -> (format: Self)
        ensures
            format == (AudioFormat { sample_rate_hz, channels, timestamp_hz }),
    {
        AudioFormat { sample_rate_hz, channels, timestamp_hz }
    }
}

/// Why a header cannot be written.
#[derive(Clone, Copy, Debug, PartialEq, Eq, Structural)]
pub enum WavError {
    InvalidFormat,
    DataSizeOverflow,
}

/// Bytes of a second of sound.
pub open spec fn bytes_per_second(format: AudioFormat) -> int {
    format.sample_rate_hz * format.channels * 4
}

/// Bytes of some seconds of sound.
pub open spec fn data_bytes(format: AudioFormat, seconds: u32) -> int {
    bytes_per_second(format) * seconds
}

/// Whether a format and a length describe any sound at all.
pub open spec fn describes_sound(format: AudioFormat, seconds: u32) -> bool {
    format.sample_rate_hz > 0 && format.channels > 0 && seconds > 0
}

// ---- bytes -----------------------------------------------------------------

/// A number of two bytes, least significant byte first.
pub open spec fn le16(value: int) -> Seq<u8> {
    seq![(value % 256) as u8, (value / 256 % 256) as u8]
}

/// A number of four bytes, least significant byte first.
pub open spec fn le32(value: int) -> Seq<u8> {
    seq![
        (value % 256) as u8,
        (value / 256 % 256) as u8,
        (value / 65_536 % 256) as u8,
        (value / 16_777_216 % 256) as u8,
    ]
}

/// The number that four bytes stand for, least significant byte first.
pub open spec fn from_le32(bytes: Seq<u8>) -> int {
    bytes[0] + bytes[1] * 256 + bytes[2] * 65_536 + bytes[3] * 16_777_216
}

/// A number of four bytes can be read back.
pub proof fn law_numbers_read_back(value: u32)
    ensures
        from_le32(le32(value as int)) == value,
{
}

/// Appends a number of two bytes.
fn push_u16(bytes: &mut Vec<u8>, value: u16)
    ensures
        final(bytes)@ == old(bytes)@ + le16(value as int),
{
    bytes.push((value % 256) as u8);
    bytes.push((value / 256 % 256) as u8);
    assert(bytes@ =~= old(bytes)@ + le16(value as int));
}

/// Appends a number of four bytes.
pub(crate) fn push_u32(bytes: &mut Vec<u8>, value: u32)
    ensures
        final(bytes)@ == old(bytes)@ + le32(value as int),
{
    bytes.push((value % 256) as u8);
    bytes.push((value / 256 % 256) as u8);
    bytes.push((value / 65_536 % 256) as u8);
    bytes.push((value / 16_777_216 % 256) as u8);
    assert(bytes@ =~= old(bytes)@ + le32(value as int));
}

/// Appends a name of four bytes.
fn push_id(bytes: &mut Vec<u8>, id: [u8; 4])
    ensures
        final(bytes)@ == old(bytes)@ + id@,
{
    bytes.push(id[0]);
    bytes.push(id[1]);
    bytes.push(id[2]);
    bytes.push(id[3]);
    assert(bytes@ =~= old(bytes)@ + id@);
}

/// A name of four bytes, given by its letters.
pub open spec fn id(a: char, b: char, c: char, d: char) -> Seq<u8> {
    seq![a as u8, b as u8, c as u8, d as u8]
}

// ---- the comment -----------------------------------------------------------

/// The comment: start, device and firmware, and the position where it is
/// known.
pub open spec fn comment_text(metadata: RecordingMetadata) -> Seq<char> {
    let common = "start_utc="@ + text::signed_decimal(metadata.started_utc.seconds as int) + "."@
        + text::padded_decimal(metadata.started_utc.microseconds as nat, 6) + ";device="@
        + text::text(metadata.device_id) + ";firmware="@ + text::text(metadata.firmware_version);
    match (metadata.latitude_e7, metadata.longitude_e7) {
        (Some(latitude), Some(longitude)) => common + ";latitude_e7="@ + text::signed_decimal(
            latitude as int,
        ) + ";longitude_e7="@ + text::signed_decimal(longitude as int),
        _ => common,
    }
}

/// The bytes of the comment.
pub open spec fn comment_bytes(metadata: RecordingMetadata) -> Seq<u8> {
    vstd::utf8::encode_utf8(comment_text(metadata))
}

/// Appends a part to a comment that has room for it.
fn push_part(comment: &mut heapless::String<COMMENT_BYTES>, part: &str)
    requires
        text::byte_len(text::text(*old(comment))) + text::byte_len(part@) <= COMMENT_BYTES,
    ensures
        text::text(*final(comment)) == text::text(*old(comment)) + part@,
        text::byte_len(text::text(*final(comment))) == text::byte_len(text::text(*old(comment)))
            + text::byte_len(part@),
{
    proof {
        text::lemma_encode_concat(text::text(*comment), part@);
    }
    let fits: bool = text_push_str(comment, part);
}

/// Digits take one byte each, and not many.
proof fn lemma_number_bytes(value: int)
    requires
        i64::MIN <= value <= u64::MAX,
    ensures
        text::byte_len(text::signed_decimal(value)) <= 20,
{
    if value < 0 {
        let magnitude = (-value) as nat;
        text::lemma_decimal_ascii(magnitude);
        text::lemma_decimal_fits(magnitude);
        text::lemma_decimal_below_19(magnitude);
        text::lemma_ascii_byte_len(text::signed_decimal(value));
    } else {
        text::lemma_decimal_ascii(value as nat);
        text::lemma_decimal_fits(value as nat);
        text::lemma_ascii_byte_len(text::signed_decimal(value));
    }
}

/// Padded digits take one byte each, and not many.
proof fn lemma_padded_bytes(value: nat)
    requires
        value <= u32::MAX,
    ensures
        text::byte_len(text::padded_decimal(value, 6)) <= 10,
{
    text::lemma_decimal_ascii(value);
    text::lemma_decimal_fits(value);
    text::lemma_ascii_byte_len(text::padded_decimal(value, 6));
}

/// The comment of a recording.
fn write_comment(metadata: &RecordingMetadata) -> (comment: heapless::String<COMMENT_BYTES>)
    ensures
        text::text(comment) == comment_text(*metadata),
{
    let mut comment: heapless::String<COMMENT_BYTES> = text_new();
    proof {
        assert(vstd::utf8::encode_utf8(Seq::<char>::empty()) =~= Seq::<u8>::empty());
        reveal_strlit("start_utc=");
        reveal_strlit(".");
        reveal_strlit(";device=");
        reveal_strlit(";firmware=");
        reveal_strlit(";latitude_e7=");
        reveal_strlit(";longitude_e7=");
        text::lemma_ascii_byte_len("start_utc="@);
        text::lemma_ascii_byte_len("."@);
        text::lemma_ascii_byte_len(";device="@);
        text::lemma_ascii_byte_len(";firmware="@);
        text::lemma_ascii_byte_len(";latitude_e7="@);
        text::lemma_ascii_byte_len(";longitude_e7="@);
        lemma_number_bytes(metadata.started_utc.seconds as int);
        lemma_padded_bytes(metadata.started_utc.microseconds as nat);
    }
    let seconds: heapless::String<20> = signed_text(metadata.started_utc.seconds);
    let microseconds: heapless::String<20> = padded_text(
        metadata.started_utc.microseconds as u64,
        6,
    );
    push_part(&mut comment, "start_utc=");
    push_part(&mut comment, text_as_str(&seconds));
    push_part(&mut comment, ".");
    push_part(&mut comment, text_as_str(&microseconds));
    push_part(&mut comment, ";device=");
    push_part(&mut comment, text_as_str(&metadata.device_id));
    push_part(&mut comment, ";firmware=");
    push_part(&mut comment, text_as_str(&metadata.firmware_version));
    let ghost common = "start_utc="@ + text::signed_decimal(metadata.started_utc.seconds as int)
        + "."@ + text::padded_decimal(metadata.started_utc.microseconds as nat, 6) + ";device="@
        + text::text(metadata.device_id) + ";firmware="@ + text::text(metadata.firmware_version);
    assert(text::text(comment) =~= common);
    if let (Some(latitude), Some(longitude)) = (metadata.latitude_e7, metadata.longitude_e7) {
        proof {
            lemma_number_bytes(latitude as int);
            lemma_number_bytes(longitude as int);
        }
        let shown_latitude: heapless::String<20> = signed_text(latitude as i64);
        let shown_longitude: heapless::String<20> = signed_text(longitude as i64);
        push_part(&mut comment, ";latitude_e7=");
        push_part(&mut comment, text_as_str(&shown_latitude));
        push_part(&mut comment, ";longitude_e7=");
        push_part(&mut comment, text_as_str(&shown_longitude));
    }
    assert(text::text(comment) =~= comment_text(*metadata));
    comment
}

// ---- the header ------------------------------------------------------------

/// A comment filled up with zeros.
pub open spec fn padded_comment(comment: Seq<u8>) -> Seq<u8> {
    Seq::new(
        448,
        |i: int|
            if i < comment.len() {
                comment[i]
            } else {
                0u8
            },
    )
}

/// The start of a header: what the file is and how long.
pub open spec fn riff_part(sound: int) -> Seq<u8> {
    id('R', 'I', 'F', 'F') + le32(arith::min(504 + sound, u32::MAX as int)) + id(
        'W',
        'A',
        'V',
        'E',
    )
}

/// The format of the sound.
pub open spec fn format_part(format: AudioFormat) -> Seq<u8> {
    id('f', 'm', 't', ' ') + le32(16) + le16(1) + le16(format.channels as int) + le32(
        format.sample_rate_hz as int,
    ) + le32(bytes_per_second(format)) + le16(format.channels * 4) + le16(32)
}

/// The start of the comment.
pub open spec fn info_part() -> Seq<u8> {
    id('L', 'I', 'S', 'T') + le32(460) + id('I', 'N', 'F', 'O') + id('I', 'C', 'M', 'T') + le32(448)
}

/// The start of the sound.
pub open spec fn data_part(sound: int) -> Seq<u8> {
    id('d', 'a', 't', 'a') + le32(sound)
}

/// The bytes of a header: the format, the comment filled up with zeros, and
/// the length of the sound.
pub open spec fn header_bytes(format: AudioFormat, seconds: u32, metadata: RecordingMetadata) -> Seq<
    u8,
> {
    let sound = data_bytes(format, seconds);
    riff_part(sound) + format_part(format) + info_part() + padded_comment(
        comment_bytes(metadata),
    ) + data_part(sound)
}

/// Writes the headers of recordings of one format and length.
pub struct WavContainer {
    format: AudioFormat,
    declared_file_seconds: u32,
}

impl WavContainer {
    /// Format of the recordings.
    pub closed spec fn format(self) -> AudioFormat {
        self.format
    }

    /// Length of the recordings.
    pub closed spec fn seconds(self) -> u32 {
        self.declared_file_seconds
    }

    /// The sound's length fits its field.
    pub open spec fn well_formed(self) -> bool {
        &&& describes_sound(self.format(), self.seconds())
        &&& data_bytes(self.format(), self.seconds()) <= u32::MAX
    }

    /// Headers for recordings of a format and length, unless their size does
    /// not fit.
    pub fn new(format: AudioFormat, declared_file_seconds: u32) -> (container: Result<
        Self,
        WavError,
    >)
        ensures
            match container {
                Ok(container) => {
                    &&& container.well_formed()
                    &&& container.format() == format
                    &&& container.seconds() == declared_file_seconds
                },
                Err(WavError::InvalidFormat) => !describes_sound(format, declared_file_seconds),
                Err(WavError::DataSizeOverflow) => describes_sound(format, declared_file_seconds)
                    && data_bytes(format, declared_file_seconds) > u32::MAX,
            },
    {
        if format.sample_rate_hz == 0 || format.channels == 0 || declared_file_seconds == 0 {
            return Err(WavError::InvalidFormat);
        }
        proof {
            assert(format.sample_rate_hz * format.channels <= 0xffff_ffff * 0xff)
                by (nonlinear_arith)
                requires
                    format.sample_rate_hz <= 0xffff_ffff,
                    format.channels <= 0xff,
            ;
            assert(bytes_per_second(format) * declared_file_seconds <= 0xffff_ffff * 0xff * 4
                * 0xffff_ffff) by (nonlinear_arith)
                requires
                    0 <= bytes_per_second(format) <= 0xffff_ffff * 0xff * 4,
                    0 <= declared_file_seconds <= 0xffff_ffff,
            ;
        }
        let per_second: u128 = format.sample_rate_hz as u128 * format.channels as u128 * 4;
        let total: u128 = per_second * declared_file_seconds as u128;
        if total > u32::MAX as u128 {
            return Err(WavError::DataSizeOverflow);
        }
        Ok(WavContainer { format, declared_file_seconds })
    }

    /// The header of a recording.
    pub fn header(&self, metadata: &RecordingMetadata) -> (header: Vec<u8>)
        requires
            self.well_formed(),
        ensures
            header@ == header_bytes(self.format(), self.seconds(), *metadata),
            header@.len() == WAV_HEADER_BYTES,
    {
        let format: AudioFormat = self.format;
        proof {
            let rate = bytes_per_second(format);
            assert(rate <= rate * self.declared_file_seconds) by (nonlinear_arith)
                requires
                    rate >= 0,
                    self.declared_file_seconds >= 1,
            ;
            assert(format.sample_rate_hz * format.channels >= 0) by (nonlinear_arith);
        }
        let byte_rate: u32 = format.sample_rate_hz * format.channels as u32 * 4;
        let sound: u32 = byte_rate * self.declared_file_seconds;
        let riff: u32 = if sound > 0xffff_ffff - 504 {
            u32::MAX
        } else {
            504 + sound
        };
        let comment: heapless::String<COMMENT_BYTES> = write_comment(metadata);
        let note: &[u8] = text_as_str(&comment).as_bytes();
        let mut header: Vec<u8> = Vec::new();
        push_riff(&mut header, riff);
        push_format(&mut header, format, byte_rate);
        push_info(&mut header);
        push_comment(&mut header, note);
        push_data(&mut header, sound);
        assert(header@ =~= header_bytes(self.format(), self.seconds(), *metadata));
        header
    }
}

/// Appends what the file is and how long.
fn push_riff(header: &mut Vec<u8>, length: u32)
    ensures
        final(header)@ == old(header)@ + (id('R', 'I', 'F', 'F') + le32(length as int) + id(
            'W',
            'A',
            'V',
            'E',
        )),
{
    push_id(header, [82, 73, 70, 70]);
    push_u32(header, length);
    push_id(header, [87, 65, 86, 69]);
    proof {
        assert([82u8, 73u8, 70u8, 70u8]@ =~= id('R', 'I', 'F', 'F'));
        assert([87u8, 65u8, 86u8, 69u8]@ =~= id('W', 'A', 'V', 'E'));
        assert(header@ =~= old(header)@ + (id('R', 'I', 'F', 'F') + le32(length as int) + id(
            'W',
            'A',
            'V',
            'E',
        )));
    }
}

/// Appends the format of the sound.
fn push_format(header: &mut Vec<u8>, format: AudioFormat, byte_rate: u32)
    requires
        byte_rate == bytes_per_second(format),
    ensures
        final(header)@ == old(header)@ + format_part(format),
{
    push_id(header, [102, 109, 116, 32]);
    push_u32(header, 16);
    push_u16(header, 1);
    push_u16(header, format.channels as u16);
    push_u32(header, format.sample_rate_hz);
    push_u32(header, byte_rate);
    push_u16(header, format.channels as u16 * 4);
    push_u16(header, 32);
    proof {
        assert([102u8, 109u8, 116u8, 32u8]@ =~= id('f', 'm', 't', ' '));
        assert(header@ =~= old(header)@ + format_part(format));
    }
}

/// Appends the start of the comment.
fn push_info(header: &mut Vec<u8>)
    ensures
        final(header)@ == old(header)@ + info_part(),
{
    push_id(header, [76, 73, 83, 84]);
    push_u32(header, 460);
    push_id(header, [73, 78, 70, 79]);
    push_id(header, [73, 67, 77, 84]);
    push_u32(header, 448);
    proof {
        assert([76u8, 73u8, 83u8, 84u8]@ =~= id('L', 'I', 'S', 'T'));
        assert([73u8, 78u8, 70u8, 79u8]@ =~= id('I', 'N', 'F', 'O'));
        assert([73u8, 67u8, 77u8, 84u8]@ =~= id('I', 'C', 'M', 'T'));
        assert(header@ =~= old(header)@ + info_part());
    }
}

/// Appends the start of the sound.
fn push_data(header: &mut Vec<u8>, sound: u32)
    ensures
        final(header)@ == old(header)@ + data_part(sound as int),
{
    push_id(header, [100, 97, 116, 97]);
    push_u32(header, sound);
    proof {
        assert([100u8, 97u8, 116u8, 97u8]@ =~= id('d', 'a', 't', 'a'));
        assert(header@ =~= old(header)@ + data_part(sound as int));
    }
}

/// Appends a comment and the zeros behind it.
fn push_comment(header: &mut Vec<u8>, note: &[u8])
    ensures
        final(header)@ == old(header)@ + padded_comment(note@),
{
    let mut index: usize = 0;
    assert(header@ =~= old(header)@ + padded_comment(note@).take(0));
    while index < COMMENT_BYTES
        invariant
            index <= COMMENT_BYTES,
            header@ == old(header)@ + padded_comment(note@).take(index as int),
        decreases COMMENT_BYTES - index,
    {
        if index < note.len() {
            header.push(note[index]);
        } else {
            header.push(0);
        }
        index = index + 1;
        assert(header@ =~= old(header)@ + padded_comment(note@).take(index as int));
    }
    assert(padded_comment(note@).take(index as int) =~= padded_comment(note@));
}

/// Whether the texts of some metadata are within their capacities.
pub open spec fn texts_fit(metadata: RecordingMetadata) -> bool {
    &&& text::byte_len(text::text(metadata.device_id)) <= DEVICE_ID_CAPACITY
    &&& text::byte_len(text::text(metadata.firmware_version)) <= FIRMWARE_VERSION_CAPACITY
}

/// Every comment fits its place.
proof fn lemma_comment_fits(metadata: RecordingMetadata)
    requires
        texts_fit(metadata),
    ensures
        comment_bytes(metadata).len() <= COMMENT_BYTES,
{
    reveal_strlit("start_utc=");
    reveal_strlit(".");
    reveal_strlit(";device=");
    reveal_strlit(";firmware=");
    reveal_strlit(";latitude_e7=");
    reveal_strlit(";longitude_e7=");
    text::lemma_ascii_byte_len("start_utc="@);
    text::lemma_ascii_byte_len("."@);
    text::lemma_ascii_byte_len(";device="@);
    text::lemma_ascii_byte_len(";firmware="@);
    text::lemma_ascii_byte_len(";latitude_e7="@);
    text::lemma_ascii_byte_len(";longitude_e7="@);
    let seconds = text::signed_decimal(metadata.started_utc.seconds as int);
    let micros = text::padded_decimal(metadata.started_utc.microseconds as nat, 6);
    lemma_number_bytes(metadata.started_utc.seconds as int);
    lemma_padded_bytes(metadata.started_utc.microseconds as nat);
    let a = "start_utc="@ + seconds;
    let b = a + "."@;
    let c = b + micros;
    let d = c + ";device="@;
    let e = d + text::text(metadata.device_id);
    let f = e + ";firmware="@;
    let common = f + text::text(metadata.firmware_version);
    text::lemma_encode_concat("start_utc="@, seconds);
    text::lemma_encode_concat(a, "."@);
    text::lemma_encode_concat(b, micros);
    text::lemma_encode_concat(c, ";device="@);
    text::lemma_encode_concat(d, text::text(metadata.device_id));
    text::lemma_encode_concat(e, ";firmware="@);
    text::lemma_encode_concat(f, text::text(metadata.firmware_version));
    if let (Some(latitude), Some(longitude)) = (metadata.latitude_e7, metadata.longitude_e7) {
        lemma_number_bytes(latitude as int);
        lemma_number_bytes(longitude as int);
        let g = common + ";latitude_e7="@;
        let h = g + text::signed_decimal(latitude as int);
        let i = h + ";longitude_e7="@;
        text::lemma_encode_concat(common, ";latitude_e7="@);
        text::lemma_encode_concat(g, text::signed_decimal(latitude as int));
        text::lemma_encode_concat(h, ";longitude_e7="@);
        text::lemma_encode_concat(i, text::signed_decimal(longitude as int));
    }
}

/// The parts of a header stand one behind the other and fill one block.
proof fn lemma_header_parts(format: AudioFormat, seconds: u32, metadata: RecordingMetadata)
    ensures
        ({
            let header = header_bytes(format, seconds, metadata);
            let sound = data_bytes(format, seconds);
            &&& header.len() == WAV_HEADER_BYTES
            &&& header.subrange(0, 12) == riff_part(sound)
            &&& header.subrange(12, 36) == format_part(format)
            &&& header.subrange(36, 56) == info_part()
            &&& header.subrange(56, 504) == padded_comment(comment_bytes(metadata))
            &&& header.subrange(504, 512) == data_part(sound)
        }),
{
    let header = header_bytes(format, seconds, metadata);
    let sound = data_bytes(format, seconds);
    let comment = padded_comment(comment_bytes(metadata));
    let front = riff_part(sound);
    let middle = format_part(format);
    let info = info_part();
    let end = data_part(sound);
    assert(front.len() == 12 && middle.len() == 24 && info.len() == 20);
    assert(comment.len() == 448 && end.len() == 8);
    assert(header == front + middle + info + comment + end);
    assert(header.subrange(0, 12) =~= front);
    assert(header.subrange(12, 36) =~= middle);
    assert(header.subrange(36, 56) =~= info);
    assert(header.subrange(56, 504) =~= comment);
    assert(header.subrange(504, 512) =~= end);
}

/// A header is one block, and its fields stand where a reader looks for them.
pub proof fn law_header_fields_are_in_place(
    format: AudioFormat,
    seconds: u32,
    metadata: RecordingMetadata,
)
    requires
        texts_fit(metadata),
        data_bytes(format, seconds) <= u32::MAX,
        bytes_per_second(format) <= u32::MAX,
    ensures
        ({
            let header = header_bytes(format, seconds, metadata);
            &&& header.len() == WAV_HEADER_BYTES
            &&& header.subrange(0, 4) == id('R', 'I', 'F', 'F')
            &&& header.subrange(8, 12) == id('W', 'A', 'V', 'E')
            &&& header.subrange(22, 24) == le16(format.channels as int)
            &&& header.subrange(24, 28) == le32(format.sample_rate_hz as int)
            &&& header.subrange(28, 32) == le32(bytes_per_second(format))
            &&& header.subrange(56, 56 + comment_bytes(metadata).len() as int) == comment_bytes(metadata)
            &&& header.subrange(504, 508) == id('d', 'a', 't', 'a')
            &&& header.subrange(508, 512) == le32(data_bytes(format, seconds))
        }),
{
    lemma_comment_fits(metadata);
    lemma_header_parts(format, seconds, metadata);
    let sound = data_bytes(format, seconds);
    let comment = comment_bytes(metadata);
    let padded = padded_comment(comment);
    let count = comment.len() as int;
    let header = header_bytes(format, seconds, metadata);
    let front = riff_part(sound);
    let middle = format_part(format);
    let end = data_part(sound);
    assert(header.subrange(0, 4) =~= header.subrange(0, 12).subrange(0, 4));
    assert(front.subrange(0, 4) =~= id('R', 'I', 'F', 'F'));
    assert(header.subrange(8, 12) =~= header.subrange(0, 12).subrange(8, 12));
    assert(front.subrange(8, 12) =~= id('W', 'A', 'V', 'E'));
    assert(header.subrange(22, 24) =~= header.subrange(12, 36).subrange(10, 12));
    assert(middle.subrange(10, 12) =~= le16(format.channels as int));
    assert(header.subrange(24, 28) =~= header.subrange(12, 36).subrange(12, 16));
    assert(middle.subrange(12, 16) =~= le32(format.sample_rate_hz as int));
    assert(header.subrange(28, 32) =~= header.subrange(12, 36).subrange(16, 20));
    assert(middle.subrange(16, 20) =~= le32(bytes_per_second(format)));
    assert(header.subrange(56, 56 + count) =~= header.subrange(56, 504).subrange(0, count));
    assert(padded.subrange(0, count) =~= comment);
    assert(header.subrange(504, 508) =~= header.subrange(504, 512).subrange(0, 4));
    assert(end.subrange(0, 4) =~= id('d', 'a', 't', 'a'));
    assert(header.subrange(508, 512) =~= header.subrange(504, 512).subrange(4, 8));
    assert(end.subrange(4, 8) =~= le32(sound));
}

/// The number that two bytes of a header stand for, the lower one first.
pub open spec fn number16(header: Seq<u8>, at: int) -> int {
    header[at] + 256 * header[at + 1]
}

/// The number that four bytes of a header stand for, the lowest one first.
pub open spec fn number32(header: Seq<u8>, at: int) -> int {
    header[at] + 256 * header[at + 1] + 65_536 * header[at + 2] + 16_777_216 * header[at + 3]
}

/// Four letters of a header.
pub open spec fn letters(header: Seq<u8>, at: int, a: u8, b: u8, c: u8, d: u8) -> bool {
    header[at] == a && header[at + 1] == b && header[at + 2] == c && header[at + 3] == d
}

/// In every header the sound is integer PCM of 32 bits a sample: format number one
/// in a block of sixteen bytes, four bytes a frame for each channel, and as many
/// bytes a second as that gives at the sample rate.
pub proof fn law_sound_is_integer_pcm(
    format: AudioFormat,
    seconds: u32,
    metadata: RecordingMetadata,
)
    requires
        seconds > 0,
        format.sample_rate_hz * format.channels * 4 * seconds <= u32::MAX,
    ensures
        ({
            let header = header_bytes(format, seconds, metadata);
            &&& header.len() == 512
            &&& letters(header, 12, 102, 109, 116, 32)
            &&& number32(header, 16) == 16
            &&& number16(header, 20) == 1
            &&& number16(header, 22) == format.channels
            &&& number32(header, 24) == format.sample_rate_hz
            &&& number32(header, 28) == format.sample_rate_hz * format.channels * 4
            &&& number16(header, 32) == 4 * format.channels
            &&& number16(header, 34) == 32
        }),
{
    lemma_header_parts(format, seconds, metadata);
    lemma_rate_fits(format, seconds);
    let header = header_bytes(format, seconds, metadata);
    let part = header.subrange(12, 36);
    assert(part == format_part(format));
    lemma_format_part_reads(format);
    assert(header[12] == part[0] && header[13] == part[1] && header[14] == part[2]);
    assert(header[15] == part[3] && header[16] == part[4] && header[17] == part[5]);
    assert(header[18] == part[6] && header[19] == part[7] && header[20] == part[8]);
    assert(header[21] == part[9] && header[22] == part[10] && header[23] == part[11]);
    assert(header[24] == part[12] && header[25] == part[13]);
    assert(header[26] == part[14] && header[27] == part[15]);
    assert(header[28] == part[16] && header[29] == part[17]);
    assert(header[30] == part[18] && header[31] == part[19]);
    assert(header[32] == part[20] && header[33] == part[21]);
    assert(header[34] == part[22] && header[35] == part[23]);
}

/// A second of sound is no longer than some seconds of it.
proof fn lemma_rate_fits(format: AudioFormat, seconds: u32)
    requires
        seconds > 0,
        format.sample_rate_hz * format.channels * 4 * seconds <= u32::MAX,
    ensures
        0 <= bytes_per_second(format) <= u32::MAX,
{
    let rate = format.sample_rate_hz * format.channels * 4;
    assert(0 <= format.sample_rate_hz * format.channels) by (nonlinear_arith);
    assert(rate <= rate * seconds) by (nonlinear_arith)
        requires
            rate >= 0,
            seconds >= 1,
    ;
}

/// The numbers in the format of the sound.
proof fn lemma_format_part_reads(format: AudioFormat)
    requires
        0 <= bytes_per_second(format) <= u32::MAX,
    ensures
        ({
            let part = format_part(format);
            &&& part.len() == 24
            &&& letters(part, 0, 102, 109, 116, 32)
            &&& number32(part, 4) == 16
            &&& number16(part, 8) == 1
            &&& number16(part, 10) == format.channels
            &&& number32(part, 12) == format.sample_rate_hz
            &&& number32(part, 16) == format.sample_rate_hz * format.channels * 4
            &&& number16(part, 20) == 4 * format.channels
            &&& number16(part, 22) == 32
        }),
{
}

/// Every header says that a sound file follows it and its comment, names the
/// comment, and tells how many bytes of sound follow: a second's for each second.
pub proof fn law_header_measures_the_file(
    format: AudioFormat,
    seconds: u32,
    metadata: RecordingMetadata,
)
    requires
        seconds > 0,
        format.sample_rate_hz * format.channels * 4 * seconds <= u32::MAX,
    ensures
        ({
            let header = header_bytes(format, seconds, metadata);
            let sound = format.sample_rate_hz * format.channels * 4 * seconds;
            &&& header.len() == 512
            &&& letters(header, 0, 82, 73, 70, 70)
            &&& sound + 504 <= u32::MAX ==> number32(header, 4) == sound + 504
            &&& sound + 504 > u32::MAX ==> number32(header, 4) == u32::MAX
            &&& letters(header, 8, 87, 65, 86, 69)
            &&& letters(header, 36, 76, 73, 83, 84)
            &&& number32(header, 40) == 460
            &&& letters(header, 44, 73, 78, 70, 79)
            &&& letters(header, 48, 73, 67, 77, 84)
            &&& number32(header, 52) == 448
            &&& letters(header, 504, 100, 97, 116, 97)
            &&& number32(header, 508) == sound
        }),
{
    lemma_header_parts(format, seconds, metadata);
    lemma_rate_fits(format, seconds);
    let header = header_bytes(format, seconds, metadata);
    let sound = data_bytes(format, seconds);
    assert(sound >= 0) by (nonlinear_arith)
        requires
            sound == bytes_per_second(format) * seconds,
            bytes_per_second(format) >= 0,
    ;
    let front = header.subrange(0, 12);
    let info = header.subrange(36, 56);
    let end = header.subrange(504, 512);
    lemma_riff_part_reads(sound);
    lemma_info_part_reads();
    lemma_data_part_reads(sound);
    assert(header[0] == front[0] && header[1] == front[1] && header[2] == front[2]);
    assert(header[3] == front[3] && header[4] == front[4] && header[5] == front[5]);
    assert(header[6] == front[6] && header[7] == front[7] && header[8] == front[8]);
    assert(header[9] == front[9] && header[10] == front[10] && header[11] == front[11]);
    assert(header[36] == info[0] && header[37] == info[1] && header[38] == info[2]);
    assert(header[39] == info[3] && header[40] == info[4] && header[41] == info[5]);
    assert(header[42] == info[6] && header[43] == info[7] && header[44] == info[8]);
    assert(header[45] == info[9] && header[46] == info[10] && header[47] == info[11]);
    assert(header[48] == info[12] && header[49] == info[13] && header[50] == info[14]);
    assert(header[51] == info[15] && header[52] == info[16] && header[53] == info[17]);
    assert(header[54] == info[18] && header[55] == info[19]);
    assert(header[504] == end[0] && header[505] == end[1] && header[506] == end[2]);
    assert(header[507] == end[3] && header[508] == end[4] && header[509] == end[5]);
    assert(header[510] == end[6] && header[511] == end[7]);
}

/// The name and the number at the start of a header.
proof fn lemma_riff_part_reads(sound: int)
    requires
        0 <= sound <= u32::MAX,
    ensures
        ({
            let front = riff_part(sound);
            &&& front.len() == 12
            &&& letters(front, 0, 82, 73, 70, 70)
            &&& sound + 504 <= u32::MAX ==> number32(front, 4) == sound + 504
            &&& sound + 504 > u32::MAX ==> number32(front, 4) == u32::MAX
            &&& letters(front, 8, 87, 65, 86, 69)
        }),
{
}

/// The names and the numbers at the start of the comment.
proof fn lemma_info_part_reads()
    ensures
        ({
            let info = info_part();
            &&& info.len() == 20
            &&& letters(info, 0, 76, 73, 83, 84)
            &&& number32(info, 4) == 460
            &&& letters(info, 8, 73, 78, 70, 79)
            &&& letters(info, 12, 73, 67, 77, 84)
            &&& number32(info, 16) == 448
        }),
{
}

/// The name and the number at the start of the sound.
proof fn lemma_data_part_reads(sound: int)
    requires
        0 <= sound <= u32::MAX,
    ensures
        ({
            let end = data_part(sound);
            &&& end.len() == 8
            &&& letters(end, 0, 100, 97, 116, 97)
            &&& number32(end, 4) == sound
        }),
{
}

/// The comment stands behind its name, and zeros fill the rest of its place.
pub proof fn law_comment_is_filled_up_with_zeros(
    format: AudioFormat,
    seconds: u32,
    metadata: RecordingMetadata,
    i: int,
)
    requires
        texts_fit(metadata),
        0 <= i < 448,
    ensures
        ({
            let header = header_bytes(format, seconds, metadata);
            let comment = vstd::utf8::encode_utf8(comment_text(metadata));
            &&& comment.len() <= 448
            &&& i < comment.len() ==> header[56 + i] == comment[i]
            &&& i >= comment.len() ==> header[56 + i] == 0
        }),
{
    lemma_comment_fits(metadata);
    lemma_header_parts(format, seconds, metadata);
    let header = header_bytes(format, seconds, metadata);
    assert(header[56 + i] == header.subrange(56, 504)[i]);
}

/// The comment tells when the recording started, to the microsecond, on which
/// device and with which firmware. Behind that it tells the position, latitude
/// first, exactly where both coordinates are known.
pub proof fn law_comment_tells_the_recording(metadata: RecordingMetadata)
    ensures
        ({
            let nowhere = RecordingMetadata { latitude_e7: None, longitude_e7: None, ..metadata };
            let comment = comment_text(metadata);
            &&& comment_text(nowhere) == "start_utc="@ + text::signed_decimal(
                metadata.started_utc.seconds as int,
            ) + "."@ + text::padded_decimal(metadata.started_utc.microseconds as nat, 6)
                + ";device="@ + text::text(metadata.device_id) + ";firmware="@ + text::text(
                metadata.firmware_version,
            )
            &&& metadata.latitude_e7 is None || metadata.longitude_e7 is None ==> comment
                == comment_text(nowhere)
            &&& metadata.latitude_e7 is Some && metadata.longitude_e7 is Some ==> comment
                == comment_text(nowhere) + ";latitude_e7="@ + text::signed_decimal(
                metadata.latitude_e7->0 as int,
            ) + ";longitude_e7="@ + text::signed_decimal(metadata.longitude_e7->0 as int)
        }),
{
}

} // verus!
