//! Laws on recordings: what can be recorded, how much is read, and how samples are
//! written.
use crate::recorder::metadata::RecordingMetadata;
use crate::recorder::service;
use crate::recorder::service::{AudioRecorderError, NewRecording, RecorderModel};
use crate::recorder::wav;
use crate::recorder::wav::AudioFormat;
use vstd::prelude::*;

verus! {

/// There is something to record where no factor of its length is zero; it can be
/// recorded where its bytes can be counted in 32 bits and the buffer holds whole
/// frames of four bytes a channel.
pub proof fn law_recordings_that_are_possible(
    format: AudioFormat,
    seconds: u32,
    encode_bytes: int,
)
    ensures
        service::can_record(format, seconds, encode_bytes) <==> {
            &&& format.sample_rate_hz != 0
            &&& format.channels != 0
            &&& seconds != 0
            &&& format.sample_rate_hz * format.channels * 4 * seconds <= 0xffff_ffff
            &&& encode_bytes > 0
            &&& encode_bytes % (4 * format.channels) == 0
        },
{
}

/// Every sample is written as four bytes in its order, the lowest first, and a
/// negative one as its complement to two to the thirty-second.
pub proof fn law_samples_are_written_lowest_byte_first(samples: Seq<i32>, index: int)
    requires
        0 <= index < samples.len(),
    ensures
        ({
            let bytes = service::encoded(samples);
            let number = wav::number32(bytes, 4 * index);
            &&& bytes.len() == 4 * samples.len()
            &&& samples[index] >= 0 ==> number == samples[index]
            &&& samples[index] < 0 ==> number == samples[index] + 0x1_0000_0000
        }),
    decreases samples.len(),
{
    let front = samples.drop_last();
    let last = wav::le32(service::sample_bits(samples.last()));
    let bytes = service::encoded(samples);
    lemma_bytes_counted(front);
    assert(bytes == service::encoded(front) + last);
    if index < front.len() {
        law_samples_are_written_lowest_byte_first(front, index);
        let before = service::encoded(front);
        assert(before[4 * index] == bytes[4 * index]);
        assert(before[4 * index + 1] == bytes[4 * index + 1]);
        assert(before[4 * index + 2] == bytes[4 * index + 2]);
        assert(before[4 * index + 3] == bytes[4 * index + 3]);
    } else {
        assert(bytes[4 * index] == last[0]);
        assert(bytes[4 * index + 1] == last[1]);
        assert(bytes[4 * index + 2] == last[2]);
        assert(bytes[4 * index + 3] == last[3]);
    }
}

/// Samples take four bytes each.
proof fn lemma_bytes_counted(samples: Seq<i32>)
    ensures
        service::encoded(samples).len() == 4 * samples.len(),
    decreases samples.len(),
{
    if samples.len() > 0 {
        lemma_bytes_counted(samples.drop_last());
    }
}

/// A read takes what the buffer holds at four bytes a sample, and at the end of
/// the recording what is left of it; it is empty only where nothing is left.
pub proof fn law_reads_fill_the_buffer<H>(m: RecorderModel<H>, encode_bytes: int)
    requires
        service::recorder_consistent(m, encode_bytes),
    ensures
        ({
            let samples = service::next_samples(m, encode_bytes);
            let left = m.format.sample_rate_hz * m.format.channels * m.seconds - m.taken;
            &&& 0 <= samples <= left
            &&& 4 * samples <= encode_bytes
            &&& samples == left || 4 * (samples + 1) > encode_bytes
            &&& samples == 0 <==> left == 0
        }),
{
    let frame = m.format.channels * 4;
    assert(encode_bytes >= 4) by {
        if encode_bytes < 4 {
            vstd::arithmetic::div_mod::lemma_small_mod(encode_bytes as nat, frame as nat);
        }
    }
}

/// A new recording is planned as soon as its metadata is known, and not before; its
/// header fills one block and declares the bytes of a full recording.
pub proof fn law_planned_recordings_declare_their_length<H, A, E>(
    m: RecorderModel<H>,
    encode_bytes: int,
    metadata: Option<RecordingMetadata>,
    recording: Result<NewRecording, AudioRecorderError<A, E>>,
)
    requires
        service::recorder_consistent(m, encode_bytes),
        service::recording_planned(m, metadata, recording),
    ensures
        metadata is Some <==> recording is Ok,
        recording matches Err(error) ==> error is TimeUnavailable,
        recording matches Ok(planned) ==> {
            &&& planned.storage_layout == m.storage_layout
            &&& planned.header@.len() == 512
            &&& wav::number32(planned.header@, 508) == 4 * m.full
            &&& wav::number32(planned.header@, 24) == m.format.sample_rate_hz
            &&& wav::number16(planned.header@, 22) == m.format.channels
        },
{
    if let Ok(planned) = recording {
        let frames = m.format.sample_rate_hz * m.format.channels;
        assert(frames * 4 * m.seconds == 4 * (frames * m.seconds)) by (nonlinear_arith);
        wav::law_header_measures_the_file(m.format, m.seconds, metadata->0);
        wav::law_sound_is_integer_pcm(m.format, m.seconds, metadata->0);
    }
}

} // verus!
