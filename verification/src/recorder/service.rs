//! The recorder: how much to read, when to start a new file, what to write.
//!
//! The sound source and the storage are driven by the application: the
//! recorder says what comes next, and is told how it went.
use crate::recorder::metadata::{MetadataSource, RecordingMetadata};
use crate::recorder::wav;
use crate::recorder::wav::{push_u32, AudioFormat, WavContainer};
use crate::storage::types::StorageLayout;
use vstd::prelude::*;

verus! {

/// Bytes that are encoded at once by default: a quarter of a second of one
/// channel at 16 kHz, which spreads the latency of the card.
pub const DEFAULT_ENCODE_BUFFER_BYTES: usize = 16_384;

/// Parameters of a recorder.
#[derive(Clone, Copy, Debug, PartialEq, Eq, Structural)]
pub struct AudioRecorderConfig {
    pub recording_seconds: u32,
    pub storage_layout: StorageLayout,
}

impl Default for AudioRecorderConfig {
    fn default() -> (config: Self)
        ensures
            config == (AudioRecorderConfig {
                recording_seconds: 3_600,
                storage_layout: StorageLayout::HourlyFolders,
            }),
    {
        AudioRecorderConfig {
            recording_seconds: 3_600,
            storage_layout: StorageLayout::HourlyFolders,
        }
    }
}

/// Why a recorder cannot go on; `A` are the errors of the sound source, `E`
/// those of the storage.
#[derive(Debug, PartialEq, Eq)]
pub enum AudioRecorderError<A, E> {
    InvalidConfig,
    TimeUnavailable,
    NotStarted,
    AudioSource(A),
    Storage(E),
}

/// What one round of recording did.
#[derive(Clone, Copy, Debug, PartialEq, Eq, Structural)]
pub struct RecorderProgress {
    pub pcm_samples: usize,
    pub dropped_samples: u64,
    pub rotated: bool,
}

impl Default for RecorderProgress {
    fn default() -> (progress: Self)
        ensures
            progress == (RecorderProgress {
                pcm_samples: 0,
                dropped_samples: 0,
                rotated: false,
            }),
    {
        RecorderProgress { pcm_samples: 0, dropped_samples: 0, rotated: false }
    }
}

/// The file that a recording starts with.
#[derive(Debug, PartialEq, Eq)]
pub struct NewRecording {
    /// Where the file goes.
    pub storage_layout: StorageLayout,
    /// Its first block.
    pub header: Vec<u8>,
}

/// What to read next, and where it goes.
#[derive(Debug, PartialEq, Eq)]
pub struct ReadRequest<H> {
    pub stream: H,
    pub samples: usize,
}

/// Samples of a recording.
pub open spec fn recording_samples(format: AudioFormat, seconds: u32) -> int {
    format.sample_rate_hz * format.channels * seconds
}

/// Whether a recorder can work with these parameters: there is sound, its
/// size fits a file, and the buffer takes whole frames.
pub open spec fn can_record(format: AudioFormat, seconds: u32, encode_bytes: int) -> bool {
    &&& wav::describes_sound(format, seconds)
    &&& wav::data_bytes(format, seconds) <= u32::MAX
    &&& encode_bytes > 0
    &&& encode_bytes % (format.channels * 4) == 0
}

/// The bits of a sample as an unsigned number.
pub open spec fn sample_bits(sample: i32) -> int {
    if sample >= 0 {
        sample as int
    } else {
        sample + 0x1_0000_0000
    }
}

/// The bytes of samples, one behind the other.
pub open spec fn encoded(samples: Seq<i32>) -> Seq<u8>
    decreases samples.len(),
{
    if samples.len() == 0 {
        Seq::empty()
    } else {
        encoded(samples.drop_last()) + wav::le32(sample_bits(samples.last()))
    }
}

/// The recorder, for streams of type `H`.
pub struct AudioRecorder<H, const ENCODE_BYTES: usize> {
    container: WavContainer,
    storage_layout: StorageLayout,
    stream: Option<H>,
    samples_per_recording: usize,
    samples_in_recording: usize,
}

/// The recorder as contracts speak of it.
#[verifier::reject_recursive_types(H)]
pub struct RecorderModel<H> {
    pub format: AudioFormat,
    pub seconds: u32,
    pub storage_layout: StorageLayout,
    /// The open file.
    pub stream: Option<H>,
    /// Samples of a full recording.
    pub full: int,
    /// Samples in the open file.
    pub taken: int,
}

impl<H, const ENCODE_BYTES: usize> View for AudioRecorder<H, ENCODE_BYTES> {
    type V = RecorderModel<H>;

    closed spec fn view(&self) -> RecorderModel<H> {
        RecorderModel {
            format: self.container.format(),
            seconds: self.container.seconds(),
            storage_layout: self.storage_layout,
            stream: self.stream,
            full: self.samples_per_recording as int,
            taken: self.samples_in_recording as int,
        }
    }
}

/// What holds of every recorder: no file takes more than a full recording.
pub open spec fn recorder_consistent<H>(m: RecorderModel<H>, encode_bytes: int) -> bool {
    &&& can_record(m.format, m.seconds, encode_bytes)
    &&& m.full == recording_samples(m.format, m.seconds)
    &&& 0 < m.full
    &&& 0 <= m.taken <= m.full
}

/// Samples to read next: as many as the buffer takes, and never beyond the end
/// of the recording.
pub open spec fn next_samples<H>(m: RecorderModel<H>, encode_bytes: int) -> int {
    if encode_bytes / 4 < m.full - m.taken {
        encode_bytes / 4
    } else {
        m.full - m.taken
    }
}

/// Whether a request for a new file is answered as it must be: with the file,
/// or that its time is not known yet.
pub open spec fn recording_planned<H, A, E>(
    m: RecorderModel<H>,
    metadata: Option<RecordingMetadata>,
    recording: Result<NewRecording, AudioRecorderError<A, E>>,
) -> bool {
    match recording {
        Ok(recording) => {
            &&& metadata is Some
            &&& recording.storage_layout == m.storage_layout
            &&& recording.header@ == wav::header_bytes(
                m.format,
                m.seconds,
                metadata->0,
            )
        },
        Err(AudioRecorderError::TimeUnavailable) => metadata is None,
        Err(_) => false,
    }
}

impl<H: Copy, const ENCODE_BYTES: usize> AudioRecorder<H, ENCODE_BYTES> {
    /// What holds of every recorder.
    pub open spec fn well_formed(self) -> bool {
        recorder_consistent(self@, ENCODE_BYTES as int)
    }

    /// A recorder without an open file.
    pub fn new<A, E>(format: AudioFormat, config: AudioRecorderConfig) -> (recorder: Result<
        Self,
        AudioRecorderError<A, E>,
    >)
        ensures
            match recorder {
                Ok(recorder) => {
                    &&& can_record(format, config.recording_seconds, ENCODE_BYTES as int)
                    &&& recorder.well_formed()
                    &&& recorder@ == (RecorderModel {
                        format,
                        seconds: config.recording_seconds,
                        storage_layout: config.storage_layout,
                        stream: None::<H>,
                        full: recording_samples(format, config.recording_seconds),
                        taken: 0,
                    })
                },
                Err(AudioRecorderError::InvalidConfig) => !can_record(
                    format,
                    config.recording_seconds,
                    ENCODE_BYTES as int,
                ),
                Err(_) => false,
            },
    {
        let container: WavContainer = match WavContainer::new(format, config.recording_seconds) {
            Ok(container) => container,
            Err(_) => {
                return Err(AudioRecorderError::InvalidConfig);
            },
        };
        let frame_bytes: usize = format.channels as usize * 4;
        if ENCODE_BYTES == 0 || ENCODE_BYTES % frame_bytes != 0 {
            return Err(AudioRecorderError::InvalidConfig);
        }
        proof {
            lemma_recording_fits(format, config.recording_seconds);
        }
        let samples: u32 = format.sample_rate_hz * format.channels as u32
            * config.recording_seconds;
        Ok(
            AudioRecorder {
                container,
                storage_layout: config.storage_layout,
                stream: None,
                samples_per_recording: samples as usize,
                samples_in_recording: 0,
            },
        )
    }

    /// Whether a file is open.
    pub fn is_recording(&self) -> (recording: bool)
        ensures
            recording == (self@.stream is Some),
    {
        self.stream.is_some()
    }

    /// The file of a recording that begins now, with what the source told when
    /// it was asked.
    pub fn begin_recording<M: MetadataSource, A, E>(&self, source: &M) -> (recording: Result<
        NewRecording,
        AudioRecorderError<A, E>,
    >)
        requires
            self.well_formed(),
        ensures
            exists|metadata: Option<RecordingMetadata>|
                {
                    &&& #[trigger] call_ensures(M::snapshot, (source,), metadata)
                    &&& recording_planned(self@, metadata, recording)
                },
    {
        let metadata: Option<RecordingMetadata> = source.snapshot();
        let ghost known = metadata;
        let recording: Result<NewRecording, AudioRecorderError<A, E>> = self.recording_file(
            metadata,
        );
        assert(call_ensures(M::snapshot, (source,), known));
        recording
    }

    /// The file of a new recording, as soon as its metadata is known.
    pub fn recording_file<A, E>(&self, metadata: Option<RecordingMetadata>) -> (recording: Result<
        NewRecording,
        AudioRecorderError<A, E>,
    >)
        requires
            self.well_formed(),
        ensures
            recording_planned(self@, metadata, recording),
    {
        match metadata {
            Some(metadata) => Ok(
                NewRecording {
                    storage_layout: self.storage_layout,
                    header: self.container.header(&metadata),
                },
            ),
            None => Err(AudioRecorderError::TimeUnavailable),
        }
    }

    /// Takes note that a file is open and holds its header.
    pub fn recording_begun(&mut self, stream: H)
        requires
            old(self).well_formed(),
        ensures
            final(self).well_formed(),
            final(self)@ == (RecorderModel { stream: Some(stream), taken: 0, ..old(self)@ }),
    {
        self.stream = Some(stream);
        self.samples_in_recording = 0;
    }

    /// What to read next.
    pub fn next_read<A, E>(&self) -> (request: Result<ReadRequest<H>, AudioRecorderError<A, E>>)
        requires
            self.well_formed(),
        ensures
            match request {
                Ok(request) => {
                    &&& self@.stream == Some(request.stream)
                    &&& request.samples == next_samples(self@, ENCODE_BYTES as int)
                },
                Err(AudioRecorderError::NotStarted) => self@.stream is None,
                Err(_) => false,
            },
    {
        match self.stream {
            Some(stream) => {
                let capacity: usize = ENCODE_BYTES / 4;
                let remaining: usize = self.samples_per_recording - self.samples_in_recording;
                let samples: usize = if capacity < remaining {
                    capacity
                } else {
                    remaining
                };
                Ok(ReadRequest { stream, samples })
            },
            None => Err(AudioRecorderError::NotStarted),
        }
    }

    /// Takes note that samples are in the file; tells whether the recording is
    /// full and a new file is due.
    pub fn samples_appended(&mut self, samples: usize) -> (full: bool)
        requires
            old(self).well_formed(),
            samples <= old(self)@.full - old(self)@.taken,
        ensures
            final(self).well_formed(),
            final(self)@ == (RecorderModel { taken: old(self)@.taken + samples, ..old(self)@ }),
            full == (final(self)@.taken == final(self)@.full),
    {
        self.samples_in_recording = self.samples_in_recording + samples;
        self.samples_in_recording == self.samples_per_recording
    }

    /// Gives up the open file, which is to be finished.
    pub fn finish_recording<A, E>(&mut self) -> (stream: Result<H, AudioRecorderError<A, E>>)
        requires
            old(self).well_formed(),
        ensures
            final(self).well_formed(),
            final(self)@ == (RecorderModel { stream: None, ..old(self)@ }),
            match stream {
                Ok(stream) => old(self)@.stream == Some(stream),
                Err(AudioRecorderError::NotStarted) => old(self)@.stream is None,
                Err(_) => false,
            },
    {
        let stream: Option<H> = self.stream;
        self.stream = None;
        match stream {
            Some(stream) => Ok(stream),
            None => Err(AudioRecorderError::NotStarted),
        }
    }
}

/// The samples of a recording fit where its bytes do.
proof fn lemma_recording_fits(format: AudioFormat, seconds: u32)
    requires
        wav::describes_sound(format, seconds),
        wav::data_bytes(format, seconds) <= u32::MAX,
    ensures
        0 < recording_samples(format, seconds) <= u32::MAX,
        0 < format.sample_rate_hz * format.channels <= u32::MAX,
{
    let frames = format.sample_rate_hz * format.channels;
    assert(frames > 0) by (nonlinear_arith)
        requires
            frames == format.sample_rate_hz * format.channels,
            format.sample_rate_hz > 0,
            format.channels > 0,
    ;
    assert(frames <= frames * seconds && 0 < frames * seconds && frames * 4 * seconds == 4 * (frames
        * seconds)) by (nonlinear_arith)
        requires
            frames > 0,
            seconds > 0,
    ;
}

/// Encodes samples that lie in two runs, one behind the other.
pub fn encode_samples(first: &[i32], second: &[i32]) -> (bytes: Vec<u8>)
    ensures
        bytes@ == encoded(first@ + second@),
        bytes@.len() == 4 * (first@.len() + second@.len()),
{
    let mut bytes: Vec<u8> = Vec::new();
    let ghost all = first@ + second@;
    assert(all.take(0) =~= Seq::<i32>::empty());
    let mut index: usize = 0;
    while index < first.len()
        invariant
            index <= first@.len(),
            all == first@ + second@,
            bytes@ == encoded(all.take(index as int)),
            bytes@.len() == 4 * index,
        decreases first.len() - index,
    {
        push_sample(&mut bytes, first[index]);
        index = index + 1;
        assert(all.take(index as int).drop_last() =~= all.take(index - 1));
    }
    index = 0;
    while index < second.len()
        invariant
            index <= second@.len(),
            all == first@ + second@,
            bytes@ == encoded(all.take(first@.len() + index)),
            bytes@.len() == 4 * (first@.len() + index),
        decreases second.len() - index,
    {
        push_sample(&mut bytes, second[index]);
        index = index + 1;
        assert(all.take(first@.len() + index).drop_last() =~= all.take(first@.len() + index - 1));
    }
    assert(all.take(first@.len() + index) =~= all);
    bytes
}

/// Appends a sample.
fn push_sample(bytes: &mut Vec<u8>, sample: i32)
    ensures
        final(bytes)@ == old(bytes)@ + wav::le32(sample_bits(sample)),
{
    let bits: u32 = if sample >= 0 {
        sample as u32
    } else {
        (sample as i64 + 0x1_0000_0000) as u32
    };
    push_u32(bytes, bits);
}

/// A recording ends exactly at its length: reads stop there, it is full when
/// they have reached it and not before, and a new file starts from nothing.
pub proof fn law_recordings_end_at_their_length<H>(
    m: RecorderModel<H>,
    encode_bytes: int,
    samples: int,
    stream: H,
)
    requires
        recorder_consistent(m, encode_bytes),
        m.stream is Some,
        0 <= samples <= next_samples(m, encode_bytes),
    ensures
        ({
            let after = RecorderModel { taken: m.taken + samples, ..m };
            let renewed = RecorderModel { stream: Some(stream), taken: 0, ..after };
            &&& recorder_consistent(after, encode_bytes)
            &&& after.taken <= after.full
            &&& samples < m.full - m.taken ==> after.taken < after.full
            &&& recorder_consistent(renewed, encode_bytes)
            &&& next_samples(renewed, encode_bytes) > 0
        }),
{
    let frame = m.format.channels * 4;
    assert(encode_bytes >= 4) by {
        if encode_bytes < 4 {
            vstd::arithmetic::div_mod::lemma_small_mod(encode_bytes as nat, frame as nat);
        }
    }
}

/// The length that a header declares is that of a full recording.
pub proof fn law_declared_length_is_recorded(format: AudioFormat, seconds: u32, samples: Seq<i32>)
    requires
        samples.len() == recording_samples(format, seconds),
    ensures
        encoded(samples).len() == wav::data_bytes(format, seconds),
{
    lemma_encoded_len(samples);
    let frames = format.sample_rate_hz * format.channels;
    assert(frames * 4 * seconds == 4 * (frames * seconds)) by (nonlinear_arith);
}

/// Every sample can be read back from its bytes.
pub proof fn law_samples_read_back(samples: Seq<i32>, index: int)
    requires
        0 <= index < samples.len(),
    ensures
        encoded(samples).len() == 4 * samples.len(),
        wav::from_le32(encoded(samples).subrange(4 * index, 4 * index + 4)) == sample_bits(
            samples[index],
        ),
    decreases samples.len(),
{
    let front = samples.drop_last();
    let last = wav::le32(sample_bits(samples.last()));
    lemma_encoded_len(front);
    if index < front.len() {
        law_samples_read_back(front, index);
        assert(encoded(samples).subrange(4 * index, 4 * index + 4) =~= encoded(front).subrange(
            4 * index,
            4 * index + 4,
        ));
    } else {
        assert(encoded(samples).subrange(4 * index, 4 * index + 4) =~= last);
        wav::law_numbers_read_back(sample_bits(samples.last()) as u32);
    }
}

/// Samples take four bytes each.
proof fn lemma_encoded_len(samples: Seq<i32>)
    ensures
        encoded(samples).len() == 4 * samples.len(),
    decreases samples.len(),
{
    if samples.len() > 0 {
        lemma_encoded_len(samples.drop_last());
    }
}

} // verus!
