//! Recordings: their files, their length, their samples.
use raylar_services::clock::Instant;
use raylar_services::recorder::metadata::{MetadataSource, RecordingMetadata};
use raylar_services::recorder::service::{
    encode_samples, AudioRecorder, AudioRecorderConfig, AudioRecorderError, RecorderProgress,
};
use raylar_services::recorder::wav::{AudioFormat, WavContainer, WavError};
use raylar_services::storage::types::StorageLayout;
use raylar_services::time::types::{TimeState, UtcStatus, UtcTimestamp};

type Failure = AudioRecorderError<(), ()>;

/// Knows when recordings start, or does not.
struct Start(Option<UtcTimestamp>);

impl MetadataSource for Start {
    fn snapshot(&self) -> Option<RecordingMetadata> {
        self.0.map(RecordingMetadata::new)
    }
}

#[derive(Default)]
struct MockStorage {
    writes: Vec<Vec<u8>>,
    layouts: Vec<StorageLayout>,
    finishes: usize,
    next_handle: u8,
}

impl MockStorage {
    fn begin(&mut self, layout: StorageLayout) -> u8 {
        self.layouts.push(layout);
        self.next_handle += 1;
        self.next_handle
    }
}

struct Session {
    recorder: AudioRecorder<u8, 16>,
    storage: MockStorage,
    samples: Vec<i32>,
}

impl Session {
    fn new(format: AudioFormat, config: AudioRecorderConfig) -> Self {
        Session {
            recorder: AudioRecorder::new::<(), ()>(format, config).unwrap(),
            storage: MockStorage::default(),
            samples: Vec::new(),
        }
    }

    /// Starts with the sound that comes from now on.
    fn start(&mut self) {
        self.samples.clear();
        self.open();
    }

    fn open(&mut self) {
        let start = UtcTimestamp::new(1_700_000_000, 0).unwrap();
        let file = self.recorder.begin_recording::<_, (), ()>(&Start(Some(start))).unwrap();
        let stream = self.storage.begin(file.storage_layout);
        self.storage.writes.push(file.header);
        self.recorder.recording_begun(stream);
    }

    fn record_next(&mut self) -> RecorderProgress {
        let request = self.recorder.next_read::<(), ()>().unwrap();
        let count = request.samples.min(self.samples.len());
        let taken: Vec<i32> = self.samples.drain(..count).collect();
        self.storage.writes.push(encode_samples(&taken, &[]));
        let rotated = self.recorder.samples_appended(count);
        if rotated {
            self.stop();
            self.open();
        }
        RecorderProgress { pcm_samples: count, dropped_samples: 0, rotated }
    }

    fn stop(&mut self) {
        self.recorder.finish_recording::<(), ()>().unwrap();
        self.storage.finishes += 1;
    }
}

#[test]
fn recorder_owns_rotation_at_an_exact_sample_boundary() {
    let config = AudioRecorderConfig {
        recording_seconds: 1,
        storage_layout: StorageLayout::DailyFolders,
    };
    let mut session = Session::new(AudioFormat::new(4, 1, 1_000_000), config);

    session.samples.extend([99, 99]);
    session.start();
    session.samples.extend([1, -2, 3, -4]);
    let progress = session.record_next();

    assert_eq!(progress.pcm_samples, 4);
    assert!(progress.rotated);
    assert_eq!(session.storage.finishes, 1);
    assert_eq!(session.storage.layouts, [StorageLayout::DailyFolders; 2]);
    assert_eq!(&session.storage.writes[0][..4], b"RIFF");
    assert_eq!(
        session.storage.writes[1],
        [1i32, -2, 3, -4].into_iter().flat_map(i32::to_le_bytes).collect::<Vec<_>>()
    );
    assert_eq!(&session.storage.writes[2][..4], b"RIFF");

    session.stop();
    assert_eq!(session.storage.finishes, 2);
}

#[test]
fn read_is_split_instead_of_crossing_the_recording_boundary() {
    let config =
        AudioRecorderConfig { recording_seconds: 1, storage_layout: StorageLayout::Flat };
    let mut session = Session::new(AudioFormat::new(2, 1, 1_000_000), config);

    session.start();
    session.samples.extend([1, 2, 3, 4]);
    let first = session.record_next();
    let second = session.record_next();

    assert_eq!(first.pcm_samples, 2);
    assert_eq!(second.pcm_samples, 2);
    assert!(first.rotated);
    assert!(second.rotated);
}

#[test]
fn header_is_one_block_and_describes_mono_16khz_pcm() {
    let container = WavContainer::new(AudioFormat::new(16_000, 1, 1_000_000), 60).unwrap();
    let metadata = RecordingMetadata::new(UtcTimestamp::new(1_700_000_000, 123_456).unwrap());
    let header = container.header(&metadata);

    assert_eq!(header.len(), 512);
    assert_eq!(&header[0..4], b"RIFF");
    assert_eq!(&header[8..12], b"WAVE");
    assert_eq!(&header[12..16], b"fmt ");
    assert_eq!(u16::from_le_bytes([header[22], header[23]]), 1);
    assert_eq!(u32::from_le_bytes(header[24..28].try_into().unwrap()), 16_000);
    assert_eq!(u32::from_le_bytes(header[28..32].try_into().unwrap()), 64_000);
    assert_eq!(u16::from_le_bytes([header[34], header[35]]), 32);
    assert_eq!(&header[504..508], b"data");
    assert_eq!(u32::from_le_bytes(header[508..512].try_into().unwrap()), 3_840_000);
    assert!(header[56..].starts_with(b"start_utc=1700000000.123456"));
}

#[test]
fn header_names_device_firmware_and_position() {
    let container = WavContainer::new(AudioFormat::new(16_000, 1, 1_000_000), 60).unwrap();
    let mut metadata = RecordingMetadata::new(UtcTimestamp::new(-5, 42).unwrap());
    metadata.device_id.push_str("unit-7").unwrap();
    metadata.firmware_version.push_str("1.2.3").unwrap();
    metadata.latitude_e7 = Some(-337_000_000);
    metadata.longitude_e7 = Some(183_000_000);
    let header = container.header(&metadata);
    let comment = b"start_utc=-5.000042;device=unit-7;firmware=1.2.3;latitude_e7=-337000000;longitude_e7=183000000";
    assert_eq!(&header[56..56 + comment.len()], comment);
    assert!(header[56 + comment.len()..504].iter().all(|byte| *byte == 0));
    assert_eq!(u32::from_le_bytes(header[4..8].try_into().unwrap()), 3_840_000 + 504);
}

#[test]
fn header_leaves_a_position_out_that_is_only_half_known() {
    let container = WavContainer::new(AudioFormat::new(16_000, 1, 1_000_000), 60).unwrap();
    let mut metadata = RecordingMetadata::new(UtcTimestamp::new(0, 0).unwrap());
    metadata.latitude_e7 = Some(1);
    let header = container.header(&metadata);
    let comment = b"start_utc=0.000000;device=;firmware=\0";
    assert_eq!(&header[56..56 + comment.len()], comment);
}

#[test]
fn containers_refuse_sound_that_they_cannot_describe() {
    assert!(WavContainer::new(AudioFormat::new(0, 1, 1), 60).is_err());
    assert!(WavContainer::new(AudioFormat::new(16_000, 0, 1), 60).is_err());
    assert!(WavContainer::new(AudioFormat::new(16_000, 1, 1), 0).is_err());
    assert!(matches!(
        WavContainer::new(AudioFormat::new(16_000, 1, 1), 70_000),
        Err(WavError::DataSizeOverflow)
    ));
}

#[test]
fn recorders_refuse_parameters_that_they_cannot_work_with() {
    let config = AudioRecorderConfig::default();
    assert_eq!(config.recording_seconds, 3_600);
    assert_eq!(config.storage_layout, StorageLayout::HourlyFolders);
    let none: Result<AudioRecorder<u8, 16>, Failure> =
        AudioRecorder::new(AudioFormat::new(0, 1, 1), config);
    assert!(matches!(none, Err(AudioRecorderError::InvalidConfig)));
    let odd: Result<AudioRecorder<u8, 10>, Failure> =
        AudioRecorder::new(AudioFormat::new(4, 1, 1), config);
    assert!(matches!(odd, Err(AudioRecorderError::InvalidConfig)));
}

#[test]
fn recorders_wait_for_utc_and_for_a_start() {
    let config =
        AudioRecorderConfig { recording_seconds: 2, storage_layout: StorageLayout::Flat };
    let recorder: AudioRecorder<u8, 16> =
        AudioRecorder::new::<(), ()>(AudioFormat::new(8, 1, 1), config).unwrap();
    assert!(!recorder.is_recording());
    let waiting: Result<_, Failure> = recorder.begin_recording(&Start(None));
    assert!(matches!(waiting, Err(AudioRecorderError::TimeUnavailable)));
    let unknown: Result<_, Failure> = recorder.recording_file(None);
    assert!(matches!(unknown, Err(AudioRecorderError::TimeUnavailable)));
    let idle: Result<_, Failure> = recorder.next_read();
    assert!(matches!(idle, Err(AudioRecorderError::NotStarted)));
}

#[test]
fn samples_keep_their_bits_and_their_order() {
    let bytes = encode_samples(&[i32::MIN, -1], &[0, i32::MAX]);
    let back: Vec<i32> =
        bytes.chunks(4).map(|chunk| i32::from_le_bytes(chunk.try_into().unwrap())).collect();
    assert_eq!(back, [i32::MIN, -1, 0, i32::MAX]);
}

#[test]
fn recordings_are_dated_by_the_time_of_their_first_instant() {
    let mut time = TimeState::invalid();
    assert!(RecordingMetadata::starting_at(&time, Instant::from_ticks(5_000_000)).is_none());
    time.utc_status = UtcStatus::Synchronized;
    time.reference_system_time = Instant::from_ticks(1_000_000);
    time.reference_utc = UtcTimestamp::new(1_700_000_000, 250_000).unwrap();
    let metadata =
        RecordingMetadata::starting_at(&time, Instant::from_ticks(1_000_000)).unwrap();
    assert_eq!(metadata.started_utc, UtcTimestamp::new(1_700_000_000, 250_000).unwrap());
    assert_eq!(metadata.latitude_e7, None);
    assert_eq!(metadata.device_id.as_str(), "");
}

#[test]
fn headers_declare_the_length_of_a_full_recording() {
    let config =
        AudioRecorderConfig { recording_seconds: 3, storage_layout: StorageLayout::Flat };
    let recorder: AudioRecorder<u8, 16> =
        AudioRecorder::new::<(), ()>(AudioFormat::new(5, 2, 1), config).unwrap();
    let start = UtcTimestamp::new(1_700_000_000, 0).unwrap();
    let file =
        recorder.recording_file::<(), ()>(Some(RecordingMetadata::new(start))).unwrap();
    let declared = u32::from_le_bytes(file.header[508..512].try_into().unwrap());
    assert_eq!(declared as usize, encode_samples(&[7; 30], &[]).len());
}

#[test]
fn copies_of_metadata_say_the_same() {
    let mut metadata = RecordingMetadata::new(UtcTimestamp::new(1_700_000_000, 7).unwrap());
    metadata.latitude_e7 = Some(-337_000_000);
    metadata.device_id.push_str("device 1").unwrap();
    metadata.firmware_version.push_str("\u{fc} 2.0").unwrap();
    assert_eq!(metadata.clone(), metadata);
}
