//! Streams: their paths, their blocks, their tickets.
use raylar_services::storage::policy::{folder_path, stream_path};
use raylar_services::storage::service::{FlushAction, StorageService, WriteAction};
use raylar_services::storage::types::{
    StorageLayout, StorageServiceError, StreamHandle, StreamKind, UtcClock,
};
use raylar_services::time::types::UtcTimestamp;

type Refusal = StorageServiceError<()>;

/// A clock that stands still.
struct Clock(Option<UtcTimestamp>);

impl UtcClock for Clock {
    fn current_utc(&self) -> Option<UtcTimestamp> {
        self.0
    }
}

/// A storage with its files in memory; the file of a stream is its index.
struct Disk {
    service: StorageService<usize, 4, 2>,
    files: Vec<(String, Vec<u8>)>,
    folders: Vec<String>,
    flushes: usize,
}

impl Disk {
    fn new() -> Self {
        Disk {
            service: StorageService::new::<()>().unwrap(),
            files: Vec::new(),
            folders: Vec::new(),
            flushes: 0,
        }
    }

    fn begin(
        &mut self,
        kind: StreamKind,
        layout: StorageLayout,
        timestamp: Option<i64>,
    ) -> Result<StreamHandle, Refusal> {
        let clock = Clock(timestamp.map(|seconds| UtcTimestamp::new(seconds, 0).unwrap()));
        let plan = self.service.begin_stream::<Clock, ()>(kind, layout, &clock)?;
        if let Some(folder) = &plan.folder {
            self.folders.push(folder.as_str().to_string());
        }
        self.files.push((plan.path.as_str().to_string(), Vec::new()));
        let file = self.files.len() - 1;
        Ok(self.service.stream_opened(plan, file))
    }

    fn write(&mut self, stream: StreamHandle, data: &[u8]) -> Result<(), Refusal> {
        let mut cursor = 0;
        loop {
            let step = self.service.write::<()>(stream, data, cursor)?;
            cursor = step.cursor;
            match step.action {
                WriteAction::Done => return Ok(()),
                WriteAction::AppendData { file, start, end } => {
                    self.files[file].1.extend_from_slice(&data[start..end]);
                }
                WriteAction::AppendBlock { file } => {
                    let block = self.service.block::<()>(stream)?.to_vec();
                    self.files[file].1.extend_from_slice(&block);
                    self.service.block_appended(stream);
                }
            }
        }
    }

    fn flush(&mut self, stream: StreamHandle) -> Result<(), Refusal> {
        match self.service.flush::<()>(stream)? {
            FlushAction::FlushFile { .. } => self.flushes += 1,
            FlushAction::AppendBlock { file, valid } => {
                let block = self.service.block::<()>(stream)?[..valid].to_vec();
                self.files[file].1.extend_from_slice(&block);
                self.service.flush_appended(stream);
                self.service.reopened(stream, file);
            }
        }
        Ok(())
    }

    fn finish(&mut self, stream: StreamHandle) -> Result<(), Refusal> {
        let plan = self.service.finish::<()>(stream)?;
        if let (Some(file), Some(block)) = (plan.file, plan.block) {
            self.files[file].1.extend_from_slice(&block[..plan.valid]);
        }
        Ok(())
    }
}

#[test]
fn daily_audio_layout_keeps_naming_inside_storage() {
    let path = stream_path::<()>(
        StreamKind::Audio,
        StorageLayout::DailyFolders,
        Some(1_784_016_510),
        7,
    )
    .unwrap();
    assert_eq!(path.as_str(), "/1783987200/aud_1784016510_7.wav");
}

#[test]
fn flat_log_preserves_the_restart_safe_system_log() {
    let path = stream_path::<()>(StreamKind::Log, StorageLayout::Flat, None, 1).unwrap();
    assert_eq!(path.as_str(), "/syslog.txt");
}

#[test]
fn interval_layout_is_configurable_without_owning_stream_duration() {
    let path = stream_path::<()>(
        StreamKind::GpsTiming,
        StorageLayout::IntervalFolders { interval_seconds: 600 },
        Some(1_784_016_510),
        2,
    )
    .unwrap();
    assert_eq!(path.as_str(), "/1784016000/gps_1784016510_2.pps");
}

#[test]
fn paths_need_a_time_and_a_usable_interval() {
    assert_eq!(
        stream_path::<()>(StreamKind::Audio, StorageLayout::Flat, None, 1),
        Err(StorageServiceError::InvalidTimestamp)
    );
    assert_eq!(
        stream_path::<()>(StreamKind::Audio, StorageLayout::Flat, Some(-1), 1),
        Err(StorageServiceError::InvalidTimestamp)
    );
    assert_eq!(
        stream_path::<()>(
            StreamKind::Audio,
            StorageLayout::IntervalFolders { interval_seconds: 0 },
            Some(1),
            1
        ),
        Err(StorageServiceError::InvalidConfig)
    );
    let hourly =
        stream_path::<()>(StreamKind::Log, StorageLayout::HourlyFolders, Some(7_205), 3).unwrap();
    assert!(hourly.as_str().starts_with("/7200/"));
}

#[test]
fn folders_are_what_stands_before_the_last_slash() {
    assert_eq!(folder_path::<()>("/a/b/c.txt").unwrap().unwrap().as_str(), "/a/b");
    assert_eq!(folder_path::<()>("/c.txt"), Ok(None));
    assert_eq!(folder_path::<()>("c.txt"), Err(StorageServiceError::InvalidPath));
    let long = format!("/{}/c.txt", "x".repeat(200));
    assert_eq!(folder_path::<()>(&long), Err(StorageServiceError::InvalidPath));
}

#[test]
fn writes_of_any_size_reach_the_file_in_order() {
    let mut disk = Disk::new();
    let stream = disk.begin(StreamKind::Log, StorageLayout::Flat, None).unwrap();
    let mut written = Vec::new();
    for size in [0usize, 1, 3, 9, 4, 2, 17] {
        let data: Vec<u8> = (0..size).map(|i| (written.len() + i) as u8).collect();
        disk.write(stream, &data).unwrap();
        written.extend_from_slice(&data);
        let stored = &disk.files[0].1;
        assert_eq!(stored.as_slice(), &written[..written.len() / 4 * 4]);
    }
    disk.finish(stream).unwrap();
    assert_eq!(disk.files[0].1, written);
}

#[test]
fn flushes_bring_waiting_bytes_into_the_file() {
    let mut disk = Disk::new();
    let stream = disk.begin(StreamKind::Log, StorageLayout::Flat, None).unwrap();
    disk.write(stream, b"abcde").unwrap();
    assert_eq!(disk.files[0].1, b"abcd");
    disk.flush(stream).unwrap();
    assert_eq!(disk.files[0].1, b"abcde");
    disk.flush(stream).unwrap();
    assert_eq!(disk.flushes, 1);
    assert_eq!(disk.service.path::<()>(stream), Ok("/syslog.txt"));
}

#[test]
fn streams_get_folders_and_running_numbers() {
    let mut disk = Disk::new();
    let first =
        disk.begin(StreamKind::Audio, StorageLayout::DailyFolders, Some(100_000)).unwrap();
    disk.begin(StreamKind::Audio, StorageLayout::DailyFolders, Some(100_001)).unwrap();
    assert_eq!(disk.files[0].0, "/86400/aud_100000_1.wav");
    assert_eq!(disk.files[1].0, "/86400/aud_100001_2.wav");
    assert_eq!(disk.folders, ["/86400", "/86400"]);
    assert_eq!(
        disk.begin(StreamKind::Log, StorageLayout::Flat, None),
        Err(StorageServiceError::TooManyStreams)
    );
    disk.finish(first).unwrap();
    assert!(disk.begin(StreamKind::Log, StorageLayout::Flat, None).is_ok());
}

#[test]
fn tickets_are_void_once_their_stream_is_finished() {
    let mut disk = Disk::new();
    let old = disk.begin(StreamKind::Log, StorageLayout::Flat, None).unwrap();
    disk.finish(old).unwrap();
    assert_eq!(disk.write(old, b"x"), Err(StorageServiceError::InvalidStream));
    let new = disk.begin(StreamKind::Log, StorageLayout::Flat, None).unwrap();
    assert_ne!(old, new);
    assert_eq!(disk.write(old, b"x"), Err(StorageServiceError::InvalidStream));
    assert_eq!(disk.flush(old), Err(StorageServiceError::InvalidStream));
    assert_eq!(disk.finish(old), Err(StorageServiceError::InvalidStream));
    assert!(disk.write(new, b"x").is_ok());
}

#[test]
fn storages_without_room_are_refused() {
    let no_block: Result<StorageService<usize, 0, 2>, Refusal> = StorageService::new();
    assert!(matches!(no_block, Err(StorageServiceError::InvalidConfig)));
    let no_slot: Result<StorageService<usize, 4, 0>, Refusal> = StorageService::new();
    assert!(matches!(no_slot, Err(StorageServiceError::InvalidConfig)));
}

#[test]
fn streams_that_begin_now_are_planned_for_the_time_of_the_clock() {
    let service: StorageService<u8, 8, 2> = StorageService::new::<()>().unwrap();
    let clock = Clock(Some(UtcTimestamp::new(1_700_000_000, 500_000).unwrap()));
    let now = service
        .begin_stream::<Clock, ()>(StreamKind::Audio, StorageLayout::Flat, &clock)
        .unwrap();
    let then = service
        .plan_stream::<()>(StreamKind::Audio, StorageLayout::Flat, Some(1_700_000_000))
        .unwrap();
    assert_eq!(now.path.as_str(), then.path.as_str());
    let untimed =
        service.begin_stream::<Clock, ()>(StreamKind::Audio, StorageLayout::Flat, &Clock(None));
    assert!(matches!(untimed, Err(StorageServiceError::InvalidTimestamp)));
    let log = service
        .begin_stream::<Clock, ()>(StreamKind::Log, StorageLayout::Flat, &Clock(None))
        .unwrap();
    let unknown = service.plan_stream::<()>(StreamKind::Log, StorageLayout::Flat, None).unwrap();
    assert_eq!(log.path.as_str(), unknown.path.as_str());
}

#[test]
fn paths_tell_streams_apart() {
    let daily = StorageLayout::DailyFolders;
    let path = |kind: StreamKind, seconds: i64, sequence: u32| {
        stream_path::<()>(kind, daily, Some(seconds), sequence).unwrap().as_str().to_string()
    };
    let first = path(StreamKind::Audio, 86_401, 1);
    assert_eq!(first, "/86400/aud_86401_1.wav");
    assert_ne!(first, path(StreamKind::Audio, 86_401, 2));
    assert_ne!(first, path(StreamKind::Audio, 86_402, 1));
    assert_ne!(first, path(StreamKind::Log, 86_401, 1));
}

#[test]
fn files_hold_whole_blocks_until_their_streams_are_finished() {
    let all: Vec<u8> = (1..=11).collect();
    for cut in 0..=all.len() {
        let mut disk = Disk::new();
        let stream = disk.begin(StreamKind::Log, StorageLayout::Flat, None).unwrap();
        disk.write(stream, &all[..cut]).unwrap();
        disk.write(stream, &all[cut..]).unwrap();
        assert_eq!(disk.files[0].1, all[..8]);
        let plan = disk.service.finish::<()>(stream).unwrap();
        assert_eq!(plan.valid, 3);
        assert_eq!(plan.block.unwrap()[..3], all[8..]);
        assert!(disk.write(stream, &[0]).is_err());
        assert!(disk.finish(stream).is_err());
        disk.begin(StreamKind::Log, StorageLayout::Flat, None).unwrap();
        assert!(disk.write(stream, &[0]).is_err());
    }
}
