//! What the field programs do next.
use raylar_services::clock::Instant;
use raylar_services::firmware::board_sensors::{
    acceleration_sample, board_sensor_ids, build_sensor_service, magnetic_field_sample,
    temperature_sample,
};
use raylar_services::firmware::card_check::{
    check_data, check_path, exercise_storage, fill_prefix, fill_repeating, readback_is_complete,
    run_storage_test, CheckAction, CheckData, CheckFile, FileOperation,
};
use raylar_services::firmware::card_power::{
    flushed_event, message_event, sd_soc_is_safe, written_event, CardAction, CardEvent,
    CardSequence,
};
use raylar_services::firmware::cpu::{
    report_cpu_profiles, tenths_percent, ticks_to_millis, Activities, CpuProfile, IdleMeter,
    UsageMeter,
};
use raylar_services::firmware::forwarder::{
    filter_faults, is_reported, Forwarder, FrameState, FrameStep, RateNews,
};
use raylar_services::firmware::microphone::{
    interleaved_samples, mono_samples, peak, sample_from_word, statistics,
};
use raylar_services::firmware::recording::{
    alarm, checkpoint_event, location_event, pulse_acquired, pulse_trill, start_event,
    DroppedNotes, RecordingAction, RecordingEvent, RecordingSequence, SevereErrorLatch,
};
use raylar_services::logging::types::{LogOutcome, LoggingStats, ProcessOutcome};
use raylar_services::recorder::service::AudioRecorderError;
use raylar_services::sensors::source::{SensorSource, SensorSourceError};
use raylar_services::sensors::types::{SensorId, SensorKind, SensorValue};
use raylar_services::time::types::{TimeSource, TimeState};

fn at(seconds: u64) -> Instant {
    Instant::from_secs(seconds)
}

fn charge(percent: u8, seconds: u64) -> CardEvent {
    CardEvent::Charge { percent: Some(percent), now: at(seconds) }
}

fn quiet() -> LoggingStats {
    LoggingStats {
        total_messages: 0,
        dropped_messages: 0,
        queue_depth: 0,
        maximum_queue_depth: 0,
        bytes_written: 0,
        truncated_messages: 0,
        write_failures: 0,
    }
}

// ---- the power monitor -----------------------------------------------------

#[test]
fn the_card_needs_forty_percent() {
    assert!(!sd_soc_is_safe(None));
    assert!(!sd_soc_is_safe(Some(39)));
    assert!(sd_soc_is_safe(Some(40)));
}

#[test]
fn the_card_is_powered_while_the_charge_lasts() {
    let mut sequence = CardSequence::new();
    let mut go = |event, seconds| {
        let step = sequence.advance(event, at(seconds));
        assert!(!step.signal_error);
        (step.action, sequence.is_logging())
    };
    assert_eq!(go(CardEvent::Done, 0), (CardAction::CheckCharge, false));
    assert_eq!(go(charge(39, 0), 0), (CardAction::WaitForCharge, false));
    assert_eq!(go(CardEvent::Done, 10), (CardAction::CheckCharge, false));
    assert_eq!(go(charge(40, 10), 10), (CardAction::PowerOn, false));
    assert_eq!(go(CardEvent::Done, 11), (CardAction::Acquire { again: false }, false));
    assert_eq!(go(CardEvent::Done, 12), (CardAction::OpenLog, false));
    assert_eq!(go(CardEvent::Done, 13), (CardAction::Announce { resumed: false }, false));
    assert_eq!(go(CardEvent::Done, 14), (CardAction::CheckLogging, true));
    assert_eq!(go(charge(50, 15), 15), (CardAction::WriteOne, true));
    assert_eq!(go(CardEvent::Written, 15), (CardAction::CheckLogging, true));
    assert_eq!(go(charge(50, 24), 24), (CardAction::Flush, true));
    assert_eq!(go(flushed_event(true, &quiet(), at(24)), 25), (CardAction::WriteOne, true));
    assert_eq!(go(CardEvent::Empty, 25), (CardAction::Pause(10), true));
    assert_eq!(go(CardEvent::Done, 25), (CardAction::CheckLogging, true));
    assert_eq!(go(charge(50, 33), 33), (CardAction::WriteOne, true));
    assert_eq!(go(CardEvent::Written, 33), (CardAction::CheckLogging, true));
    assert_eq!(go(charge(12, 34), 34), (CardAction::DrainOne, false));
    assert_eq!(go(CardEvent::Written, 34), (CardAction::DrainOne, false));
    assert_eq!(go(CardEvent::Empty, 34), (CardAction::AnnounceShutdown, false));
    assert_eq!(go(CardEvent::Done, 34), (CardAction::DrainLast, false));
    assert_eq!(go(CardEvent::Empty, 34), (CardAction::FlushLast, false));
    assert_eq!(go(CardEvent::Done, 34), (CardAction::CloseLog, false));
    assert_eq!(go(CardEvent::Done, 34), (CardAction::PowerOff, false));
    assert_eq!(go(CardEvent::Done, 34), (CardAction::CheckCharge, false));
    assert_eq!(go(charge(80, 40), 40), (CardAction::PowerOn, false));
    assert_eq!(go(CardEvent::Done, 41), (CardAction::Acquire { again: true }, false));
    assert_eq!(go(CardEvent::Done, 41), (CardAction::OpenLog, false));
    assert_eq!(go(CardEvent::Done, 41), (CardAction::Announce { resumed: true }, false));
}

#[test]
fn failures_are_signalled_and_end_what_cannot_go_on() {
    let mut missing = CardSequence::new();
    let step = missing.advance(CardEvent::Failed, at(0));
    assert_eq!((step.action, step.signal_error), (CardAction::Halt, true));
    assert_eq!(missing.advance(CardEvent::Done, at(1)).action, CardAction::Halt);

    let mut writing = CardSequence::new();
    writing.action = CardAction::WriteOne;
    let step = writing.advance(written_event(None), at(0));
    assert_eq!((step.action, step.signal_error), (CardAction::Pause(100), true));

    let mut flushing = CardSequence::new();
    flushing.action = CardAction::Flush;
    let dropped = LoggingStats { dropped_messages: 1, ..quiet() };
    let step = flushing.advance(flushed_event(true, &dropped, at(5)), at(6));
    assert_eq!((step.action, step.signal_error), (CardAction::WriteOne, true));
    assert_eq!(flushing.next_flush, at(15));

    let mut closing = CardSequence::new();
    closing.action = CardAction::FlushLast;
    assert!(closing.advance(CardEvent::Failed, at(0)).signal_error);
    assert_eq!(closing.action, CardAction::CloseLog);
    assert!(closing.advance(CardEvent::Failed, at(0)).signal_error);
    assert_eq!(closing.action, CardAction::PowerOff);

    assert_eq!(message_event(LogOutcome::DroppedQueueFull), CardEvent::Failed);
    assert_eq!(message_event(LogOutcome::EnqueuedTruncated), CardEvent::Done);
    assert_eq!(written_event(Some(ProcessOutcome::Empty)), CardEvent::Empty);
    assert_eq!(written_event(Some(ProcessOutcome::Written)), CardEvent::Written);
}

// ---- the recording program -------------------------------------------------

#[test]
fn recording_waits_for_utc_and_keeps_the_log() {
    let mut sequence = RecordingSequence::new(false, at(0));
    let mut go = |event, seconds| {
        let step = sequence.advance(event, false, at(seconds));
        assert!(!step.severe_error);
        (step.action, step.begin_recording)
    };
    assert_eq!(go(RecordingEvent::TimeUnavailable, 1), (RecordingAction::DrainOne, false));
    assert_eq!(go(RecordingEvent::Written, 1), (RecordingAction::DrainOne, false));
    assert_eq!(go(RecordingEvent::Empty, 9), (RecordingAction::Pause(100), false));
    assert_eq!(go(RecordingEvent::Done, 9), (RecordingAction::Start, false));
    assert_eq!(go(RecordingEvent::Done, 10), (RecordingAction::Record, true));
    assert_eq!(go(RecordingEvent::Done, 10), (RecordingAction::DrainOne, false));
    assert_eq!(go(RecordingEvent::Empty, 10), (RecordingAction::Checkpoint, false));
    assert_eq!(go(checkpoint_event(true, &quiet()), 12), (RecordingAction::Record, false));
    assert_eq!(sequence.next_checkpoint, at(22));
}

#[test]
fn errors_end_the_recording() {
    let mut sequence = RecordingSequence::new(false, at(0));
    sequence.advance(RecordingEvent::Done, false, at(0));
    assert_eq!(
        sequence.advance(RecordingEvent::Done, true, at(1)).action,
        RecordingAction::Halt
    );
    assert_eq!(RecordingSequence::new(true, at(0)).action, RecordingAction::Halt);

    let mut failing = RecordingSequence::new(false, at(0));
    let step = failing.advance(
        start_event(&Err(AudioRecorderError::<(), ()>::InvalidConfig)),
        false,
        at(0),
    );
    assert!(step.severe_error);
    assert_eq!(step.action, RecordingAction::Halt);
    assert_eq!(
        start_event(&Err(AudioRecorderError::<(), ()>::TimeUnavailable)),
        RecordingEvent::TimeUnavailable
    );

    let mut checking = RecordingSequence::new(false, at(0));
    checking.action = RecordingAction::Checkpoint;
    let refused = LoggingStats { write_failures: 1, ..quiet() };
    let step = checking.advance(checkpoint_event(true, &refused), false, at(1));
    assert!(step.severe_error);
    assert_eq!(step.action, RecordingAction::Pause(100));
}

#[test]
fn only_the_first_error_is_announced() {
    let mut latch = SevereErrorLatch::new();
    latch.begin_recording();
    assert!(latch.recording);
    assert!(latch.signal_severe_error());
    assert!(!latch.recording);
    assert!(!latch.signal_severe_error());
    latch.begin_recording();
    assert!(!latch.recording);
}

#[test]
fn dropped_notes_are_counted() {
    let mut notes = DroppedNotes { count: 0 };
    notes.record_outcome(LogOutcome::DroppedQueueFull);
    notes.record_outcome(LogOutcome::Enqueued);
    assert_eq!(notes.take(), 1);
    assert_eq!(notes.take(), 0);
}

#[test]
fn signals_sound_and_events_are_named() {
    assert_eq!(pulse_trill().len(), 7);
    assert_eq!(pulse_trill()[6].pitch_hz, 2_093);
    assert_eq!(pulse_trill()[0].pause_ms, 12);
    let pitches: Vec<u32> = alarm().iter().map(|tone| tone.pitch_hz).collect();
    assert_eq!(pitches, [1_200, 800, 400]);
    assert_eq!(location_event(false, false), None);
    assert_eq!(location_event(false, true), Some("acquired"));
    assert_eq!(location_event(true, false), Some("periodic"));
    let mut state = TimeState::invalid();
    state.active_time_source = TimeSource::GpsPps;
    assert!(!pulse_acquired(&state));
    state.accepted_anchors = 1;
    assert!(pulse_acquired(&state));
}

// ---- frames ----------------------------------------------------------------

fn frame(sequence: u64, completed_at_ticks: u64) -> FrameState {
    FrameState { failed: false, running: true, sequence, completed_at_ticks }
}

#[test]
fn new_frames_go_on_and_lost_ones_are_counted() {
    let mut forwarder = Forwarder::new();
    assert_eq!(
        forwarder.frame_arrived(&frame(1, 100_000), true),
        FrameStep::Taken { missed: 0, rate: RateNews::Quiet, forward: true }
    );
    assert_eq!(forwarder.frame_arrived(&frame(1, 100_000), true), FrameStep::Ignored);
    assert_eq!(
        forwarder.frame_arrived(&frame(4, 400_000), false),
        FrameStep::Taken { missed: 2, rate: RateNews::Quiet, forward: false }
    );
    let broken = FrameState { failed: true, ..frame(5, 500_000) };
    assert_eq!(forwarder.frame_arrived(&broken, true), FrameStep::Failed { count: 1 });
    let idle = FrameState { running: false, ..frame(5, 500_000) };
    assert_eq!(forwarder.frame_arrived(&idle, true), FrameStep::Ignored);
}

#[test]
fn rates_are_measured_over_ten_frames() {
    let mut forwarder = Forwarder::new();
    forwarder.frame_arrived(&frame(1, 0), true);
    assert_eq!(
        forwarder.frame_arrived(&frame(11, 1_000_000), true),
        FrameStep::Taken {
            missed: 9,
            rate: RateNews::Measured {
                hz: 16_000,
                frames: 10,
                samples: 16_000,
                elapsed_ticks: 1_000_000,
                frame_ticks: 100_000,
            },
            forward: true,
        }
    );
    assert_eq!(
        forwarder.frame_arrived(&frame(21, 1_000_000), true),
        FrameStep::Taken { missed: 9, rate: RateNews::Stalled, forward: true }
    );
}

#[test]
fn packets_are_noted_once_a_second() {
    let mut forwarder = Forwarder::new();
    for packet in 1..10 {
        assert_eq!(forwarder.packet_forwarded(packet * 100_000, 1_600), None);
    }
    assert_eq!(
        forwarder.packet_forwarded(1_000_000, 1_600).unwrap(),
        "audio packets first_timestamp_ticks=100000 last_timestamp_ticks=1000000 packets=10 samples=16000"
    );
    assert_eq!((forwarder.packets, forwarder.samples), (0, 0));
    assert_eq!(filter_faults(0b10), (true, false));
    assert_eq!(filter_faults(1 << 10), (false, true));
    assert!(is_reported(&frame(20, 0)));
    assert!(!is_reported(&frame(21, 0)));
}

// ---- samples ---------------------------------------------------------------

#[test]
fn samples_are_the_upper_bits_of_their_words() {
    for word in [0u32, 0xFF, 0x100, 0x7FFF_FFFF, 0x8000_0000, 0xFFFF_FF00, u32::MAX] {
        assert_eq!(sample_from_word(word), (word as i32) >> 8);
    }
    assert_eq!(mono_samples(&[0x100, 0xFFFF_FF00]), [1, -1]);
    let left = [0x100u32, 0x200];
    let right = [0x300u32, 0x400];
    assert_eq!(interleaved_samples(&[&left, &right]), [1, 3, 2, 4]);
}

#[test]
fn loudness_is_measured_in_octaves() {
    let stats = statistics(&[300 << 8, (-400i32 << 8) as u32]);
    assert_eq!((stats.min, stats.max), (-400, 300));
    assert_eq!(stats.rms, 353);
    assert_eq!(stats.dbfs, (8 - 23) * 6);
    let silence = statistics(&[0, 0]);
    assert_eq!((silence.rms, silence.dbfs), (0, -144));
    let full = statistics(&[0x8000_0000]);
    assert_eq!((full.rms, full.dbfs), (8_388_608, 0));
    assert_eq!(peak(&[1, -5], &[4]), 5);
    assert_eq!(peak(&[], &[i32::MIN]), 2_147_483_648);
    assert_eq!(peak(&[], &[]), 0);
}

// ---- the processor ---------------------------------------------------------

#[test]
fn idle_time_survives_the_wrap_of_the_counter() {
    let mut meter = IdleMeter::new();
    meter.went_idle(u32::MAX - 9);
    meter.woke(10);
    meter.woke(500);
    assert_eq!(meter.take(), 20);
    assert_eq!(meter.take(), 0);
}

#[test]
fn five_windows_make_a_profile() {
    let mut usage = UsageMeter::new(0);
    for window in 1..=4u32 {
        let report = usage.window(window * 1_000_000, 250_000);
        assert_eq!(report.usage_percent, 75);
        assert_eq!(report.profile, None);
    }
    let report = usage.window(5_000_000, 2_000_000);
    assert_eq!((report.usage_percent, report.idle_ms, report.window_ms), (0, 1_000, 1_000));
    assert_eq!(report.profile, Some((5_000_000, 3_000_000)));
    assert_eq!(usage.windows, 0);
}

#[test]
fn activities_share_the_profile() {
    let mut capture = CpuProfile::new();
    capture.record(100, 300_100, true);
    capture.record(0, 100_000, false);
    let none = CpuProfile::new();
    let activities = Activities {
        capture,
        forward: none,
        recorder: none,
        logging: none,
        audio_storage: none,
        log_storage: none,
    };
    let report = report_cpu_profiles(5_000_000, 1_000_000, &activities);
    assert_eq!(report.window_ms, 5_000);
    assert_eq!(report.active, 200);
    assert_eq!(report.capture.tenths_percent, 80);
    assert_eq!((report.capture.completions, report.capture.polls), (1, 2));
    assert_eq!(report.other, 120);
    assert_eq!(capture.take().polls, 2);
    assert_eq!(capture, CpuProfile::new());
    assert_eq!(tenths_percent(1, 0), 0);
    assert_eq!(tenths_percent(1, 3), 333);
    assert_eq!(ticks_to_millis(1_999), 1);
}

// ---- the board's sensors ---------------------------------------------------

struct Fixed(Result<SensorValue, SensorSourceError>);

impl SensorSource for Fixed {
    fn sample(&mut self) -> Result<SensorValue, SensorSourceError> {
        self.0
    }
}

#[test]
fn the_board_has_four_sensors() {
    let mut service = build_sensor_service(
        Fixed(acceleration_sample(Some((1, 2, 3)))),
        Fixed(magnetic_field_sample(None)),
        Fixed(temperature_sample(true, Some(20_000))),
        Fixed(temperature_sample(false, None)),
    );
    assert_eq!(
        board_sensor_ids(),
        [SensorId(1), SensorId(2), SensorId(3), SensorId(4)]
    );
    for expected in [SensorKind::Acceleration, SensorKind::MagneticField] {
        let index = service.due_source(Instant::from_ticks(5)).unwrap();
        assert_eq!(service.state().readings[index].descriptor.kind, expected);
        let sample = match expected {
            SensorKind::Acceleration => acceleration_sample(Some((1, 2, 3))),
            _ => magnetic_field_sample(None),
        };
        service.record_sample(index, Instant::from_ticks(5), sample);
    }
    assert_eq!(
        service.state().reading(SensorId(1)).unwrap().value,
        Some(SensorValue::AccelerationMg { x: 1, y: 2, z: 3 })
    );
    assert_eq!(magnetic_field_sample(None), Err(SensorSourceError { code: 0x0201 }));
    assert_eq!(acceleration_sample(None), Err(SensorSourceError { code: 0x0101 }));
    assert_eq!(temperature_sample(true, None), Err(SensorSourceError { code: 0x0102 }));
    assert_eq!(temperature_sample(false, None), Err(SensorSourceError { code: 0x0202 }));
}

// ---- the card check --------------------------------------------------------

#[test]
fn blocks_are_filled_with_text() {
    assert_eq!(fill_repeating(b"abc", 7), b"abcabca");
    assert_eq!(fill_prefix(b"abc", 5), b"abc  ");
    let tail = check_data(CheckData::LogTail);
    assert_eq!(tail.len(), 512);
    assert!(tail.starts_with(b"log: final partial line is valid"));
    assert_eq!(tail[511], b' ');
    assert_eq!(check_data(CheckData::BulkB).len(), 4_096);
}

#[test]
fn the_check_ends_where_the_log_was_cut() {
    let operations = exercise_storage();
    assert_eq!(operations.len(), 16);
    let mut log = 0usize;
    for operation in &operations {
        match operation {
            FileOperation::Append(CheckFile::Log, data) => log += check_data(*data).len(),
            FileOperation::Close(CheckFile::Log, valid) => log = log - 512 + valid,
            _ => {}
        }
    }
    assert_eq!(log, 512 + 63);
    assert!(readback_is_complete(log));
    assert!(!readback_is_complete(log + 1));
    assert_eq!(check_path(CheckFile::BulkC), "/st_bulkc.txt");
}

#[test]
fn the_check_stops_at_the_first_failure() {
    let mut action = CheckAction::FindCard;
    for _ in 0..6 {
        action = run_storage_test(action, true);
    }
    assert_eq!(action, CheckAction::Passed);
    assert_eq!(run_storage_test(CheckAction::Mount, false), CheckAction::Failed);
    assert_eq!(run_storage_test(CheckAction::Failed, true), CheckAction::Failed);
}
