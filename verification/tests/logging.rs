//! Messages, lines and counters of the log.
use raylar_services::clock::Instant;
use raylar_services::logging::line::{format_line, TruncatingWriter};
use raylar_services::logging::resources::LoggingResources;
use raylar_services::logging::service::{next_line, settle_line};
use raylar_services::logging::types::{LogLevel, LogOutcome, ProcessOutcome};

#[test]
fn three_components_log_ordered_formatted_records() {
    let mut resources = LoggingResources::<64, 4>::new();
    let gps = resources.register("GPS");
    let storage = resources.register("Storage");
    let battery = resources.register("Battery");

    assert_eq!(
        gps.log_at(
            &mut resources,
            Instant::from_micros(3_812_491_000),
            LogLevel::Info,
            &[&format!("First fix acquired ({} satellites)", 8)],
        ),
        LogOutcome::Enqueued
    );
    assert_eq!(
        storage.log_at(
            &mut resources,
            Instant::from_micros(3_812_492_000),
            LogLevel::Debug,
            &[&format!("wrote {} bytes", 512)],
        ),
        LogOutcome::Enqueued
    );
    assert_eq!(
        battery.log_at(
            &mut resources,
            Instant::from_micros(3_812_493_000),
            LogLevel::Error,
            &[&format!("voltage = {:.2} V", 3.25)],
        ),
        LogOutcome::Enqueued
    );

    let (first, _) = format_line::<64, 128>(&resources.try_record().unwrap());
    let (second, _) = format_line::<64, 128>(&resources.try_record().unwrap());
    let (third, _) = format_line::<64, 128>(&resources.try_record().unwrap());
    assert_eq!(
        first.as_str(),
        "0000000000 3812.491 INFO  GPS        First fix acquired (8 satellites)\n"
    );
    assert_eq!(second.as_str(), "0000000001 3812.492 DEBUG Storage    wrote 512 bytes\n");
    assert_eq!(third.as_str(), "0000000002 3812.493 ERROR Battery    voltage = 3.25 V\n");
}

#[test]
fn public_macros_accept_core_format_arguments() {
    let mut resources = LoggingResources::<32, 3>::new();
    let gps = resources.register("GPS");
    let storage = resources.register("Storage");
    let battery = resources.register("Battery");
    let now = Instant::from_ticks(0);

    let _ = gps.log_at(&mut resources, now, LogLevel::Info, &[&format!("satellites={}", 9u8)]);
    let _ =
        storage.log_at(&mut resources, now, LogLevel::Debug, &[&format!("block={:#x}", 0x20u8)]);
    let _ = battery.log_at(&mut resources, now, LogLevel::Error, &[&format!("low={:?}", true)]);

    assert_eq!(resources.stats().total_messages, 3);
    assert_eq!(resources.stats().queue_depth, 3);
}

#[test]
fn full_queue_drops_newest_and_records_statistics() {
    let mut resources = LoggingResources::<16, 2>::new();
    let log = resources.register("Test");
    let at = Instant::from_ticks(0);

    assert_eq!(
        log.log_at(&mut resources, at, LogLevel::Info, &["one"]),
        LogOutcome::Enqueued
    );
    assert_eq!(
        log.log_at(&mut resources, at, LogLevel::Warn, &["two"]),
        LogOutcome::Enqueued
    );
    assert_eq!(
        log.log_at(&mut resources, at, LogLevel::Error, &["three"]),
        LogOutcome::DroppedQueueFull
    );

    let stats = resources.stats();
    assert_eq!(stats.total_messages, 3);
    assert_eq!(stats.dropped_messages, 1);
    assert_eq!(stats.queue_depth, 2);
    assert_eq!(stats.maximum_queue_depth, 2);
}

#[test]
fn long_utf8_message_is_safely_truncated_and_enqueued() {
    let mut resources = LoggingResources::<5, 1>::new();
    let log = resources.register("Test");

    assert_eq!(
        log.log_at(&mut resources, Instant::from_ticks(0), LogLevel::Info, &["éééé"]),
        LogOutcome::EnqueuedTruncated
    );
    let record = resources.try_record().unwrap();
    assert_eq!(record.message.as_str(), "éé");
    assert_eq!(resources.stats().dropped_messages, 0);
    assert_eq!(resources.stats().truncated_messages, 1);
}

#[test]
fn lines_are_settled_with_what_the_sink_says() {
    let mut resources = LoggingResources::<16, 4>::new();
    let log = resources.register("Test");
    log.log_at(&mut resources, Instant::from_ticks(0), LogLevel::Warn, &["a", "b"]);
    log.log_at(&mut resources, Instant::from_ticks(0), LogLevel::Warn, &["c"]);

    let line = next_line::<16, 4, 64>(&mut resources).unwrap();
    assert_eq!(line.line.as_str(), "0000000000 0.000 WARN  Test       ab\n");
    assert_eq!(settle_line(&mut resources, &line, true), Some(ProcessOutcome::Written));
    assert_eq!(resources.stats().bytes_written, line.line.len() as u64);
    assert_eq!(resources.stats().queue_depth, 1);

    let line = next_line::<16, 4, 64>(&mut resources).unwrap();
    assert_eq!(settle_line(&mut resources, &line, false), None);
    assert_eq!(resources.stats().write_failures, 1);
    assert!(next_line::<16, 4, 64>(&mut resources).is_none());
}

#[test]
fn lines_that_lose_their_end_still_break() {
    let mut resources = LoggingResources::<32, 1>::new();
    let log = resources.register("Test");
    log.log_at(&mut resources, Instant::from_ticks(0), LogLevel::Trace, &["a long message"]);
    let line = next_line::<32, 1, 38>(&mut resources).unwrap();
    assert_eq!(line.line.as_str(), "0000000000 0.000 TRACE Test       a l\n");
    assert!(line.line_truncated);
    settle_line(&mut resources, &line, true);
    assert_eq!(resources.stats().truncated_messages, 1);
}

#[test]
fn writers_keep_whole_characters_and_stop_for_good() {
    let mut writer: TruncatingWriter<8> = TruncatingWriter::new(3);
    writer.write_str("aé");
    assert!(!writer.truncated());
    writer.write_str("é");
    writer.write_str("b");
    assert!(writer.truncated());
    assert_eq!(writer.into_output().as_str(), "aé");
}

#[test]
fn handles_know_their_component() {
    let resources = LoggingResources::<8, 1>::new();
    assert_eq!(resources.register("Radio").component(), "Radio");
    assert_eq!(LogLevel::Trace.name(), "TRACE");
    assert_eq!(LogLevel::Error.name(), "ERROR");
}

#[test]
fn every_message_is_dropped_handed_out_or_waits() {
    let mut resources = LoggingResources::<16, 2>::new();
    let sensor = resources.register("Sensor");
    let mut handed = Vec::new();
    for round in 0..7u64 {
        for _ in 0..2 {
            sensor.log_at(&mut resources, Instant::from_ticks(round), LogLevel::Info, &["x"]);
        }
        if let Some(record) = resources.try_record() {
            handed.push(record.sequence);
        }
    }
    let stats = resources.stats();
    assert_eq!(handed, [0, 1, 2, 4, 6, 8, 10]);
    assert_eq!(stats.total_messages, 14);
    assert_eq!(stats.dropped_messages, 6);
    assert_eq!(stats.queue_depth, 1);
    assert_eq!(stats.maximum_queue_depth, 2);
}
