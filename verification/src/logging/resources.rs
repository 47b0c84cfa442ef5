//! Messages that wait to be written, and the counters of a log.
use crate::clock::Instant;
use crate::logging::line;
use crate::logging::line::TruncatingWriter;
use crate::logging::types::{LogLevel, LogOutcome, LoggingStats};
use crate::text;
use std::collections::VecDeque;
use vstd::prelude::*;

verus! {

/// Longest message by default, in bytes.
pub const DEFAULT_MESSAGE_LENGTH: usize = 256;

/// Most waiting messages by default.
pub const DEFAULT_QUEUE_DEPTH: usize = 8;

/// Longest line by default, in bytes.
pub const DEFAULT_LINE_LENGTH: usize = 384;

/// One message as it waits to be written.
pub struct LogRecord<const MESSAGE_LENGTH: usize> {
    /// Running number.
    pub sequence: u64,
    /// When it was logged.
    pub timestamp: Instant,
    /// How important it is.
    pub level: LogLevel,
    /// Who logged it.
    pub component: &'static str,
    /// Its text.
    pub message: heapless::String<MESSAGE_LENGTH>,
    /// Whether its text lost its end.
    pub message_truncated: bool,
}

/// A log as contracts speak of it.
#[verifier::ext_equal]
pub struct LogModel<const MESSAGE_LENGTH: usize> {
    /// Messages that wait, oldest first.
    pub queue: Seq<LogRecord<MESSAGE_LENGTH>>,
    /// Running number of the next message.
    pub next_sequence: u64,
    /// The counters.
    pub stats: LoggingStats,
}

/// The queue and the counters of a log.
pub struct LoggingResources<const MESSAGE_LENGTH: usize, const QUEUE_DEPTH: usize> {
    queue: VecDeque<LogRecord<MESSAGE_LENGTH>>,
    next_sequence: u64,
    stats: LoggingStats,
}

/// Counters of a log that was never used.
pub open spec fn no_stats() -> LoggingStats {
    LoggingStats {
        total_messages: 0,
        dropped_messages: 0,
        queue_depth: 0,
        maximum_queue_depth: 0,
        bytes_written: 0,
        truncated_messages: 0,
        write_failures: 0,
    }
}

/// A log that was never used.
pub open spec fn unused_log<const M: usize>() -> LogModel<M> {
    LogModel { queue: Seq::empty(), next_sequence: 0, stats: no_stats() }
}

/// One more than a counter, held at the top of its range.
pub open spec fn counted(value: u64) -> u64 {
    if value == u64::MAX {
        value
    } else {
        (value + 1) as u64
    }
}

/// What holds of every log: the queue is within its depth and its length is on
/// record.
pub open spec fn log_consistent<const M: usize>(m: LogModel<M>, depth: int) -> bool {
    &&& m.queue.len() <= depth
    &&& m.stats.queue_depth == m.queue.len()
    &&& m.stats.queue_depth <= m.stats.maximum_queue_depth <= depth
}

/// A log after a message was offered: it takes the next running number, and
/// joins the queue unless that is full.
pub open spec fn offered<const M: usize>(
    m: LogModel<M>,
    depth: int,
    record: LogRecord<M>,
) -> LogModel<M> {
    let next_sequence = if m.next_sequence == u64::MAX {
        0
    } else {
        (m.next_sequence + 1) as u64
    };
    let total_messages = counted(m.stats.total_messages);
    if m.queue.len() >= depth {
        LogModel {
            next_sequence,
            stats: LoggingStats {
                total_messages,
                dropped_messages: counted(m.stats.dropped_messages),
                ..m.stats
            },
            ..m
        }
    } else {
        let queue = m.queue.push(record);
        LogModel {
            queue,
            next_sequence,
            stats: LoggingStats {
                total_messages,
                queue_depth: queue.len() as usize,
                maximum_queue_depth: if m.stats.maximum_queue_depth >= queue.len() {
                    m.stats.maximum_queue_depth
                } else {
                    queue.len() as usize
                },
                truncated_messages: if record.message_truncated {
                    counted(m.stats.truncated_messages)
                } else {
                    m.stats.truncated_messages
                },
                ..m.stats
            },
        }
    }
}

/// A log after its oldest waiting message was taken.
pub open spec fn taken<const M: usize>(m: LogModel<M>) -> LogModel<M> {
    LogModel {
        queue: m.queue.drop_first(),
        stats: LoggingStats { queue_depth: (m.queue.len() - 1) as usize, ..m.stats },
        ..m
    }
}

/// What a message is told when it is offered.
pub open spec fn offer_outcome<const M: usize>(m: LogModel<M>, depth: int, truncated: bool) -> LogOutcome {
    if m.queue.len() >= depth {
        LogOutcome::DroppedQueueFull
    } else if truncated {
        LogOutcome::EnqueuedTruncated
    } else {
        LogOutcome::Enqueued
    }
}

/// The counters after a line was written. A message that was cut before is not
/// counted a second time.
pub open spec fn wrote(
    stats: LoggingStats,
    bytes: int,
    line_truncated: bool,
    message_truncated: bool,
) -> LoggingStats {
    LoggingStats {
        bytes_written: if stats.bytes_written + bytes > u64::MAX {
            u64::MAX
        } else {
            (stats.bytes_written + bytes) as u64
        },
        truncated_messages: if line_truncated && !message_truncated {
            counted(stats.truncated_messages)
        } else {
            stats.truncated_messages
        },
        ..stats
    }
}

/// The counters after a line could not be written.
pub open spec fn failed_to_write(stats: LoggingStats) -> LoggingStats {
    LoggingStats { write_failures: counted(stats.write_failures), ..stats }
}

impl<const MESSAGE_LENGTH: usize, const QUEUE_DEPTH: usize> View for LoggingResources<
    MESSAGE_LENGTH,
    QUEUE_DEPTH,
> {
    type V = LogModel<MESSAGE_LENGTH>;

    closed spec fn view(&self) -> LogModel<MESSAGE_LENGTH> {
        LogModel { queue: self.queue@, next_sequence: self.next_sequence, stats: self.stats }
    }
}

impl<const MESSAGE_LENGTH: usize, const QUEUE_DEPTH: usize> LoggingResources<
    MESSAGE_LENGTH,
    QUEUE_DEPTH,
> {
    /// What holds of every log.
    pub open spec fn well_formed(self) -> bool {
        log_consistent(self@, QUEUE_DEPTH as int)
    }

    /// A log with nothing waiting.
    pub fn new() -> (resources: Self)
        ensures
            resources.well_formed(),
            resources@ == unused_log::<MESSAGE_LENGTH>(),
    {
        LoggingResources {
            queue: VecDeque::new(),
            next_sequence: 0,
            stats: LoggingStats {
                total_messages: 0,
                dropped_messages: 0,
                queue_depth: 0,
                maximum_queue_depth: 0,
                bytes_written: 0,
                truncated_messages: 0,
                write_failures: 0,
            },
        }
    }

    /// A name under which a component logs.
    pub fn register(&self, component: &'static str) -> (handle: LoggerHandle)
        ensures
            handle.name() == component@,
    {
        LoggerHandle { component }
    }

    /// The counters.
    pub fn stats(&self) -> (stats: LoggingStats)
        ensures
            stats == self@.stats,
    {
        self.stats
    }

    /// Takes the oldest waiting message.
    pub fn try_record(&mut self) -> (record: Option<LogRecord<MESSAGE_LENGTH>>)
        requires
            old(self).well_formed(),
        ensures
            final(self).well_formed(),
            match record {
                Some(record) => {
                    &&& old(self)@.queue.len() > 0
                    &&& record == old(self)@.queue[0]
                    &&& final(self)@ == taken(old(self)@)
                },
                None => old(self)@.queue.len() == 0 && final(self)@ == old(self)@,
            },
    {
        let record: Option<LogRecord<MESSAGE_LENGTH>> = self.queue.pop_front();
        self.stats.queue_depth = self.queue.len();
        assert(record is Some ==> self.queue@ =~= old(self).queue@.drop_first());
        record
    }

    /// Counts a line that the sink took.
    pub fn record_write(&mut self, bytes: usize, line_truncated: bool, message_truncated: bool)
        requires
            old(self).well_formed(),
        ensures
            final(self).well_formed(),
            final(self)@ == (LogModel {
                stats: wrote(
                    old(self)@.stats,
                    bytes as int,
                    line_truncated,
                    message_truncated,
                ),
                ..old(self)@
            }),
    {
        self.stats.bytes_written = self.stats.bytes_written.saturating_add(bytes as u64);
        if line_truncated && !message_truncated {
            self.stats.truncated_messages = self.stats.truncated_messages.saturating_add(1);
        }
    }

    /// Counts a line that the sink refused.
    pub fn record_write_failure(&mut self)
        requires
            old(self).well_formed(),
        ensures
            final(self).well_formed(),
            final(self)@ == (LogModel {
                stats: failed_to_write(old(self)@.stats),
                ..old(self)@
            }),
    {
        self.stats.write_failures = self.stats.write_failures.saturating_add(1);
    }

    /// Offers a message to the queue. A full queue keeps what it holds.
    pub fn enqueue(
        &mut self,
        component: &'static str,
        timestamp: Instant,
        level: LogLevel,
        message: heapless::String<MESSAGE_LENGTH>,
        message_truncated: bool,
    ) -> (outcome: LogOutcome)
        requires
            old(self).well_formed(),
        ensures
            final(self).well_formed(),
            outcome == offer_outcome(old(self)@, QUEUE_DEPTH as int, message_truncated),
            final(self)@ == offered(
                old(self)@,
                QUEUE_DEPTH as int,
                LogRecord {
                    sequence: old(self)@.next_sequence,
                    timestamp,
                    level,
                    component,
                    message,
                    message_truncated,
                },
            ),
    {
        let sequence: u64 = self.next_sequence;
        self.next_sequence = self.next_sequence.wrapping_add(1);
        self.stats.total_messages = self.stats.total_messages.saturating_add(1);
        if self.queue.len() >= QUEUE_DEPTH {
            self.stats.dropped_messages = self.stats.dropped_messages.saturating_add(1);
            return LogOutcome::DroppedQueueFull;
        }
        self.queue.push_back(
            LogRecord { sequence, timestamp, level, component, message, message_truncated },
        );
        self.stats.queue_depth = self.queue.len();
        if self.stats.queue_depth > self.stats.maximum_queue_depth {
            self.stats.maximum_queue_depth = self.stats.queue_depth;
        }
        if message_truncated {
            self.stats.truncated_messages = self.stats.truncated_messages.saturating_add(1);
            LogOutcome::EnqueuedTruncated
        } else {
            LogOutcome::Enqueued
        }
    }
}

/// A name under which a component logs.
#[derive(Clone, Copy)]
pub struct LoggerHandle {
    component: &'static str,
}

impl LoggerHandle {
    /// The component's name.
    pub closed spec fn name(self) -> Seq<char> {
        self.component@
    }

    /// The component's name.
    pub fn component(&self) -> (component: &'static str)
        ensures
            component@ == self.name(),
    {
        self.component
    }

    /// Offers a message made of fragments, cut where the message length ends.
    pub fn log_at<const MESSAGE_LENGTH: usize, const QUEUE_DEPTH: usize>(
        &self,
        resources: &mut LoggingResources<MESSAGE_LENGTH, QUEUE_DEPTH>,
        timestamp: Instant,
        level: LogLevel,
        fragments: &[&str],
    ) -> (outcome: LogOutcome)
        requires
            old(resources).well_formed(),
        ensures
            final(resources).well_formed(),
            ({
                let chars = line::fragment_chars(fragments@);
                let limit = MESSAGE_LENGTH as int;
                let cut = line::shortened(Seq::empty(), limit, chars);
                &&& outcome == offer_outcome(old(resources)@, QUEUE_DEPTH as int, cut)
                &&& exists|record: LogRecord<MESSAGE_LENGTH>|
                    {
                        &&& final(resources)@ == #[trigger] offered(
                            old(resources)@,
                            QUEUE_DEPTH as int,
                            record,
                        )
                        &&& record.sequence == old(resources)@.next_sequence
                        &&& record.timestamp == timestamp
                        &&& record.level == level
                        &&& record.component@ == self.name()
                        &&& text::text(record.message) == line::written(
                            Seq::empty(),
                            limit,
                            chars,
                        )
                        &&& record.message_truncated == cut
                    }
            }),
    {
        let mut writer: TruncatingWriter<MESSAGE_LENGTH> = TruncatingWriter::new(MESSAGE_LENGTH);
        writer.write_all(fragments);
        let truncated: bool = writer.truncated();
        resources.enqueue(self.component, timestamp, level, writer.into_output(), truncated)
    }
}

} // verus!
