//! Values exchanged with the log.
use vstd::prelude::*;

verus! {

/// How important a message is.
#[derive(Clone, Copy, Debug, PartialEq, Eq, Structural)]
pub enum LogLevel {
    Trace,
    Debug,
    Info,
    Warn,
    Error,
}

impl LogLevel {
    /// The level as a line shows it.
    pub open spec fn label(self) -> Seq<char> {
        match self {
            LogLevel::Trace => "TRACE"@,
            LogLevel::Debug => "DEBUG"@,
            LogLevel::Info => "INFO"@,
            LogLevel::Warn => "WARN"@,
            LogLevel::Error => "ERROR"@,
        }
    }

    /// The level as a line shows it.
    pub fn name(self) -> (name: &'static str)
        ensures
            name@ == self.label(),
    {
        match self {
            LogLevel::Trace => "TRACE",
            LogLevel::Debug => "DEBUG",
            LogLevel::Info => "INFO",
            LogLevel::Warn => "WARN",
            LogLevel::Error => "ERROR",
        }
    }
}

/// What became of a message.
#[derive(Clone, Copy, Debug, PartialEq, Eq, Structural)]
pub enum LogOutcome {
    /// It waits to be written.
    Enqueued,
    /// It waits to be written, without its end.
    EnqueuedTruncated,
    /// The queue was full; the message is gone.
    DroppedQueueFull,
}

/// Counters of a log.
#[derive(Clone, Copy, Debug, PartialEq, Eq, Structural)]
pub struct LoggingStats {
    /// Messages offered.
    pub total_messages: u64,
    /// Messages that found the queue full.
    pub dropped_messages: u64,
    /// Messages that wait.
    pub queue_depth: usize,
    /// Most messages that ever waited.
    pub maximum_queue_depth: usize,
    /// Bytes handed to the sink.
    pub bytes_written: u64,
    /// Messages that lost their end.
    pub truncated_messages: u64,
    /// Lines that the sink refused.
    pub write_failures: u64,
}

/// What one round of the log did.
#[derive(Clone, Copy, Debug, PartialEq, Eq, Structural)]
pub enum ProcessOutcome {
    /// No message was waiting.
    Empty,
    /// One line was written.
    Written,
}

} // verus!
