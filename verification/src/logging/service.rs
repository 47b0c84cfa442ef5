//! One round of a log: the line of the oldest message, and what its sink said.
use crate::logging::line;
use crate::logging::line::format_line;
use crate::logging::resources;
use crate::logging::resources::{LogModel, LogRecord, LoggingResources};
use crate::logging::types::ProcessOutcome;
use crate::text;
use crate::text::text_as_str;
use vstd::prelude::*;

verus! {

/// A line that is ready for its sink.
pub struct LogLine<const LINE_LENGTH: usize> {
    /// The text, with its line break.
    pub line: heapless::String<LINE_LENGTH>,
    /// Whether the line lost its end.
    pub line_truncated: bool,
    /// Whether its message lost its end before.
    pub message_truncated: bool,
}

/// Takes the oldest message out of a log and puts it into a line.
pub fn next_line<const MESSAGE_LENGTH: usize, const QUEUE_DEPTH: usize, const LINE_LENGTH: usize>(
    log: &mut LoggingResources<MESSAGE_LENGTH, QUEUE_DEPTH>,
) -> (line: Option<LogLine<LINE_LENGTH>>)
    requires
        old(log).well_formed(),
    ensures
        final(log).well_formed(),
        match line {
            Some(line) => {
                let record = old(log)@.queue[0];
                &&& old(log)@.queue.len() > 0
                &&& text::text(line.line) == line::line_text(record, LINE_LENGTH as int)
                &&& line.line_truncated == line::line_cut(record, LINE_LENGTH as int)
                &&& line.message_truncated == record.message_truncated
                &&& final(log)@ == resources::taken(old(log)@)
            },
            None => old(log)@.queue.len() == 0 && final(log)@ == old(log)@,
        },
{
    match log.try_record() {
        Some(record) => {
            let (line, line_truncated) = format_line::<MESSAGE_LENGTH, LINE_LENGTH>(&record);
            Some(LogLine { line, line_truncated, message_truncated: record.message_truncated })
        },
        None => None,
    }
}

/// Settles a line with its log: counts what the sink took, or that it refused.
pub fn settle_line<const MESSAGE_LENGTH: usize, const QUEUE_DEPTH: usize, const LINE_LENGTH: usize>(
    log: &mut LoggingResources<MESSAGE_LENGTH, QUEUE_DEPTH>,
    line: &LogLine<LINE_LENGTH>,
    taken: bool,
) -> (outcome: Option<ProcessOutcome>)
    requires
        old(log).well_formed(),
    ensures
        final(log).well_formed(),
        outcome == (if taken {
            Some(ProcessOutcome::Written)
        } else {
            None
        }),
        final(log)@.queue == old(log)@.queue,
        final(log)@.next_sequence == old(log)@.next_sequence,
        final(log)@.stats == (if taken {
            resources::wrote(
                old(log)@.stats,
                text::byte_len(text::text(line.line)) as int,
                line.line_truncated,
                line.message_truncated,
            )
        } else {
            resources::failed_to_write(old(log)@.stats)
        }),
{
    if taken {
        let bytes: usize = text_as_str(&line.line).len();
        log.record_write(bytes, line.line_truncated, line.message_truncated);
        Some(ProcessOutcome::Written)
    } else {
        log.record_write_failure();
        None
    }
}

/// A message that joins an empty queue is the next one out, and messages leave
/// in the order in which they joined.
pub proof fn law_messages_leave_in_order<const M: usize>(
    m: LogModel<M>,
    depth: int,
    record: LogRecord<M>,
)
    requires
        resources::log_consistent(m, depth),
        m.queue.len() < depth,
    ensures
        ({
            let after = resources::offered(m, depth, record);
            &&& after.queue.last() == record
            &&& after.queue.drop_last() == m.queue
            &&& m.queue.len() == 0 ==> after.queue[0] == record
            &&& m.queue.len() > 0 ==> after.queue[0] == m.queue[0]
            &&& m.queue.len() > 0 ==> after.queue.drop_first() == m.queue.drop_first().push(record)
        }),
{
    let after = resources::offered(m, depth, record);
    assert(after.queue.drop_last() =~= m.queue);
    if m.queue.len() > 0 {
        assert(after.queue.drop_first() =~= m.queue.drop_first().push(record));
    }
}

/// A full queue drops the new message and keeps every waiting one.
pub proof fn law_full_queue_drops_the_newest<const M: usize>(
    m: LogModel<M>,
    depth: int,
    record: LogRecord<M>,
)
    requires
        m.queue.len() >= depth,
    ensures
        resources::offered(m, depth, record).queue == m.queue,
        resources::offered(m, depth, record).stats.dropped_messages == resources::counted(
            m.stats.dropped_messages,
        ),
        resources::offer_outcome(m, depth, record.message_truncated)
            == crate::logging::types::LogOutcome::DroppedQueueFull,
{
}

/// Every offered message is counted, and takes a running number, whether it
/// joins the queue or not.
pub proof fn law_every_message_is_counted<const M: usize>(
    m: LogModel<M>,
    depth: int,
    record: LogRecord<M>,
)
    ensures
        ({
            let after = resources::offered(m, depth, record);
            &&& after.stats.total_messages == resources::counted(m.stats.total_messages)
            &&& after.next_sequence != m.next_sequence
            &&& m.queue.len() < depth <==> after.queue.len() == m.queue.len() + 1
        }),
{
}

/// One call on a log.
pub enum LogCall<const M: usize> {
    /// A message is offered; its running number is the log's to give.
    Offer(LogRecord<M>),
    /// The oldest waiting message is taken, where one waits.
    Take,
}

/// What came of a run of calls.
#[verifier::ext_equal]
pub struct LogRun<const M: usize> {
    /// The log after it.
    pub log: LogModel<M>,
    /// Messages offered.
    pub offers: int,
    /// Those that joined the queue, in the order in which they were offered.
    pub joined: Seq<LogRecord<M>>,
    /// Those that were handed out, in the order in which they were.
    pub handed: Seq<LogRecord<M>>,
}

/// What comes of a run of calls on a log that was never used.
pub open spec fn log_run<const M: usize>(depth: int, calls: Seq<LogCall<M>>) -> LogRun<M>
    decreases calls.len(),
{
    if calls.len() == 0 {
        LogRun {
            log: resources::unused_log(),
            offers: 0,
            joined: Seq::empty(),
            handed: Seq::empty(),
        }
    } else {
        let before = log_run(depth, calls.drop_last());
        match calls.last() {
            LogCall::Offer(message) => {
                let record = LogRecord { sequence: before.log.next_sequence, ..message };
                LogRun {
                    log: resources::offered(before.log, depth, record),
                    offers: before.offers + 1,
                    joined: if before.log.queue.len() < depth {
                        before.joined.push(record)
                    } else {
                        before.joined
                    },
                    ..before
                }
            },
            LogCall::Take => if before.log.queue.len() > 0 {
                LogRun {
                    log: resources::taken(before.log),
                    handed: before.handed.push(before.log.queue[0]),
                    ..before
                }
            } else {
                before
            },
        }
    }
}

/// Whether running numbers grow from message to message.
pub open spec fn numbers_grow<const M: usize>(records: Seq<LogRecord<M>>) -> bool {
    forall|i: int, j: int|
        0 <= i < j < records.len() ==> (#[trigger] records[i]).sequence < (
        #[trigger] records[j]).sequence
}

/// Over any run of calls, every message that was offered was dropped, handed out
/// or waits. Messages are handed out once each, in the order in which they
/// joined, with growing numbers; a dropped message uses up its number.
pub proof fn law_log_accounts_for_every_message<const M: usize>(
    depth: int,
    calls: Seq<LogCall<M>>,
)
    requires
        0 <= depth <= usize::MAX,
        calls.len() <= u64::MAX,
    ensures
        ({
            let run = log_run(depth, calls);
            let stats = run.log.stats;
            &&& resources::log_consistent(run.log, depth)
            &&& stats.total_messages == run.offers
            &&& run.log.next_sequence == run.offers
            &&& stats.total_messages == stats.dropped_messages + run.handed.len()
                + stats.queue_depth
            &&& run.handed + run.log.queue == run.joined
            &&& numbers_grow(run.joined)
            &&& numbers_grow(run.handed)
        }),
{
    lemma_log_run(depth, calls);
    let run = log_run(depth, calls);
    assert forall|i: int, j: int| 0 <= i < j < run.handed.len() implies (
    #[trigger] run.handed[i]).sequence < (#[trigger] run.handed[j]).sequence by {
        assert(run.joined[i] == run.handed[i]);
        assert(run.joined[j] == run.handed[j]);
    }
}

/// What holds after any run of calls.
proof fn lemma_log_run<const M: usize>(depth: int, calls: Seq<LogCall<M>>)
    requires
        0 <= depth <= usize::MAX,
        calls.len() <= u64::MAX,
    ensures
        ({
            let run = log_run(depth, calls);
            let stats = run.log.stats;
            &&& resources::log_consistent(run.log, depth)
            &&& 0 <= run.offers <= calls.len()
            &&& stats.total_messages == run.offers
            &&& run.log.next_sequence == run.offers
            &&& stats.dropped_messages + run.joined.len() == run.offers
            &&& run.handed + run.log.queue == run.joined
            &&& numbers_grow(run.joined)
            &&& forall|i: int|
                0 <= i < run.joined.len() ==> (#[trigger] run.joined[i]).sequence < run.offers
        }),
    decreases calls.len(),
{
    let run = log_run(depth, calls);
    if calls.len() == 0 {
        assert(run.handed + run.log.queue =~= run.joined);
    } else {
        lemma_log_run(depth, calls.drop_last());
        let before = log_run(depth, calls.drop_last());
        assert(run.handed + run.log.queue =~= run.joined);
    }
}

} // verus!
