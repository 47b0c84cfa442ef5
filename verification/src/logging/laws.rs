//! Laws on a log: what a line tells, and what is counted.
use crate::logging::line;
use crate::logging::resources;
use crate::logging::resources::{LogModel, LogRecord};
use crate::logging::types::{LogLevel, LogOutcome, LoggingStats};
use crate::text;
use vstd::prelude::*;

verus! {

// ---- lines -----------------------------------------------------------------

/// Fragments one behind the other.
pub open spec fn joined(fragments: Seq<Seq<char>>) -> Seq<char>
    decreases fragments.len(),
{
    if fragments.len() == 0 {
        Seq::empty()
    } else {
        joined(fragments.drop_last()) + fragments.last()
    }
}

/// Fragments that fit together are written whole, one behind the other.
pub proof fn law_fitting_fragments_are_joined(limit: int, fragments: Seq<Seq<char>>)
    requires
        text::byte_len(joined(fragments)) <= limit,
    ensures
        line::written(Seq::empty(), limit, fragments) == joined(fragments),
        !line::shortened(Seq::empty(), limit, fragments),
    decreases fragments.len(),
{
    if fragments.len() > 0 {
        let front = fragments.drop_last();
        text::lemma_encode_concat(joined(front), fragments.last());
        law_fitting_fragments_are_joined(limit, front);
        line::law_fitting_text_is_kept_whole(
            fragments.last(),
            line::room_left(joined(front), limit),
        );
    }
}

/// A run of spaces.
pub open spec fn spaces(count: int) -> Seq<char> {
    Seq::new(
        if count > 0 {
            count as nat
        } else {
            0
        },
        |i: int| ' ',
    )
}

/// What a line tells of a record: its number in ten digits, the local time in
/// seconds and milliseconds, the level in a column of five, the component in a
/// column of ten, and the message.
pub open spec fn told<const M: usize>(
    record: LogRecord<M>,
    seconds: nat,
    milliseconds: nat,
    level: Seq<char>,
) -> Seq<char> {
    text::padded_decimal(record.sequence as nat, 10) + " "@ + text::decimal(seconds) + "."@
        + text::padded_decimal(milliseconds, 3) + " "@ + level + spaces(5 - level.len()) + " "@
        + record.component@ + spaces(10 - record.component@.len()) + " "@ + text::text(
        record.message,
    )
}

/// A line that has room for it all, and for the line break, tells the record whole;
/// its time is that of the record at a million ticks a second, with what is left of
/// a millisecond dropped.
pub proof fn law_line_tells_the_record<const M: usize>(
    record: LogRecord<M>,
    length: int,
    seconds: nat,
    milliseconds: nat,
    level: Seq<char>,
)
    requires
        milliseconds < 1_000,
        1_000 * (1_000 * seconds + milliseconds) <= record.timestamp.ticks,
        record.timestamp.ticks < 1_000 * (1_000 * seconds + milliseconds + 1),
        level == (match record.level {
            LogLevel::Trace => "TRACE"@,
            LogLevel::Debug => "DEBUG"@,
            LogLevel::Info => "INFO"@,
            LogLevel::Warn => "WARN"@,
            LogLevel::Error => "ERROR"@,
        }),
        text::byte_len(told(record, seconds, milliseconds, level)) < length,
    ensures
        line::line_text(record, length) == told(record, seconds, milliseconds, level) + "\n"@,
        !line::line_cut(record, length),
{
    let micros = record.timestamp.ticks * 1_000_000 / 1_000_000;
    assert(micros == record.timestamp.ticks);
    assert(micros / 1_000_000 == seconds);
    assert(micros % 1_000_000 / 1_000 == milliseconds);
    let fragments = line::line_fragments(record);
    assert(line::fill(level, 5) =~= spaces(5 - level.len()));
    assert(line::fill(record.component@, 10) =~= spaces(10 - record.component@.len()));
    assert(joined(fragments) =~= told(record, seconds, milliseconds, level)) by {
        lemma_joined_thirteen(fragments);
    }
    law_fitting_fragments_are_joined(length - 1, fragments);
}

/// Thirteen fragments one behind the other.
proof fn lemma_joined_thirteen(f: Seq<Seq<char>>)
    requires
        f.len() == 13,
    ensures
        joined(f) == f[0] + f[1] + f[2] + f[3] + f[4] + f[5] + f[6] + f[7] + f[8] + f[9] + f[10]
            + f[11] + f[12],
{
    lemma_joined_step(f, 12);
    lemma_joined_step(f, 11);
    lemma_joined_step(f, 10);
    lemma_joined_step(f, 9);
    lemma_joined_step(f, 8);
    lemma_joined_step(f, 7);
    lemma_joined_step(f, 6);
    lemma_joined_step(f, 5);
    lemma_joined_step(f, 4);
    lemma_joined_step(f, 3);
    lemma_joined_step(f, 2);
    lemma_joined_step(f, 1);
    lemma_joined_step(f, 0);
    assert(joined(f.take(0)) =~= Seq::<char>::empty());
    assert(Seq::<char>::empty() + f[0] =~= f[0]);
    assert(f.take(13) =~= f);
}

/// One more fragment.
proof fn lemma_joined_step(f: Seq<Seq<char>>, count: int)
    requires
        0 <= count < f.len(),
    ensures
        joined(f.take(count + 1)) == joined(f.take(count)) + f[count],
{
    assert(f.take(count + 1).drop_last() =~= f.take(count));
}

/// Every line ends with a line break, and never takes more bytes than it may.
pub proof fn law_lines_end_with_a_break<const M: usize>(record: LogRecord<M>, length: int)
    requires
        length > 0,
    ensures
        line::line_text(record, length).last() == '\n',
        text::byte_len(line::line_text(record, length)) <= length,
{
    reveal_strlit("\n");
    let body = line::written(Seq::empty(), length - 1, line::line_fragments(record));
    lemma_written_fits(length - 1, line::line_fragments(record));
    text::lemma_ascii_byte_len("\n"@);
    text::lemma_encode_concat(body, "\n"@);
}

/// What is written stays inside its limit.
proof fn lemma_written_fits(limit: int, fragments: Seq<Seq<char>>)
    requires
        limit >= 0,
    ensures
        text::byte_len(line::written(Seq::empty(), limit, fragments)) <= limit,
    decreases fragments.len(),
{
    if fragments.len() == 0 {
        assert(vstd::utf8::encode_utf8(Seq::<char>::empty()) =~= Seq::<u8>::empty());
    } else {
        let front = fragments.drop_last();
        lemma_written_fits(limit, front);
        let before = line::written(Seq::empty(), limit, front);
        let room = line::room_left(before, limit);
        line::law_cut_text_is_the_longest_beginning(fragments.last(), room);
        text::lemma_encode_concat(before, line::fitting(fragments.last(), room));
    }
}

// ---- counters --------------------------------------------------------------

/// Whether a counter went up by one, or stands at its end.
pub open spec fn went_up(before: u64, after: u64) -> bool {
    after == before + 1 || before == u64::MAX && after == before
}

/// Every message takes the next number and is counted. One that finds room is
/// counted as cut where it was cut, and the queue remembers how deep it has been;
/// one that finds none is counted as dropped, and nothing else changes.
pub proof fn law_offers_are_counted<const M: usize>(
    m: LogModel<M>,
    depth: int,
    record: LogRecord<M>,
)
    requires
        resources::log_consistent(m, depth),
        depth <= usize::MAX,
    ensures
        ({
            let after = resources::offered(m, depth, record);
            let (old_stats, stats) = (m.stats, after.stats);
            let outcome = resources::offer_outcome(m, depth, record.message_truncated);
            let room = m.queue.len() < depth;
            &&& went_up(old_stats.total_messages, stats.total_messages)
            &&& m.next_sequence < u64::MAX ==> after.next_sequence == m.next_sequence + 1
            &&& m.next_sequence == u64::MAX ==> after.next_sequence == 0
            &&& stats.bytes_written == old_stats.bytes_written
            &&& stats.write_failures == old_stats.write_failures
            &&& room && record.message_truncated ==> outcome == LogOutcome::EnqueuedTruncated
                && went_up(old_stats.truncated_messages, stats.truncated_messages)
            &&& room && !record.message_truncated ==> outcome == LogOutcome::Enqueued
                && stats.truncated_messages == old_stats.truncated_messages
            &&& room ==> after.queue == m.queue.push(record) && stats.queue_depth == m.queue.len()
                + 1 && stats.dropped_messages == old_stats.dropped_messages
            &&& room && m.queue.len() < old_stats.maximum_queue_depth ==> stats.maximum_queue_depth
                == old_stats.maximum_queue_depth
            &&& room && m.queue.len() >= old_stats.maximum_queue_depth
                ==> stats.maximum_queue_depth == m.queue.len() + 1
            &&& !room ==> outcome == LogOutcome::DroppedQueueFull && after.queue == m.queue
                && went_up(old_stats.dropped_messages, stats.dropped_messages)
                && stats.truncated_messages == old_stats.truncated_messages && stats.queue_depth
                == old_stats.queue_depth && stats.maximum_queue_depth
                == old_stats.maximum_queue_depth
        }),
{
}

/// Taking a message out takes the oldest, and changes nothing but the depth of the
/// queue.
pub proof fn law_taking_shortens_the_queue<const M: usize>(m: LogModel<M>)
    requires
        0 < m.queue.len() <= usize::MAX,
    ensures
        ({
            let after = resources::taken(m);
            &&& seq![m.queue[0]] + after.queue == m.queue
            &&& after.stats.queue_depth == m.queue.len() - 1
            &&& after.stats == (LoggingStats {
                queue_depth: after.stats.queue_depth,
                ..m.stats
            })
            &&& after.next_sequence == m.next_sequence
        }),
{
    assert(seq![m.queue[0]] + m.queue.drop_first() =~= m.queue);
}

/// A written line adds its bytes, and counts as cut where it was cut and its message
/// was not; a line that failed counts as a failure. Nothing else changes.
pub proof fn law_writes_are_counted(
    stats: LoggingStats,
    bytes: int,
    line_truncated: bool,
    message_truncated: bool,
)
    requires
        0 <= bytes,
    ensures
        ({
            let after = resources::wrote(stats, bytes, line_truncated, message_truncated);
            let failed = resources::failed_to_write(stats);
            &&& stats.bytes_written + bytes <= u64::MAX ==> after.bytes_written
                == stats.bytes_written + bytes
            &&& stats.bytes_written + bytes > u64::MAX ==> after.bytes_written == u64::MAX
            &&& line_truncated && !message_truncated ==> went_up(
                stats.truncated_messages,
                after.truncated_messages,
            )
            &&& !line_truncated || message_truncated ==> after.truncated_messages
                == stats.truncated_messages
            &&& after.total_messages == stats.total_messages
            &&& after.dropped_messages == stats.dropped_messages
            &&& after.write_failures == stats.write_failures
            &&& went_up(stats.write_failures, failed.write_failures)
            &&& failed.bytes_written == stats.bytes_written
            &&& failed.truncated_messages == stats.truncated_messages
            &&& failed.total_messages == stats.total_messages
        }),
{
}

} // verus!
