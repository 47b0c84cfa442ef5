//! Laws on the programs: in which order they act, and what they do about failures.
use crate::clock::Instant;
use crate::firmware::card_check;
use crate::firmware::card_check::{CheckAction, CheckData, CheckFile, FileOperation};
use crate::firmware::card_power;
use crate::firmware::card_power::{CardAction, CardEvent, CardSequence};
use crate::firmware::recording;
use crate::firmware::recording::{RecordingAction, RecordingEvent, RecordingSequence};
use vstd::prelude::*;

verus! {

// ---- the power monitor -----------------------------------------------------

/// The card may be powered from a charge of forty percent on, and not where the
/// charge is unknown.
pub proof fn law_card_needs_forty_percent(percent: Option<u8>)
    ensures
        card_power::charge_is_safe(percent) <==> (percent is Some && percent->0 >= 40),
{
}

/// A log comes up step by step: the card is found, the charge is safe, the card is
/// powered and brought up, the log is opened and announced. A step that fails halts
/// the program and is signalled; a low charge is waited for.
pub proof fn law_log_comes_up_step_by_step(
    sequence: CardSequence,
    event: CardEvent,
    percent: u8,
    now: Instant,
)
    ensures
        ({
            let step = card_power::next_step(sequence, event);
            let done = event == CardEvent::Done;
            let looked = event == CardEvent::Charge { percent: Some(percent), now };
            match sequence.action {
                CardAction::CheckCard => {
                    &&& done ==> step.action == CardAction::CheckCharge && !step.signal_error
                    &&& !done ==> step.action == CardAction::Halt && step.signal_error
                },
                CardAction::CheckCharge => {
                    &&& looked && percent >= 40 ==> step.action == CardAction::PowerOn
                    &&& looked && percent < 40 ==> step.action == CardAction::WaitForCharge
                    &&& !step.signal_error
                },
                CardAction::WaitForCharge => step.action == CardAction::CheckCharge
                    && !step.signal_error,
                CardAction::PowerOn => step.action == CardAction::Acquire {
                    again: sequence.mounted_before,
                } && !step.signal_error,
                CardAction::Acquire { .. } => {
                    &&& done ==> step.action == CardAction::OpenLog && !step.signal_error
                    &&& !done ==> step.action == CardAction::Halt && step.signal_error
                },
                CardAction::OpenLog => {
                    &&& done ==> step.action == CardAction::Announce {
                        resumed: sequence.mounted_before,
                    } && !step.signal_error
                    &&& !done ==> step.action == CardAction::Halt && step.signal_error
                },
                CardAction::Announce { .. } => step.action == CardAction::CheckLogging && (
                step.signal_error <==> event == CardEvent::Failed),
                CardAction::PowerOff => step.action == CardAction::CheckCharge,
                CardAction::Halt => step.action == CardAction::Halt,
                _ => true,
            }
        }),
{
}

/// While the charge is safe, messages are written one by one, with a flush where one
/// is due before them; an empty queue is waited for ten milliseconds, a refused line
/// a hundred, and then the charge is looked at again.
pub proof fn law_messages_are_written_while_charged(
    sequence: CardSequence,
    event: CardEvent,
    percent: u8,
    now: Instant,
)
    requires
        percent >= 40,
    ensures
        ({
            let step = card_power::next_step(sequence, event);
            match sequence.action {
                CardAction::CheckLogging => event == CardEvent::Charge {
                    percent: Some(percent),
                    now,
                } ==> {
                    &&& now.ticks >= sequence.next_flush.ticks ==> step.action == CardAction::Flush
                    &&& now.ticks < sequence.next_flush.ticks ==> step.action
                        == CardAction::WriteOne
                },
                CardAction::Flush => {
                    &&& step.action == CardAction::WriteOne
                    &&& event matches CardEvent::Flushed { ok, dropped, write_failures, .. } ==> (
                    step.signal_error <==> !ok || dropped > 0 || write_failures > 0)
                },
                CardAction::WriteOne => {
                    &&& event == CardEvent::Written ==> step.action == CardAction::CheckLogging
                        && !step.signal_error
                    &&& event == CardEvent::Empty ==> step.action == CardAction::Pause(10)
                        && !step.signal_error
                    &&& event == CardEvent::Failed ==> step.action == CardAction::Pause(100)
                        && step.signal_error
                },
                CardAction::Pause(_) => step.action == CardAction::CheckLogging,
                _ => true,
            }
        }),
{
}

/// A shutdown writes what waits, says so, writes that, flushes and closes the log,
/// and switches the card off, in this order; what fails on the way is signalled.
pub proof fn law_shutdown_keeps_its_order(sequence: CardSequence, event: CardEvent)
    ensures
        ({
            let step = card_power::next_step(sequence, event);
            match sequence.action {
                CardAction::DrainOne => {
                    &&& event == CardEvent::Written ==> step.action == CardAction::DrainOne
                    &&& event != CardEvent::Written ==> step.action
                        == CardAction::AnnounceShutdown
                    &&& event == CardEvent::Failed ==> step.signal_error
                    &&& event == CardEvent::Empty ==> !step.signal_error
                },
                CardAction::AnnounceShutdown => step.action == CardAction::DrainLast && (
                step.signal_error <==> event == CardEvent::Failed),
                CardAction::DrainLast => {
                    &&& event == CardEvent::Written ==> step.action == CardAction::DrainLast
                    &&& event != CardEvent::Written ==> step.action == CardAction::FlushLast
                    &&& event == CardEvent::Failed ==> step.signal_error
                    &&& event == CardEvent::Empty ==> !step.signal_error
                },
                CardAction::FlushLast => step.action == CardAction::CloseLog && (step.signal_error
                    <==> event != CardEvent::Done),
                CardAction::CloseLog => step.action == CardAction::PowerOff && (step.signal_error
                    <==> event != CardEvent::Done),
                _ => true,
            }
        }),
{
}

/// The first flush comes ten seconds after the log was announced, and each further
/// one ten seconds after the one before was begun.
pub proof fn law_flushes_come_every_ten_seconds(
    sequence: CardSequence,
    event: CardEvent,
    now: Instant,
)
    requires
        now.ticks + 10_000_000 <= u64::MAX,
        event matches CardEvent::Flushed { begun, .. } ==> begun.ticks + 10_000_000 <= u64::MAX,
    ensures
        ({
            let after = card_power::advanced(sequence, event, now);
            match sequence.action {
                CardAction::Announce { .. } => after.next_flush.ticks == now.ticks + 10_000_000
                    && after.mounted_before,
                CardAction::Flush => match event {
                    CardEvent::Flushed { begun, .. } => after.next_flush.ticks == begun.ticks
                        + 10_000_000,
                    _ => after.next_flush.ticks == now.ticks + 10_000_000,
                },
                _ => after.next_flush == sequence.next_flush && after.mounted_before
                    == sequence.mounted_before,
            }
        }),
{
}

/// Components may log from when the charge is watched until the shutdown begins.
pub proof fn law_components_log_while_the_log_is_open(action: CardAction)
    ensures
        card_power::logging_active(action) <==> {
            ||| action == CardAction::CheckLogging
            ||| action == CardAction::Flush
            ||| action == CardAction::WriteOne
            ||| action is Pause
        },
{
}

// ---- the recording program -------------------------------------------------

/// The recorder is started again and again until UTC is known, with the log seen to
/// and a tenth of a second between two attempts; any other failure to start, and any
/// failure to record, halts the program as a severe error.
pub proof fn law_recording_waits_for_the_time(
    sequence: RecordingSequence,
    event: RecordingEvent,
    now: Instant,
)
    ensures
        ({
            let step = recording::next_step(sequence, event, false, now);
            match sequence.action {
                RecordingAction::Start => {
                    &&& event == RecordingEvent::Done ==> step.action == RecordingAction::Record
                        && step.begin_recording && !step.severe_error
                    &&& event == RecordingEvent::TimeUnavailable ==> step.action
                        == RecordingAction::DrainOne && !step.begin_recording && !step.severe_error
                    &&& event == RecordingEvent::Failed ==> step.action == RecordingAction::Halt
                        && step.severe_error
                },
                RecordingAction::Record => {
                    &&& event == RecordingEvent::Done ==> step.action == RecordingAction::DrainOne
                        && !step.severe_error
                    &&& event == RecordingEvent::Failed ==> step.action == RecordingAction::Halt
                        && step.severe_error
                },
                RecordingAction::Pause(_) => step.action == RecordingAction::Start,
                RecordingAction::Halt => step.action == RecordingAction::Halt
                    && !step.severe_error,
                _ => true,
            }
        }),
{
}

/// After each round, and each failed attempt to start, all that waits is written,
/// then the log is made durable where that is due, and then the next round comes, or
/// a pause of a tenth of a second where the recorder was not started. A refused line
/// and a log that is not durable are severe errors.
pub proof fn law_log_is_seen_to_between_rounds(
    sequence: RecordingSequence,
    event: RecordingEvent,
    raised: bool,
    now: Instant,
)
    ensures
        ({
            let step = recording::next_step(sequence, event, raised, now);
            let next = if sequence.started {
                RecordingAction::Record
            } else {
                RecordingAction::Pause(100)
            };
            match sequence.action {
                RecordingAction::DrainOne => {
                    &&& event == RecordingEvent::Written ==> step.action
                        == RecordingAction::DrainOne && !step.severe_error
                    &&& event != RecordingEvent::Written && now.ticks
                        >= sequence.next_checkpoint.ticks ==> step.action
                        == RecordingAction::Checkpoint
                    &&& event != RecordingEvent::Written && now.ticks
                        < sequence.next_checkpoint.ticks ==> step.action == next
                    &&& event == RecordingEvent::Empty ==> !step.severe_error
                    &&& event == RecordingEvent::Failed ==> step.severe_error
                },
                RecordingAction::Checkpoint => {
                    &&& step.action == next
                    &&& event matches RecordingEvent::Checkpointed { ok, write_failures } ==> (
                    step.severe_error <==> !ok || write_failures > 0)
                },
                _ => true,
            }
        }),
{
}

/// The log is made durable ten seconds after the last time, and the recorder stays
/// started once it was.
pub proof fn law_checkpoints_come_every_ten_seconds(
    sequence: RecordingSequence,
    event: RecordingEvent,
    raised: bool,
    now: Instant,
)
    requires
        now.ticks + 10_000_000 <= u64::MAX,
    ensures
        ({
            let after = recording::advanced(sequence, event, raised, now);
            &&& sequence.action == RecordingAction::Checkpoint ==> after.next_checkpoint.ticks
                == now.ticks + 10_000_000
            &&& sequence.action != RecordingAction::Checkpoint ==> after.next_checkpoint
                == sequence.next_checkpoint
            &&& after.started <==> sequence.started || (sequence.action == RecordingAction::Start
                && event == RecordingEvent::Done && !raised)
            &&& after.action == recording::next_step(sequence, event, raised, now).action
        }),
{
}

// ---- the check of the card -------------------------------------------------

/// The check goes on as long as every action succeeds, and ends with the first that
/// fails; what has ended stays as it is.
pub proof fn law_check_ends_with_the_first_failure(action: CheckAction, ok: bool)
    ensures
        ({
            let next = card_check::check_after(action, ok);
            let ended = action == CheckAction::Passed || action == CheckAction::Failed;
            &&& ended ==> next == action
            &&& !ended && !ok ==> next == CheckAction::Failed
            &&& !ended && ok ==> next != CheckAction::Failed
            &&& next == CheckAction::Passed <==> action == CheckAction::Passed || (action
                == CheckAction::Exercise && ok)
            &&& action == CheckAction::FindCard && ok ==> next == CheckAction::PowerOn
            &&& action == CheckAction::PowerOn && ok ==> next == CheckAction::Acquire
            &&& action == CheckAction::Acquire && ok ==> next == CheckAction::FindVolume
            &&& action == CheckAction::FindVolume && ok ==> next == CheckAction::Mount
            &&& action == CheckAction::Mount && ok ==> next == CheckAction::Exercise
        }),
{
}

/// A line over and over reads the same a line's length further on, and starts with
/// the line.
pub proof fn law_repeated_lines_recur(line: Seq<u8>, size: nat, i: int)
    requires
        line.len() > 0,
        0 <= i < size,
    ensures
        ({
            let block = card_check::repeated(line, size);
            &&& block.len() == size
            &&& i < line.len() ==> block[i] == line[i]
            &&& i + line.len() < size ==> block[i + line.len() as int] == block[i]
        }),
{
    let count = line.len() as int;
    if i < count {
        vstd::arithmetic::div_mod::lemma_small_mod(i as nat, count as nat);
    }
    vstd::arithmetic::div_mod::lemma_mod_add_multiples_vanish(i, count);
    assert((count + i) % count == i % count);
}

/// A text with spaces behind it is the text, and spaces up to the size.
pub proof fn law_spaced_text_is_filled_up(prefix: Seq<u8>, size: nat, i: int)
    requires
        prefix.len() <= size,
        0 <= i < size,
    ensures
        ({
            let block = card_check::spaced(prefix, size);
            &&& block.len() == size
            &&& i < prefix.len() ==> block[i] == prefix[i]
            &&& i >= prefix.len() ==> block[i] == 32
        }),
{
}

/// Blocks have 512 bytes and long writes 4096.
pub proof fn law_check_data_are_whole_blocks(data: CheckData)
    ensures
        data == CheckData::LogBlock || data == CheckData::LogTail || data == CheckData::BulkTail
            ==> card_check::check_bytes(data).len() == 512,
        data == CheckData::BulkA || data == CheckData::BulkB || data == CheckData::BulkC
            ==> card_check::check_bytes(data).len() == 4_096,
{
}

/// Whether an operation is on a file.
pub open spec fn is_on(operation: FileOperation, file: CheckFile) -> bool {
    match operation {
        FileOperation::Open(own) => own == file,
        FileOperation::Append(own, _) => own == file,
        FileOperation::Flush(own) => own == file,
        FileOperation::Close(own, _) => own == file,
        FileOperation::ReadBack(own) => own == file,
    }
}

/// Every file is opened before anything else is done with it, and what is written or
/// flushed is so before the file is closed.
pub proof fn law_files_are_opened_before_they_are_used(i: int)
    requires
        0 <= i < card_check::check_operations().len(),
    ensures
        ({
            let all = card_check::check_operations();
            match all[i] {
                FileOperation::Open(_) => i < 4,
                FileOperation::Append(file, _) => opened_and_not_closed(all, file, i),
                FileOperation::Flush(file) => opened_and_not_closed(all, file, i),
                FileOperation::Close(file, valid) => opened_and_not_closed(all, file, i),
                FileOperation::ReadBack(file) => closed_before(all, file, i),
            }
        }),
{
    let all = card_check::check_operations();
    assert(all[0] == FileOperation::Open(CheckFile::Log));
    assert(all[1] == FileOperation::Open(CheckFile::BulkA));
    assert(all[2] == FileOperation::Open(CheckFile::BulkB));
    assert(all[3] == FileOperation::Open(CheckFile::BulkC));
    assert(all[11] is Close);
}

/// Whether a file was opened before an operation and is closed no earlier than there.
pub open spec fn opened_and_not_closed(
    all: Seq<FileOperation>,
    file: CheckFile,
    i: int,
) -> bool {
    &&& exists|k: int| 0 <= k < i && #[trigger] all[k] == FileOperation::Open(file)
    &&& forall|k: int| 0 <= k < i ==> !(#[trigger] all[k] is Close && is_on(all[k], file))
}

/// Whether a file was closed before an operation.
pub open spec fn closed_before(all: Seq<FileOperation>, file: CheckFile, i: int) -> bool {
    exists|k: int| 0 <= k < i && #[trigger] all[k] is Close && is_on(all[k], file)
}

} // verus!
