//! The power monitor program: a log on a card that is powered only while the
//! battery allows it.
//!
//! The program performs one action at a time and says how it went; the
//! sequence answers with the next action.
use crate::clock::{Duration, Instant, TICK_HZ};
use crate::firmware::labels;
use crate::firmware::labels::push_time_source;
use crate::firmware::status;
use crate::firmware::status::power_line;
use crate::firmware::words;
use crate::firmware::words::{begin, push_flag, push_maybe, push_number, push_signed, wide_u8};
use crate::logging::types::{LogOutcome, LoggingStats, ProcessOutcome};
use crate::power::types::PowerState;
use crate::time::types::{TimeState, UtcStatus};
use vstd::prelude::*;
use vstd::string::StringExecFns;

verus! {

/// Charge from which the card may be powered.
pub const SD_SOC_THRESHOLD_PERCENT: u8 = 40;

/// Time between two flushes of the log, in seconds.
pub const FLUSH_INTERVAL_SECS: u64 = 10;

/// Time between two looks at a low battery, in seconds.
pub const SOC_CHECK_INTERVAL_SECS: u64 = 10;

/// Time that a card needs after it was powered, in seconds.
pub const SD_POWER_SETTLE_SECS: u64 = 1;

/// Pause while no message waits, in milliseconds.
pub const IDLE_PAUSE_MS: u64 = 10;

/// Pause after a line that was refused, in milliseconds.
pub const FAILURE_PAUSE_MS: u64 = 100;

/// Whether the charge allows the card to be powered.
pub open spec fn charge_is_safe(percent: Option<u8>) -> bool {
    percent is Some && percent->0 >= SD_SOC_THRESHOLD_PERCENT
}

/// Whether the charge allows the card to be powered.
pub fn sd_soc_is_safe(percent: Option<u8>) -> (safe: bool)
    ensures
        safe == charge_is_safe(percent),
{
    match percent {
        Some(percent) => percent >= SD_SOC_THRESHOLD_PERCENT,
        None => false,
    }
}

/// What the program does next.
#[derive(Clone, Copy, Debug, PartialEq, Eq, Structural)]
pub enum CardAction {
    /// Look whether a card is there, with its power off.
    CheckCard,
    /// Look at the battery, with the card's power off.
    CheckCharge,
    /// Wait for the next look at a low battery.
    WaitForCharge,
    /// Switch the card's power on and let it settle.
    PowerOn,
    /// Bring the card up: for the first time, or again.
    Acquire { again: bool },
    /// Mount the volume and open the log.
    OpenLog,
    /// Say that the log begins, or that it goes on.
    Announce { resumed: bool },
    /// Look at the battery while logging.
    CheckLogging,
    /// Flush the log and look at its counters.
    Flush,
    /// Write one waiting message.
    WriteOne,
    /// Do nothing for some milliseconds.
    Pause(u64),
    /// Write a message that still waits, because the card is to be switched
    /// off.
    DrainOne,
    /// Say that the card is switched off.
    AnnounceShutdown,
    /// Write a message that still waits after that was said.
    DrainLast,
    /// Flush the log for the last time.
    FlushLast,
    /// Close the log.
    CloseLog,
    /// Switch the card's power off.
    PowerOff,
    /// Do nothing more.
    Halt,
}

/// How an action went.
#[derive(Clone, Copy, Debug, PartialEq, Eq, Structural)]
pub enum CardEvent {
    /// It was done.
    Done,
    /// It failed.
    Failed,
    /// The battery's charge, and the time.
    Charge { percent: Option<u8>, now: Instant },
    /// A message was written.
    Written,
    /// No message was waiting.
    Empty,
    /// The counters of the log after a flush, whether it succeeded, and when
    /// it was begun.
    Flushed { ok: bool, dropped: u64, write_failures: u64, begun: Instant },
}

/// What comes next, and whether the error light is lit.
#[derive(Clone, Copy, Debug, PartialEq, Eq, Structural)]
pub struct CardStep {
    pub action: CardAction,
    pub signal_error: bool,
}

/// Where the program stands.
#[derive(Clone, Copy, Debug, PartialEq, Eq, Structural)]
pub struct CardSequence {
    /// The action that is being performed.
    pub action: CardAction,
    /// Whether the log was open before.
    pub mounted_before: bool,
    /// When the log is flushed next.
    pub next_flush: Instant,
}

/// Whether components may log while an action is performed.
pub open spec fn logging_active(action: CardAction) -> bool {
    match action {
        CardAction::CheckLogging => true,
        CardAction::Flush => true,
        CardAction::WriteOne => true,
        CardAction::Pause(_) => true,
        _ => false,
    }
}

/// The step that goes on with an action, with no error.
pub open spec fn go_on(action: CardAction) -> CardStep {
    CardStep { action, signal_error: false }
}

/// The step that goes on with an action, with an error where one occurred.
pub open spec fn go_on_after(action: CardAction, failed: bool) -> CardStep {
    CardStep { action, signal_error: failed }
}

/// The instant at which the log is flushed after one flush was due.
pub open spec fn flush_after(instant: Instant) -> Instant {
    Instant { ticks: (instant@ + FLUSH_INTERVAL_SECS * TICK_HZ) as u64 }
}

/// Whether the clock reaches the flush after an instant.
pub open spec fn flush_in_range(instant: Instant) -> bool {
    instant@ + FLUSH_INTERVAL_SECS * TICK_HZ <= u64::MAX
}

/// What comes next.
pub open spec fn next_step(sequence: CardSequence, event: CardEvent) -> CardStep {
    match sequence.action {
        CardAction::CheckCard => if event == CardEvent::Done {
            go_on(CardAction::CheckCharge)
        } else {
            go_on_after(CardAction::Halt, true)
        },
        CardAction::CheckCharge => match event {
            CardEvent::Charge { percent, .. } => if charge_is_safe(percent) {
                go_on(CardAction::PowerOn)
            } else {
                go_on(CardAction::WaitForCharge)
            },
            _ => go_on(CardAction::WaitForCharge),
        },
        CardAction::WaitForCharge => go_on(CardAction::CheckCharge),
        CardAction::PowerOn => go_on(CardAction::Acquire { again: sequence.mounted_before }),
        CardAction::Acquire { .. } => if event == CardEvent::Done {
            go_on(CardAction::OpenLog)
        } else {
            go_on_after(CardAction::Halt, true)
        },
        CardAction::OpenLog => if event == CardEvent::Done {
            go_on(CardAction::Announce { resumed: sequence.mounted_before })
        } else {
            go_on_after(CardAction::Halt, true)
        },
        CardAction::Announce { .. } => go_on_after(
            CardAction::CheckLogging,
            event == CardEvent::Failed,
        ),
        CardAction::CheckLogging => match event {
            CardEvent::Charge { percent, now } => if !charge_is_safe(percent) {
                go_on(CardAction::DrainOne)
            } else if now@ >= sequence.next_flush@ {
                go_on(CardAction::Flush)
            } else {
                go_on(CardAction::WriteOne)
            },
            _ => go_on(CardAction::DrainOne),
        },
        CardAction::Flush => match event {
            CardEvent::Flushed { ok, dropped, write_failures, .. } => go_on_after(
                CardAction::WriteOne,
                !ok || dropped != 0 || write_failures != 0,
            ),
            _ => go_on_after(CardAction::WriteOne, true),
        },
        CardAction::WriteOne => match event {
            CardEvent::Written => go_on(CardAction::CheckLogging),
            CardEvent::Empty => go_on(CardAction::Pause(IDLE_PAUSE_MS)),
            _ => go_on_after(CardAction::Pause(FAILURE_PAUSE_MS), true),
        },
        CardAction::Pause(_) => go_on(CardAction::CheckLogging),
        CardAction::DrainOne => match event {
            CardEvent::Written => go_on(CardAction::DrainOne),
            CardEvent::Empty => go_on(CardAction::AnnounceShutdown),
            _ => go_on_after(CardAction::AnnounceShutdown, true),
        },
        CardAction::AnnounceShutdown => go_on_after(
            CardAction::DrainLast,
            event == CardEvent::Failed,
        ),
        CardAction::DrainLast => match event {
            CardEvent::Written => go_on(CardAction::DrainLast),
            CardEvent::Empty => go_on(CardAction::FlushLast),
            _ => go_on_after(CardAction::FlushLast, true),
        },
        CardAction::FlushLast => go_on_after(CardAction::CloseLog, event != CardEvent::Done),
        CardAction::CloseLog => go_on_after(CardAction::PowerOff, event != CardEvent::Done),
        CardAction::PowerOff => go_on(CardAction::CheckCharge),
        CardAction::Halt => go_on(CardAction::Halt),
    }
}

/// When the log is flushed next.
pub open spec fn next_flush_after(sequence: CardSequence, event: CardEvent, now: Instant) -> Instant {
    match sequence.action {
        CardAction::Announce { .. } => flush_after(now),
        CardAction::Flush => match event {
            CardEvent::Flushed { begun, .. } => flush_after(begun),
            _ => flush_after(now),
        },
        _ => sequence.next_flush,
    }
}

/// Where the program stands after an action.
pub open spec fn advanced(sequence: CardSequence, event: CardEvent, now: Instant) -> CardSequence {
    CardSequence {
        action: next_step(sequence, event).action,
        mounted_before: sequence.mounted_before || sequence.action is Announce,
        next_flush: next_flush_after(sequence, event, now),
    }
}

/// The instant at which the log is flushed after one flush was due.
fn next_flush_from(instant: Instant) -> (next: Instant)
    requires
        flush_in_range(instant),
    ensures
        next == flush_after(instant),
{
    Instant::from_ticks(instant.as_ticks() + Duration::from_secs(FLUSH_INTERVAL_SECS).as_ticks())
}

impl CardSequence {
    /// A program that begins.
    pub fn new() -> (sequence: Self)
        ensures
            sequence == (CardSequence {
                action: CardAction::CheckCard,
                mounted_before: false,
                next_flush: Instant { ticks: 0 },
            }),
    {
        CardSequence {
            action: CardAction::CheckCard,
            mounted_before: false,
            next_flush: Instant::from_ticks(0),
        }
    }

    /// Whether components may log now.
    pub fn is_logging(&self) -> (active: bool)
        ensures
            active == logging_active(self.action),
    {
        match self.action {
            CardAction::CheckLogging => true,
            CardAction::Flush => true,
            CardAction::WriteOne => true,
            CardAction::Pause(_) => true,
            _ => false,
        }
    }

    /// Takes note of how the action went, at an instant, and says what comes
    /// next.
    pub fn advance(&mut self, event: CardEvent, now: Instant) -> (step: CardStep)
        requires
            flush_in_range(now),
            match event {
                CardEvent::Flushed { begun, .. } => flush_in_range(begun),
                _ => true,
            },
        ensures
            step == next_step(*old(self), event),
            *final(self) == advanced(*old(self), event, now),
    {
        let mut signal_error: bool = false;
        let action: CardAction = match self.action {
            CardAction::CheckCard => if event == CardEvent::Done {
                CardAction::CheckCharge
            } else {
                signal_error = true;
                CardAction::Halt
            },
            CardAction::CheckCharge => match event {
                CardEvent::Charge { percent, .. } => if sd_soc_is_safe(percent) {
                    CardAction::PowerOn
                } else {
                    CardAction::WaitForCharge
                },
                _ => CardAction::WaitForCharge,
            },
            CardAction::WaitForCharge => CardAction::CheckCharge,
            CardAction::PowerOn => CardAction::Acquire { again: self.mounted_before },
            CardAction::Acquire { .. } => if event == CardEvent::Done {
                CardAction::OpenLog
            } else {
                signal_error = true;
                CardAction::Halt
            },
            CardAction::OpenLog => if event == CardEvent::Done {
                CardAction::Announce { resumed: self.mounted_before }
            } else {
                signal_error = true;
                CardAction::Halt
            },
            CardAction::Announce { .. } => {
                signal_error = event == CardEvent::Failed;
                self.mounted_before = true;
                self.next_flush = next_flush_from(now);
                CardAction::CheckLogging
            },
            CardAction::CheckLogging => match event {
                CardEvent::Charge { percent, now } => if !sd_soc_is_safe(percent) {
                    CardAction::DrainOne
                } else if now.as_ticks() >= self.next_flush.as_ticks() {
                    CardAction::Flush
                } else {
                    CardAction::WriteOne
                },
                _ => CardAction::DrainOne,
            },
            CardAction::Flush => {
                match event {
                    CardEvent::Flushed { ok, dropped, write_failures, begun } => {
                        signal_error = !ok || dropped != 0 || write_failures != 0;
                        self.next_flush = next_flush_from(begun);
                    },
                    _ => {
                        signal_error = true;
                        self.next_flush = next_flush_from(now);
                    },
                }
                CardAction::WriteOne
            },
            CardAction::WriteOne => match event {
                CardEvent::Written => CardAction::CheckLogging,
                CardEvent::Empty => CardAction::Pause(IDLE_PAUSE_MS),
                _ => {
                    signal_error = true;
                    CardAction::Pause(FAILURE_PAUSE_MS)
                },
            },
            CardAction::Pause(_) => CardAction::CheckLogging,
            CardAction::DrainOne => match event {
                CardEvent::Written => CardAction::DrainOne,
                CardEvent::Empty => CardAction::AnnounceShutdown,
                _ => {
                    signal_error = true;
                    CardAction::AnnounceShutdown
                },
            },
            CardAction::AnnounceShutdown => {
                signal_error = event == CardEvent::Failed;
                CardAction::DrainLast
            },
            CardAction::DrainLast => match event {
                CardEvent::Written => CardAction::DrainLast,
                CardEvent::Empty => CardAction::FlushLast,
                _ => {
                    signal_error = true;
                    CardAction::FlushLast
                },
            },
            CardAction::FlushLast => {
                signal_error = !(event == CardEvent::Done);
                CardAction::CloseLog
            },
            CardAction::CloseLog => {
                signal_error = !(event == CardEvent::Done);
                CardAction::PowerOff
            },
            CardAction::PowerOff => CardAction::CheckCharge,
            CardAction::Halt => CardAction::Halt,
        };
        self.action = action;
        CardStep { action, signal_error }
    }
}

/// How a message went, for the sequence: a message that found the queue full
/// is an error.
pub fn message_event(outcome: LogOutcome) -> (event: CardEvent)
    ensures
        event == (if outcome == LogOutcome::DroppedQueueFull {
            CardEvent::Failed
        } else {
            CardEvent::Done
        }),
{
    match outcome {
        LogOutcome::DroppedQueueFull => CardEvent::Failed,
        _ => CardEvent::Done,
    }
}

/// How a written line went, for the sequence.
pub fn written_event(outcome: Option<ProcessOutcome>) -> (event: CardEvent)
    ensures
        event == (match outcome {
            Some(ProcessOutcome::Written) => CardEvent::Written,
            Some(ProcessOutcome::Empty) => CardEvent::Empty,
            None => CardEvent::Failed,
        }),
{
    match outcome {
        Some(ProcessOutcome::Written) => CardEvent::Written,
        Some(ProcessOutcome::Empty) => CardEvent::Empty,
        None => CardEvent::Failed,
    }
}

/// How a flush went, for the sequence.
pub fn flushed_event(ok: bool, stats: &LoggingStats, begun: Instant) -> (event: CardEvent)
    ensures
        event == (CardEvent::Flushed {
            ok,
            dropped: stats.dropped_messages,
            write_failures: stats.write_failures,
            begun,
        }),
{
    CardEvent::Flushed {
        ok,
        dropped: stats.dropped_messages,
        write_failures: stats.write_failures,
        begun,
    }
}

// ---- messages --------------------------------------------------------------

/// The message of a log that begins.
pub open spec fn started_text() -> Seq<char> {
    "integration001 powermonitorlog started; SD SOC threshold="@ + words::number(
        SD_SOC_THRESHOLD_PERCENT as int,
    )
}

/// The message of a log that goes on.
pub open spec fn resumed_text(power: PowerState) -> Seq<char> {
    "battery recovered: batt="@ + words::number(power.battery_mv as int) + "mV percent="@
        + words::maybe(wide_u8(power.battery_percent)) + "; SD logging resumed"@
}

/// The message before the card is switched off.
pub open spec fn shutdown_text(power: PowerState) -> Seq<char> {
    "battery below SD threshold: batt="@ + words::number(power.battery_mv as int) + "mV percent="@
        + words::maybe(wide_u8(power.battery_percent)) + " threshold="@ + words::number(
        SD_SOC_THRESHOLD_PERCENT as int,
    ) + "; shutting down SD card"@
}

/// The message of a log that begins.
pub fn started_line() -> (line: String)
    ensures
        line@ == started_text(),
{
    let mut line: String = begin("integration001 powermonitorlog started; SD SOC threshold=");
    push_number(&mut line, SD_SOC_THRESHOLD_PERCENT as u64);
    line
}

/// The message of a log that goes on.
pub fn resumed_line(power: &PowerState) -> (line: String)
    ensures
        line@ == resumed_text(*power),
{
    let mut line: String = begin("battery recovered: batt=");
    push_number(&mut line, power.battery_mv as u64);
    line.append("mV percent=");
    push_maybe(&mut line, wide_u8(power.battery_percent));
    line.append("; SD logging resumed");
    line
}

/// The message before the card is switched off.
pub fn shutdown_line(power: &PowerState) -> (line: String)
    ensures
        line@ == shutdown_text(*power),
{
    let mut line: String = begin("battery below SD threshold: batt=");
    push_number(&mut line, power.battery_mv as u64);
    line.append("mV percent=");
    push_maybe(&mut line, wide_u8(power.battery_percent));
    line.append(" threshold=");
    push_number(&mut line, SD_SOC_THRESHOLD_PERCENT as u64);
    line.append("; shutting down SD card");
    line
}

/// The clock line of the power monitor.
pub open spec fn short_time_text(time: TimeState, at: Instant) -> Seq<char> {
    match status::utc_seconds(time, at) {
        Some(seconds) => "UTC "@ + words::number(seconds as int) + " GPS ON valid="@ + words::flag(
            time.utc_status != UtcStatus::Invalid,
        ) + " source="@ + labels::time_source(time.active_time_source) + " uncertainty_us="@
            + words::number(time.uncertainty_us as int),
        None => "UTC unavailable GPS ON valid=false source="@ + labels::time_source(
            time.active_time_source,
        ) + " uncertainty_us="@ + words::number(time.uncertainty_us as int),
    }
}

/// The clock line of the power monitor.
pub fn short_time_line(time: &TimeState, at: Instant) -> (line: String)
    ensures
        line@ == short_time_text(*time, at),
{
    match time.system_to_utc(at) {
        Ok(utc) => {
            let mut line: String = begin("UTC ");
            push_signed(&mut line, utc.seconds);
            line.append(" GPS ON valid=");
            push_flag(&mut line, time.utc_valid());
            line.append(" source=");
            push_time_source(&mut line, time.active_time_source);
            line.append(" uncertainty_us=");
            push_number(&mut line, time.uncertainty_us);
            line
        },
        Err(_) => {
            let mut line: String = begin("UTC unavailable GPS ON valid=false source=");
            push_time_source(&mut line, time.active_time_source);
            line.append(" uncertainty_us=");
            push_number(&mut line, time.uncertainty_us);
            line
        },
    }
}

/// The power line and the clock line of one round, while components may log.
pub fn heartbeat_lines(
    active: bool,
    power: &PowerState,
    charge: &str,
    fault: &str,
    time: &TimeState,
    at: Instant,
) -> (lines: Option<(String, String)>)
    ensures
        match lines {
            Some(lines) => {
                &&& active
                &&& lines.0@ == status::power_text(*power, charge@, fault@)
                &&& lines.1@ == short_time_text(*time, at)
            },
            None => !active,
        },
{
    if active {
        Some((power_line(power, charge, fault), short_time_line(time, at)))
    } else {
        None
    }
}

// ---- laws ------------------------------------------------------------------

/// The card is switched on only right after a look that found a safe charge.
pub proof fn law_card_is_powered_on_a_safe_charge(sequence: CardSequence, event: CardEvent)
    ensures
        next_step(sequence, event).action == CardAction::PowerOn <==> {
            &&& sequence.action == CardAction::CheckCharge
            &&& event matches CardEvent::Charge { percent, .. }
            &&& charge_is_safe(percent)
        },
{
}

/// The card is switched off exactly when its log has been closed.
pub proof fn law_card_is_switched_off_after_its_log_is_closed(
    sequence: CardSequence,
    event: CardEvent,
)
    ensures
        next_step(sequence, event).action == CardAction::PowerOff <==> sequence.action
            == CardAction::CloseLog,
{
}

/// A low battery ends the logging at the next look, before anything else is
/// written.
pub proof fn law_low_charge_ends_the_logging(
    sequence: CardSequence,
    percent: Option<u8>,
    now: Instant,
)
    requires
        sequence.action == CardAction::CheckLogging,
        !charge_is_safe(percent),
    ensures
        ({
            let step = next_step(sequence, CardEvent::Charge { percent, now });
            &&& step.action == CardAction::DrainOne
            &&& !logging_active(step.action)
        }),
{
}

/// How many kinds of actions lie between an action and the switched-off card.
pub open spec fn shutdown_distance(action: CardAction) -> int {
    match action {
        CardAction::DrainOne => 6,
        CardAction::AnnounceShutdown => 5,
        CardAction::DrainLast => 4,
        CardAction::FlushLast => 3,
        CardAction::CloseLog => 2,
        CardAction::PowerOff => 1,
        _ => 0,
    }
}

/// A shutdown that has begun goes on to its end, whatever fails on the way:
/// every action but a written message comes closer to the switched-off card.
pub proof fn law_shutdown_reaches_its_end(sequence: CardSequence, event: CardEvent)
    requires
        shutdown_distance(sequence.action) > 1,
    ensures
        ({
            let after = next_step(sequence, event).action;
            ||| shutdown_distance(after) == shutdown_distance(sequence.action) - 1
            ||| after == sequence.action && event == CardEvent::Written
        }),
{
}

/// Every failure while the log is written is signalled, and the logging goes
/// on.
pub proof fn law_write_failures_are_signalled(sequence: CardSequence)
    requires
        sequence.action == CardAction::WriteOne,
    ensures
        next_step(sequence, CardEvent::Failed) == go_on_after(
            CardAction::Pause(FAILURE_PAUSE_MS),
            true,
        ),
{
}

/// A log that was open once is announced as resumed from then on, and its card
/// is brought up again, not anew.
pub proof fn law_later_mounts_resume(sequence: CardSequence, event: CardEvent, now: Instant)
    requires
        sequence.mounted_before || sequence.action is Announce,
    ensures
        ({
            let after = advanced(sequence, event, now);
            &&& after.mounted_before
            &&& after.action is Acquire && !(sequence.action is Acquire) ==> after.action
                == CardAction::Acquire { again: true }
            &&& after.action is Announce ==> after.action == CardAction::Announce { resumed: true }
        }),
{
}

} // verus!
