//! The recording program: it waits for UTC, records, and keeps the log.
//!
//! The program performs one action at a time and says how it went; the
//! sequence answers with the next action.
use crate::clock::{Duration, Instant, TICK_HZ};
use crate::logging::types::{LogOutcome, LoggingStats, ProcessOutcome};
use crate::recorder::service::AudioRecorderError;
use crate::time::types::{TimeSource, TimeState};
use vstd::prelude::*;

verus! {

/// Time between two checkpoints of the log, in seconds.
pub const CHECKPOINT_INTERVAL_SECS: u64 = 10;

/// Pause between two attempts to start, in milliseconds.
pub const START_PAUSE_MS: u64 = 100;

// ---- errors that end the recording -----------------------------------------

/// Whether an error ended the recording for good.
#[derive(Clone, Copy, Debug, PartialEq, Eq, Structural)]
pub struct SevereErrorLatch {
    /// An error was raised.
    pub raised: bool,
    /// Frames go on to the recorder.
    pub recording: bool,
}

impl SevereErrorLatch {
    /// What always holds: nothing is recorded after an error.
    pub open spec fn well_formed(self) -> bool {
        !(self.raised && self.recording)
    }

    /// No error, and nothing recorded yet.
    pub fn new() -> (latch: Self)
        ensures
            latch == (SevereErrorLatch { raised: false, recording: false }),
            latch.well_formed(),
    {
        SevereErrorLatch { raised: false, recording: false }
    }

    /// Raises an error; tells whether it is the first.
    pub fn signal_severe_error(&mut self) -> (first: bool)
        requires
            old(self).well_formed(),
        ensures
            first == !old(self).raised,
            *final(self) == (SevereErrorLatch { raised: true, recording: false }),
            final(self).well_formed(),
    {
        let first: bool = !self.raised;
        self.raised = true;
        self.recording = false;
        first
    }

    /// Lets frames go on, unless there was an error.
    pub fn begin_recording(&mut self)
        requires
            old(self).well_formed(),
        ensures
            *final(self) == (SevereErrorLatch { recording: !old(self).raised, ..*old(self) }),
            final(self).well_formed(),
    {
        self.recording = !self.raised;
    }
}

/// Messages of low importance that found the queue full. They are counted, and
/// are no error.
#[derive(Clone, Copy, Debug, PartialEq, Eq, Structural)]
pub struct DroppedNotes {
    pub count: u32,
}

impl DroppedNotes {
    /// Takes note of what became of a message.
    pub fn record_outcome(&mut self, outcome: LogOutcome)
        ensures
            final(self).count == (if outcome == LogOutcome::DroppedQueueFull {
                crate::firmware::cpu::wrapped_sum(old(self).count, 1)
            } else {
                old(self).count
            }),
    {
        match outcome {
            LogOutcome::DroppedQueueFull => {
                self.count = self.count.wrapping_add(1);
            },
            _ => {},
        }
    }

    /// Starts counting anew.
    pub fn take(&mut self) -> (count: u32)
        ensures
            count == old(self).count,
            final(self).count == 0,
    {
        let count: u32 = self.count;
        self.count = 0;
        count
    }
}

// ---- the sequence ----------------------------------------------------------

/// What the program does next.
#[derive(Clone, Copy, Debug, PartialEq, Eq, Structural)]
pub enum RecordingAction {
    /// Try to start the recorder.
    Start,
    /// Let one round of recording pass.
    Record,
    /// Write one waiting message.
    DrainOne,
    /// Make what was logged durable and look at the counters.
    Checkpoint,
    /// Do nothing for some milliseconds.
    Pause(u64),
    /// Do nothing more.
    Halt,
}

/// How an action went.
#[derive(Clone, Copy, Debug, PartialEq, Eq, Structural)]
pub enum RecordingEvent {
    /// It was done.
    Done,
    /// UTC is not known yet.
    TimeUnavailable,
    /// It failed.
    Failed,
    /// A message was written.
    Written,
    /// No message was waiting.
    Empty,
    /// Whether the log is durable, and how many lines were ever refused.
    Checkpointed { ok: bool, write_failures: u64 },
}

/// What comes next, and whether an error is raised.
#[derive(Clone, Copy, Debug, PartialEq, Eq, Structural)]
pub struct RecordingStep {
    pub action: RecordingAction,
    pub severe_error: bool,
    /// Whether frames may go on to the recorder from now on.
    pub begin_recording: bool,
}

/// Where the program stands.
#[derive(Clone, Copy, Debug, PartialEq, Eq, Structural)]
pub struct RecordingSequence {
    /// The action that is being performed.
    pub action: RecordingAction,
    /// Whether the recorder was started.
    pub started: bool,
    /// When the log is made durable next.
    pub next_checkpoint: Instant,
}

/// A step without an error.
pub open spec fn proceed(action: RecordingAction) -> RecordingStep {
    RecordingStep { action, severe_error: false, begin_recording: false }
}

/// A step with an error where one occurred.
pub open spec fn proceed_after(action: RecordingAction, failed: bool) -> RecordingStep {
    RecordingStep { action, severe_error: failed, begin_recording: false }
}

/// What follows once the log was seen to: the next round, or another attempt
/// to start.
pub open spec fn after_log(started: bool) -> RecordingAction {
    if started {
        RecordingAction::Record
    } else {
        RecordingAction::Pause(START_PAUSE_MS)
    }
}

/// What follows once no message waits.
pub open spec fn after_drain(sequence: RecordingSequence, now: Instant) -> RecordingAction {
    if now@ >= sequence.next_checkpoint@ {
        RecordingAction::Checkpoint
    } else {
        after_log(sequence.started)
    }
}

/// What comes next; `raised` tells whether an error was raised before.
pub open spec fn next_step(
    sequence: RecordingSequence,
    event: RecordingEvent,
    raised: bool,
    now: Instant,
) -> RecordingStep {
    match sequence.action {
        RecordingAction::Start => match event {
            RecordingEvent::Done => if raised {
                proceed(RecordingAction::Halt)
            } else {
                RecordingStep {
                    action: RecordingAction::Record,
                    severe_error: false,
                    begin_recording: true,
                }
            },
            RecordingEvent::TimeUnavailable => proceed(RecordingAction::DrainOne),
            _ => proceed_after(RecordingAction::Halt, true),
        },
        RecordingAction::Record => match event {
            RecordingEvent::Done => if raised {
                proceed(RecordingAction::Halt)
            } else {
                proceed(RecordingAction::DrainOne)
            },
            _ => proceed_after(RecordingAction::Halt, true),
        },
        RecordingAction::DrainOne => match event {
            RecordingEvent::Written => proceed(RecordingAction::DrainOne),
            RecordingEvent::Empty => proceed(after_drain(sequence, now)),
            _ => proceed_after(after_drain(sequence, now), true),
        },
        RecordingAction::Checkpoint => match event {
            RecordingEvent::Checkpointed { ok, write_failures } => proceed_after(
                after_log(sequence.started),
                !ok || write_failures != 0,
            ),
            _ => proceed_after(after_log(sequence.started), true),
        },
        RecordingAction::Pause(_) => if raised {
            proceed(RecordingAction::Halt)
        } else {
            proceed(RecordingAction::Start)
        },
        RecordingAction::Halt => proceed(RecordingAction::Halt),
    }
}

/// The checkpoint after one at an instant.
pub open spec fn checkpoint_after(instant: Instant) -> Instant {
    Instant { ticks: (instant@ + CHECKPOINT_INTERVAL_SECS * TICK_HZ) as u64 }
}

/// Whether the clock reaches the checkpoint after an instant.
pub open spec fn checkpoint_in_range(instant: Instant) -> bool {
    instant@ + CHECKPOINT_INTERVAL_SECS * TICK_HZ <= u64::MAX
}

/// Where the program stands after an action.
pub open spec fn advanced(
    sequence: RecordingSequence,
    event: RecordingEvent,
    raised: bool,
    now: Instant,
) -> RecordingSequence {
    let step = next_step(sequence, event, raised, now);
    RecordingSequence {
        action: step.action,
        started: sequence.started || step.begin_recording,
        next_checkpoint: if sequence.action == RecordingAction::Checkpoint {
            checkpoint_after(now)
        } else {
            sequence.next_checkpoint
        },
    }
}

impl RecordingSequence {
    /// A program that begins at an instant. After an error it does nothing.
    pub fn new(raised: bool, now: Instant) -> (sequence: Self)
        requires
            checkpoint_in_range(now),
        ensures
            sequence == (RecordingSequence {
                action: if raised {
                    RecordingAction::Halt
                } else {
                    RecordingAction::Start
                },
                started: false,
                next_checkpoint: checkpoint_after(now),
            }),
    {
        RecordingSequence {
            action: if raised {
                RecordingAction::Halt
            } else {
                RecordingAction::Start
            },
            started: false,
            next_checkpoint: Instant::from_ticks(
                now.as_ticks() + Duration::from_secs(CHECKPOINT_INTERVAL_SECS).as_ticks(),
            ),
        }
    }

    /// What follows once no message waits.
    fn drained(&self, now: Instant) -> (action: RecordingAction)
        ensures
            action == after_drain(*self, now),
    {
        if now.as_ticks() >= self.next_checkpoint.as_ticks() {
            RecordingAction::Checkpoint
        } else {
            self.logged()
        }
    }

    /// What follows once the log was seen to.
    fn logged(&self) -> (action: RecordingAction)
        ensures
            action == after_log(self.started),
    {
        if self.started {
            RecordingAction::Record
        } else {
            RecordingAction::Pause(START_PAUSE_MS)
        }
    }

    /// Takes note of how the action went, at an instant, and says what comes
    /// next.
    pub fn advance(&mut self, event: RecordingEvent, raised: bool, now: Instant) -> (step:
        RecordingStep)
        requires
            checkpoint_in_range(now),
        ensures
            step == next_step(*old(self), event, raised, now),
            *final(self) == advanced(*old(self), event, raised, now),
    {
        let mut severe_error: bool = false;
        let mut begin_recording: bool = false;
        let action: RecordingAction = match self.action {
            RecordingAction::Start => match event {
                RecordingEvent::Done => if raised {
                    RecordingAction::Halt
                } else {
                    begin_recording = true;
                    RecordingAction::Record
                },
                RecordingEvent::TimeUnavailable => RecordingAction::DrainOne,
                _ => {
                    severe_error = true;
                    RecordingAction::Halt
                },
            },
            RecordingAction::Record => match event {
                RecordingEvent::Done => if raised {
                    RecordingAction::Halt
                } else {
                    RecordingAction::DrainOne
                },
                _ => {
                    severe_error = true;
                    RecordingAction::Halt
                },
            },
            RecordingAction::DrainOne => match event {
                RecordingEvent::Written => RecordingAction::DrainOne,
                RecordingEvent::Empty => self.drained(now),
                _ => {
                    severe_error = true;
                    self.drained(now)
                },
            },
            RecordingAction::Checkpoint => {
                match event {
                    RecordingEvent::Checkpointed { ok, write_failures } => {
                        severe_error = !ok || write_failures != 0;
                    },
                    _ => {
                        severe_error = true;
                    },
                }
                self.next_checkpoint = Instant::from_ticks(
                    now.as_ticks() + Duration::from_secs(CHECKPOINT_INTERVAL_SECS).as_ticks(),
                );
                self.logged()
            },
            RecordingAction::Pause(_) => if raised {
                RecordingAction::Halt
            } else {
                RecordingAction::Start
            },
            RecordingAction::Halt => RecordingAction::Halt,
        };
        self.action = action;
        if begin_recording {
            self.started = true;
        }
        RecordingStep { action, severe_error, begin_recording }
    }
}

/// How an attempt to start went, for the sequence.
pub fn start_event<A, E>(result: &Result<(), AudioRecorderError<A, E>>) -> (event: RecordingEvent)
    ensures
        event == (match *result {
            Ok(()) => RecordingEvent::Done,
            Err(AudioRecorderError::TimeUnavailable) => RecordingEvent::TimeUnavailable,
            Err(_) => RecordingEvent::Failed,
        }),
{
    match result {
        Ok(()) => RecordingEvent::Done,
        Err(AudioRecorderError::TimeUnavailable) => RecordingEvent::TimeUnavailable,
        Err(_) => RecordingEvent::Failed,
    }
}

/// How a written line went, for the sequence.
pub fn written_event(outcome: Option<ProcessOutcome>) -> (event: RecordingEvent)
    ensures
        event == (match outcome {
            Some(ProcessOutcome::Written) => RecordingEvent::Written,
            Some(ProcessOutcome::Empty) => RecordingEvent::Empty,
            None => RecordingEvent::Failed,
        }),
{
    match outcome {
        Some(ProcessOutcome::Written) => RecordingEvent::Written,
        Some(ProcessOutcome::Empty) => RecordingEvent::Empty,
        None => RecordingEvent::Failed,
    }
}

/// How a checkpoint went, for the sequence.
pub fn checkpoint_event(ok: bool, stats: &LoggingStats) -> (event: RecordingEvent)
    ensures
        event == (RecordingEvent::Checkpointed { ok, write_failures: stats.write_failures }),
{
    RecordingEvent::Checkpointed { ok, write_failures: stats.write_failures }
}

// ---- signals ---------------------------------------------------------------

/// Whether the receiver's pulse leads the clock for the first time.
pub fn pulse_acquired(state: &TimeState) -> (acquired: bool)
    ensures
        acquired == (state.active_time_source == TimeSource::GpsPps && state.accepted_anchors != 0),
{
    state.active_time_source == TimeSource::GpsPps && state.accepted_anchors != 0
}

/// The word for a position that is reported, where it is: the first valid one,
/// and from then on every one.
pub fn location_event(acquired: bool, valid: bool) -> (event: Option<&'static str>)
    ensures
        match event {
            Some(event) => {
                &&& acquired || valid
                &&& event@ == (if acquired {
                    "periodic"@
                } else {
                    "acquired"@
                })
            },
            None => !acquired && !valid,
        },
{
    if acquired {
        Some("periodic")
    } else if valid {
        Some("acquired")
    } else {
        None
    }
}

/// One tone and the silence behind it.
#[derive(Clone, Copy, Debug, PartialEq, Eq, Structural)]
pub struct Tone {
    pub pitch_hz: u32,
    pub duration_ms: u64,
    pub volume: u8,
    pub pause_ms: u64,
}

/// One tone of the trill.
pub open spec fn trill_tone(pitch_hz: u32) -> Tone {
    Tone { pitch_hz, duration_ms: 45, volume: 180, pause_ms: 12 }
}

/// The trill that greets the receiver's pulse: a quick arpeggio and a high
/// resolve, unlike the slow beeps of a start.
pub fn pulse_trill() -> (tones: Vec<Tone>)
    ensures
        tones@ == seq![
            trill_tone(1_319),
            trill_tone(1_568),
            trill_tone(1_319),
            trill_tone(1_568),
            trill_tone(1_319),
            trill_tone(1_568),
            Tone { pitch_hz: 2_093, duration_ms: 110, volume: 200, pause_ms: 0 },
        ],
{
    let low: Tone = Tone { pitch_hz: 1_319, duration_ms: 45, volume: 180, pause_ms: 12 };
    let high: Tone = Tone { pitch_hz: 1_568, duration_ms: 45, volume: 180, pause_ms: 12 };
    let resolve: Tone = Tone { pitch_hz: 2_093, duration_ms: 110, volume: 200, pause_ms: 0 };
    vec![low, high, low, high, low, high, resolve]
}

/// One tone of the alarm.
pub open spec fn alarm_tone(pitch_hz: u32) -> Tone {
    Tone { pitch_hz, duration_ms: 180, volume: 255, pause_ms: 80 }
}

/// The alarm of an error that ended the recording: three falling tones.
pub fn alarm() -> (tones: Vec<Tone>)
    ensures
        tones@ == seq![alarm_tone(1_200), alarm_tone(800), alarm_tone(400)],
{
    vec![
        Tone { pitch_hz: 1_200, duration_ms: 180, volume: 255, pause_ms: 80 },
        Tone { pitch_hz: 800, duration_ms: 180, volume: 255, pause_ms: 80 },
        Tone { pitch_hz: 400, duration_ms: 180, volume: 255, pause_ms: 80 },
    ]
}

// ---- laws ------------------------------------------------------------------

/// Recording begins only with a start that succeeded, and never after an
/// error.
pub proof fn law_recording_begins_with_a_start(
    sequence: RecordingSequence,
    event: RecordingEvent,
    raised: bool,
    now: Instant,
)
    ensures
        next_step(sequence, event, raised, now).begin_recording <==> {
            &&& sequence.action == RecordingAction::Start
            &&& event == RecordingEvent::Done
            &&& !raised
        },
{
}

/// What always holds: rounds of recording come only after a start.
pub open spec fn consistent(sequence: RecordingSequence) -> bool {
    &&& sequence.action == RecordingAction::Record ==> sequence.started
    &&& sequence.action == RecordingAction::Start || sequence.action is Pause ==> !sequence.started
}

/// Rounds of recording come only after a start, whatever happens.
pub proof fn law_rounds_come_after_the_start(
    sequence: RecordingSequence,
    event: RecordingEvent,
    raised: bool,
    now: Instant,
)
    requires
        consistent(sequence),
    ensures
        consistent(advanced(sequence, event, raised, now)),
{
}

/// After an error the program comes to rest once its action is done.
pub proof fn law_errors_end_the_recording(
    sequence: RecordingSequence,
    event: RecordingEvent,
    now: Instant,
)
    requires
        sequence.action == RecordingAction::Record || sequence.action is Pause || sequence.action
            == RecordingAction::Start && event != RecordingEvent::TimeUnavailable,
    ensures
        next_step(sequence, event, true, now).action == RecordingAction::Halt,
{
}

/// A log whose checkpoint is due is made durable as soon as nothing waits, even
/// where a line was refused, and its next checkpoint lies a full interval ahead.
pub proof fn law_due_checkpoints_are_made(
    sequence: RecordingSequence,
    event: RecordingEvent,
    raised: bool,
    now: Instant,
    later: Instant,
    outcome: RecordingEvent,
)
    requires
        sequence.action == RecordingAction::DrainOne,
        event != RecordingEvent::Written,
        now@ >= sequence.next_checkpoint@,
        checkpoint_in_range(later),
    ensures
        ({
            let due = advanced(sequence, event, raised, now);
            &&& due.action == RecordingAction::Checkpoint
            &&& advanced(due, outcome, raised, later).next_checkpoint@ == later@
                + CHECKPOINT_INTERVAL_SECS * TICK_HZ
        }),
{
}

} // verus!
