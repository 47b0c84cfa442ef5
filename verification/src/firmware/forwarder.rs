//! From microphone frames to the recorder: which frames go on, how fast they
//! come, and what the log says about them.
use crate::arith;
use crate::clock::TICK_HZ;
use crate::firmware::words;
use crate::firmware::words::{begin, push_number};
use vstd::prelude::*;
use vstd::string::StringExecFns;

verus! {

/// Samples of one frame: a tenth of a second at 16 kHz.
pub const HALF_SAMPLES: u64 = 1_600;

/// Frames after which the log notes their timestamps.
pub const AUDIO_PACKETS_PER_SECOND: u32 = 10;

/// Frames over which the sample rate is measured.
pub const RATE_FRAMES: u64 = 10;

/// What the microphone driver says about its latest frame.
#[derive(Clone, Copy, Debug, PartialEq, Eq, Structural)]
pub struct FrameState {
    /// Whether the transfer failed.
    pub failed: bool,
    pub running: bool,
    /// Running number of the frame; zero before the first.
    pub sequence: u64,
    pub completed_at_ticks: u64,
}

/// What the frames say about the sample rate.
#[derive(Clone, Copy, Debug, PartialEq, Eq, Structural)]
pub enum RateNews {
    /// Too few frames yet.
    Quiet,
    /// The rate over some frames.
    Measured { hz: u64, frames: u64, samples: u64, elapsed_ticks: u64, frame_ticks: u64 },
    /// The timestamps did not advance.
    Stalled,
}

/// What becomes of a frame.
#[derive(Clone, Copy, Debug, PartialEq, Eq, Structural)]
pub enum FrameStep {
    /// The transfer failed, for the `count`-th time.
    Failed { count: u32 },
    /// There is nothing new.
    Ignored,
    /// The frame is new. `missed` frames before it were lost; it goes on to
    /// the recorder where `forward` says so.
    Taken { missed: u64, rate: RateNews, forward: bool },
}

/// Progress of the frames.
#[derive(Clone, Copy, Debug, PartialEq, Eq, Structural)]
pub struct Forwarder {
    /// Number of the latest frame.
    pub last_sequence: u64,
    /// Failed transfers.
    pub error_count: u32,
    /// Frame from which the rate is measured; zero before the first.
    pub rate_sequence: u64,
    /// When that frame was complete.
    pub rate_ticks: u64,
    /// Frames that went on since the last note.
    pub packets: u32,
    /// Their samples.
    pub samples: usize,
    /// When the first of them was complete.
    pub first_ticks: u64,
}

/// Whether a frame is new.
pub open spec fn is_new(f: Forwarder, frame: FrameState) -> bool {
    frame.running && frame.sequence != 0 && frame.sequence > f.last_sequence
}

/// Whether enough frames have come to measure their rate.
pub open spec fn rate_due(f: Forwarder, frame: FrameState) -> bool {
    f.rate_sequence != 0 && frame.sequence - f.rate_sequence >= RATE_FRAMES
}

/// Whether the samples of a measurement can be counted.
pub open spec fn rate_in_range(f: Forwarder, frame: FrameState) -> bool {
    !frame.failed && is_new(f, frame) && rate_due(f, frame) ==> (frame.sequence - f.rate_sequence)
        * HALF_SAMPLES <= u64::MAX
}

/// What a new frame says about the rate.
pub open spec fn rate_news(f: Forwarder, frame: FrameState) -> RateNews {
    if rate_due(f, frame) {
        let frames = frame.sequence - f.rate_sequence;
        let elapsed = arith::max(frame.completed_at_ticks - f.rate_ticks, 0);
        if elapsed != 0 {
            RateNews::Measured {
                hz: (arith::min(frames * HALF_SAMPLES * TICK_HZ, u64::MAX as int) / elapsed) as u64,
                frames: frames as u64,
                samples: (frames * HALF_SAMPLES) as u64,
                elapsed_ticks: elapsed as u64,
                frame_ticks: (elapsed / frames) as u64,
            }
        } else {
            RateNews::Stalled
        }
    } else {
        RateNews::Quiet
    }
}

/// What becomes of a frame.
pub open spec fn frame_step(f: Forwarder, frame: FrameState, recording: bool) -> FrameStep {
    if frame.failed {
        FrameStep::Failed {
            count: if f.error_count == u32::MAX {
                0
            } else {
                (f.error_count + 1) as u32
            },
        }
    } else if !is_new(f, frame) {
        FrameStep::Ignored
    } else {
        FrameStep::Taken {
            missed: if f.last_sequence != 0 {
                (frame.sequence - f.last_sequence - 1) as u64
            } else {
                0
            },
            rate: rate_news(f, frame),
            forward: recording,
        }
    }
}

/// The progress after a frame. Frames that do not go on start the note anew.
pub open spec fn after_frame(f: Forwarder, frame: FrameState, recording: bool) -> Forwarder {
    match frame_step(f, frame, recording) {
        FrameStep::Failed { count } => Forwarder { error_count: count, ..f },
        FrameStep::Ignored => f,
        FrameStep::Taken { .. } => {
            let restart = f.rate_sequence == 0 || rate_due(f, frame);
            Forwarder {
                last_sequence: frame.sequence,
                error_count: f.error_count,
                rate_sequence: if restart {
                    frame.sequence
                } else {
                    f.rate_sequence
                },
                rate_ticks: if restart {
                    frame.completed_at_ticks
                } else {
                    f.rate_ticks
                },
                packets: if recording {
                    f.packets
                } else {
                    0
                },
                samples: if recording {
                    f.samples
                } else {
                    0
                },
                first_ticks: f.first_ticks,
            }
        },
    }
}

/// The progress after a frame went on, before the note is written.
pub open spec fn with_packet(f: Forwarder, completed_at_ticks: u64, samples: usize) -> Forwarder {
    Forwarder {
        first_ticks: if f.packets == 0 {
            completed_at_ticks
        } else {
            f.first_ticks
        },
        packets: arith::next_count(f.packets),
        samples: if f.samples + samples > usize::MAX {
            usize::MAX
        } else {
            (f.samples + samples) as usize
        },
        ..f
    }
}

/// The note on frames that went on.
pub open spec fn packets_text(f: Forwarder, completed_at_ticks: u64) -> Seq<char> {
    "audio packets first_timestamp_ticks="@ + words::number(f.first_ticks as int)
        + " last_timestamp_ticks="@ + words::number(completed_at_ticks as int) + " packets="@
        + words::number(f.packets as int) + " samples="@ + words::number(f.samples as int)
}

impl Forwarder {
    /// What holds of all progress: the rate is measured from a frame that came.
    pub open spec fn well_formed(self) -> bool {
        self.rate_sequence <= self.last_sequence
    }

    /// Progress before the first frame.
    pub fn new() -> (forwarder: Self)
        ensures
            forwarder.well_formed(),
            forwarder == (Forwarder {
                last_sequence: 0,
                error_count: 0,
                rate_sequence: 0,
                rate_ticks: 0,
                packets: 0,
                samples: 0,
                first_ticks: 0,
            }),
    {
        Forwarder {
            last_sequence: 0,
            error_count: 0,
            rate_sequence: 0,
            rate_ticks: 0,
            packets: 0,
            samples: 0,
            first_ticks: 0,
        }
    }

    /// Measures the rate, where enough frames have come.
    fn measure(&mut self, frame: &FrameState) -> (news: RateNews)
        requires
            old(self).rate_sequence < frame.sequence,
            rate_due(*old(self), *frame) ==> (frame.sequence - old(self).rate_sequence)
                * HALF_SAMPLES <= u64::MAX,
        ensures
            news == rate_news(*old(self), *frame),
            *final(self) == (if old(self).rate_sequence == 0 || rate_due(*old(self), *frame) {
                Forwarder {
                    rate_sequence: frame.sequence,
                    rate_ticks: frame.completed_at_ticks,
                    ..*old(self)
                }
            } else {
                *old(self)
            }),
    {
        if self.rate_sequence == 0 {
            self.rate_sequence = frame.sequence;
            self.rate_ticks = frame.completed_at_ticks;
            return RateNews::Quiet;
        }
        let frames: u64 = frame.sequence - self.rate_sequence;
        if frames < RATE_FRAMES {
            return RateNews::Quiet;
        }
        let elapsed: u64 = frame.completed_at_ticks.saturating_sub(self.rate_ticks);
        self.rate_sequence = frame.sequence;
        self.rate_ticks = frame.completed_at_ticks;
        if elapsed == 0 {
            return RateNews::Stalled;
        }
        let samples: u64 = frames * HALF_SAMPLES;
        let scaled: u64 = arith::saturate_u64(samples as u128 * TICK_HZ as u128);
        RateNews::Measured {
            hz: scaled / elapsed,
            frames,
            samples,
            elapsed_ticks: elapsed,
            frame_ticks: elapsed / frames,
        }
    }

    /// Takes note of a frame and says what becomes of it.
    pub fn frame_arrived(&mut self, frame: &FrameState, recording: bool) -> (step: FrameStep)
        requires
            old(self).well_formed(),
            rate_in_range(*old(self), *frame),
        ensures
            final(self).well_formed(),
            step == frame_step(*old(self), *frame, recording),
            *final(self) == after_frame(*old(self), *frame, recording),
    {
        if frame.failed {
            self.error_count = self.error_count.wrapping_add(1);
            return FrameStep::Failed { count: self.error_count };
        }
        if !frame.running || frame.sequence == 0 || frame.sequence <= self.last_sequence {
            return FrameStep::Ignored;
        }
        let missed: u64 = if self.last_sequence != 0 {
            frame.sequence - self.last_sequence - 1
        } else {
            0
        };
        self.last_sequence = frame.sequence;
        let rate: RateNews = self.measure(frame);
        if !recording {
            self.packets = 0;
            self.samples = 0;
        }
        FrameStep::Taken { missed, rate, forward: recording }
    }

    /// Takes note that a frame went on. Every second the log gets a note.
    pub fn packet_forwarded(&mut self, completed_at_ticks: u64, samples: usize) -> (note: Option<
        String,
    >)
        requires
            old(self).well_formed(),
        ensures
            final(self).well_formed(),
            ({
                let counted = with_packet(*old(self), completed_at_ticks, samples);
                if counted.packets >= AUDIO_PACKETS_PER_SECOND {
                    &&& note is Some
                    &&& note->0@ == packets_text(counted, completed_at_ticks)
                    &&& *final(self) == Forwarder { packets: 0, samples: 0, ..counted }
                } else {
                    &&& note is None
                    &&& *final(self) == counted
                }
            }),
    {
        if self.packets == 0 {
            self.first_ticks = completed_at_ticks;
        }
        self.packets = self.packets.saturating_add(1);
        self.samples = self.samples.saturating_add(samples);
        if self.packets >= AUDIO_PACKETS_PER_SECOND {
            let mut line: String = begin("audio packets first_timestamp_ticks=");
            push_number(&mut line, self.first_ticks);
            line.append(" last_timestamp_ticks=");
            push_number(&mut line, completed_at_ticks);
            line.append(" packets=");
            push_number(&mut line, self.packets as u64);
            line.append(" samples=");
            push_number(&mut line, self.samples as u64);
            self.packets = 0;
            self.samples = 0;
            Some(line)
        } else {
            None
        }
    }
}

/// Whether the filter lost samples, and whether its clock was absent, by its
/// status word.
pub fn filter_faults(status: u32) -> (faults: (bool, bool))
    ensures
        faults.0 == ((status / 2) % 2 == 1),
        faults.1 == ((status / 1_024) % 2 == 1),
{
    ((status / 2) % 2 == 1, (status / 1_024) % 2 == 1)
}

/// Whether the loudness of a frame is reported: of every tenth.
pub fn is_reported(frame: &FrameState) -> (reported: bool)
    ensures
        reported == (!frame.failed && frame.running && frame.sequence != 0 && frame.sequence % 10
            == 0),
{
    !frame.failed && frame.running && frame.sequence != 0 && frame.sequence % 10 == 0
}

/// No frame is taken twice: what was taken is not new any more, and neither is
/// any earlier frame.
pub proof fn law_frames_are_taken_once(
    f: Forwarder,
    frame: FrameState,
    other: FrameState,
    recording: bool,
)
    requires
        !frame.failed,
        is_new(f, frame),
        other.sequence <= frame.sequence,
    ensures
        !is_new(after_frame(f, frame, recording), other),
{
}

/// Every frame number after the first is either taken or counted as missed:
/// the number of the frame is the number before it, the missed ones, and one.
pub proof fn law_frames_are_accounted_for(f: Forwarder, frame: FrameState, recording: bool)
    requires
        f.last_sequence != 0,
        !frame.failed,
        is_new(f, frame),
    ensures
        match frame_step(f, frame, recording) {
            FrameStep::Taken { missed, .. } => after_frame(f, frame, recording).last_sequence
                == f.last_sequence + missed + 1,
            _ => false,
        },
{
}

/// While nothing is recorded no frame goes on, and the note starts anew.
pub proof fn law_nothing_goes_on_while_not_recording(f: Forwarder, frame: FrameState)
    requires
        !frame.failed,
        is_new(f, frame),
    ensures
        match frame_step(f, frame, false) {
            FrameStep::Taken { forward, .. } => !forward,
            _ => false,
        },
        after_frame(f, frame, false).packets == 0,
        after_frame(f, frame, false).samples == 0,
{
}

/// A failed transfer is counted and nothing else; a frame is new where the driver
/// runs and its number, not zero, is above the latest; every other one is ignored.
pub proof fn law_new_frames_are_taken(f: Forwarder, frame: FrameState, recording: bool)
    ensures
        ({
            let step = frame_step(f, frame, recording);
            let after = after_frame(f, frame, recording);
            let fresh = frame.running && frame.sequence > f.last_sequence;
            &&& frame.failed ==> (step matches FrameStep::Failed { count } && count
                == after.error_count && after == (Forwarder { error_count: count, ..f }))
            &&& frame.failed && f.error_count < u32::MAX ==> after.error_count == f.error_count + 1
            &&& !frame.failed && !fresh ==> step == FrameStep::Ignored && after == f
            &&& !frame.failed && fresh ==> (step matches FrameStep::Taken { missed, forward, .. }
                && forward == recording && (f.last_sequence == 0 ==> missed == 0) && (
            f.last_sequence > 0 ==> missed == frame.sequence - f.last_sequence - 1))
            &&& !frame.failed && fresh ==> after.last_sequence == frame.sequence
                && after.error_count == f.error_count
            &&& !frame.failed && fresh && recording ==> after.packets == f.packets && after.samples
                == f.samples
        }),
{
}

/// The rate is measured over ten frames at least, of 1600 samples each: the samples
/// of a second, rounded down, at a million ticks a second. The next measurement
/// starts from the frame that ended this one.
pub proof fn law_rate_is_samples_over_time(f: Forwarder, frame: FrameState, recording: bool)
    requires
        !frame.failed,
        frame.running,
        frame.sequence > f.last_sequence,
        f.rate_sequence > 0,
        frame.sequence >= f.rate_sequence + 10,
        frame.completed_at_ticks > f.rate_ticks,
        (frame.sequence - f.rate_sequence) * 1_600 * 1_000_000 <= u64::MAX,
    ensures
        ({
            let frames = frame.sequence - f.rate_sequence;
            let elapsed = frame.completed_at_ticks - f.rate_ticks;
            let after = after_frame(f, frame, recording);
            &&& after.rate_sequence == frame.sequence
            &&& after.rate_ticks == frame.completed_at_ticks
            &&& match rate_news(f, frame) {
                RateNews::Measured { hz, frames: counted, samples, elapsed_ticks, frame_ticks } => {
                    &&& counted == frames
                    &&& samples == 1_600 * frames
                    &&& elapsed_ticks == elapsed
                    &&& hz * elapsed <= 1_600_000_000 * frames < (hz + 1) * elapsed
                    &&& frame_ticks * frames <= elapsed < (frame_ticks + 1) * frames
                },
                _ => false,
            }
        }),
{
    let frames = frame.sequence - f.rate_sequence;
    let elapsed = frame.completed_at_ticks - f.rate_ticks;
    lemma_quotient(1_600_000_000 * frames, elapsed);
    lemma_quotient(elapsed, frames);
}

/// A quotient rounded down.
proof fn lemma_quotient(a: int, b: int)
    requires
        a >= 0,
        b > 0,
    ensures
        0 <= a / b <= a,
        a / b * b <= a < (a / b + 1) * b,
{
    vstd::arithmetic::div_mod::lemma_fundamental_div_mod(a, b);
    vstd::arithmetic::div_mod::lemma_mod_bound(a, b);
    vstd::arithmetic::div_mod::lemma_div_pos_is_pos(a, b);
    assert(a / b * b <= a && a < (a / b + 1) * b && a / b <= a) by (nonlinear_arith)
        requires
            a == b * (a / b) + a % b,
            0 <= a % b < b,
            0 <= a / b,
            b >= 1,
    ;
}

/// Before ten frames have come nothing is said of the rate; the first frame of all
/// starts the measurement.
pub proof fn law_rate_needs_ten_frames(f: Forwarder, frame: FrameState, recording: bool)
    requires
        !frame.failed,
        frame.running,
        frame.sequence > f.last_sequence,
        f.rate_sequence == 0 || frame.sequence < f.rate_sequence + 10,
    ensures
        ({
            let after = after_frame(f, frame, recording);
            &&& rate_news(f, frame) == RateNews::Quiet
            &&& f.rate_sequence == 0 ==> after.rate_sequence == frame.sequence && after.rate_ticks
                == frame.completed_at_ticks
            &&& f.rate_sequence > 0 ==> after.rate_sequence == f.rate_sequence && after.rate_ticks
                == f.rate_ticks
        }),
{
}

/// A note counts the frames that went on and their samples, from the time of the
/// first of them; the frames of a note are the samples of a second at 16 kHz.
pub proof fn law_notes_count_what_went_on(f: Forwarder, completed_at_ticks: u64, samples: usize)
    requires
        f.packets < u32::MAX,
        f.samples + samples <= usize::MAX,
    ensures
        ({
            let after = with_packet(f, completed_at_ticks, samples);
            &&& after.packets == f.packets + 1
            &&& after.samples == f.samples + samples
            &&& f.packets == 0 ==> after.first_ticks == completed_at_ticks
            &&& f.packets > 0 ==> after.first_ticks == f.first_ticks
            &&& after.last_sequence == f.last_sequence
        }),
        AUDIO_PACKETS_PER_SECOND * HALF_SAMPLES == 16_000,
{
}

} // verus!
