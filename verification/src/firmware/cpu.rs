//! How busy the processor is, and with what.
//!
//! Times are the lower 32 bits of the tick counter, so they wrap around.
use crate::arith;
use crate::clock::TICK_HZ;
use vstd::prelude::*;

verus! {

/// Windows of one second that make a profile.
pub const PROFILE_WINDOWS: u32 = 5;

/// Ticks between two readings of the wrapping counter.
pub open spec fn wrapped_elapsed(start: u32, now: u32) -> u32 {
    if now >= start {
        (now - start) as u32
    } else {
        (now - start + 0x1_0000_0000) as u32
    }
}

/// The sum of two counts that wrap around.
pub open spec fn wrapped_sum(a: u32, b: u32) -> u32 {
    if a + b > u32::MAX {
        (a + b - 0x1_0000_0000) as u32
    } else {
        (a + b) as u32
    }
}

/// The sum of two counts, held at the top of their range.
pub open spec fn held_sum(a: u32, b: u32) -> u32 {
    arith::min(a + b, u32::MAX as int) as u32
}

/// Time in which no task was ready.
#[derive(Clone, Copy, Debug, PartialEq, Eq, Structural)]
pub struct IdleMeter {
    /// Since when no task is ready, while none is.
    pub idle_since: Option<u32>,
    /// Ticks since the meter was last emptied.
    pub idle_ticks: u32,
}

/// A meter after tasks were polled: the time since none was ready is added.
pub open spec fn woken(meter: IdleMeter, now: u32) -> IdleMeter {
    IdleMeter {
        idle_since: None,
        idle_ticks: match meter.idle_since {
            Some(start) => wrapped_sum(meter.idle_ticks, wrapped_elapsed(start, now)),
            None => meter.idle_ticks,
        },
    }
}

impl IdleMeter {
    /// A meter that has seen nothing.
    pub fn new() -> (meter: Self)
        ensures
            meter == (IdleMeter { idle_since: None, idle_ticks: 0 }),
    {
        IdleMeter { idle_since: None, idle_ticks: 0 }
    }

    /// Takes note that no task is ready.
    pub fn went_idle(&mut self, now: u32)
        ensures
            *final(self) == (IdleMeter { idle_since: Some(now), ..*old(self) }),
    {
        self.idle_since = Some(now);
    }

    /// Takes note that tasks are polled.
    pub fn woke(&mut self, now: u32)
        ensures
            *final(self) == woken(*old(self), now),
    {
        if let Some(start) = self.idle_since {
            self.idle_ticks = self.idle_ticks.wrapping_add(now.wrapping_sub(start));
        }
        self.idle_since = None;
    }

    /// Empties the meter.
    pub fn take(&mut self) -> (ticks: u32)
        ensures
            ticks == old(self).idle_ticks,
            *final(self) == (IdleMeter { idle_ticks: 0, ..*old(self) }),
    {
        let ticks: u32 = self.idle_ticks;
        self.idle_ticks = 0;
        ticks
    }
}

/// Time that one activity took, without the time it waited.
#[derive(Clone, Copy, Debug, PartialEq, Eq, Structural)]
pub struct CpuProfile {
    pub active_ticks: u32,
    pub polls: u32,
    pub completions: u32,
}

/// A profile after one poll: its time is added, and it is counted, as is its end where
/// it was the last.
pub open spec fn recorded(
    profile: CpuProfile,
    started_ticks: u32,
    now: u32,
    completed: bool,
) -> CpuProfile {
    CpuProfile {
        active_ticks: wrapped_sum(profile.active_ticks, wrapped_elapsed(started_ticks, now)),
        polls: wrapped_sum(profile.polls, 1),
        completions: if completed {
            wrapped_sum(profile.completions, 1)
        } else {
            profile.completions
        },
    }
}

impl CpuProfile {
    /// A profile of nothing.
    pub fn new() -> (profile: Self)
        ensures
            profile == (CpuProfile { active_ticks: 0, polls: 0, completions: 0 }),
    {
        CpuProfile { active_ticks: 0, polls: 0, completions: 0 }
    }

    /// Takes note of one poll.
    pub fn record(&mut self, started_ticks: u32, now: u32, completed: bool)
        ensures
            *final(self) == recorded(*old(self), started_ticks, now, completed),
    {
        let elapsed: u32 = now.wrapping_sub(started_ticks);
        self.active_ticks = self.active_ticks.wrapping_add(elapsed);
        self.polls = self.polls.wrapping_add(1);
        if completed {
            self.completions = self.completions.wrapping_add(1);
        }
    }

    /// Empties the profile.
    pub fn take(&mut self) -> (sample: Self)
        ensures
            sample == *old(self),
            *final(self) == (CpuProfile { active_ticks: 0, polls: 0, completions: 0 }),
    {
        let sample: CpuProfile = *self;
        self.active_ticks = 0;
        self.polls = 0;
        self.completions = 0;
        sample
    }
}

/// How busy the processor was in one window.
#[derive(Clone, Copy, Debug, PartialEq, Eq)]
pub struct UsageReport {
    pub usage_percent: u32,
    pub active_ms: u32,
    pub idle_ms: u32,
    pub window_ms: u32,
    /// Elapsed and active ticks of the profile that this window completes.
    pub profile: Option<(u32, u32)>,
}

/// The windows so far.
#[derive(Clone, Copy, Debug, PartialEq, Eq, Structural)]
pub struct UsageMeter {
    /// When the latest window ended.
    pub previous_ticks: u32,
    /// Windows of the profile.
    pub windows: u32,
    /// Their length.
    pub elapsed_ticks: u32,
    /// Their active part.
    pub active_ticks: u32,
}

/// Idle ticks of a window: no more than the window has.
pub open spec fn idle_part(elapsed: u32, idle: u32) -> u32 {
    arith::min(idle as int, elapsed as int) as u32
}

/// Percentage that a window was active.
pub open spec fn usage(elapsed: u32, active: u32) -> u32 {
    if elapsed == 0 {
        0
    } else {
        (arith::min(active * 100, u32::MAX as int) / elapsed as int) as u32
    }
}

/// The windows after one in which the processor was idle for some ticks, and its
/// report. The last window of a profile reports all of them.
pub open spec fn window_ended(meter: UsageMeter, now: u32, idle_ticks: u32) -> (
    UsageMeter,
    UsageReport,
) {
    let elapsed = wrapped_elapsed(meter.previous_ticks, now);
    let idle = idle_part(elapsed, idle_ticks);
    let active = (elapsed - idle) as u32;
    let total_elapsed = held_sum(meter.elapsed_ticks, elapsed);
    let total_active = held_sum(meter.active_ticks, active);
    let complete = meter.windows + 1 == PROFILE_WINDOWS;
    (
        if complete {
            UsageMeter { previous_ticks: now, windows: 0, elapsed_ticks: 0, active_ticks: 0 }
        } else {
            UsageMeter {
                previous_ticks: now,
                windows: (meter.windows + 1) as u32,
                elapsed_ticks: total_elapsed,
                active_ticks: total_active,
            }
        },
        UsageReport {
            usage_percent: usage(elapsed, active),
            active_ms: active / 1_000,
            idle_ms: idle / 1_000,
            window_ms: elapsed / 1_000,
            profile: if complete {
                Some((total_elapsed, total_active))
            } else {
                None
            },
        },
    )
}

impl UsageMeter {
    /// What holds of all windows: a profile is reported before it is too long.
    pub open spec fn well_formed(self) -> bool {
        self.windows < PROFILE_WINDOWS
    }

    /// A meter that starts now.
    pub fn new(now: u32) -> (meter: Self)
        ensures
            meter.well_formed(),
            meter == (UsageMeter {
                previous_ticks: now,
                windows: 0,
                elapsed_ticks: 0,
                active_ticks: 0,
            }),
    {
        UsageMeter { previous_ticks: now, windows: 0, elapsed_ticks: 0, active_ticks: 0 }
    }

    /// Ends a window in which the processor was idle for some ticks.
    pub fn window(&mut self, now: u32, idle_ticks: u32) -> (report: UsageReport)
        requires
            old(self).well_formed(),
        ensures
            final(self).well_formed(),
            (*final(self), report) == window_ended(*old(self), now, idle_ticks),
    {
        let elapsed: u32 = now.wrapping_sub(self.previous_ticks);
        let idle: u32 = idle_ticks.min(elapsed);
        let active: u32 = elapsed - idle;
        let usage_percent: u32 = if elapsed == 0 {
            0
        } else {
            let scaled: u64 = active as u64 * 100;
            let held: u32 = if scaled > u32::MAX as u64 {
                u32::MAX
            } else {
                scaled as u32
            };
            held / elapsed
        };
        self.windows = self.windows + 1;
        self.elapsed_ticks = self.elapsed_ticks.saturating_add(elapsed);
        self.active_ticks = self.active_ticks.saturating_add(active);
        self.previous_ticks = now;
        let profile: Option<(u32, u32)> = if self.windows == PROFILE_WINDOWS {
            let totals: (u32, u32) = (self.elapsed_ticks, self.active_ticks);
            self.windows = 0;
            self.elapsed_ticks = 0;
            self.active_ticks = 0;
            Some(totals)
        } else {
            None
        };
        UsageReport {
            usage_percent,
            active_ms: active / 1_000,
            idle_ms: idle / 1_000,
            window_ms: elapsed / 1_000,
            profile,
        }
    }
}

/// A part of some ticks in tenths of a percent. The quotient wraps where it
/// exceeds 32 bits.
pub open spec fn tenths(ticks: u32, elapsed_ticks: u32) -> int {
    if elapsed_ticks == 0 {
        0
    } else {
        (ticks * 1_000 / elapsed_ticks as int) % 0x1_0000_0000
    }
}

/// A part of some ticks in tenths of a percent.
pub fn tenths_percent(ticks: u32, elapsed_ticks: u32) -> (share: u32)
    ensures
        share == tenths(ticks, elapsed_ticks),
{
    if elapsed_ticks == 0 {
        0
    } else {
        let quotient: u64 = (ticks as u64 * 1_000) / elapsed_ticks as u64;
        (quotient % 0x1_0000_0000) as u32
    }
}

/// Whole milliseconds in some ticks.
pub fn ticks_to_millis(ticks: u32) -> (millis: u64)
    ensures
        millis == ticks * 1_000 / TICK_HZ as int,
{
    ticks as u64 * 1_000 / TICK_HZ
}

/// What one activity took of a profile.
#[derive(Clone, Copy, Debug, PartialEq, Eq, Structural)]
pub struct ActivityShare {
    pub tenths_percent: u32,
    pub completions: u32,
    pub polls: u32,
}

/// What the activities took of a profile.
#[derive(Clone, Copy, Debug, PartialEq, Eq, Structural)]
pub struct ProfileReport {
    pub window_ms: u64,
    pub active: u32,
    pub capture: ActivityShare,
    pub forward: ActivityShare,
    pub recorder: ActivityShare,
    pub logging: ActivityShare,
    /// What none of the four took, in tenths of a percent.
    pub other: u32,
    /// Part of the recorder.
    pub audio_storage: ActivityShare,
    /// Part of the logging.
    pub log_storage: ActivityShare,
}

/// The activities of a profile. The first four are separate; the storage is
/// part of the recorder and of the logging.
#[derive(Clone, Copy, Debug, PartialEq, Eq, Structural)]
pub struct Activities {
    pub capture: CpuProfile,
    pub forward: CpuProfile,
    pub recorder: CpuProfile,
    pub logging: CpuProfile,
    pub audio_storage: CpuProfile,
    pub log_storage: CpuProfile,
}

/// What one activity took.
pub open spec fn share_of(profile: CpuProfile, elapsed_ticks: u32) -> ActivityShare {
    ActivityShare {
        tenths_percent: tenths(profile.active_ticks, elapsed_ticks) as u32,
        completions: profile.completions,
        polls: profile.polls,
    }
}

/// Ticks that the four separate activities took.
pub open spec fn attributed(a: Activities) -> int {
    arith::min(
        a.capture.active_ticks + a.forward.active_ticks + a.recorder.active_ticks
            + a.logging.active_ticks,
        u32::MAX as int,
    )
}

/// Active ticks that none of the four separate activities took.
pub open spec fn other_ticks(active_ticks: u32, a: Activities) -> u32 {
    arith::max(active_ticks - attributed(a), 0) as u32
}

/// What the activities took of a profile.
pub open spec fn profile_report(elapsed_ticks: u32, active_ticks: u32, a: Activities) -> ProfileReport {
    ProfileReport {
        window_ms: (elapsed_ticks * 1_000 / TICK_HZ as int) as u64,
        active: tenths(active_ticks, elapsed_ticks) as u32,
        capture: share_of(a.capture, elapsed_ticks),
        forward: share_of(a.forward, elapsed_ticks),
        recorder: share_of(a.recorder, elapsed_ticks),
        logging: share_of(a.logging, elapsed_ticks),
        other: tenths(other_ticks(active_ticks, a), elapsed_ticks) as u32,
        audio_storage: share_of(a.audio_storage, elapsed_ticks),
        log_storage: share_of(a.log_storage, elapsed_ticks),
    }
}

/// What one activity took.
fn share(profile: &CpuProfile, elapsed_ticks: u32) -> (share: ActivityShare)
    ensures
        share == share_of(*profile, elapsed_ticks),
{
    ActivityShare {
        tenths_percent: tenths_percent(profile.active_ticks, elapsed_ticks),
        completions: profile.completions,
        polls: profile.polls,
    }
}

/// What the activities took of a profile.
pub fn report_cpu_profiles(elapsed_ticks: u32, active_ticks: u32, activities: &Activities) -> (report:
    ProfileReport)
    ensures
        report == profile_report(elapsed_ticks, active_ticks, *activities),
{
    let taken: u32 = activities.capture.active_ticks.saturating_add(
        activities.forward.active_ticks,
    ).saturating_add(activities.recorder.active_ticks).saturating_add(
        activities.logging.active_ticks,
    );
    let other: u32 = active_ticks.saturating_sub(taken);
    ProfileReport {
        window_ms: ticks_to_millis(elapsed_ticks),
        active: tenths_percent(active_ticks, elapsed_ticks),
        capture: share(&activities.capture, elapsed_ticks),
        forward: share(&activities.forward, elapsed_ticks),
        recorder: share(&activities.recorder, elapsed_ticks),
        logging: share(&activities.logging, elapsed_ticks),
        other: tenths_percent(other, elapsed_ticks),
        audio_storage: share(&activities.audio_storage, elapsed_ticks),
        log_storage: share(&activities.log_storage, elapsed_ticks),
    }
}

/// Usage never exceeds one hundred percent, and a part of the elapsed time is
/// never more than a thousand tenths of a percent.
pub proof fn law_shares_are_bounded(elapsed: u32, part: u32)
    requires
        part <= elapsed,
    ensures
        usage(elapsed, part) <= 100,
        tenths(part, elapsed) <= 1_000,
{
    if elapsed > 0 {
        assert(part * 1_000 / elapsed as int <= 1_000) by (nonlinear_arith)
            requires
                0 <= part <= elapsed,
                elapsed > 0,
        ;
        assert(part * 100 / elapsed as int <= 100) by (nonlinear_arith)
            requires
                0 <= part <= elapsed,
                elapsed > 0,
        ;
        assert(0 <= part * 1_000 / elapsed as int) by (nonlinear_arith)
            requires
                0 <= part,
                elapsed > 0,
        ;
        let held = arith::min(part * 100, u32::MAX as int);
        assert(0 <= held / elapsed as int <= part * 100 / elapsed as int) by (nonlinear_arith)
            requires
                0 <= held <= part * 100,
                elapsed > 0,
        ;
    }
}

/// The time between two readings does not depend on where the counter wraps.
pub proof fn law_elapsed_survives_the_wrap(start: u32, ticks: u32)
    ensures
        wrapped_elapsed(start, wrapped_sum(start, ticks)) == ticks,
{
}

/// The usage is the active part of a window in percent, rounded down, as long as it
/// can be counted in hundredths.
pub proof fn law_usage_is_the_active_part(elapsed: u32, active: u32)
    requires
        elapsed > 0,
        active * 100 <= u32::MAX,
    ensures
        usage(elapsed, active) * elapsed <= active * 100,
        active * 100 < (usage(elapsed, active) + 1) * elapsed,
{
    lemma_quotient(active * 100, elapsed as int);
}

/// A share is the part in tenths of a percent, rounded down.
pub proof fn law_share_is_the_part_in_tenths(ticks: u32, elapsed_ticks: u32)
    requires
        0 < elapsed_ticks,
        ticks <= elapsed_ticks,
    ensures
        tenths(ticks, elapsed_ticks) * elapsed_ticks <= ticks * 1_000,
        ticks * 1_000 < (tenths(ticks, elapsed_ticks) + 1) * elapsed_ticks,
{
    lemma_quotient(ticks * 1_000, elapsed_ticks as int);
    assert(ticks * 1_000 / elapsed_ticks as int <= 1_000) by (nonlinear_arith)
        requires
            0 <= ticks <= elapsed_ticks,
            elapsed_ticks > 0,
    ;
}

/// A quotient rounded down.
proof fn lemma_quotient(a: int, b: int)
    requires
        a >= 0,
        b > 0,
    ensures
        0 <= a / b,
        a / b * b <= a < (a / b + 1) * b,
        a / b <= a,
{
    vstd::arithmetic::div_mod::lemma_fundamental_div_mod(a, b);
    vstd::arithmetic::div_mod::lemma_mod_bound(a, b);
    vstd::arithmetic::div_mod::lemma_div_pos_is_pos(a, b);
    assert(a / b * b <= a && a < (a / b + 1) * b && a / b <= a) by (nonlinear_arith)
        requires
            a == b * (a / b) + a % b,
            0 <= a % b < b,
            0 <= a / b,
            b >= 1,
    ;
}

/// A window is as long as the counter went on, and what of it was not idle was
/// active. Five windows make a profile: it reports the sums, and the next one starts
/// from nothing.
pub proof fn law_windows_are_measured(meter: UsageMeter, ticks: u32, idle_ticks: u32)
    requires
        meter.windows < 5,
        meter.elapsed_ticks + ticks <= u32::MAX,
        meter.active_ticks + ticks <= u32::MAX,
        idle_ticks <= ticks,
    ensures
        ({
            let now = ((meter.previous_ticks + ticks) % 0x1_0000_0000) as u32;
            let (after, report) = window_ended(meter, now, idle_ticks);
            let active = ticks - idle_ticks;
            &&& after.previous_ticks == now
            &&& report.usage_percent == usage(ticks, active as u32)
            &&& 1_000 * report.window_ms <= ticks < 1_000 * (report.window_ms + 1)
            &&& 1_000 * report.idle_ms <= idle_ticks < 1_000 * (report.idle_ms + 1)
            &&& 1_000 * report.active_ms <= active < 1_000 * (report.active_ms + 1)
            &&& meter.windows < 4 ==> {
                &&& report.profile is None
                &&& after.windows == meter.windows + 1
                &&& after.elapsed_ticks == meter.elapsed_ticks + ticks
                &&& after.active_ticks == meter.active_ticks + active
            }
            &&& meter.windows == 4 ==> {
                &&& report.profile matches Some((total_elapsed, total_active))
                &&& total_elapsed == meter.elapsed_ticks + ticks
                &&& total_active == meter.active_ticks + active
                &&& after.windows == 0
                &&& after.elapsed_ticks == 0
                &&& after.active_ticks == 0
            }
        }),
{
    law_elapsed_survives_the_wrap(meter.previous_ticks, ticks);
}

/// More idle ticks than a window has make it idle from end to end.
pub proof fn law_a_window_is_idle_at_most_whole(meter: UsageMeter, now: u32, idle_ticks: u32)
    requires
        meter.windows < 5,
        idle_ticks >= wrapped_elapsed(meter.previous_ticks, now),
    ensures
        ({
            let report = window_ended(meter, now, idle_ticks).1;
            &&& report.active_ms == 0
            &&& report.usage_percent == 0
            &&& report.idle_ms == report.window_ms
        }),
{
    let elapsed = wrapped_elapsed(meter.previous_ticks, now);
    if elapsed > 0 {
        assert(0int / elapsed as int == 0) by (nonlinear_arith)
            requires
                elapsed > 0,
        ;
    }
}

/// A profile tells each activity under its own name, with its own counts, and under
/// the others what the four separate ones leave of the active time.
pub proof fn law_profile_tells_each_activity(
    elapsed_ticks: u32,
    active_ticks: u32,
    a: Activities,
)
    requires
        elapsed_ticks > 0,
    ensures
        ({
            let report = profile_report(elapsed_ticks, active_ticks, a);
            let taken = a.capture.active_ticks + a.forward.active_ticks + a.recorder.active_ticks
                + a.logging.active_ticks;
            &&& 1_000 * report.window_ms <= elapsed_ticks < 1_000 * (report.window_ms + 1)
            &&& report.active == tenths(active_ticks, elapsed_ticks)
            &&& report.capture.tenths_percent == tenths(a.capture.active_ticks, elapsed_ticks)
            &&& report.forward.tenths_percent == tenths(a.forward.active_ticks, elapsed_ticks)
            &&& report.recorder.tenths_percent == tenths(a.recorder.active_ticks, elapsed_ticks)
            &&& report.logging.tenths_percent == tenths(a.logging.active_ticks, elapsed_ticks)
            &&& report.audio_storage.tenths_percent == tenths(
                a.audio_storage.active_ticks,
                elapsed_ticks,
            )
            &&& report.log_storage.tenths_percent == tenths(
                a.log_storage.active_ticks,
                elapsed_ticks,
            )
            &&& taken <= active_ticks ==> report.other == tenths(
                (active_ticks - taken) as u32,
                elapsed_ticks,
            )
            &&& taken >= active_ticks ==> report.other == 0
            &&& report.capture.polls == a.capture.polls && report.capture.completions
                == a.capture.completions
            &&& report.forward.polls == a.forward.polls && report.forward.completions
                == a.forward.completions
            &&& report.recorder.polls == a.recorder.polls && report.recorder.completions
                == a.recorder.completions
            &&& report.logging.polls == a.logging.polls && report.logging.completions
                == a.logging.completions
            &&& report.audio_storage.polls == a.audio_storage.polls
                && report.audio_storage.completions == a.audio_storage.completions
            &&& report.log_storage.polls == a.log_storage.polls && report.log_storage.completions
                == a.log_storage.completions
        }),
{
    assert(0int / elapsed_ticks as int == 0) by (nonlinear_arith)
        requires
            elapsed_ticks > 0,
    ;
}

/// Waking adds the ticks since the processor went idle, and nothing where it was not;
/// a poll adds its ticks and one to the polls, and one to the completions where it
/// completed.
pub proof fn law_idle_and_active_time_add_up(
    meter: IdleMeter,
    profile: CpuProfile,
    start: u32,
    ticks: u32,
    completed: bool,
)
    requires
        meter.idle_ticks + ticks <= u32::MAX,
        profile.active_ticks + ticks <= u32::MAX,
        profile.polls < u32::MAX,
        profile.completions < u32::MAX,
    ensures
        ({
            let now = ((start + ticks) % 0x1_0000_0000) as u32;
            let woke = woken(meter, now);
            let after = recorded(profile, start, now, completed);
            &&& meter.idle_since == Some(start) ==> woke.idle_ticks == meter.idle_ticks + ticks
            &&& meter.idle_since is None ==> woke.idle_ticks == meter.idle_ticks
            &&& woke.idle_since is None
            &&& after.active_ticks == profile.active_ticks + ticks
            &&& after.polls == profile.polls + 1
            &&& completed ==> after.completions == profile.completions + 1
            &&& !completed ==> after.completions == profile.completions
        }),
{
    law_elapsed_survives_the_wrap(start, ticks);
}

} // verus!
