//! Laws on where streams lie: their names, their folders and their slots.
use crate::storage::policy;
use crate::storage::service;
use crate::storage::service::{StorageModel, StreamPlan};
use crate::storage::types::{StorageLayout, StorageServiceError, StreamKind};
use crate::text;
use vstd::prelude::*;

verus! {

/// The one log without folders has a name of its own and needs no time; every other
/// stream needs one, from the epoch on. Only an interval of nothing, or less, makes
/// a layout unusable.
pub proof fn law_streams_that_need_a_time(
    kind: StreamKind,
    layout: StorageLayout,
    timestamp: Option<i64>,
    sequence: u32,
)
    ensures
        kind == StreamKind::Log && layout == StorageLayout::Flat ==> policy::path_text(
            kind,
            layout,
            timestamp,
            sequence,
        ) == "/syslog.txt"@ && !policy::needs_time(kind, layout),
        kind != StreamKind::Log || layout != StorageLayout::Flat ==> policy::needs_time(
            kind,
            layout,
        ),
        policy::time_known(timestamp) <==> timestamp is Some && timestamp->0 >= 0,
        layout.valid() <==> (layout matches StorageLayout::IntervalFolders { interval_seconds }
            ==> interval_seconds > 0),
{
}

/// Every other stream is named after its kind, its time and its number, inside the
/// folder of its layout.
pub proof fn law_streams_are_named_after_their_time(
    kind: StreamKind,
    layout: StorageLayout,
    seconds: i64,
    sequence: u32,
)
    requires
        kind != StreamKind::Log || layout != StorageLayout::Flat,
    ensures
        ({
            let path = policy::path_text(kind, layout, Some(seconds), sequence);
            let folder = policy::folder_text(layout, seconds as int);
            let numbers = text::signed_decimal(seconds as int) + "_"@ + text::signed_decimal(
                sequence as int,
            );
            &&& kind == StreamKind::Log ==> path == folder + "/log_"@ + numbers + ".txt"@
            &&& kind == StreamKind::Audio ==> path == folder + "/aud_"@ + numbers + ".wav"@
            &&& kind == StreamKind::GpsTiming ==> path == folder + "/gps_"@ + numbers + ".pps"@
        }),
{
    let path = policy::path_text(kind, layout, Some(seconds), sequence);
    let folder = policy::folder_text(layout, seconds as int);
    let numbers = text::signed_decimal(seconds as int) + "_"@ + text::signed_decimal(
        sequence as int,
    );
    match kind {
        StreamKind::Log => {
            assert(path =~= folder + "/log_"@ + numbers + ".txt"@);
        },
        StreamKind::Audio => {
            assert(path =~= folder + "/aud_"@ + numbers + ".wav"@);
        },
        StreamKind::GpsTiming => {
            assert(path =~= folder + "/gps_"@ + numbers + ".pps"@);
        },
    }
}

/// A folder is named after the day, the hour or the interval that the time falls
/// into, by its first second; a mission has one folder, and a flat layout none.
pub proof fn law_folders_are_named_after_their_start(seconds: int, interval_seconds: i64)
    requires
        interval_seconds > 0,
    ensures
        policy::folder_text(StorageLayout::Flat, seconds).len() == 0,
        policy::folder_text(StorageLayout::MissionFolders, seconds) == "/mission"@,
        policy::folder_text(StorageLayout::DailyFolders, seconds) == "/"@ + text::signed_decimal(
            seconds - seconds % 86_400,
        ),
        policy::folder_text(StorageLayout::HourlyFolders, seconds) == "/"@ + text::signed_decimal(
            seconds - seconds % 3_600,
        ),
        policy::folder_text(StorageLayout::IntervalFolders { interval_seconds }, seconds) == "/"@
            + text::signed_decimal(seconds - seconds % (interval_seconds as int)),
{
    lemma_interval(seconds, 86_400);
    lemma_interval(seconds, 3_600);
    lemma_interval(seconds, interval_seconds as int);
}

/// The start of an interval is what the remainder leaves.
proof fn lemma_interval(seconds: int, interval: int)
    requires
        interval > 0,
    ensures
        policy::interval_start(seconds, interval) == seconds - seconds % interval,
{
    vstd::arithmetic::div_mod::lemma_fundamental_div_mod(seconds, interval);
    assert(seconds / interval * interval == interval * (seconds / interval)) by (nonlinear_arith);
}

/// A planned stream takes the first free slot, with the slot's next use and the next
/// number of all; it has its path, and the folder of that path where there is one.
pub proof fn law_plan_takes_the_first_free_slot<F, E>(
    m: StorageModel<F>,
    kind: StreamKind,
    layout: StorageLayout,
    timestamp: Option<i64>,
    plan: StreamPlan,
)
    requires
        service::planned::<F, E>(m, kind, layout, timestamp, Ok(plan)),
    ensures
        plan.index < m.slots.len(),
        m.slots[plan.index as int] is None,
        forall|i: int| 0 <= i < plan.index ==> m.slots[i] is Some,
        plan.generation == (m.generations[plan.index as int] + 1) % 256,
        plan.sequence == (m.sequence + 1) % 0x1_0000_0000,
        text::text(plan.path) == policy::path_text(kind, layout, timestamp, plan.sequence),
        plan.folder is Some ==> text::text(plan.folder->0) == policy::folder_text(
            layout,
            timestamp->0 as int,
        ),
        plan.folder is None <==> layout == StorageLayout::Flat,
{
    assert forall|i: int| 0 <= i < plan.index implies m.slots[i] is Some by {
        assert(!service::is_free(m, i));
    }
    reveal_strlit("/");
    reveal_strlit("/mission");
}

/// A stream is refused where no slot is free, where the layout is unusable, and where
/// it needs a time that is not known, in this order, and for nothing else.
pub proof fn law_streams_are_refused_for_a_reason<F, E>(
    m: StorageModel<F>,
    kind: StreamKind,
    layout: StorageLayout,
    timestamp: Option<i64>,
    plan: Result<StreamPlan, StorageServiceError<E>>,
    free: int,
)
    requires
        service::planned(m, kind, layout, timestamp, plan),
        0 <= free < m.slots.len() && m.slots[free] is None || forall|i: int|
            0 <= i < m.slots.len() ==> m.slots[i] is Some,
    ensures
        ({
            let room = 0 <= free < m.slots.len() && m.slots[free] is None;
            let usable = layout matches StorageLayout::IntervalFolders { interval_seconds }
                ==> interval_seconds > 0;
            let timely = kind == StreamKind::Log && layout == StorageLayout::Flat || timestamp
                is Some && timestamp->0 >= 0;
            match plan {
                Ok(_) => room && usable && timely,
                Err(StorageServiceError::TooManyStreams) => !room,
                Err(StorageServiceError::InvalidConfig) => room && !usable,
                Err(StorageServiceError::InvalidTimestamp) => room && usable && !timely,
                Err(_) => false,
            }
        }),
{
    if 0 <= free < m.slots.len() && m.slots[free] is None {
        assert(service::is_free(m, free));
    } else {
        assert forall|i: int| !service::is_free(m, i) by {}
    }
}

/// A stream that was just opened holds its file and its path, and an empty block of
/// zeros.
pub proof fn law_new_streams_are_empty<F>(plan: StreamPlan, file: F, block_size: int)
    requires
        block_size > 0,
    ensures
        ({
            let slot = service::opened_slot(plan, file, block_size);
            &&& slot.file == Some(file)
            &&& slot.path == text::text(plan.path)
            &&& slot.generation == plan.generation
            &&& slot.filled == 0
            &&& slot.pending().len() == 0
            &&& slot.block.len() == block_size
            &&& forall|i: int| 0 <= i < block_size ==> slot.block[i] == 0
        }),
{
}

} // verus!
