//! What the storage promises over several calls.
use crate::storage::service;
use crate::storage::service::{FinishPlan, SlotModel, StorageModel, StreamPlan, WriteAction};
use crate::storage::types::StreamHandle;
use vstd::prelude::*;

verus! {

/// A stream whose block has its size.
pub open spec fn slot_sound<F>(slot: SlotModel<F>, block_size: int) -> bool {
    &&& 0 < block_size
    &&& slot.block.len() == block_size
    &&& 0 <= slot.filled <= block_size
}

/// The stream after all steps of a write, each of which the file system
/// carried out, and the bytes that went to the file.
pub open spec fn write_run<F>(
    block_size: int,
    slot: SlotModel<F>,
    data: Seq<u8>,
    cursor: int,
) -> (SlotModel<F>, Seq<u8>)
    decreases data.len() - cursor, slot.filled,
    when slot_sound(slot, block_size) && 0 <= cursor <= data.len() <= usize::MAX
{
    proof {
        lemma_step_progress(block_size, slot, data, cursor);
    }
    let (after, step) = service::write_step(block_size, slot, data, cursor);
    match step.action {
        WriteAction::Done => (after, Seq::empty()),
        WriteAction::AppendData { start, end, .. } => {
            let (last, rest) = write_run(block_size, after, data, step.cursor as int);
            (last, data.subrange(start as int, end as int) + rest)
        },
        WriteAction::AppendBlock { .. } => {
            let emptied = SlotModel { filled: 0, ..after };
            let (last, rest) = write_run(block_size, emptied, data, step.cursor as int);
            (last, after.block + rest)
        },
    }
}

/// A step that is not the last takes care of more data, or empties a full
/// block.
pub proof fn lemma_step_progress<F>(block_size: int, slot: SlotModel<F>, data: Seq<u8>, cursor: int)
    requires
        slot_sound(slot, block_size),
        0 <= cursor <= data.len() <= usize::MAX,
    ensures
        ({
            let (after, step) = service::write_step(block_size, slot, data, cursor);
            &&& slot_sound(after, block_size)
            &&& cursor <= step.cursor <= data.len()
            &&& match step.action {
                WriteAction::Done => step.cursor == data.len(),
                WriteAction::AppendData { start, end, .. } => {
                    &&& slot.filled == 0
                    &&& after == slot
                    &&& start == cursor
                    &&& end == step.cursor
                    &&& cursor < end
                    &&& (end - start) % block_size == 0
                },
                WriteAction::AppendBlock { .. } => {
                    &&& after.filled == block_size
                    &&& (cursor < step.cursor || slot.filled == block_size)
                },
            }
        }),
{
    let left = data.len() - cursor;
    if left > 0 && slot.filled == 0 && left >= block_size {
        let quotient = left / block_size;
        vstd::arithmetic::div_mod::lemma_fundamental_div_mod(left, block_size);
        vstd::arithmetic::div_mod::lemma_mod_bound(left, block_size);
        assert(1 <= quotient) by (nonlinear_arith)
            requires
                left == block_size * quotient + left % block_size,
                left % block_size < block_size,
                left >= block_size,
                block_size > 0,
        ;
        assert(block_size <= quotient * block_size <= left) by (nonlinear_arith)
            requires
                left == block_size * quotient + left % block_size,
                0 <= left % block_size,
                quotient >= 1,
                block_size > 0,
        ;
        vstd::arithmetic::div_mod::lemma_mod_multiples_basic(quotient, block_size);
        let start = cursor;
        let end = cursor + quotient * block_size;
        assert(end - start == quotient * block_size);
    }
}

/// Two multiples add up to a multiple.
proof fn lemma_multiples_add(a: int, b: int, unit: int)
    requires
        unit > 0,
        a % unit == 0,
        b % unit == 0,
    ensures
        (a + b) % unit == 0,
{
    vstd::arithmetic::div_mod::lemma_add_mod_noop(a, b, unit);
    vstd::arithmetic::div_mod::lemma_small_mod(0, unit as nat);
}

/// A write loses, adds and reorders nothing: the bytes that waited before it
/// and its data are the bytes that went to the file and those that wait now.
/// Only whole blocks go to the file.
pub proof fn law_write_loses_nothing<F>(
    block_size: int,
    slot: SlotModel<F>,
    data: Seq<u8>,
    cursor: int,
)
    requires
        slot_sound(slot, block_size),
        0 <= cursor <= data.len() <= usize::MAX,
    ensures
        ({
            let (after, appended) = write_run(block_size, slot, data, cursor);
            &&& slot_sound(after, block_size)
            &&& appended + after.pending() == slot.pending() + data.skip(cursor)
            &&& appended.len() % (block_size as nat) == 0
            &&& slot.filled < block_size ==> after.filled < block_size
        }),
    decreases data.len() - cursor, slot.filled,
{
    lemma_step_progress(block_size, slot, data, cursor);
    let (next, step) = service::write_step(block_size, slot, data, cursor);
    let (after, appended) = write_run(block_size, slot, data, cursor);
    match step.action {
        WriteAction::Done => {
            assert(appended + after.pending() =~= slot.pending() + data.skip(cursor));
        },
        WriteAction::AppendData { start, end, .. } => {
            law_write_loses_nothing(block_size, next, data, step.cursor as int);
            let rest = write_run(block_size, next, data, step.cursor as int).1;
            let part = data.subrange(start as int, end as int);
            assert(slot.pending() =~= Seq::<u8>::empty());
            assert(appended == part + rest);
            assert(data.skip(cursor) =~= part + data.skip(end as int));
            assert(appended + after.pending() =~= part + (rest + after.pending()));
            assert(part.len() as int == end - start);
            assert((part.len() as int) % block_size == 0);
            lemma_multiples_add(part.len() as int, rest.len() as int, block_size);
        },
        WriteAction::AppendBlock { .. } => {
            let emptied = SlotModel { filled: 0, ..next };
            law_write_loses_nothing(block_size, emptied, data, step.cursor as int);
            let rest = write_run(block_size, emptied, data, step.cursor as int).1;
            assert(emptied.pending() =~= Seq::<u8>::empty());
            assert(appended == next.block + rest);
            assert(next.block =~= slot.pending() + data.subrange(cursor, step.cursor as int));
            assert(data.skip(cursor) =~= data.subrange(cursor, step.cursor as int) + data.skip(
                step.cursor as int,
            ));
            assert(appended + after.pending() =~= next.block + (rest + after.pending()));
            assert(appended + after.pending() =~= slot.pending() + data.skip(cursor));
            vstd::arithmetic::div_mod::lemma_mod_self_0(block_size);
            lemma_multiples_add(block_size, rest.len() as int, block_size);
        },
    }
}

/// Several pieces of data, one behind the other.
pub open spec fn joined(pieces: Seq<Seq<u8>>) -> Seq<u8>
    decreases pieces.len(),
{
    if pieces.len() == 0 {
        Seq::empty()
    } else {
        joined(pieces.drop_last()) + pieces.last()
    }
}

/// A stream and its file after several writes, all of which succeeded.
pub open spec fn written<F>(
    block_size: int,
    slot: SlotModel<F>,
    file: Seq<u8>,
    pieces: Seq<Seq<u8>>,
) -> (SlotModel<F>, Seq<u8>)
    decreases pieces.len(),
{
    if pieces.len() == 0 {
        (slot, file)
    } else {
        let (before, held) = written(block_size, slot, file, pieces.drop_last());
        let (after, appended) = write_run(block_size, before, pieces.last(), 0);
        (after, held + appended)
    }
}

/// What a file holds once its last block is cut to `valid` bytes.
pub open spec fn cut(file: Seq<u8>, block_size: int, valid: int) -> Seq<u8> {
    file.take(file.len() - block_size + valid)
}

/// What a file holds once its stream is finished: the collected block, where
/// one waits, and the cut that closes the file.
pub open spec fn finished<F>(block_size: int, slot: SlotModel<F>, file: Seq<u8>) -> Seq<u8> {
    if slot.filled == 0 {
        cut(file, block_size, block_size)
    } else {
        cut(file + slot.block, block_size, slot.filled)
    }
}

/// Bringing the waiting bytes into the file, when a stream is flushed or
/// finished, leaves exactly them behind what the file held.
pub proof fn law_finish_keeps_the_waiting_bytes<F>(
    block_size: int,
    slot: SlotModel<F>,
    file: Seq<u8>,
)
    requires
        slot_sound(slot, block_size),
    ensures
        finished(block_size, slot, file) == file + slot.pending(),
{
    if slot.filled == 0 {
        assert(finished(block_size, slot, file) =~= file + slot.pending());
    } else {
        let whole = file + slot.block;
        assert(whole.take(whole.len() - block_size + slot.filled) =~= file + slot.pending());
    }
}

/// A finished file holds what was written to its stream, piece after piece,
/// behind what it held before. Until then it grows by whole blocks, and less
/// than a block waits.
pub proof fn law_finished_file_holds_what_was_written<F>(
    block_size: int,
    slot: SlotModel<F>,
    file: Seq<u8>,
    pieces: Seq<Seq<u8>>,
)
    requires
        slot_sound(slot, block_size),
        forall|i: int| 0 <= i < pieces.len() ==> (#[trigger] pieces[i]).len() <= usize::MAX,
    ensures
        ({
            let (last, held) = written(block_size, slot, file, pieces);
            &&& slot_sound(last, block_size)
            &&& held + last.pending() == file + slot.pending() + joined(pieces)
            &&& finished(block_size, last, held) == file + slot.pending() + joined(pieces)
            &&& file.len() <= held.len()
            &&& (held.len() - file.len()) % block_size == 0
            &&& slot.filled < block_size ==> last.filled < block_size
        }),
    decreases pieces.len(),
{
    let (last, held) = written(block_size, slot, file, pieces);
    if pieces.len() == 0 {
        assert(file + slot.pending() =~= file + slot.pending() + joined(pieces));
        vstd::arithmetic::div_mod::lemma_small_mod(0, block_size as nat);
    } else {
        let front = pieces.drop_last();
        assert forall|i: int| 0 <= i < front.len() implies (#[trigger] front[i]).len()
            <= usize::MAX by {
            assert(front[i] == pieces[i]);
        }
        law_finished_file_holds_what_was_written(block_size, slot, file, front);
        let (before, kept) = written(block_size, slot, file, front);
        let piece = pieces.last();
        assert(pieces[pieces.len() - 1] == piece);
        law_write_loses_nothing(block_size, before, piece, 0);
        let appended = write_run(block_size, before, piece, 0).1;
        assert(piece.skip(0) =~= piece);
        assert(held + last.pending() =~= kept + (appended + last.pending()));
        assert(kept + (before.pending() + piece) =~= (kept + before.pending()) + piece);
        assert(held + last.pending() =~= file + slot.pending() + joined(pieces));
        lemma_multiples_add(kept.len() - file.len(), appended.len() as int, block_size);
    }
    law_finish_keeps_the_waiting_bytes(block_size, last, held);
}

/// A step of a write that appends to the file appends at least one block, and
/// whole blocks only.
pub proof fn law_every_append_is_whole_blocks<F>(
    block_size: int,
    slot: SlotModel<F>,
    data: Seq<u8>,
    cursor: int,
)
    requires
        slot_sound(slot, block_size),
        0 <= cursor <= data.len() <= usize::MAX,
    ensures
        ({
            let (after, step) = service::write_step(block_size, slot, data, cursor);
            match step.action {
                WriteAction::Done => true,
                WriteAction::AppendData { start, end, .. } => start < end && (end - start)
                    % block_size == 0,
                WriteAction::AppendBlock { .. } => after.block.len() == block_size,
            }
        }),
{
    lemma_step_progress(block_size, slot, data, cursor);
}

/// While a stream that began with nothing waiting is written to, its file holds
/// exactly the whole blocks of what was written, however that was cut into
/// pieces, and the rest waits at the start of the block.
pub proof fn law_file_holds_the_whole_blocks<F>(
    block_size: int,
    slot: SlotModel<F>,
    file: Seq<u8>,
    pieces: Seq<Seq<u8>>,
)
    requires
        slot_sound(slot, block_size),
        slot.filled == 0,
        forall|i: int| 0 <= i < pieces.len() ==> (#[trigger] pieces[i]).len() <= usize::MAX,
    ensures
        ({
            let (last, held) = written(block_size, slot, file, pieces);
            let all = joined(pieces);
            let whole = all.len() as int / block_size * block_size;
            &&& 0 <= whole <= all.len()
            &&& held == file + all.take(whole)
            &&& last.filled == all.len() as int % block_size
            &&& last.block.take(last.filled) == all.skip(whole)
        }),
{
    law_finished_file_holds_what_was_written(block_size, slot, file, pieces);
    let (last, held) = written(block_size, slot, file, pieces);
    let all = joined(pieces);
    let grown = held.len() - file.len();
    let total = all.len() as int;
    assert(file + slot.pending() + all =~= file + all);
    assert((held + last.pending()).len() == (file + all).len());
    assert(total == grown + last.filled);
    vstd::arithmetic::div_mod::lemma_fundamental_div_mod(grown, block_size);
    vstd::arithmetic::div_mod::lemma_fundamental_div_mod_converse(
        total,
        block_size,
        grown / block_size,
        last.filled,
    );
    assert(grown == total / block_size * block_size) by (nonlinear_arith)
        requires
            grown == block_size * (grown / block_size) + grown % block_size,
            grown % block_size == 0,
            grown / block_size == total / block_size,
    ;
    assert(held =~= (held + last.pending()).take(held.len() as int));
    assert((file + all).take(held.len() as int) =~= file + all.take(grown));
    assert(last.pending() =~= (held + last.pending()).skip(held.len() as int));
    assert((file + all).skip(held.len() as int) =~= all.skip(grown));
}

/// Finishing a stream that began with nothing waiting appends the bytes behind
/// the last whole block, where there are any, at the start of one block, and
/// closes the file with their number, or with a full block where there are none.
/// The stream's ticket is refused from then on, also once its slot is used
/// again.
pub proof fn law_finish_ends_what_was_written<F>(
    m: StorageModel<F>,
    stream: StreamHandle,
    slot: SlotModel<F>,
    file: Seq<u8>,
    pieces: Seq<Seq<u8>>,
    plan: FinishPlan<F>,
    next: StreamPlan,
    next_file: F,
    block_size: int,
    slots: int,
)
    requires
        service::storage_consistent(m, block_size, slots),
        service::is_open(m, stream),
        slot_sound(slot, block_size),
        slot.filled == 0,
        forall|i: int| 0 <= i < pieces.len() ==> (#[trigger] pieces[i]).len() <= usize::MAX,
        m.slots[stream.slot()] == Some(written(block_size, slot, file, pieces).0),
        service::finish_planned(m, stream, block_size, plan),
    ensures
        ({
            let all = joined(pieces);
            let rest = all.len() as int % block_size;
            let ended = service::with_slot(m, stream.slot(), None);
            let reused = StorageModel {
                slots: ended.slots.update(
                    next.index as int,
                    Some(service::opened_slot(next, next_file, block_size)),
                ),
                generations: ended.generations.update(next.index as int, next.generation),
                sequence: next.sequence,
            };
            &&& 0 <= rest < block_size
            &&& plan.valid == (if rest == 0 {
                block_size
            } else {
                rest
            })
            &&& match plan.block {
                Some(block) => rest > 0 && block@.len() == block_size && block@.take(rest)
                    == all.skip(all.len() - rest),
                None => rest == 0,
            }
            &&& !service::is_open(ended, stream)
            &&& service::plan_fits(ended, next) ==> !service::is_open(reused, stream)
        }),
{
    law_file_holds_the_whole_blocks(block_size, slot, file, pieces);
    law_finished_file_holds_what_was_written(block_size, slot, file, pieces);
    let all = joined(pieces);
    vstd::arithmetic::div_mod::lemma_fundamental_div_mod(all.len() as int, block_size);
    vstd::arithmetic::div_mod::lemma_mod_bound(all.len() as int, block_size);
    assert(block_size * (all.len() as int / block_size) == all.len() as int / block_size
        * block_size) by (nonlinear_arith);
    law_old_tickets_are_refused(m, stream, next, next_file, block_size);
}

/// The ticket of a finished stream is refused, before its slot is used again
/// and after.
pub proof fn law_old_tickets_are_refused<F>(
    m: StorageModel<F>,
    stream: StreamHandle,
    plan: StreamPlan,
    file: F,
    block_size: int,
)
    requires
        service::is_open(m, stream),
        m.generations.len() == m.slots.len(),
        m.generations[stream.slot()] == stream.turn(),
    ensures
        ({
            let ended = service::with_slot(m, stream.slot(), None);
            let reused = StorageModel {
                slots: ended.slots.update(
                    plan.index as int,
                    Some(service::opened_slot(plan, file, block_size)),
                ),
                generations: ended.generations.update(plan.index as int, plan.generation),
                sequence: plan.sequence,
            };
            &&& !service::is_open(ended, stream)
            &&& service::plan_fits(ended, plan) ==> !service::is_open(reused, stream)
        }),
{
}

} // verus!
