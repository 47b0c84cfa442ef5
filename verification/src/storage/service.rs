//! Open streams and the partly filled block that each of them holds.
//!
//! The file system itself is driven by the application: a request is answered
//! with the next file operation, and its success is reported back.
use crate::arith;
use crate::storage::policy;
use crate::storage::policy::{folder_path, stream_path};
use crate::storage::types::{
    StorageLayout, StorageServiceError, StreamHandle, StreamKind, UtcClock, PATH_CAPACITY,
};
use crate::text;
use crate::text::text_as_str;
use crate::time::types::UtcTimestamp;
use vstd::prelude::*;

verus! {

/// Streams that may be open at once by default.
pub const DEFAULT_MAX_STREAMS: usize = 4;

/// Largest number of slots that a ticket can tell apart.
pub const SLOT_LIMIT: usize = 256;

/// One open stream.
struct StreamSlot<F> {
    generation: u8,
    file: Option<F>,
    path: heapless::String<PATH_CAPACITY>,
    pending: Vec<u8>,
    pending_len: usize,
}

/// The open streams of a device, for files of type `F`.
pub struct StorageService<F, const BLOCK_SIZE: usize, const MAX_STREAMS: usize> {
    slots: Vec<Option<StreamSlot<F>>>,
    generations: Vec<u8>,
    stream_sequence: u32,
}

/// One open stream, as contracts speak of it.
#[verifier::ext_equal]
#[verifier::reject_recursive_types(F)]
pub struct SlotModel<F> {
    /// Which use of the slot this is.
    pub generation: u8,
    /// The open file, gone after a file operation failed half way.
    pub file: Option<F>,
    /// Path of the file.
    pub path: Seq<char>,
    /// The block that collects bytes.
    pub block: Seq<u8>,
    /// How many bytes of the block are waiting.
    pub filled: int,
}

impl<F> SlotModel<F> {
    /// Bytes that wait for their block to fill.
    pub open spec fn pending(self) -> Seq<u8> {
        self.block.take(self.filled)
    }
}

/// The open streams, as contracts speak of them.
#[verifier::ext_equal]
#[verifier::reject_recursive_types(F)]
pub struct StorageModel<F> {
    /// One entry for each slot.
    pub slots: Seq<Option<SlotModel<F>>>,
    /// How often each slot was used.
    pub generations: Seq<u8>,
    /// Running number of the last stream.
    pub sequence: u32,
}

/// What a new stream will be, once its file is open.
pub struct StreamPlan {
    /// Slot of the stream.
    pub index: usize,
    /// Which use of the slot it is.
    pub generation: u8,
    /// Running number of the stream.
    pub sequence: u32,
    /// Path of its file.
    pub path: heapless::String<PATH_CAPACITY>,
    /// Folder to create first, unless the file lies at the root.
    pub folder: Option<heapless::String<PATH_CAPACITY>>,
}

/// The next file operation of a write.
#[derive(Debug, PartialEq, Eq)]
pub enum WriteAction<F> {
    /// Nothing is left to do.
    Done,
    /// Append the data from `start` to `end`, whole blocks.
    AppendData { file: F, start: usize, end: usize },
    /// Append the collected block, then report it.
    AppendBlock { file: F },
}

/// One step of a write: a file operation and how much data is taken care of.
#[derive(Debug, PartialEq, Eq)]
pub struct WriteStep<F> {
    pub action: WriteAction<F>,
    pub cursor: usize,
}

/// The first file operation of a flush.
#[derive(Debug, PartialEq, Eq)]
pub enum FlushAction<F> {
    /// Nothing waits: flush the file.
    FlushFile { file: F },
    /// Append the collected block, then close the file with `valid` bytes in
    /// its last block and open it again.
    AppendBlock { file: F, valid: usize },
}

/// The file operations that end a stream.
#[derive(Debug, PartialEq, Eq)]
pub struct FinishPlan<F> {
    /// The file to close, where one is open.
    pub file: Option<F>,
    /// The block to append first, where bytes are waiting.
    pub block: Option<Vec<u8>>,
    /// Bytes that count in the last block.
    pub valid: usize,
}

/// The next use of a slot.
pub open spec fn next_generation(generation: u8) -> u8 {
    if generation == u8::MAX {
        0
    } else {
        (generation + 1) as u8
    }
}

/// The next running number.
pub open spec fn next_sequence(sequence: u32) -> u32 {
    if sequence == u32::MAX {
        0
    } else {
        (sequence + 1) as u32
    }
}

/// Whether a ticket belongs to an open stream.
pub open spec fn is_open<F>(m: StorageModel<F>, stream: StreamHandle) -> bool {
    &&& 0 <= stream.slot() < m.slots.len()
    &&& m.slots[stream.slot()] is Some
    &&& m.slots[stream.slot()]->0.generation == stream.turn()
}

/// Whether a slot is free.
pub open spec fn is_free<F>(m: StorageModel<F>, index: int) -> bool {
    0 <= index < m.slots.len() && m.slots[index] is None
}

/// The folder that a stream needs, empty at the root.
pub open spec fn planned_folder(
    kind: StreamKind,
    layout: StorageLayout,
    timestamp: Option<i64>,
) -> Seq<char> {
    if policy::needs_time(kind, layout) {
        policy::folder_text(layout, timestamp->0 as int)
    } else {
        Seq::empty()
    }
}

/// Whether a plan takes the first free slot of `m`.
pub open spec fn plan_fits<F>(m: StorageModel<F>, plan: StreamPlan) -> bool {
    &&& is_free(m, plan.index as int)
    &&& forall|i: int| 0 <= i < plan.index ==> !is_free(m, i)
    &&& plan.generation == next_generation(m.generations[plan.index as int])
    &&& plan.sequence == next_sequence(m.sequence)
}

/// A stream whose file was just opened: nothing waits yet.
pub open spec fn opened_slot<F>(plan: StreamPlan, file: F, block_size: int) -> SlotModel<F> {
    SlotModel {
        generation: plan.generation,
        file: Some(file),
        path: text::text(plan.path),
        block: Seq::new(block_size as nat, |i: int| 0u8),
        filled: 0,
    }
}

/// `m` with one stream replaced.
pub open spec fn with_slot<F>(m: StorageModel<F>, index: int, slot: Option<SlotModel<F>>) -> StorageModel<
    F,
> {
    StorageModel { slots: m.slots.update(index, slot), ..m }
}

/// `slot` with `count` bytes of the data, from `cursor` on, in its block.
pub open spec fn collected<F>(slot: SlotModel<F>, data: Seq<u8>, cursor: int, count: int) -> SlotModel<
    F,
> {
    SlotModel {
        block: slot.block.take(slot.filled) + data.subrange(cursor, cursor + count)
            + slot.block.skip(slot.filled + count),
        filled: slot.filled + count,
        ..slot
    }
}

/// One step of a write: whole blocks go straight to the file while nothing
/// waits, other bytes are collected until their block is full.
pub open spec fn write_step<F>(
    block_size: int,
    slot: SlotModel<F>,
    data: Seq<u8>,
    cursor: int,
) -> (SlotModel<F>, WriteStep<F>) {
    let left = data.len() - cursor;
    if left == 0 {
        (slot, WriteStep { action: WriteAction::Done, cursor: cursor as usize })
    } else if slot.filled == 0 && left >= block_size {
        let end = cursor + left / block_size * block_size;
        (
            slot,
            WriteStep {
                action: WriteAction::AppendData {
                    file: slot.file->0,
                    start: cursor as usize,
                    end: end as usize,
                },
                cursor: end as usize,
            },
        )
    } else {
        let count = arith::min(block_size - slot.filled, left);
        let after = collected(slot, data, cursor, count);
        (
            after,
            WriteStep {
                action: if after.filled == block_size {
                    WriteAction::AppendBlock { file: slot.file->0 }
                } else {
                    WriteAction::Done
                },
                cursor: (cursor + count) as usize,
            },
        )
    }
}

impl<F> StreamSlot<F> {
    /// The stream as contracts speak of it.
    spec fn model(self) -> SlotModel<F> {
        SlotModel {
            generation: self.generation,
            file: self.file,
            path: text::text(self.path),
            block: self.pending@,
            filled: self.pending_len as int,
        }
    }
}

/// An entry of the slot table as contracts speak of it.
spec fn entry_model<F>(entry: Option<StreamSlot<F>>) -> Option<SlotModel<F>> {
    match entry {
        Some(slot) => Some(slot.model()),
        None => None,
    }
}

impl<F, const BLOCK_SIZE: usize, const MAX_STREAMS: usize> View for StorageService<
    F,
    BLOCK_SIZE,
    MAX_STREAMS,
> {
    type V = StorageModel<F>;

    closed spec fn view(&self) -> StorageModel<F> {
        StorageModel {
            slots: self.slots@.map_values(|entry: Option<StreamSlot<F>>| entry_model(entry)),
            generations: self.generations@,
            sequence: self.stream_sequence,
        }
    }
}

/// What holds of the open streams: every slot is tracked, and every block has
/// its size.
pub open spec fn storage_consistent<F>(m: StorageModel<F>, block_size: int, slots: int) -> bool {
    &&& 0 < block_size
    &&& 0 < slots <= SLOT_LIMIT
    &&& m.slots.len() == slots
    &&& m.generations.len() == slots
    &&& forall|i: int|
        0 <= i < slots && (#[trigger] m.slots[i]) is Some ==> {
            &&& m.slots[i]->0.block.len() == block_size
            &&& 0 <= m.slots[i]->0.filled <= block_size
            &&& m.slots[i]->0.generation == m.generations[i]
        }
}

/// Whether a plan names the file operations that end an open stream: the block
/// is appended where bytes wait in it, and the file is closed with the bytes
/// that count in its last block.
pub open spec fn finish_planned<F>(
    m: StorageModel<F>,
    stream: StreamHandle,
    block_size: int,
    plan: FinishPlan<F>,
) -> bool {
    let slot = m.slots[stream.slot()]->0;
    &&& plan.file == slot.file
    &&& plan.valid == (if slot.filled == 0 {
        block_size
    } else {
        slot.filled
    })
    &&& match plan.block {
        Some(block) => slot.filled > 0 && block@ == slot.block,
        None => slot.filled == 0,
    }
}

/// The seconds of a time, where it is known.
pub open spec fn whole_seconds(utc: Option<UtcTimestamp>) -> Option<i64> {
    match utc {
        Some(utc) => Some(utc.seconds),
        None => None,
    }
}

/// Whether a request for a stream at a time is answered as it must be: with its
/// plan, or with the reason why there is none.
pub open spec fn planned<F, E>(
    m: StorageModel<F>,
    kind: StreamKind,
    layout: StorageLayout,
    timestamp: Option<i64>,
    plan: Result<StreamPlan, StorageServiceError<E>>,
) -> bool {
    match plan {
        Ok(plan) => {
            &&& plan_fits(m, plan)
            &&& layout.valid()
            &&& policy::needs_time(kind, layout) ==> policy::time_known(timestamp)
            &&& text::text(plan.path) == policy::path_text(
                kind,
                layout,
                timestamp,
                plan.sequence,
            )
            &&& match plan.folder {
                Some(folder) => planned_folder(kind, layout, timestamp).len() > 0
                    && text::text(folder) == planned_folder(kind, layout, timestamp),
                None => planned_folder(kind, layout, timestamp).len() == 0,
            }
        },
        Err(StorageServiceError::TooManyStreams) => forall|i: int| !is_free(m, i),
        Err(StorageServiceError::InvalidConfig) => !layout.valid() && exists|i: int|
            is_free(m, i),
        Err(StorageServiceError::InvalidTimestamp) => layout.valid() && policy::needs_time(
            kind,
            layout,
        ) && !policy::time_known(timestamp) && exists|i: int| is_free(m, i),
        Err(_) => false,
    }
}

impl<F: Copy, const BLOCK_SIZE: usize, const MAX_STREAMS: usize> StorageService<
    F,
    BLOCK_SIZE,
    MAX_STREAMS,
> {
    /// What holds of every storage.
    pub open spec fn well_formed(self) -> bool {
        storage_consistent(self@, BLOCK_SIZE as int, MAX_STREAMS as int)
    }

    /// A storage without open streams.
    pub fn new<E>() -> (service: Result<Self, StorageServiceError<E>>)
        ensures
            match service {
                Ok(service) => {
                    &&& service.well_formed()
                    &&& service@.sequence == 0
                    &&& forall|i: int| 0 <= i < MAX_STREAMS ==> service@.slots[i] is None
                    &&& forall|i: int| 0 <= i < MAX_STREAMS ==> service@.generations[i] == 0
                },
                Err(StorageServiceError::InvalidConfig) => BLOCK_SIZE == 0 || MAX_STREAMS == 0
                    || MAX_STREAMS > SLOT_LIMIT,
                Err(_) => false,
            },
    {
        if BLOCK_SIZE == 0 || MAX_STREAMS == 0 || MAX_STREAMS > SLOT_LIMIT {
            return Err(StorageServiceError::InvalidConfig);
        }
        let mut slots: Vec<Option<StreamSlot<F>>> = Vec::new();
        let mut generations: Vec<u8> = Vec::new();
        let mut count: usize = 0;
        while count < MAX_STREAMS
            invariant
                count <= MAX_STREAMS,
                slots@.len() == count,
                generations@.len() == count,
                forall|i: int| 0 <= i < count ==> slots@[i] is None,
                forall|i: int| 0 <= i < count ==> generations@[i] == 0,
            decreases MAX_STREAMS - count,
        {
            slots.push(None);
            generations.push(0);
            count = count + 1;
        }
        Ok(StorageService { slots, generations, stream_sequence: 0 })
    }

    /// Slot of a ticket that belongs to an open stream.
    fn validate<E>(&self, stream: StreamHandle) -> (index: Result<usize, StorageServiceError<E>>)
        ensures
            match index {
                Ok(index) => is_open(self@, stream) && index == stream.slot(),
                Err(StorageServiceError::InvalidStream) => !is_open(self@, stream),
                Err(_) => false,
            },
    {
        let index: usize = stream.index();
        if index >= self.slots.len() {
            return Err(StorageServiceError::InvalidStream);
        }
        match &self.slots[index] {
            Some(slot) => if slot.generation == stream.generation() {
                Ok(index)
            } else {
                Err(StorageServiceError::InvalidStream)
            },
            None => Err(StorageServiceError::InvalidStream),
        }
    }

    /// First free slot.
    fn free_slot(&self) -> (index: Option<usize>)
        ensures
            match index {
                Some(index) => is_free(self@, index as int) && forall|i: int|
                    0 <= i < index ==> !is_free(self@, i),
                None => forall|i: int| !is_free(self@, i),
            },
    {
        let mut index: usize = 0;
        while index < self.slots.len()
            invariant
                index <= self.slots@.len(),
                forall|i: int| 0 <= i < index ==> !is_free(self@, i),
            decreases self.slots.len() - index,
        {
            if self.slots[index].is_none() {
                return Some(index);
            }
            index = index + 1;
        }
        None
    }

    /// Plans a new stream that begins now, at the time that the clock told when
    /// it was asked.
    pub fn begin_stream<C: UtcClock, E>(
        &self,
        kind: StreamKind,
        layout: StorageLayout,
        clock: &C,
    ) -> (plan: Result<StreamPlan, StorageServiceError<E>>)
        requires
            self.well_formed(),
        ensures
            exists|utc: Option<UtcTimestamp>|
                {
                    &&& #[trigger] call_ensures(C::current_utc, (clock,), utc)
                    &&& planned(self@, kind, layout, whole_seconds(utc), plan)
                },
    {
        let utc: Option<UtcTimestamp> = clock.current_utc();
        let timestamp: Option<i64> = match utc {
            Some(now) => Some(now.seconds),
            None => None,
        };
        let plan: Result<StreamPlan, StorageServiceError<E>> = self.plan_stream(
            kind,
            layout,
            timestamp,
        );
        assert(call_ensures(C::current_utc, (clock,), utc));
        plan
    }

    /// Plans a new stream: where it will lie and which folder must exist.
    /// Nothing changes until its file is open.
    pub fn plan_stream<E>(
        &self,
        kind: StreamKind,
        layout: StorageLayout,
        timestamp: Option<i64>,
    ) -> (plan: Result<StreamPlan, StorageServiceError<E>>)
        requires
            self.well_formed(),
        ensures
            planned(self@, kind, layout, timestamp, plan),
    {
        let index: usize = match self.free_slot() {
            Some(index) => index,
            None => {
                return Err(StorageServiceError::TooManyStreams);
            },
        };
        let generation: u8 = self.generations[index].wrapping_add(1);
        let sequence: u32 = self.stream_sequence.wrapping_add(1);
        let path: heapless::String<PATH_CAPACITY> = match stream_path::<E>(
            kind,
            layout,
            timestamp,
            sequence,
        ) {
            Ok(path) => path,
            Err(error) => {
                return Err(error);
            },
        };
        proof {
            policy::lemma_folder_of_path(kind, layout, timestamp, sequence);
        }
        let folder: Option<heapless::String<PATH_CAPACITY>> = match folder_path::<E>(
            text_as_str(&path),
        ) {
            Ok(folder) => folder,
            Err(error) => {
                return Err(error);
            },
        };
        Ok(StreamPlan { index, generation, sequence, path, folder })
    }

    /// Takes in a planned stream whose file is now open.
    pub fn stream_opened(&mut self, plan: StreamPlan, file: F) -> (stream: StreamHandle)
        requires
            old(self).well_formed(),
            plan_fits(old(self)@, plan),
        ensures
            final(self).well_formed(),
            stream.slot() == plan.index,
            stream.turn() == plan.generation,
            is_open(final(self)@, stream),
            final(self)@ == (StorageModel {
                slots: old(self)@.slots.update(
                    plan.index as int,
                    Some(opened_slot(plan, file, BLOCK_SIZE as int)),
                ),
                generations: old(self)@.generations.update(plan.index as int, plan.generation),
                sequence: plan.sequence,
            }),
    {
        let index: usize = plan.index;
        let stream: StreamHandle = StreamHandle::new(index, plan.generation);
        self.generations.set(index, plan.generation);
        self.stream_sequence = plan.sequence;
        let pending: Vec<u8> = vec![0; BLOCK_SIZE];
        let slot: StreamSlot<F> = StreamSlot {
            generation: plan.generation,
            file: Some(file),
            path: plan.path,
            pending,
            pending_len: 0,
        };
        assert(slot.pending@ =~= Seq::new(BLOCK_SIZE as nat, |i: int| 0u8));
        self.slots.set(index, Some(slot));
        proof {
            assert forall|i: int| 0 <= i < MAX_STREAMS && i != index implies self@.slots[i]
                == old(self)@.slots[i] by {}
            lemma_slot_replaced(
                StorageModel { generations: self@.generations, ..old(self)@ },
                self@,
                BLOCK_SIZE as int,
                MAX_STREAMS as int,
                index as int,
            );
        }
        stream
    }

    /// The next step of writing `data`, of which `cursor` bytes are taken care
    /// of already.
    pub fn write<E>(&mut self, stream: StreamHandle, data: &[u8], cursor: usize) -> (step: Result<
        WriteStep<F>,
        StorageServiceError<E>,
    >)
        requires
            old(self).well_formed(),
            cursor <= data@.len(),
        ensures
            final(self).well_formed(),
            match step {
                Ok(step) => {
                    let slot = old(self)@.slots[stream.slot()]->0;
                    let (after, expected) = write_step(
                        BLOCK_SIZE as int,
                        slot,
                        data@,
                        cursor as int,
                    );
                    &&& is_open(old(self)@, stream)
                    &&& slot.file is Some
                    &&& step == expected
                    &&& final(self)@ == with_slot(old(self)@, stream.slot(), Some(after))
                    &&& is_open(final(self)@, stream)
                    &&& step.cursor <= data@.len()
                },
                Err(StorageServiceError::InvalidStream) => final(self)@ == old(self)@ && !(is_open(
                    old(self)@,
                    stream,
                ) && old(self)@.slots[stream.slot()]->0.file is Some),
                Err(_) => false,
            },
    {
        let index: usize = match self.validate::<E>(stream) {
            Ok(index) => index,
            Err(error) => {
                return Err(error);
            },
        };
        let ghost before = self@;
        let step: Option<WriteStep<F>> = match &mut self.slots[index] {
            Some(slot) => advance(slot, data, cursor, BLOCK_SIZE),
            None => None,
        };
        proof {
            lemma_slot_replaced(
                before,
                self@,
                BLOCK_SIZE as int,
                MAX_STREAMS as int,
                index as int,
            );
        }
        match step {
            Some(step) => Ok(step),
            None => Err(StorageServiceError::InvalidStream),
        }
    }

    /// The block that a stream collects bytes in.
    pub fn block<E>(&self, stream: StreamHandle) -> (block: Result<&[u8], StorageServiceError<E>>)
        ensures
            match block {
                Ok(block) => is_open(self@, stream) && block@
                    == self@.slots[stream.slot()]->0.block,
                Err(StorageServiceError::InvalidStream) => !is_open(self@, stream),
                Err(_) => false,
            },
    {
        let index: usize = match self.validate::<E>(stream) {
            Ok(index) => index,
            Err(error) => {
                return Err(error);
            },
        };
        match &self.slots[index] {
            Some(slot) => Ok(slot.pending.as_slice()),
            None => Err(StorageServiceError::InvalidStream),
        }
    }

    /// The path of a stream's file.
    pub fn path<E>(&self, stream: StreamHandle) -> (path: Result<&str, StorageServiceError<E>>)
        ensures
            match path {
                Ok(path) => is_open(self@, stream) && path@ == self@.slots[stream.slot()]->0.path,
                Err(StorageServiceError::InvalidStream) => !is_open(self@, stream),
                Err(_) => false,
            },
    {
        let index: usize = match self.validate::<E>(stream) {
            Ok(index) => index,
            Err(error) => {
                return Err(error);
            },
        };
        match &self.slots[index] {
            Some(slot) => Ok(text_as_str(&slot.path)),
            None => Err(StorageServiceError::InvalidStream),
        }
    }

    /// Takes note that the collected block of a stream is in its file.
    pub fn block_appended(&mut self, stream: StreamHandle)
        requires
            old(self).well_formed(),
            is_open(old(self)@, stream),
        ensures
            final(self).well_formed(),
            final(self)@ == with_slot(
                old(self)@,
                stream.slot(),
                Some(SlotModel { filled: 0, ..old(self)@.slots[stream.slot()]->0 }),
            ),
    {
        let index: usize = stream.index();
        if let Some(slot) = &mut self.slots[index] {
            slot.pending_len = 0;
        }
        proof {
            lemma_slot_replaced(
                old(self)@,
                self@,
                BLOCK_SIZE as int,
                MAX_STREAMS as int,
                index as int,
            );
        }
    }

    /// The first file operation that brings a stream's bytes into its file.
    pub fn flush<E>(&self, stream: StreamHandle) -> (action: Result<
        FlushAction<F>,
        StorageServiceError<E>,
    >)
        ensures
            match action {
                Ok(action) => {
                    let slot = self@.slots[stream.slot()]->0;
                    &&& is_open(self@, stream)
                    &&& slot.file is Some
                    &&& action == (if slot.filled == 0 {
                        FlushAction::FlushFile { file: slot.file->0 }
                    } else {
                        FlushAction::AppendBlock {
                            file: slot.file->0,
                            valid: slot.filled as usize,
                        }
                    })
                },
                Err(StorageServiceError::InvalidStream) => !(is_open(self@, stream)
                    && self@.slots[stream.slot()]->0.file is Some),
                Err(_) => false,
            },
    {
        let index: usize = match self.validate::<E>(stream) {
            Ok(index) => index,
            Err(error) => {
                return Err(error);
            },
        };
        match &self.slots[index] {
            Some(slot) => match slot.file {
                Some(file) => if slot.pending_len == 0 {
                    Ok(FlushAction::FlushFile { file })
                } else {
                    Ok(FlushAction::AppendBlock { file, valid: slot.pending_len })
                },
                None => Err(StorageServiceError::InvalidStream),
            },
            None => Err(StorageServiceError::InvalidStream),
        }
    }

    /// Takes note that a flush appended the block: the file is about to be
    /// closed, and the stream has none until it is open again.
    pub fn flush_appended(&mut self, stream: StreamHandle)
        requires
            old(self).well_formed(),
            is_open(old(self)@, stream),
        ensures
            final(self).well_formed(),
            final(self)@ == with_slot(
                old(self)@,
                stream.slot(),
                Some(SlotModel { filled: 0, file: None, ..old(self)@.slots[stream.slot()]->0 }),
            ),
    {
        let index: usize = stream.index();
        if let Some(slot) = &mut self.slots[index] {
            slot.pending_len = 0;
            slot.file = None;
        }
        proof {
            lemma_slot_replaced(
                old(self)@,
                self@,
                BLOCK_SIZE as int,
                MAX_STREAMS as int,
                index as int,
            );
        }
    }

    /// Takes note that the file of a stream is open again.
    pub fn reopened(&mut self, stream: StreamHandle, file: F)
        requires
            old(self).well_formed(),
            is_open(old(self)@, stream),
        ensures
            final(self).well_formed(),
            final(self)@ == with_slot(
                old(self)@,
                stream.slot(),
                Some(SlotModel { file: Some(file), ..old(self)@.slots[stream.slot()]->0 }),
            ),
    {
        let index: usize = stream.index();
        if let Some(slot) = &mut self.slots[index] {
            slot.file = Some(file);
        }
        proof {
            lemma_slot_replaced(
                old(self)@,
                self@,
                BLOCK_SIZE as int,
                MAX_STREAMS as int,
                index as int,
            );
        }
    }

    /// Ends a stream and names the file operations that are left. Its ticket
    /// is void from now on, whatever becomes of them.
    pub fn finish<E>(&mut self, stream: StreamHandle) -> (plan: Result<
        FinishPlan<F>,
        StorageServiceError<E>,
    >)
        requires
            old(self).well_formed(),
        ensures
            final(self).well_formed(),
            match plan {
                Ok(plan) => {
                    &&& is_open(old(self)@, stream)
                    &&& final(self)@ == with_slot(old(self)@, stream.slot(), None)
                    &&& finish_planned(old(self)@, stream, BLOCK_SIZE as int, plan)
                },
                Err(StorageServiceError::InvalidStream) => final(self)@ == old(self)@ && !is_open(
                    old(self)@,
                    stream,
                ),
                Err(_) => false,
            },
    {
        let index: usize = match self.validate::<E>(stream) {
            Ok(index) => index,
            Err(error) => {
                return Err(error);
            },
        };
        let ghost before = self@;
        let taken: Option<StreamSlot<F>> = self.slots[index].take();
        proof {
            lemma_slot_replaced(
                before,
                self@,
                BLOCK_SIZE as int,
                MAX_STREAMS as int,
                index as int,
            );
        }
        match taken {
            Some(slot) => if slot.pending_len == 0 {
                Ok(FinishPlan { file: slot.file, block: None, valid: BLOCK_SIZE })
            } else {
                Ok(
                    FinishPlan {
                        file: slot.file,
                        block: Some(slot.pending),
                        valid: slot.pending_len,
                    },
                )
            },
            None => Err(StorageServiceError::InvalidStream),
        }
    }
}

/// Replacing one stream by a sound one keeps the storage sound.
proof fn lemma_slot_replaced<F>(
    before: StorageModel<F>,
    after: StorageModel<F>,
    block_size: int,
    slots: int,
    index: int,
)
    requires
        storage_consistent(before, block_size, slots),
        0 <= index < slots,
        after.slots.len() == slots,
        after.generations == before.generations,
        forall|i: int| 0 <= i < slots && i != index ==> after.slots[i] == before.slots[i],
        after.slots[index] is Some ==> {
            &&& after.slots[index]->0.block.len() == block_size
            &&& 0 <= after.slots[index]->0.filled <= block_size
            &&& after.slots[index]->0.generation == before.generations[index]
        },
    ensures
        storage_consistent(after, block_size, slots),
{
    assert forall|i: int| 0 <= i < slots && (#[trigger] after.slots[i]) is Some implies {
        &&& after.slots[i]->0.block.len() == block_size
        &&& 0 <= after.slots[i]->0.filled <= block_size
        &&& after.slots[i]->0.generation == after.generations[i]
    } by {
        if i != index {
            assert(after.slots[i] == before.slots[i]);
        }
    }
}

/// Takes one step of a write on a stream whose file is open.
fn advance<F: Copy>(slot: &mut StreamSlot<F>, data: &[u8], cursor: usize, block_size: usize) -> (step:
    Option<WriteStep<F>>)
    requires
        0 < block_size,
        cursor <= data@.len(),
        old(slot).pending@.len() == block_size,
        old(slot).pending_len <= block_size,
    ensures
        match step {
            Some(step) => old(slot).file is Some && (final(slot).model(), step) == write_step(
                block_size as int,
                old(slot).model(),
                data@,
                cursor as int,
            ) && step.cursor <= data@.len(),
            None => old(slot).file is None && *final(slot) == *old(slot),
        },
        final(slot).pending@.len() == block_size,
        final(slot).pending_len <= block_size,
        final(slot).generation == old(slot).generation,
{
    let file: F = match slot.file {
        Some(file) => file,
        None => {
            return None;
        },
    };
    let left: usize = data.len() - cursor;
    if left == 0 {
        return Some(WriteStep { action: WriteAction::Done, cursor });
    }
    if slot.pending_len == 0 && left >= block_size {
        proof {
            arith::lemma_trunc_div_bounded(left as int, block_size as int);
        }
        let whole: usize = left / block_size * block_size;
        return Some(
            WriteStep {
                action: WriteAction::AppendData { file, start: cursor, end: cursor + whole },
                cursor: cursor + whole,
            },
        );
    }
    let room: usize = block_size - slot.pending_len;
    let count: usize = if room < left {
        room
    } else {
        left
    };
    collect(slot, data, cursor, count);
    let action: WriteAction<F> = if slot.pending_len == block_size {
        WriteAction::AppendBlock { file }
    } else {
        WriteAction::Done
    };
    Some(WriteStep { action, cursor: cursor + count })
}

/// Copies bytes into the block of a stream.
fn collect<F>(slot: &mut StreamSlot<F>, data: &[u8], cursor: usize, count: usize)
    requires
        cursor + count <= data@.len(),
        old(slot).pending_len + count <= old(slot).pending@.len(),
    ensures
        final(slot).model() == collected(old(slot).model(), data@, cursor as int, count as int),
{
    let start: usize = slot.pending_len;
    assert(data@.len() == data.len() && slot.pending@.len() == slot.pending.len());
    let mut copied: usize = 0;
    while copied < count
        invariant
            copied <= count,
            cursor + count <= data@.len(),
            start == old(slot).pending_len,
            start + count <= old(slot).pending@.len(),
            cursor + count <= usize::MAX,
            start + count <= usize::MAX,
            slot.pending@.len() == old(slot).pending@.len(),
            slot.pending_len == start,
            slot.generation == old(slot).generation,
            slot.file == old(slot).file,
            slot.path == old(slot).path,
            slot.pending@ == old(slot).pending@.take(start as int) + data@.subrange(
                cursor as int,
                cursor + copied,
            ) + old(slot).pending@.skip(start + copied),
        decreases count - copied,
    {
        slot.pending.set(start + copied, data[cursor + copied]);
        copied = copied + 1;
        assert(slot.pending@ =~= old(slot).pending@.take(start as int) + data@.subrange(
            cursor as int,
            cursor + copied,
        ) + old(slot).pending@.skip(start + copied));
    }
    slot.pending_len = start + count;
}

} // verus!
