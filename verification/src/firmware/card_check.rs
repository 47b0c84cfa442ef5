//! A check of the card: files are written side by side, cut to their valid
//! length, and read back.
use crate::text;
use vstd::prelude::*;

verus! {

/// Bytes of a block of the card.
pub const BLOCK_BYTES: usize = 512;

/// Bytes of a long write: eight blocks.
pub const BULK_BYTES: usize = 4_096;

/// A line over and over, up to a size.
pub open spec fn repeated(line: Seq<u8>, size: nat) -> Seq<u8> {
    Seq::new(size, |i: int| line[i % line.len() as int])
}

/// A text with spaces behind it, up to a size.
pub open spec fn spaced(prefix: Seq<u8>, size: nat) -> Seq<u8> {
    Seq::new(
        size,
        |i: int|
            if i < prefix.len() {
                prefix[i]
            } else {
                32
            },
    )
}

/// A line over and over, up to a size.
pub fn fill_repeating(line: &[u8], size: usize) -> (block: Vec<u8>)
    requires
        line@.len() > 0 || size == 0,
    ensures
        block@ == repeated(line@, size as nat),
{
    let mut block: Vec<u8> = Vec::new();
    let mut i: usize = 0;
    while i < size
        invariant
            line@.len() > 0 || size == 0,
            i <= size,
            block@ == repeated(line@, i as nat),
        decreases size - i,
    {
        block.push(line[i % line.len()]);
        i = i + 1;
        assert(block@ =~= repeated(line@, i as nat));
    }
    block
}

/// A text with spaces behind it, up to a size.
pub fn fill_prefix(prefix: &[u8], size: usize) -> (block: Vec<u8>)
    requires
        prefix@.len() <= size,
    ensures
        block@ == spaced(prefix@, size as nat),
{
    let mut block: Vec<u8> = Vec::new();
    let mut i: usize = 0;
    while i < size
        invariant
            i <= size,
            block@ == spaced(prefix@, i as nat),
        decreases size - i,
    {
        if i < prefix.len() {
            block.push(prefix[i]);
        } else {
            block.push(32);
        }
        i = i + 1;
        assert(block@ =~= spaced(prefix@, i as nat));
    }
    block
}

/// The files of the check.
#[derive(Clone, Copy, Debug, PartialEq, Eq, Structural)]
pub enum CheckFile {
    Log,
    BulkA,
    BulkB,
    BulkC,
}

/// What is written into the files.
#[derive(Clone, Copy, Debug, PartialEq, Eq, Structural)]
pub enum CheckData {
    LogBlock,
    LogTail,
    BulkA,
    BulkB,
    BulkC,
    BulkTail,
}

/// Where a file of the check lies.
pub fn check_path(file: CheckFile) -> (path: &'static str)
    ensures
        path@ == (match file {
            CheckFile::Log => "/st_log.txt"@,
            CheckFile::BulkA => "/st_bulka.txt"@,
            CheckFile::BulkB => "/st_bulkb.txt"@,
            CheckFile::BulkC => "/st_bulkc.txt"@,
        }),
{
    match file {
        CheckFile::Log => "/st_log.txt",
        CheckFile::BulkA => "/st_bulka.txt",
        CheckFile::BulkB => "/st_bulkb.txt",
        CheckFile::BulkC => "/st_bulkc.txt",
    }
}

/// The line that a piece of data is made of.
pub open spec fn check_line(data: CheckData) -> Seq<char> {
    match data {
        CheckData::LogBlock => "log: mounted storage driver and opened four handles\n"@,
        CheckData::LogTail => "log: final partial line is valid; bytes after this are ignored\n"@,
        CheckData::BulkA => "bulk-a: sequential append payload\n"@,
        CheckData::BulkB => "bulk-b: sequential append payload\n"@,
        CheckData::BulkC => "bulk-c: sequential append payload\n"@,
        CheckData::BulkTail => "bulk-c: partial final block\n"@,
    }
}

/// The bytes of the line that a piece of data is made of.
pub open spec fn check_line_bytes(data: CheckData) -> Seq<u8> {
    vstd::utf8::encode_utf8(check_line(data))
}

/// A piece of data. The tails are one line, the others repeat theirs.
pub open spec fn check_bytes(data: CheckData) -> Seq<u8> {
    match data {
        CheckData::LogBlock => repeated(check_line_bytes(data), BLOCK_BYTES as nat),
        CheckData::LogTail | CheckData::BulkTail => spaced(
            check_line_bytes(data),
            BLOCK_BYTES as nat,
        ),
        _ => repeated(check_line_bytes(data), BULK_BYTES as nat),
    }
}

/// Text takes at least one and at most four bytes for each character.
proof fn lemma_byte_len_bound(chars: Seq<char>)
    ensures
        chars.len() <= text::byte_len(chars) <= 4 * chars.len(),
    decreases chars.len(),
{
    if chars.len() > 0 {
        lemma_byte_len_bound(chars.drop_first());
    }
}

/// The line that a piece of data is made of.
pub fn check_text(data: CheckData) -> (line: &'static str)
    ensures
        line@ == check_line(data),
        0 < check_line_bytes(data).len() <= BLOCK_BYTES,
{
    proof {
        reveal_strlit("log: mounted storage driver and opened four handles\n");
        reveal_strlit("log: final partial line is valid; bytes after this are ignored\n");
        reveal_strlit("bulk-a: sequential append payload\n");
        reveal_strlit("bulk-b: sequential append payload\n");
        reveal_strlit("bulk-c: sequential append payload\n");
        reveal_strlit("bulk-c: partial final block\n");
        lemma_byte_len_bound(check_line(data));
    }
    match data {
        CheckData::LogBlock => "log: mounted storage driver and opened four handles\n",
        CheckData::LogTail => "log: final partial line is valid; bytes after this are ignored\n",
        CheckData::BulkA => "bulk-a: sequential append payload\n",
        CheckData::BulkB => "bulk-b: sequential append payload\n",
        CheckData::BulkC => "bulk-c: sequential append payload\n",
        CheckData::BulkTail => "bulk-c: partial final block\n",
    }
}

/// A piece of data.
pub fn check_data(data: CheckData) -> (bytes: Vec<u8>)
    ensures
        bytes@ == check_bytes(data),
{
    let line: &[u8] = check_text(data).as_bytes();
    match data {
        CheckData::LogBlock => fill_repeating(line, BLOCK_BYTES),
        CheckData::LogTail | CheckData::BulkTail => fill_prefix(line, BLOCK_BYTES),
        _ => fill_repeating(line, BULK_BYTES),
    }
}

/// One operation on a file of the check.
#[derive(Clone, Copy, Debug, PartialEq, Eq, Structural)]
pub enum FileOperation {
    /// Open it for writing.
    Open(CheckFile),
    /// Append a piece of data.
    Append(CheckFile, CheckData),
    /// Make it durable.
    Flush(CheckFile),
    /// Close it; of its last block only the first bytes are valid.
    Close(CheckFile, usize),
    /// Read it from its beginning to its end.
    ReadBack(CheckFile),
}

/// The operations of the check, in their order.
pub open spec fn check_operations() -> Seq<FileOperation> {
    seq![
        FileOperation::Open(CheckFile::Log),
        FileOperation::Open(CheckFile::BulkA),
        FileOperation::Open(CheckFile::BulkB),
        FileOperation::Open(CheckFile::BulkC),
        FileOperation::Append(CheckFile::Log, CheckData::LogBlock),
        FileOperation::Append(CheckFile::BulkA, CheckData::BulkA),
        FileOperation::Append(CheckFile::BulkB, CheckData::BulkB),
        FileOperation::Append(CheckFile::BulkC, CheckData::BulkC),
        FileOperation::Flush(CheckFile::Log),
        FileOperation::Append(CheckFile::Log, CheckData::LogTail),
        FileOperation::Append(CheckFile::BulkC, CheckData::BulkTail),
        FileOperation::Close(CheckFile::Log, check_line_bytes(CheckData::LogTail).len() as usize),
        FileOperation::Close(CheckFile::BulkA, BLOCK_BYTES),
        FileOperation::Close(CheckFile::BulkB, BLOCK_BYTES),
        FileOperation::Close(CheckFile::BulkC, check_line_bytes(CheckData::BulkTail).len() as usize),
        FileOperation::ReadBack(CheckFile::Log),
    ]
}

/// The operations of the check, in their order.
pub fn exercise_storage() -> (operations: Vec<FileOperation>)
    ensures
        operations@ == check_operations(),
{
    let log_tail: usize = check_text(CheckData::LogTail).as_bytes().len();
    let bulk_tail: usize = check_text(CheckData::BulkTail).as_bytes().len();
    vec![
        FileOperation::Open(CheckFile::Log),
        FileOperation::Open(CheckFile::BulkA),
        FileOperation::Open(CheckFile::BulkB),
        FileOperation::Open(CheckFile::BulkC),
        FileOperation::Append(CheckFile::Log, CheckData::LogBlock),
        FileOperation::Append(CheckFile::BulkA, CheckData::BulkA),
        FileOperation::Append(CheckFile::BulkB, CheckData::BulkB),
        FileOperation::Append(CheckFile::BulkC, CheckData::BulkC),
        FileOperation::Flush(CheckFile::Log),
        FileOperation::Append(CheckFile::Log, CheckData::LogTail),
        FileOperation::Append(CheckFile::BulkC, CheckData::BulkTail),
        FileOperation::Close(CheckFile::Log, log_tail),
        FileOperation::Close(CheckFile::BulkA, BLOCK_BYTES),
        FileOperation::Close(CheckFile::BulkB, BLOCK_BYTES),
        FileOperation::Close(CheckFile::BulkC, bulk_tail),
        FileOperation::ReadBack(CheckFile::Log),
    ]
}

/// Bytes that a file holds after the first `count` operations of the check,
/// each append adding its data and a close keeping only the valid part of the
/// last block.
pub open spec fn file_length(file: CheckFile, count: int) -> int
    decreases count,
{
    if count <= 0 {
        0
    } else {
        let before = file_length(file, count - 1);
        match check_operations()[count - 1] {
            FileOperation::Append(written, data) => if written == file {
                before + check_bytes(data).len()
            } else {
                before
            },
            FileOperation::Close(closed, valid) => if closed == file {
                before - BLOCK_BYTES + valid
            } else {
                before
            },
            _ => before,
        }
    }
}

/// The log ends as a block and the valid part of its tail.
proof fn lemma_log_length()
    ensures
        file_length(CheckFile::Log, check_operations().len() as int) == BLOCK_BYTES
            + check_line_bytes(CheckData::LogTail).len(),
{
    reveal_with_fuel(file_length, 17);
    reveal_strlit("log: final partial line is valid; bytes after this are ignored\n");
    lemma_byte_len_bound(check_line(CheckData::LogTail));
}

/// Whether the log that was read back has the length that the operations gave
/// it.
pub fn readback_is_complete(total: usize) -> (complete: bool)
    ensures
        complete == (total == file_length(CheckFile::Log, check_operations().len() as int)),
{
    proof {
        lemma_log_length();
    }
    total == BLOCK_BYTES + check_text(CheckData::LogTail).as_bytes().len()
}

/// What the check does next.
#[derive(Clone, Copy, Debug, PartialEq, Eq, Structural)]
pub enum CheckAction {
    /// Look whether a card is there, with its power off.
    FindCard,
    /// Switch the card's power on and let it settle.
    PowerOn,
    /// Bring the card up.
    Acquire,
    /// Find the volume.
    FindVolume,
    /// Mount the volume.
    Mount,
    /// Perform the operations.
    Exercise,
    /// Nothing; the check passed.
    Passed,
    /// Nothing; the check failed.
    Failed,
}

/// What follows an action that succeeded or failed.
pub open spec fn check_after(action: CheckAction, ok: bool) -> CheckAction {
    if action == CheckAction::Passed || action == CheckAction::Failed {
        action
    } else if !ok {
        CheckAction::Failed
    } else {
        match action {
            CheckAction::FindCard => CheckAction::PowerOn,
            CheckAction::PowerOn => CheckAction::Acquire,
            CheckAction::Acquire => CheckAction::FindVolume,
            CheckAction::FindVolume => CheckAction::Mount,
            CheckAction::Mount => CheckAction::Exercise,
            _ => CheckAction::Passed,
        }
    }
}

/// What follows an action that succeeded or failed.
pub fn run_storage_test(action: CheckAction, ok: bool) -> (next: CheckAction)
    ensures
        next == check_after(action, ok),
{
    match action {
        CheckAction::Passed => CheckAction::Passed,
        CheckAction::Failed => CheckAction::Failed,
        _ => if !ok {
            CheckAction::Failed
        } else {
            match action {
                CheckAction::FindCard => CheckAction::PowerOn,
                CheckAction::PowerOn => CheckAction::Acquire,
                CheckAction::Acquire => CheckAction::FindVolume,
                CheckAction::FindVolume => CheckAction::Mount,
                CheckAction::Mount => CheckAction::Exercise,
                _ => CheckAction::Passed,
            }
        },
    }
}

} // verus!
