//! Names of streams and of the folders they lie in.
use crate::storage::types::{StorageLayout, StorageServiceError, StreamKind, PATH_CAPACITY};
use crate::text;
use crate::text::{signed_text, text_as_str, text_new, text_push_str};
use vstd::prelude::*;

verus! {

/// Start of the interval that a time lies in.
pub open spec fn interval_start(timestamp: int, interval: int) -> int {
    timestamp / interval * interval
}

/// The folder of a stream, empty where it lies at the root.
pub open spec fn folder_text(layout: StorageLayout, timestamp: int) -> Seq<char> {
    match layout {
        StorageLayout::Flat => Seq::empty(),
        StorageLayout::DailyFolders => "/"@ + text::signed_decimal(
            interval_start(timestamp, 86_400),
        ),
        StorageLayout::HourlyFolders => "/"@ + text::signed_decimal(
            interval_start(timestamp, 3_600),
        ),
        StorageLayout::MissionFolders => "/mission"@,
        StorageLayout::IntervalFolders { interval_seconds } => "/"@ + text::signed_decimal(
            interval_start(timestamp, interval_seconds as int),
        ),
    }
}

/// Start of a stream's file name.
pub open spec fn name_prefix(kind: StreamKind) -> Seq<char> {
    match kind {
        StreamKind::Log => "/log_"@,
        StreamKind::Audio => "/aud_"@,
        StreamKind::GpsTiming => "/gps_"@,
    }
}

/// End of a stream's file name.
pub open spec fn name_suffix(kind: StreamKind) -> Seq<char> {
    match kind {
        StreamKind::Log => ".txt"@,
        StreamKind::Audio => ".wav"@,
        StreamKind::GpsTiming => ".pps"@,
    }
}

/// A stream's file name, with the slash before it.
pub open spec fn name_text(kind: StreamKind, timestamp: int, sequence: int) -> Seq<char> {
    name_prefix(kind) + text::signed_decimal(timestamp) + "_"@ + text::signed_decimal(sequence)
        + name_suffix(kind)
}

/// The path of a stream.
pub open spec fn path_text(
    kind: StreamKind,
    layout: StorageLayout,
    timestamp: Option<i64>,
    sequence: u32,
) -> Seq<char> {
    if kind == StreamKind::Log && layout == StorageLayout::Flat {
        "/syslog.txt"@
    } else {
        folder_text(layout, timestamp->0 as int) + name_text(
            kind,
            timestamp->0 as int,
            sequence as int,
        )
    }
}

/// Whether a stream's name needs the time.
pub open spec fn needs_time(kind: StreamKind, layout: StorageLayout) -> bool {
    !(kind == StreamKind::Log && layout == StorageLayout::Flat)
}

/// Whether a time is known and not before the epoch.
pub open spec fn time_known(timestamp: Option<i64>) -> bool {
    timestamp is Some && timestamp->0 >= 0
}

/// The name parts are ASCII, and every path fits.
proof fn lemma_path_parts(layout: StorageLayout, kind: StreamKind, timestamp: int, sequence: int)
    requires
        layout.valid(),
        0 <= timestamp <= i64::MAX,
        0 <= sequence <= u32::MAX,
    ensures
        vstd::utf8::is_ascii_chars(folder_text(layout, timestamp)),
        folder_text(layout, timestamp).len() <= 20,
        vstd::utf8::is_ascii_chars(name_prefix(kind)),
        name_prefix(kind).len() == 5,
        vstd::utf8::is_ascii_chars(text::signed_decimal(timestamp)),
        text::signed_decimal(timestamp).len() <= 19,
        vstd::utf8::is_ascii_chars("_"@),
        "_"@.len() == 1,
        vstd::utf8::is_ascii_chars(text::signed_decimal(sequence)),
        text::signed_decimal(sequence).len() <= 19,
        vstd::utf8::is_ascii_chars(name_suffix(kind)),
        name_suffix(kind).len() == 4,
        vstd::utf8::is_ascii_chars("/"@),
        "/"@.len() == 1,
        vstd::utf8::is_ascii_chars("/mission"@),
        "/mission"@.len() == 8,
{
    reveal_strlit("/");
    reveal_strlit("/mission");
    reveal_strlit("/log_");
    reveal_strlit("/aud_");
    reveal_strlit("/gps_");
    reveal_strlit(".txt");
    reveal_strlit(".wav");
    reveal_strlit(".pps");
    reveal_strlit("_");
    text::lemma_decimal_ascii(timestamp as nat);
    text::lemma_decimal_fits(timestamp as nat);
    text::lemma_decimal_ascii(sequence as nat);
    text::lemma_decimal_fits(sequence as nat);
    match layout {
        StorageLayout::DailyFolders => lemma_folder_number(timestamp, 86_400),
        StorageLayout::HourlyFolders => lemma_folder_number(timestamp, 3_600),
        StorageLayout::IntervalFolders { interval_seconds } => lemma_folder_number(
            timestamp,
            interval_seconds as int,
        ),
        _ => {},
    }
}

/// An interval starts at or before its times, and not before the epoch.
proof fn lemma_folder_number(timestamp: int, interval: int)
    requires
        interval > 0,
        0 <= timestamp <= i64::MAX,
    ensures
        0 <= interval_start(timestamp, interval) <= timestamp,
        timestamp < interval_start(timestamp, interval) + interval,
        vstd::utf8::is_ascii_chars(text::signed_decimal(interval_start(timestamp, interval))),
        text::signed_decimal(interval_start(timestamp, interval)).len() <= 19,
{
    law_interval_holds_its_times(timestamp, interval);
    let start = interval_start(timestamp, interval);
    assert(start >= 0) by (nonlinear_arith)
        requires
            start == timestamp / interval * interval,
            timestamp >= 0,
            interval > 0,
    ;
    text::lemma_decimal_ascii(start as nat);
    text::lemma_decimal_fits(start as nat);
}

/// A time lies in the interval that it is filed under, and the interval starts
/// at a multiple of its length.
pub proof fn law_interval_holds_its_times(timestamp: int, interval: int)
    requires
        interval > 0,
    ensures
        interval_start(timestamp, interval) <= timestamp,
        timestamp < interval_start(timestamp, interval) + interval,
        interval_start(timestamp, interval) % interval == 0,
{
    let quotient = timestamp / interval;
    vstd::arithmetic::div_mod::lemma_fundamental_div_mod(timestamp, interval);
    vstd::arithmetic::div_mod::lemma_mod_bound(timestamp, interval);
    assert(quotient * interval == interval * quotient) by (nonlinear_arith);
    vstd::arithmetic::div_mod::lemma_mod_multiples_basic(quotient, interval);
}

/// Start of the interval that a time lies in.
fn align_down(timestamp: i64, interval: i64) -> (start: i64)
    requires
        timestamp >= 0,
        interval > 0,
    ensures
        start == interval_start(timestamp as int, interval as int),
{
    proof {
        lemma_folder_number(timestamp as int, interval as int);
    }
    timestamp / interval * interval
}

/// Appends a part that is known to fit.
fn push_part(path: &mut heapless::String<PATH_CAPACITY>, part: &str)
    requires
        vstd::utf8::is_ascii_chars(text::text(*old(path))),
        vstd::utf8::is_ascii_chars(part@),
        text::text(*old(path)).len() + part@.len() <= PATH_CAPACITY,
    ensures
        text::text(*final(path)) == text::text(*old(path)) + part@,
        vstd::utf8::is_ascii_chars(text::text(*final(path))),
{
    proof {
        text::lemma_ascii_byte_len(text::text(*path));
        text::lemma_ascii_byte_len(part@);
    }
    let fits: bool = text_push_str(path, part);
}

/// Appends the number of a folder that is known to fit.
fn push_folder(path: &mut heapless::String<PATH_CAPACITY>, timestamp: i64, interval: i64)
    requires
        text::text(*old(path)) == Seq::<char>::empty(),
        timestamp >= 0,
        interval > 0,
    ensures
        text::text(*final(path)) == "/"@ + text::signed_decimal(
            interval_start(timestamp as int, interval as int),
        ),
        vstd::utf8::is_ascii_chars(text::text(*final(path))),
{
    proof {
        reveal_strlit("/");
        lemma_folder_number(timestamp as int, interval as int);
    }
    push_part(path, "/");
    let number: heapless::String<20> = signed_text(align_down(timestamp, interval));
    push_part(path, text_as_str(&number));
    assert(text::text(*path) =~= "/"@ + text::signed_decimal(
        interval_start(timestamp as int, interval as int),
    ));
}

/// The path of a new stream. The one log of a flat layout keeps its name over
/// restarts; every other name carries the time and a running number.
pub fn stream_path<E>(
    kind: StreamKind,
    layout: StorageLayout,
    timestamp: Option<i64>,
    sequence: u32,
) -> (path: Result<heapless::String<PATH_CAPACITY>, StorageServiceError<E>>)
    ensures
        match path {
            Ok(path) => layout.valid() && (needs_time(kind, layout) ==> time_known(timestamp))
                && text::text(path) == path_text(kind, layout, timestamp, sequence),
            Err(StorageServiceError::InvalidConfig) => !layout.valid(),
            Err(StorageServiceError::InvalidTimestamp) => layout.valid() && needs_time(
                kind,
                layout,
            ) && !time_known(timestamp),
            Err(_) => false,
        },
{
    if !layout.is_valid() {
        return Err(StorageServiceError::InvalidConfig);
    }
    let mut path: heapless::String<PATH_CAPACITY> = text_new();
    if kind == StreamKind::Log && layout == StorageLayout::Flat {
        proof {
            reveal_strlit("/syslog.txt");
        }
        push_part(&mut path, "/syslog.txt");
        assert(text::text(path) =~= "/syslog.txt"@);
        return Ok(path);
    }
    let seconds: i64 = match timestamp {
        Some(seconds) => seconds,
        None => {
            return Err(StorageServiceError::InvalidTimestamp);
        },
    };
    if seconds < 0 {
        return Err(StorageServiceError::InvalidTimestamp);
    }
    proof {
        lemma_path_parts(layout, kind, seconds as int, sequence as int);
    }
    match layout {
        StorageLayout::Flat => {},
        StorageLayout::DailyFolders => push_folder(&mut path, seconds, 86_400),
        StorageLayout::HourlyFolders => push_folder(&mut path, seconds, 3_600),
        StorageLayout::MissionFolders => {
            push_part(&mut path, "/mission");
            assert(text::text(path) =~= "/mission"@);
        },
        StorageLayout::IntervalFolders { interval_seconds } => push_folder(
            &mut path,
            seconds,
            interval_seconds,
        ),
    }
    let (prefix, suffix) = match kind {
        StreamKind::Log => ("/log_", ".txt"),
        StreamKind::Audio => ("/aud_", ".wav"),
        StreamKind::GpsTiming => ("/gps_", ".pps"),
    };
    let time: heapless::String<20> = signed_text(seconds);
    let number: heapless::String<20> = signed_text(sequence as i64);
    push_part(&mut path, prefix);
    push_part(&mut path, text_as_str(&time));
    push_part(&mut path, "_");
    push_part(&mut path, text_as_str(&number));
    push_part(&mut path, suffix);
    assert(text::text(path) =~= path_text(kind, layout, timestamp, sequence));
    Ok(path)
}

// ---- folders ---------------------------------------------------------------

/// The byte of a slash.
pub const SLASH: u8 = 47;

/// Whether the last slash of a path stands at byte `end`.
pub open spec fn last_slash(path: Seq<u8>, end: int) -> bool {
    &&& 0 <= end < path.len()
    &&& path[end] == SLASH
    &&& forall|i: int| end < i < path.len() ==> path[i] != SLASH
}

/// The bytes of a path.
pub open spec fn bytes_of(chars: Seq<char>) -> Seq<u8> {
    vstd::utf8::encode_utf8(chars)
}

/// Position of the last slash in a path.
fn find_last_slash(path: &str) -> (end: Option<usize>)
    ensures
        match end {
            Some(end) => last_slash(bytes_of(path@), end as int),
            None => forall|i: int|
                0 <= i < bytes_of(path@).len() ==> bytes_of(path@)[i] != SLASH,
        },
{
    let bytes: &[u8] = path.as_bytes();
    let mut end: usize = bytes.len();
    while end > 0
        invariant
            bytes@ == bytes_of(path@),
            end <= bytes@.len(),
            forall|i: int| end <= i < bytes@.len() ==> bytes@[i] != SLASH,
        decreases end,
    {
        if bytes[end - 1] == SLASH {
            return Some(end - 1);
        }
        end = end - 1;
    }
    None
}

/// The folder of a path: what stands before its last slash, or nothing where
/// the path lies at the root.
pub fn folder_path<E>(path: &str) -> (folder: Result<
    Option<heapless::String<PATH_CAPACITY>>,
    StorageServiceError<E>,
>)
    ensures
        match folder {
            Ok(None) => last_slash(bytes_of(path@), 0),
            Ok(Some(folder)) => exists|end: int|
                0 < end <= PATH_CAPACITY && #[trigger] last_slash(bytes_of(path@), end) && bytes_of(
                    text::text(folder),
                ) == bytes_of(path@).take(end),
            Err(StorageServiceError::InvalidPath) => forall|end: int| #[trigger]
                last_slash(bytes_of(path@), end) ==> end > PATH_CAPACITY,
            Err(_) => false,
        },
{
    let end: usize = match find_last_slash(path) {
        Some(end) => end,
        None => {
            return Err(StorageServiceError::InvalidPath);
        },
    };
    if end == 0 {
        return Ok(None);
    }
    let ghost bytes = bytes_of(path@);
    proof {
        vstd::utf8::encode_utf8_valid_utf8(path@);
        vstd::utf8::is_char_boundary_iff_not_is_continuation_byte(bytes, end as int);
    }
    let (before, name) = path.split_at(end);
    let mut folder: heapless::String<PATH_CAPACITY> = text_new();
    proof {
        assert(bytes_of(Seq::<char>::empty()) =~= Seq::<u8>::empty());
        assert(Seq::<char>::empty() + before@ =~= before@);
        assert(bytes_of(before@) =~= bytes.take(end as int));
    }
    if text_push_str(&mut folder, before) {
        Ok(Some(folder))
    } else {
        Err(StorageServiceError::InvalidPath)
    }
}

/// The bytes of ASCII text are its characters.
proof fn lemma_ascii_bytes(chars: Seq<char>)
    requires
        vstd::utf8::is_ascii_chars(chars),
    ensures
        bytes_of(chars).len() == chars.len(),
        forall|i: int| 0 <= i < chars.len() ==> bytes_of(chars)[i] == #[trigger] chars[i] as u8,
{
    vstd::utf8::is_ascii_chars_encode_utf8(chars);
}

/// The last slash of a stream's path stands right behind its folder, so the
/// folder of the path is the folder that the layout gives.
pub proof fn lemma_folder_of_path(
    kind: StreamKind,
    layout: StorageLayout,
    timestamp: Option<i64>,
    sequence: u32,
)
    requires
        layout.valid(),
        needs_time(kind, layout) ==> time_known(timestamp),
    ensures
        ({
            let folder = if needs_time(kind, layout) {
                folder_text(layout, timestamp->0 as int)
            } else {
                Seq::<char>::empty()
            };
            let path = bytes_of(path_text(kind, layout, timestamp, sequence));
            &&& folder.len() <= 20
            &&& last_slash(path, folder.len() as int)
            &&& forall|end: int| #[trigger] last_slash(path, end) ==> end == folder.len()
            &&& forall|chars: Seq<char>| #[trigger]
                bytes_of(chars) == path.take(folder.len() as int) ==> chars == folder
        }),
{
    let path = path_text(kind, layout, timestamp, sequence);
    let bytes = bytes_of(path);
    if needs_time(kind, layout) {
        let seconds = timestamp->0 as int;
        let folder = folder_text(layout, seconds);
        let name = name_text(kind, seconds, sequence as int);
        lemma_path_parts(layout, kind, seconds, sequence as int);
        reveal_strlit("/log_");
        reveal_strlit("/aud_");
        reveal_strlit("/gps_");
        reveal_strlit(".txt");
        reveal_strlit(".wav");
        reveal_strlit(".pps");
        reveal_strlit("_");
        text::lemma_decimal_ascii(seconds as nat);
        text::lemma_decimal_ascii(sequence as nat);
        assert(vstd::utf8::is_ascii_chars(path));
        lemma_ascii_bytes(path);
        lemma_ascii_bytes(folder);
        assert(path[folder.len() as int] == name[0]);
        assert(bytes[folder.len() as int] == SLASH);
        assert forall|i: int| folder.len() < i < bytes.len() implies bytes[i] != SLASH by {
            let c = name[i - folder.len()];
            assert(path[i] == c);
            assert(c != '/');
        }
        assert(last_slash(bytes, folder.len() as int));
        assert(bytes.take(folder.len() as int) =~= bytes_of(folder)) by {
            assert forall|i: int| 0 <= i < folder.len() implies bytes[i] == bytes_of(folder)[i] by {
                assert(path[i] == folder[i]);
            }
        }
        lemma_bytes_name_text(folder);
    } else {
        reveal_strlit("/syslog.txt");
        assert(vstd::utf8::is_ascii_chars(path));
        lemma_ascii_bytes(path);
        assert(path[0] == '/');
        assert forall|i: int| 0 < i < bytes.len() implies bytes[i] != SLASH by {
            assert(path[i] != '/');
        }
        assert(last_slash(bytes, 0));
        assert(bytes_of(Seq::<char>::empty()) =~= Seq::<u8>::empty());
        assert(bytes.take(0) =~= Seq::<u8>::empty());
        lemma_bytes_name_text(Seq::<char>::empty());
    }
}

/// Text is determined by its bytes.
proof fn lemma_bytes_name_text(text: Seq<char>)
    ensures
        forall|chars: Seq<char>| #[trigger] bytes_of(chars) == bytes_of(text) ==> chars == text,
{
    assert forall|chars: Seq<char>| #[trigger] bytes_of(chars) == bytes_of(text) implies chars
        == text by {
        vstd::utf8::encode_utf8_decode_utf8(chars);
        vstd::utf8::encode_utf8_decode_utf8(text);
    }
}

// ---- laws ------------------------------------------------------------------

/// Two numbers with an underscore between them can be told apart again.
proof fn lemma_number_pair(a: nat, b: nat, c: nat, d: nat, end: Seq<char>)
    requires
        text::decimal(a) + "_"@ + text::decimal(b) + end == text::decimal(c) + "_"@
            + text::decimal(d) + end,
        end.len() > 0,
        end[0] == '.',
    ensures
        a == c,
        b == d,
{
    reveal_strlit("_");
    let left = text::decimal(a) + "_"@ + text::decimal(b) + end;
    let right = text::decimal(c) + "_"@ + text::decimal(d) + end;
    text::lemma_decimal_ascii(a);
    text::lemma_decimal_ascii(b);
    text::lemma_decimal_ascii(c);
    text::lemma_decimal_ascii(d);
    let first = text::decimal(a).len() as int;
    let other = text::decimal(c).len() as int;
    assert(left[first] == '_');
    assert(right[other] == '_');
    if first < other {
        assert(right[first] == text::decimal(c)[first]);
    }
    if other < first {
        assert(left[other] == text::decimal(a)[other]);
    }
    assert(text::decimal(a) =~= left.take(first));
    assert(text::decimal(c) =~= right.take(other));
    assert(text::decimal(b) =~= left.subrange(first + 1, left.len() - end.len()));
    assert(text::decimal(d) =~= right.subrange(other + 1, right.len() - end.len()));
    text::law_decimal_reads_back(a);
    text::law_decimal_reads_back(b);
    text::law_decimal_reads_back(c);
    text::law_decimal_reads_back(d);
}

/// A file name tells the kind, the time and the running number of its stream.
proof fn lemma_name_tells_all(
    kind: StreamKind,
    timestamp: int,
    sequence: int,
    other_kind: StreamKind,
    other_timestamp: int,
    other_sequence: int,
)
    requires
        timestamp >= 0,
        sequence >= 0,
        other_timestamp >= 0,
        other_sequence >= 0,
        name_text(kind, timestamp, sequence) == name_text(
            other_kind,
            other_timestamp,
            other_sequence,
        ),
    ensures
        kind == other_kind,
        timestamp == other_timestamp,
        sequence == other_sequence,
{
    reveal_strlit("/log_");
    reveal_strlit("/aud_");
    reveal_strlit("/gps_");
    reveal_strlit(".txt");
    reveal_strlit(".wav");
    reveal_strlit(".pps");
    let name = name_text(kind, timestamp, sequence);
    let other = name_text(other_kind, other_timestamp, other_sequence);
    assert(name[1] == name_prefix(kind)[1]);
    assert(other[1] == name_prefix(other_kind)[1]);
    let end = name_suffix(kind);
    let rest = text::decimal(timestamp as nat) + "_"@ + text::decimal(sequence as nat) + end;
    let other_rest = text::decimal(other_timestamp as nat) + "_"@ + text::decimal(
        other_sequence as nat,
    ) + end;
    assert(name.skip(5) =~= rest);
    assert(other.skip(5) =~= other_rest);
    lemma_number_pair(
        timestamp as nat,
        sequence as nat,
        other_timestamp as nat,
        other_sequence as nat,
        end,
    );
}

/// Streams have their own files: but for the one log of a flat layout, two
/// streams that share a path are of the same kind and began at the same time
/// with the same running number.
pub proof fn law_streams_have_their_own_files(
    kind: StreamKind,
    layout: StorageLayout,
    timestamp: Option<i64>,
    sequence: u32,
    other_kind: StreamKind,
    other_layout: StorageLayout,
    other_timestamp: Option<i64>,
    other_sequence: u32,
)
    requires
        layout.valid(),
        other_layout.valid(),
        needs_time(kind, layout),
        needs_time(other_kind, other_layout),
        time_known(timestamp),
        time_known(other_timestamp),
        path_text(kind, layout, timestamp, sequence) == path_text(
            other_kind,
            other_layout,
            other_timestamp,
            other_sequence,
        ),
    ensures
        kind == other_kind,
        timestamp == other_timestamp,
        sequence == other_sequence,
{
    let path = path_text(kind, layout, timestamp, sequence);
    let folder = folder_text(layout, timestamp->0 as int);
    let other_folder = folder_text(other_layout, other_timestamp->0 as int);
    lemma_folder_of_path(kind, layout, timestamp, sequence);
    lemma_folder_of_path(other_kind, other_layout, other_timestamp, other_sequence);
    assert(last_slash(bytes_of(path), folder.len() as int));
    assert(folder.len() == other_folder.len());
    assert(path.skip(folder.len() as int) =~= name_text(
        kind,
        timestamp->0 as int,
        sequence as int,
    ));
    assert(path.skip(folder.len() as int) =~= name_text(
        other_kind,
        other_timestamp->0 as int,
        other_sequence as int,
    ));
    lemma_name_tells_all(
        kind,
        timestamp->0 as int,
        sequence as int,
        other_kind,
        other_timestamp->0 as int,
        other_sequence as int,
    );
}

} // verus!
