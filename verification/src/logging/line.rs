//! Text that is cut where its room ends, and the lines of a log.
use crate::logging::resources::LogRecord;
use crate::text;
use crate::text::{decimal_text, padded_text, text_as_str, text_new, text_push, text_push_str};
use vstd::prelude::*;
use vstd::string::StrSliceExecFns;

verus! {

/// Bytes that a character takes in UTF-8.
pub open spec fn char_bytes(c: char) -> int {
    vstd::utf8::encode_scalar(c as u32).len() as int
}

/// The longest run of leading characters that fits into `room` bytes.
pub open spec fn fitting(chars: Seq<char>, room: int) -> Seq<char>
    decreases chars.len(),
{
    if chars.len() == 0 || char_bytes(chars[0]) > room {
        Seq::empty()
    } else {
        seq![chars[0]] + fitting(chars.drop_first(), room - char_bytes(chars[0]))
    }
}

/// Bytes still free below a limit.
pub open spec fn room_left(output: Seq<char>, limit: int) -> int {
    if limit >= text::byte_len(output) {
        limit - text::byte_len(output)
    } else {
        0
    }
}

/// The text after fragments were written one by one, each cut to the room that
/// is left.
pub open spec fn written(output: Seq<char>, limit: int, fragments: Seq<Seq<char>>) -> Seq<char>
    decreases fragments.len(),
{
    if fragments.len() == 0 {
        output
    } else {
        let before = written(output, limit, fragments.drop_last());
        before + fitting(fragments.last(), room_left(before, limit))
    }
}

/// Whether any of the fragments had to be cut.
pub open spec fn shortened(output: Seq<char>, limit: int, fragments: Seq<Seq<char>>) -> bool
    decreases fragments.len(),
{
    if fragments.len() == 0 {
        false
    } else {
        let before = written(output, limit, fragments.drop_last());
        shortened(output, limit, fragments.drop_last()) || text::byte_len(fragments.last())
            > room_left(before, limit)
    }
}

// ---- what fits -------------------------------------------------------------

/// The bytes of a first character and of the rest.
proof fn lemma_encode_first(chars: Seq<char>)
    requires
        chars.len() > 0,
    ensures
        ({
            let bytes = vstd::utf8::encode_utf8(chars);
            &&& vstd::utf8::valid_utf8(bytes)
            &&& vstd::utf8::length_of_first_scalar(bytes) == char_bytes(chars[0])
            &&& vstd::utf8::pop_first_scalar(bytes) == vstd::utf8::encode_utf8(chars.drop_first())
            &&& bytes.len() == char_bytes(chars[0]) + text::byte_len(chars.drop_first())
            &&& char_bytes(chars[0]) >= 1
        }),
{
    let bytes = vstd::utf8::encode_utf8(chars);
    vstd::utf8::encode_utf8_valid_utf8(chars);
    vstd::utf8::encode_utf8_first_scalar(chars);
    assert(vstd::utf8::pop_first_scalar(bytes) =~= vstd::utf8::encode_utf8(chars.drop_first()));
}

/// What fits is a beginning of the text that stays within the room, and one
/// character more would not fit.
pub proof fn law_cut_text_is_the_longest_beginning(chars: Seq<char>, room: int)
    requires
        room >= 0,
    ensures
        ({
            let kept = fitting(chars, room);
            &&& kept.len() <= chars.len()
            &&& kept == chars.take(kept.len() as int)
            &&& text::byte_len(kept) <= room
            &&& kept.len() < chars.len() ==> text::byte_len(chars.take(kept.len() as int + 1)) > room
        }),
    decreases chars.len(),
{
    let kept = fitting(chars, room);
    if chars.len() == 0 {
        assert(kept =~= chars.take(0));
    } else {
        lemma_encode_first(chars);
        if char_bytes(chars[0]) > room {
            assert(kept =~= chars.take(0));
            assert(chars.take(1).drop_first() =~= Seq::<char>::empty());
            lemma_encode_first(chars.take(1));
        } else {
            let rest = chars.drop_first();
            law_cut_text_is_the_longest_beginning(rest, room - char_bytes(chars[0]));
            let inner = fitting(rest, room - char_bytes(chars[0]));
            assert(kept.drop_first() =~= inner);
            assert(kept =~= chars.take(kept.len() as int)) by {
                assert forall|i: int| 0 <= i < kept.len() implies kept[i] == chars[i] by {
                    if i > 0 {
                        assert(kept[i] == inner[i - 1]);
                        assert(inner[i - 1] == rest[i - 1]);
                    }
                }
            }
            lemma_encode_first(kept);
            if kept.len() < chars.len() {
                let longer = chars.take(kept.len() as int + 1);
                assert(longer.drop_first() =~= rest.take(inner.len() as int + 1));
                lemma_encode_first(longer);
            }
        }
    }
}

/// Text that fits is not cut.
pub proof fn law_fitting_text_is_kept_whole(chars: Seq<char>, room: int)
    requires
        text::byte_len(chars) <= room,
    ensures
        fitting(chars, room) == chars,
{
    law_cut_text_is_the_longest_beginning(chars, room);
    let kept = fitting(chars, room);
    if kept.len() < chars.len() {
        let longer = chars.take(kept.len() as int + 1);
        assert(longer + chars.skip(kept.len() as int + 1) =~= chars);
        text::lemma_encode_concat(longer, chars.skip(kept.len() as int + 1));
    }
    assert(kept =~= chars);
}

/// The last character boundary within the room is where the fitting text ends.
proof fn lemma_boundary_ends_fitting(chars: Seq<char>, room: int, end: int)
    requires
        0 <= end <= room,
        room <= text::byte_len(chars),
        vstd::utf8::is_char_boundary(vstd::utf8::encode_utf8(chars), end),
        forall|j: int|
            end < j <= room ==> !#[trigger] vstd::utf8::is_char_boundary(
                vstd::utf8::encode_utf8(chars),
                j,
            ),
    ensures
        vstd::utf8::encode_utf8(fitting(chars, room)) == vstd::utf8::encode_utf8(chars).take(end),
    decreases chars.len(),
{
    let bytes = vstd::utf8::encode_utf8(chars);
    if chars.len() == 0 {
        assert(bytes.take(end) =~= Seq::<u8>::empty());
    } else {
        lemma_encode_first(chars);
        let width = char_bytes(chars[0]);
        let rest = chars.drop_first();
        let tail = vstd::utf8::encode_utf8(rest);
        vstd::utf8::encode_utf8_valid_utf8(rest);
        reveal_with_fuel(vstd::utf8::is_char_boundary, 2);
        if width > room {
            assert(end == 0);
            assert(bytes.take(0) =~= Seq::<u8>::empty());
        } else {
            assert(vstd::utf8::is_char_boundary(tail, 0));
            assert(vstd::utf8::is_char_boundary(bytes, width));
            assert(width <= end);
            assert forall|j: int| end - width < j <= room - width implies !#[trigger]
                vstd::utf8::is_char_boundary(tail, j) by {
                assert(!vstd::utf8::is_char_boundary(bytes, j + width));
            }
            lemma_boundary_ends_fitting(rest, room - width, end - width);
            let kept = fitting(chars, room);
            assert(kept.drop_first() =~= fitting(rest, room - width));
            assert(kept[0] == chars[0]);
            assert(vstd::utf8::encode_utf8(kept) =~= bytes.take(end));
        }
    }
}

// ---- writing ---------------------------------------------------------------

/// Text of at most `limit` bytes that forgets what does not fit, never in the
/// middle of a character.
pub struct TruncatingWriter<const N: usize> {
    output: heapless::String<N>,
    limit: usize,
    truncated: bool,
}

impl<const N: usize> TruncatingWriter<N> {
    /// What was written.
    pub closed spec fn output(self) -> Seq<char> {
        text::text(self.output)
    }

    /// Most bytes that may be written.
    pub closed spec fn limit(self) -> int {
        self.limit as int
    }

    /// Whether anything was cut off.
    pub closed spec fn was_truncated(self) -> bool {
        self.truncated
    }

    /// The text stays within its limit and its storage.
    pub open spec fn well_formed(self) -> bool {
        text::byte_len(self.output()) <= self.limit() <= N
    }

    /// A writer with nothing written.
    pub fn new(limit: usize) -> (writer: Self)
        ensures
            writer.well_formed(),
            writer.output() == Seq::<char>::empty(),
            writer.limit() == (if limit <= N {
                limit
            } else {
                N
            }),
            !writer.was_truncated(),
    {
        let limit: usize = if limit <= N {
            limit
        } else {
            N
        };
        assert(vstd::utf8::encode_utf8(Seq::<char>::empty()) =~= Seq::<u8>::empty());
        TruncatingWriter { output: text_new(), limit, truncated: false }
    }

    /// Whether anything was cut off.
    pub fn truncated(&self) -> (truncated: bool)
        ensures
            truncated == self.was_truncated(),
    {
        self.truncated
    }

    /// What was written.
    pub fn into_output(self) -> (output: heapless::String<N>)
        ensures
            text::text(output) == self.output(),
    {
        self.output
    }

    /// Appends a fragment, or as much of it as fits.
    pub fn write_str(&mut self, value: &str)
        requires
            old(self).well_formed(),
        ensures
            final(self).well_formed(),
            final(self).limit() == old(self).limit(),
            final(self).output() == old(self).output() + fitting(
                value@,
                room_left(old(self).output(), old(self).limit()),
            ),
            final(self).was_truncated() == (old(self).was_truncated() || text::byte_len(value@)
                > room_left(old(self).output(), old(self).limit())),
    {
        let used: usize = text_as_str(&self.output).len();
        let room: usize = self.limit - used;
        let ghost before = self.output();
        let size: usize = value.as_bytes().len();
        if size <= room {
            let fits: bool = text_push_str(&mut self.output, value);
            proof {
                law_fitting_text_is_kept_whole(value@, room as int);
                text::lemma_encode_concat(before, value@);
            }
            return;
        }
        let mut end: usize = room;
        let ghost bytes = vstd::utf8::encode_utf8(value@);
        proof {
            vstd::utf8::encode_utf8_valid_utf8(value@);
            vstd::utf8::is_char_boundary_start_end_of_seq(bytes);
        }
        while end > 0 && !value.is_char_boundary(end)
            invariant
                end <= room,
                bytes == vstd::utf8::encode_utf8(value@),
                forall|j: int|
                    end < j <= room ==> !#[trigger] vstd::utf8::is_char_boundary(bytes, j),
            decreases end,
        {
            end = end - 1;
        }
        let (kept, cut) = value.split_at(end);
        proof {
            lemma_boundary_ends_fitting(value@, room as int, end as int);
            law_cut_text_is_the_longest_beginning(value@, room as int);
            assert(bytes.take(end as int) =~= bytes.subrange(0, end as int));
            vstd::utf8::encode_utf8_decode_utf8(kept@);
            vstd::utf8::encode_utf8_decode_utf8(fitting(value@, room as int));
            assert(kept@ == fitting(value@, room as int));
            text::lemma_encode_concat(before, kept@);
        }
        let fits: bool = text_push_str(&mut self.output, kept);
        self.truncated = true;
    }

    /// Appends several fragments.
    pub fn write_all(&mut self, fragments: &[&str])
        requires
            old(self).well_formed(),
        ensures
            final(self).well_formed(),
            final(self).limit() == old(self).limit(),
            final(self).output() == written(
                old(self).output(),
                old(self).limit(),
                fragment_chars(fragments@),
            ),
            final(self).was_truncated() == (old(self).was_truncated() || shortened(
                old(self).output(),
                old(self).limit(),
                fragment_chars(fragments@),
            )),
    {
        let mut index: usize = 0;
        let ghost all = fragment_chars(fragments@);
        assert(all.take(0) =~= Seq::<Seq<char>>::empty());
        while index < fragments.len()
            invariant
                index <= fragments@.len(),
                all == fragment_chars(fragments@),
                self.well_formed(),
                self.limit() == old(self).limit(),
                self.output() == written(
                    old(self).output(),
                    old(self).limit(),
                    all.take(index as int),
                ),
                self.was_truncated() == (old(self).was_truncated() || shortened(
                    old(self).output(),
                    old(self).limit(),
                    all.take(index as int),
                )),
            decreases fragments.len() - index,
        {
            proof {
                assert(all.take(index + 1).drop_last() =~= all.take(index as int));
                assert(all.take(index + 1).last() == fragments@[index as int]@);
            }
            self.write_str(fragments[index]);
            index = index + 1;
        }
        assert(all.take(index as int) =~= all);
    }
}

/// The characters of fragments.
pub open spec fn fragment_chars(fragments: Seq<&str>) -> Seq<Seq<char>> {
    Seq::new(fragments.len(), |i: int| fragments[i]@)
}

// ---- lines -----------------------------------------------------------------

/// A run of spaces that fills text up to a width.
pub open spec fn fill(chars: Seq<char>, width: int) -> Seq<char> {
    Seq::new(
        if chars.len() < width {
            (width - chars.len()) as nat
        } else {
            0
        },
        |i: int| ' ',
    )
}

/// The fragments of a record's line: running number, local time in seconds,
/// level, component and message.
pub open spec fn line_fragments<const M: usize>(record: LogRecord<M>) -> Seq<Seq<char>> {
    let micros = record.timestamp@ * 1_000_000 / crate::clock::TICK_HZ as int;
    seq![
        text::padded_decimal(record.sequence as nat, 10),
        " "@,
        text::decimal((micros / 1_000_000) as nat),
        "."@,
        text::padded_decimal((micros % 1_000_000 / 1_000) as nat, 3),
        " "@,
        record.level.label(),
        fill(record.level.label(), 5),
        " "@,
        record.component@,
        fill(record.component@, 10),
        " "@,
        text::text(record.message),
    ]
}

/// The text of a record's line.
pub open spec fn line_text<const M: usize>(record: LogRecord<M>, length: int) -> Seq<char> {
    if length == 0 {
        Seq::empty()
    } else {
        written(Seq::empty(), length - 1, line_fragments(record)) + "\n"@
    }
}

/// Whether a record's line loses its end.
pub open spec fn line_cut<const M: usize>(record: LogRecord<M>, length: int) -> bool {
    shortened(
        Seq::empty(),
        if length == 0 {
            0
        } else {
            length - 1
        },
        line_fragments(record),
    )
}

/// Spaces that fill text up to a width of at most ten.
fn filler(value: &str, width: usize) -> (spaces: &'static str)
    requires
        width <= 10,
    ensures
        spaces@ == fill(value@, width as int),
{
    let count: usize = value.unicode_len();
    let missing: usize = if count < width {
        width - count
    } else {
        0
    };
    let all: &'static str = "          ";
    proof {
        reveal_strlit("          ");
    }
    let spaces: &'static str = all.substring_char(0, missing);
    assert(spaces@ =~= fill(value@, width as int));
    spaces
}

/// The line of a record, of at most `LINE_LENGTH` bytes with its line break,
/// and whether its end was cut off.
pub fn format_line<const MESSAGE_LENGTH: usize, const LINE_LENGTH: usize>(
    record: &LogRecord<MESSAGE_LENGTH>,
) -> (result: (heapless::String<LINE_LENGTH>, bool))
    ensures
        text::text(result.0) == line_text(*record, LINE_LENGTH as int),
        result.1 == line_cut(*record, LINE_LENGTH as int),
        text::byte_len(text::text(result.0)) <= LINE_LENGTH,
{
    let timestamp_us: u64 = record.timestamp.as_micros();
    let sequence: heapless::String<20> = padded_text(record.sequence, 10);
    let seconds: heapless::String<20> = decimal_text(timestamp_us / 1_000_000);
    let milliseconds: heapless::String<20> = padded_text(timestamp_us % 1_000_000 / 1_000, 3);
    let level: &'static str = record.level.name();
    let level_fill: &'static str = filler(level, 5);
    let component_fill: &'static str = filler(record.component, 10);
    let limit: usize = if LINE_LENGTH > 0 {
        LINE_LENGTH - 1
    } else {
        0
    };
    let mut writer: TruncatingWriter<LINE_LENGTH> = TruncatingWriter::new(limit);
    let fragments: [&str; 13] = [
        text_as_str(&sequence),
        " ",
        text_as_str(&seconds),
        ".",
        text_as_str(&milliseconds),
        " ",
        level,
        level_fill,
        " ",
        record.component,
        component_fill,
        " ",
        text_as_str(&record.message),
    ];
    writer.write_all(fragments.as_slice());
    assert(fragment_chars(fragments@) =~= line_fragments(*record));
    let truncated: bool = writer.truncated();
    let mut line: heapless::String<LINE_LENGTH> = writer.into_output();
    if LINE_LENGTH > 0 {
        proof {
            reveal_strlit("\n");
            text::lemma_ascii_byte_len(seq!['\n']);
            text::lemma_encode_concat(text::text(line), seq!['\n']);
            assert("\n"@ =~= seq!['\n']);
        }
        let fits: bool = text_push(&mut line, '\n');
        assert(text::text(line) =~= line_text(*record, LINE_LENGTH as int));
    } else {
        proof {
            lemma_no_room_no_text(line_fragments(*record));
            assert(vstd::utf8::encode_utf8(Seq::<char>::empty()) =~= Seq::<u8>::empty());
        }
    }
    (line, truncated)
}

/// Nothing can be written where there is no room.
proof fn lemma_no_room_no_text(fragments: Seq<Seq<char>>)
    ensures
        written(Seq::empty(), 0, fragments) == Seq::<char>::empty(),
    decreases fragments.len(),
{
    assert(vstd::utf8::encode_utf8(Seq::<char>::empty()) =~= Seq::<u8>::empty());
    if fragments.len() > 0 {
        lemma_no_room_no_text(fragments.drop_last());
        let last = fragments.last();
        if last.len() > 0 {
            lemma_encode_first(last);
        }
        assert(fitting(last, 0) =~= Seq::<char>::empty());
    }
}

} // verus!
