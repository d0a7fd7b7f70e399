//! Line and column positions in a source text.
//!
//! Lines end at the byte `\n` and both coordinates count from zero. A column is
//! counted in bytes of the UTF-8 encoding.
use vstd::prelude::*;

verus! {

/// The byte that ends a line.
pub const NEWLINE: u8 = 10;

/// A place in a source text.
#[derive(Clone, Copy, Debug, PartialEq, Eq, Structural)]
pub struct Position {
    /// How many line ends come before the place.
    pub line: usize,
    /// How many bytes of its line come before the place.
    pub character: usize,
}

/// The places at which a part of a source text begins and ends.
#[derive(Clone, Copy, Debug, PartialEq, Eq, Structural)]
pub struct PositionRange {
    pub start: Position,
    pub end: Position,
}

/// A place in a source text, in unbounded numbers.
pub struct PositionView {
    pub line: nat,
    pub character: int,
}

/// Two places in a source text, in unbounded numbers.
pub struct RangeView {
    pub start: PositionView,
    pub end: PositionView,
}

impl View for Position {
    type V = PositionView;

    open spec fn view(&self) -> PositionView {
        PositionView { line: self.line as nat, character: self.character as int }
    }
}

impl View for PositionRange {
    type V = RangeView;

    open spec fn view(&self) -> RangeView {
        RangeView { start: self.start@, end: self.end@ }
    }
}

/// The byte offsets at which a part of a source text begins and ends.
#[derive(Clone, Copy, Debug, PartialEq, Eq, Structural)]
pub struct Span {
    pub start: u32,
    pub end: u32,
}

/// How many line ends `bytes` holds.
pub open spec fn newline_count(bytes: Seq<u8>) -> nat
    decreases bytes.len(),
{
    if bytes.len() == 0 {
        0
    } else if bytes.last() == NEWLINE {
        newline_count(bytes.drop_last()) + 1
    } else {
        newline_count(bytes.drop_last())
    }
}

/// The offset just past the last line end of `bytes`, zero if there is none.
pub open spec fn line_start(bytes: Seq<u8>) -> nat
    decreases bytes.len(),
{
    if bytes.len() == 0 {
        0
    } else if bytes.last() == NEWLINE {
        bytes.len()
    } else {
        line_start(bytes.drop_last())
    }
}

/// What stands in `bytes` before the offset `index`: all of it, if the offset
/// lies behind the end.
pub open spec fn before(bytes: Seq<u8>, index: nat) -> Seq<u8> {
    if index <= bytes.len() {
        bytes.take(index as int)
    } else {
        bytes
    }
}

/// The line of the offset `index`.
pub open spec fn line_of(bytes: Seq<u8>, index: nat) -> nat {
    newline_count(before(bytes, index))
}

/// The column of the offset `index`.
pub open spec fn column_of(bytes: Seq<u8>, index: nat) -> int {
    index - line_start(before(bytes, index))
}

/// The place of the offset `index`.
pub open spec fn position_of(bytes: Seq<u8>, index: nat) -> PositionView {
    PositionView { line: line_of(bytes, index), character: column_of(bytes, index) }
}

/// The places of the two ends of `span`.
pub open spec fn range_of(bytes: Seq<u8>, span: Span) -> RangeView {
    RangeView {
        start: position_of(bytes, span.start as nat),
        end: position_of(bytes, span.end as nat),
    }
}

/// Whether `a` is `b` or comes before it in the text.
pub open spec fn not_after(a: PositionView, b: PositionView) -> bool {
    a.line < b.line || (a.line == b.line && a.character <= b.character)
}

proof fn lemma_line_start(bytes: Seq<u8>)
    ensures
        line_start(bytes) <= bytes.len(),
        line_start(bytes) > 0 ==> bytes[line_start(bytes) - 1] == NEWLINE,
        forall|k: int| line_start(bytes) <= k < bytes.len() ==> bytes[k] != NEWLINE,
    decreases bytes.len(),
{
    if bytes.len() > 0 && bytes.last() != NEWLINE {
        let rest = bytes.drop_last();
        lemma_line_start(rest);
        assert forall|k: int| line_start(bytes) <= k < bytes.len() implies bytes[k]
            != NEWLINE by {
            if k < rest.len() {
                assert(rest[k] == bytes[k]);
            }
        }
    }
}

/// The first place of a text is line zero, column zero, and one byte further the
/// place moves on: past a line end to column zero of the next line, otherwise one
/// column along.
pub proof fn law_positions_advance(bytes: Seq<u8>, index: nat)
    requires
        index < bytes.len(),
    ensures
        position_of(bytes, 0) == (PositionView { line: 0, character: 0 }),
        bytes[index as int] == NEWLINE ==> position_of(bytes, index + 1) == (PositionView {
            line: line_of(bytes, index) + 1,
            character: 0,
        }),
        bytes[index as int] != NEWLINE ==> position_of(bytes, index + 1) == (PositionView {
            line: line_of(bytes, index),
            character: column_of(bytes, index) + 1,
        }),
{
    let next = before(bytes, index + 1);
    assert(next.drop_last() =~= before(bytes, index));
    assert(next.last() == bytes[index as int]);
}

/// A place in the text is never after a place at a higher offset.
pub proof fn law_positions_keep_order(bytes: Seq<u8>, i: nat, j: nat)
    requires
        i <= j,
    ensures
        not_after(position_of(bytes, i), position_of(bytes, j)),
    decreases j - i,
{
    if i < j {
        let previous = (j - 1) as nat;
        law_positions_keep_order(bytes, i, previous);
        if previous < bytes.len() {
            law_positions_advance(bytes, previous);
            lemma_line_start(before(bytes, previous));
        } else {
            assert(before(bytes, previous) =~= before(bytes, j));
        }
    }
}

/// No two offsets have the same place: a place tells which offset it was made from.
pub proof fn law_positions_are_distinct(bytes: Seq<u8>, i: nat, j: nat)
    requires
        position_of(bytes, i) == position_of(bytes, j),
    ensures
        i == j,
{
    if i < j {
        lemma_later_is_other(bytes, i, j);
    } else if j < i {
        lemma_later_is_other(bytes, j, i);
    }
}

proof fn lemma_later_is_other(bytes: Seq<u8>, i: nat, j: nat)
    requires
        i < j,
    ensures
        line_of(bytes, i) < line_of(bytes, j) || column_of(bytes, i) < column_of(bytes, j),
{
    law_positions_keep_order(bytes, i + 1, j);
    if i < bytes.len() {
        law_positions_advance(bytes, i);
    } else {
        assert(before(bytes, i) =~= before(bytes, i + 1));
    }
}

/// A part of a text that does not end before it begins has its places in that order.
pub proof fn law_ranges_keep_order(bytes: Seq<u8>, span: Span)
    requires
        span.start <= span.end,
    ensures
        not_after(range_of(bytes, span).start, range_of(bytes, span).end),
{
    law_positions_keep_order(bytes, span.start as nat, span.end as nat);
}

/// A place names a line end before it or the start of the text: its column is the
/// distance from there, and no line end lies between.
pub proof fn law_column_counts_from_line_start(bytes: Seq<u8>, index: nat)
    requires
        index <= bytes.len(),
    ensures
        0 <= column_of(bytes, index) <= index,
        column_of(bytes, index) < index ==> bytes[index - column_of(bytes, index) - 1] == NEWLINE,
        forall|k: int| index - column_of(bytes, index) <= k < index ==> bytes[k] != NEWLINE,
{
    let prefix = before(bytes, index);
    lemma_line_start(prefix);
    assert forall|k: int| index - column_of(bytes, index) <= k < index implies bytes[k]
        != NEWLINE by {
        assert(prefix[k] == bytes[k]);
    }
}

/// The place of the byte offset `index` in `source`.
pub fn byte_index_to_position(source: &str, index: u32) -> (position: Position)
    ensures
        position@ == position_of(vstd::utf8::encode_utf8(source@), index as nat),
{
    let bytes = source.as_bytes();
    let index: usize = index as usize;
    let mut line: usize = 0;
    let mut last_line_start: usize = 0;
    let mut i: usize = 0;
    while i < bytes.len() && i != index
        invariant
            i <= bytes@.len(),
            i <= index,
            line <= i,
            line == newline_count(bytes@.take(i as int)),
            last_line_start == line_start(bytes@.take(i as int)),
            last_line_start <= i,
        decreases bytes.len() - i,
    {
        assert(bytes@.take(i + 1).drop_last() =~= bytes@.take(i as int));
        if bytes[i] == NEWLINE {
            line += 1;
            last_line_start = i + 1;
        }
        i += 1;
    }
    assert(bytes@.take(i as int) =~= before(bytes@, index as nat));
    Position { line, character: index - last_line_start }
}

/// The places of the two ends of `span` in `source`.
pub fn span_to_position_range(source: &str, span: Span) -> (range: PositionRange)
    ensures
        range@ == range_of(vstd::utf8::encode_utf8(source@), span),
{
    PositionRange {
        start: byte_index_to_position(source, span.start),
        end: byte_index_to_position(source, span.end),
    }
}

/// Past the end of a text the line stays the last one, and the column moves on with the
/// offset.
pub proof fn law_positions_advance_past_the_end(bytes: Seq<u8>, index: nat)
    requires
        bytes.len() <= index,
    ensures
        position_of(bytes, index + 1).line == position_of(bytes, bytes.len()).line,
        position_of(bytes, index + 1).character == position_of(bytes, index).character + 1,
{
    assert(before(bytes, bytes.len()) =~= bytes);
    assert(before(bytes, index) =~= bytes);
}

/// A place is given by its line and its column.
pub proof fn law_position_is_line_and_column(bytes: Seq<u8>, index: nat)
    ensures
        position_of(bytes, index).line == line_of(bytes, index),
        position_of(bytes, index).character == column_of(bytes, index),
{
}

/// A line is the number of line ends before the place.
pub proof fn law_line_counts_line_ends(bytes: Seq<u8>, index: nat)
    requires
        index <= bytes.len(),
    ensures
        line_of(bytes, index) == bytes.take(index as int).filter(|byte: u8| byte == 10).len(),
{
    lemma_newline_count(bytes.take(index as int));
}

proof fn lemma_newline_count(bytes: Seq<u8>)
    ensures
        newline_count(bytes) == bytes.filter(|byte: u8| byte == 10).len(),
    decreases bytes.len(),
{
    reveal(Seq::filter);
    if bytes.len() > 0 {
        lemma_newline_count(bytes.drop_last());
    }
}

/// The range of a part of a text begins at the place of its first offset and ends at the
/// place of the offset behind it.
pub proof fn law_range_has_the_places_of_its_ends(bytes: Seq<u8>, span: Span)
    ensures
        range_of(bytes, span).start == position_of(bytes, span.start as nat),
        range_of(bytes, span).end == position_of(bytes, span.end as nat),
{
}

/// A range is known by the lines and columns of its two ends.
pub proof fn law_range_tells_all(range: PositionRange)
    ensures
        range@.start.line == range.start.line,
        range@.start.character == range.start.character,
        range@.end.line == range.end.line,
        range@.end.character == range.end.character,
{
}

/// Every text begins at line zero, column zero.
pub proof fn law_text_begins_at_zero(bytes: Seq<u8>)
    ensures
        position_of(bytes, 0).line == 0,
        position_of(bytes, 0).character == 0,
{
    assert(before(bytes, 0) =~= Seq::<u8>::empty());
}

} // verus!
