//! Range normalization: turning a raw two-endpoint selection into an ordered
//! sequence of per-line segments.

use vstd::prelude::*;

verus! {

/// A selection between two zero-based (line, column) endpoints, start before
/// or equal to end in lexicographic order. A column equal to the line's length
/// means "end of line".
#[derive(Clone, Copy, PartialEq, Eq, Structural, Debug)]
pub struct Selection {
    pub start_line: usize,
    pub start_col: usize,
    pub end_line: usize,
    pub end_col: usize,
}

/// A single-line sub-range derived from a selection: the columns
/// `[col_start, col_end)` of line `line`.
#[derive(Clone, Copy, PartialEq, Eq, Structural, Debug)]
pub struct Segment {
    pub line: usize,
    pub col_start: usize,
    pub col_end: usize,
}

/// A selection is valid for a document (given as the lengths of its lines)
/// when its endpoints are ordered, its lines exist, and its columns do not
/// pass the end of their lines.
pub open spec fn selection_valid(sel: Selection, lens: Seq<usize>) -> bool {
    &&& sel.start_line <= sel.end_line < lens.len()
    &&& sel.start_line == sel.end_line ==> sel.start_col <= sel.end_col
    &&& sel.start_col <= lens[sel.start_line as int]
    &&& sel.end_col <= lens[sel.end_line as int]
}

/// The segment a valid selection produces on one of the lines it touches:
/// clamped to the selection's columns on its first and last line, the whole
/// line in between.
pub open spec fn segment_for_line(sel: Selection, lens: Seq<usize>, line: int) -> Segment {
    Segment {
        line: line as usize,
        col_start: if line == sel.start_line { sel.start_col } else { 0 },
        col_end: if line == sel.end_line { sel.end_col } else { lens[line] },
    }
}

/// The ordered sequence of segments a valid selection produces: one per line
/// from its start line to its end line, inclusive.
pub open spec fn segments_of(sel: Selection, lens: Seq<usize>) -> Seq<Segment> {
    Seq::new(
        (sel.end_line - sel.start_line + 1) as nat,
        |i: int| segment_for_line(sel, lens, sel.start_line + i),
    )
}

/// A segment is well formed for a document when its line exists and its
/// columns are ordered and within the line.
pub open spec fn segment_wf(seg: Segment, lens: Seq<usize>) -> bool {
    &&& seg.line < lens.len()
    &&& seg.col_start <= seg.col_end <= lens[seg.line as int]
}

/// Whether a selection is valid for the document whose line lengths are given.
pub fn selection_in_bounds(sel: Selection, line_lens: &Vec<usize>) -> (b: bool)
    ensures
        b == selection_valid(sel, line_lens@),
{
    if sel.end_line >= line_lens.len() {
        return false;
    }
    if sel.start_line > sel.end_line {
        return false;
    }
    if sel.start_line == sel.end_line && sel.start_col > sel.end_col {
        return false;
    }
    if sel.start_col > line_lens[sel.start_line] {
        return false;
    }
    if sel.end_col > line_lens[sel.end_line] {
        return false;
    }
    true
}

/// Turns a valid selection into its ordered per-line segments, eagerly.
///
/// A selection confined to one line yields exactly one segment with the
/// selection's own columns; a multi-line selection's first segment runs to the
/// full length of its line and its last segment starts at column zero. A
/// zero-width selection still yields one (zero-width) segment.
pub fn normalize(sel: Selection, line_lens: &Vec<usize>) -> (segs: Vec<Segment>)
    requires
        selection_valid(sel, line_lens@),
    ensures
        segs@ == segments_of(sel, line_lens@),
        segs@.len() == sel.end_line - sel.start_line + 1,
        forall|i: int|
            0 <= i < segs@.len() ==> segment_wf(#[trigger] segs@[i], line_lens@) && segs@[i].line
                == sel.start_line + i,
        sel.start_line == sel.end_line ==> segs@ =~= seq![
            (Segment { line: sel.start_line, col_start: sel.start_col, col_end: sel.end_col }),
        ],
        sel.start_line < sel.end_line ==> segs@[0] == (Segment {
            line: sel.start_line,
            col_start: sel.start_col,
            col_end: line_lens@[sel.start_line as int],
        }) && segs@[segs@.len() - 1] == (Segment {
            line: sel.end_line,
            col_start: 0,
            col_end: sel.end_col,
        }),
{
    let mut segs: Vec<Segment> = Vec::new();
    let line_count: usize = line_lens.len();
    let mut line: usize = sel.start_line;
    while line <= sel.end_line
        invariant
            sel.start_line <= line <= sel.end_line + 1,
            sel.end_line < line_lens@.len(),
            line_lens@.len() == line_count,
            selection_valid(sel, line_lens@),
            segs@ =~= segments_of(sel, line_lens@).take(line - sel.start_line),
        decreases sel.end_line + 1 - line,
    {
        let len_here: usize = line_lens[line];
        let col_start: usize = if line == sel.start_line {
            sel.start_col
        } else {
            0
        };
        let col_end: usize = if line == sel.end_line {
            sel.end_col
        } else {
            len_here
        };
        segs.push(Segment { line, col_start, col_end });
        proof {
            assert(segs@ =~= segments_of(sel, line_lens@).take(line + 1 - sel.start_line));
        }
        line = line + 1;
    }
    proof {
        assert(segs@ =~= segments_of(sel, line_lens@));
    }
    segs
}

/// Converts a one-based row mark, as some host mark sources report them, to
/// the zero-based convention the engine uses. The column is kept as is.
pub fn zero_based_row(mark: (usize, usize)) -> (r: (usize, usize))
    requires
        mark.0 >= 1,
    ensures
        r.0 == mark.0 - 1,
        r.1 == mark.1,
{
    (mark.0 - 1, mark.1)
}

} // verus!
