//! Priority resolution: deciding what a new highlight must carry to render
//! above everything it overlaps, and when a whole-line wipe supersedes that.

use vstd::prelude::*;

use crate::range::Segment;
use crate::store::{
    ann_overlaps, overlapping_annotations, probe_end, Annotation, AnnotationStore, StoreError,
};

verus! {

/// The floor below which no annotation priority is allowed, so that new
/// highlights always render above the host's own decorations.
pub const BASELINE_PRIORITY: u32 = 200;

/// Whether the columns `[col_start, col_end)` cover the whole of a line of
/// the given length.
pub open spec fn is_full_line(col_start: usize, col_end: usize, line_len: usize) -> bool {
    col_start == 0 && col_end == line_len
}

/// Whether a segment covers the whole of a line of the given length.
pub fn entire_line(col_start: usize, col_end: usize, line_len: usize) -> (b: bool)
    ensures
        b == is_full_line(col_start, col_end, line_len),
{
    col_start == 0 && col_end == line_len
}

/// The largest priority among the given annotations, or the baseline if none
/// exceeds it.
pub open spec fn max_priority_or_baseline(s: Seq<Annotation>) -> u32
    decreases s.len(),
{
    if s.len() == 0 {
        BASELINE_PRIORITY
    } else {
        let m = max_priority_or_baseline(s.drop_last());
        if s.last().priority > m {
            s.last().priority
        } else {
            m
        }
    }
}

/// The priority the resolver reports for a partial-line segment: the largest
/// priority among the annotations of the store's namespace overlapping it, or
/// the baseline if none exceeds it.
pub open spec fn resolved_priority(
    s: Seq<Annotation>,
    ns: u32,
    line: usize,
    col_start: usize,
    col_end: usize,
) -> u32 {
    max_priority_or_baseline(overlapping_annotations(s, ns, line, col_start, col_end))
}

/// The priority a new annotation receives: one above what the resolver
/// reported, stopping rather than wrapping at the top of the range.
pub open spec fn next_priority(m: u32) -> u32 {
    if m == u32::MAX {
        m
    } else {
        (m + 1) as u32
    }
}

/// The largest priority among the queried annotations, or the baseline.
fn highest_priority_of(anns: &Vec<Annotation>) -> (m: u32)
    ensures
        m == max_priority_or_baseline(anns@),
{
    let mut m: u32 = BASELINE_PRIORITY;
    let mut i: usize = 0;
    while i < anns.len()
        invariant
            0 <= i <= anns@.len(),
            m == max_priority_or_baseline(anns@.take(i as int)),
        decreases anns@.len() - i,
    {
        if anns[i].priority > m {
            m = anns[i].priority;
        }
        proof {
            let taken = anns@.take(i + 1);
            assert(taken.drop_last() =~= anns@.take(i as int));
            assert(taken.last() == anns@[i as int]);
        }
        i = i + 1;
    }
    proof {
        assert(anns@.take(anns@.len() as int) =~= anns@);
    }
    m
}

/// Resolves the priority for one segment of a line of the given length.
///
/// A segment covering the whole line supersedes everything on it: the line is
/// wiped in the store and the baseline is reported, with the flag set. For a
/// partial segment the store is asked for the overlapping annotations of the
/// engine's namespace and the largest priority among them (or the baseline)
/// is reported, with the flag clear; the store is left untouched.
pub fn resolve_priority(store: &mut AnnotationStore, seg: Segment, line_len: usize) -> (r: Result<
    (u32, bool),
    StoreError,
>)
    requires
        seg.col_start <= seg.col_end <= line_len,
    ensures
        !old(store).doc_open ==> r == Err::<(u32, bool), StoreError>(StoreError)
            && *final(store) == *old(store),
        old(store).doc_open && is_full_line(seg.col_start, seg.col_end, line_len) ==> r == Ok::<
            (u32, bool),
            StoreError,
        >((BASELINE_PRIORITY, true))
            && final(store).annotations@ == crate::store::annotations_off_line(
                old(store).annotations@,
                old(store).ns,
                seg.line,
            )
            && final(store).next_id == old(store).next_id
            && final(store).ns == old(store).ns
            && final(store).doc_open,
        old(store).doc_open && !is_full_line(seg.col_start, seg.col_end, line_len) ==> r == Ok::<
            (u32, bool),
            StoreError,
        >(
            (
                resolved_priority(
                    old(store).annotations@,
                    old(store).ns,
                    seg.line,
                    seg.col_start,
                    seg.col_end,
                ),
                false,
            ),
        ) && *final(store) == *old(store),
{
    if entire_line(seg.col_start, seg.col_end, line_len) {
        match store.clear_line(seg.line) {
            Ok(_) => Ok((BASELINE_PRIORITY, true)),
            Err(e) => Err(e),
        }
    } else {
        match store.query_overlap(seg.line, seg.col_start, seg.col_end) {
            Ok(ov) => Ok((highest_priority_of(&ov), false)),
            Err(e) => Err(e),
        }
    }
}

/// The reported maximum is at least the baseline and at least every queried
/// annotation's priority.
pub proof fn lemma_max_priority_ge(s: Seq<Annotation>)
    ensures
        max_priority_or_baseline(s) >= BASELINE_PRIORITY,
        forall|i: int| 0 <= i < s.len() ==> max_priority_or_baseline(s) >= s[i].priority,
    decreases s.len(),
{
    if s.len() == 0 {
    } else {
        lemma_max_priority_ge(s.drop_last());
        assert forall|i: int| 0 <= i < s.len() implies max_priority_or_baseline(s)
            >= s[i].priority by {
            if i < s.len() - 1 {
                assert(s.drop_last()[i] == s[i]);
            }
        }
    }
}

/// Law: priority resolution is monotonic. After an annotation with priority
/// `p` is inserted, resolving over any range of the same namespace and line
/// that intersects it reports at least `p`, so the priority the next
/// annotation receives is strictly greater than `p`. (At the very top of the
/// priority range the new priority stops at the top instead.)
pub proof fn lemma_resolve_priority_monotonic(
    anns: Seq<Annotation>,
    a: Annotation,
    col_start: usize,
    col_end: usize,
)
    requires
        a.priority < u32::MAX,
        a.col_start < probe_end(col_start, col_end),
        col_start < a.col_end,
    ensures
        resolved_priority(anns.push(a), a.ns, a.line, col_start, col_end) >= a.priority,
        next_priority(resolved_priority(anns.push(a), a.ns, a.line, col_start, col_end))
            > a.priority,
{
    let with_a = anns.push(a);
    assert(with_a.drop_last() =~= anns);
    assert(with_a.last() == a);
    assert(ann_overlaps(a, a.ns, a.line, col_start, col_end));
    let ov = overlapping_annotations(with_a, a.ns, a.line, col_start, col_end);
    let ov_rest = overlapping_annotations(anns, a.ns, a.line, col_start, col_end);
    assert(ov == ov_rest.push(a));
    lemma_max_priority_ge(ov);
    assert(ov[ov.len() - 1] == a);
}

} // verus!
