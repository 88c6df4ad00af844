//! Orchestration of a highlight action: normalize the selection, resolve a
//! priority per segment (wiping full lines), and write the new annotations
//! into the store; plus the document-wide clear.

use vstd::prelude::*;

use crate::range::{normalize, segment_wf, segments_of, selection_in_bounds, selection_valid,
    Segment, Selection};
use crate::resolver::{is_full_line, next_priority, resolve_priority, resolved_priority,
    BASELINE_PRIORITY};
use crate::store::{annotations_off_line, cleared_annotations, next_id_after, Annotation,
    AnnotationStore};

verus! {

/// A failure of a highlight or clear action, reported to the caller; nothing
/// is retried, and segments already committed are not rolled back.
#[derive(Clone, Copy, PartialEq, Eq, Structural, Debug)]
pub enum EngineError {
    /// The selection's endpoints are out of the document's bounds or
    /// malformed (start after end).
    InvalidRange,
    /// The underlying document handle became invalid.
    StoreUnavailable,
    /// The action was invoked while the host was not in a ready interaction
    /// state.
    NoSelection,
}

/// The priority resolved for one segment against the given annotations: the
/// baseline when the segment covers its whole line, otherwise the largest
/// overlapping priority of the namespace (or the baseline).
pub open spec fn segment_priority(
    anns: Seq<Annotation>,
    ns: u32,
    seg: Segment,
    line_len: usize,
) -> u32 {
    if is_full_line(seg.col_start, seg.col_end, line_len) {
        BASELINE_PRIORITY
    } else {
        resolved_priority(anns, ns, seg.line, seg.col_start, seg.col_end)
    }
}

/// The annotation set after one segment of a highlight action is applied:
/// a full-line segment first wipes the namespace's annotations on its line,
/// then the new annotation is appended, one priority above what was resolved.
pub open spec fn after_segment(
    anns: Seq<Annotation>,
    ns: u32,
    next_id: u64,
    seg: Segment,
    line_len: usize,
    style: u32,
) -> Seq<Annotation> {
    let base = if is_full_line(seg.col_start, seg.col_end, line_len) {
        annotations_off_line(anns, ns, seg.line)
    } else {
        anns
    };
    base.push(
        Annotation {
            id: next_id,
            ns,
            line: seg.line,
            col_start: seg.col_start,
            col_end: seg.col_end,
            style,
            priority: next_priority(segment_priority(anns, ns, seg, line_len)),
        },
    )
}

/// The annotation set and id counter after a sequence of segments is applied
/// in order.
pub open spec fn after_segments(
    anns: Seq<Annotation>,
    ns: u32,
    next_id: u64,
    segs: Seq<Segment>,
    lens: Seq<usize>,
    style: u32,
) -> (Seq<Annotation>, u64)
    decreases segs.len(),
{
    if segs.len() == 0 {
        (anns, next_id)
    } else {
        let prev = after_segments(anns, ns, next_id, segs.drop_last(), lens, style);
        (
            after_segment(
                prev.0,
                ns,
                prev.1,
                segs.last(),
                lens[segs.last().line as int],
                style,
            ),
            next_id_after(prev.1),
        )
    }
}

/// Applies one highlight action: normalizes the selection and, for each
/// segment in increasing line order, resolves a priority (wiping the line
/// when the segment covers all of it) and inserts the new annotation with the
/// chosen style, one priority above everything it overlapped.
///
/// `ready` says whether the host is in its ready/idle interaction state; an
/// action invoked outside it fails with `NoSelection`. A selection out of the
/// document's bounds fails with `InvalidRange`. A closed document fails with
/// `StoreUnavailable` before any segment is committed.
pub fn apply_highlight(
    store: &mut AnnotationStore,
    line_lens: &Vec<usize>,
    sel: Selection,
    style: u32,
    ready: bool,
) -> (r: Result<(), EngineError>)
    ensures
        !ready ==> r == Err::<(), EngineError>(EngineError::NoSelection)
            && *final(store) == *old(store),
        ready && !selection_valid(sel, line_lens@) ==> r == Err::<(), EngineError>(
            EngineError::InvalidRange,
        ) && *final(store) == *old(store),
        ready && selection_valid(sel, line_lens@) && !old(store).doc_open ==> r == Err::<
            (),
            EngineError,
        >(EngineError::StoreUnavailable) && *final(store) == *old(store),
        ready && selection_valid(sel, line_lens@) && old(store).doc_open ==> r == Ok::<
            (),
            EngineError,
        >(())
            && final(store).annotations@ == after_segments(
                old(store).annotations@,
                old(store).ns,
                old(store).next_id,
                segments_of(sel, line_lens@),
                line_lens@,
                style,
            ).0
            && final(store).next_id == after_segments(
                old(store).annotations@,
                old(store).ns,
                old(store).next_id,
                segments_of(sel, line_lens@),
                line_lens@,
                style,
            ).1
            && final(store).ns == old(store).ns
            && final(store).doc_open,
{
    if !ready {
        return Err(EngineError::NoSelection);
    }
    if !selection_in_bounds(sel, line_lens) {
        return Err(EngineError::InvalidRange);
    }
    let segs = normalize(sel, line_lens);
    let mut k: usize = 0;
    while k < segs.len()
        invariant
            0 <= k <= segs@.len(),
            ready,
            selection_valid(sel, line_lens@),
            segs@.len() >= 1,
            k > 0 ==> old(store).doc_open,
            segs@ == segments_of(sel, line_lens@),
            forall|i: int|
                0 <= i < segs@.len() ==> segment_wf(#[trigger] segs@[i], line_lens@),
            store.ns == old(store).ns,
            store.doc_open == old(store).doc_open,
            !old(store).doc_open ==> *store == *old(store),
            old(store).doc_open ==> store.annotations@ == after_segments(
                old(store).annotations@,
                old(store).ns,
                old(store).next_id,
                segs@.take(k as int),
                line_lens@,
                style,
            ).0,
            old(store).doc_open ==> store.next_id == after_segments(
                old(store).annotations@,
                old(store).ns,
                old(store).next_id,
                segs@.take(k as int),
                line_lens@,
                style,
            ).1,
        decreases segs@.len() - k,
    {
        let seg = segs[k];
        let line_len = line_lens[seg.line];
        let ghost anns_before = store.annotations@;
        let ghost id_before = store.next_id;
        match resolve_priority(store, seg, line_len) {
            Err(_) => {
                return Err(EngineError::StoreUnavailable);
            },
            Ok((max_priority, _wiped)) => {
                let new_priority = if max_priority == u32::MAX {
                    max_priority
                } else {
                    max_priority + 1
                };
                match store.insert(seg.line, seg.col_start, seg.col_end, style, new_priority) {
                    Err(_) => {
                        return Err(EngineError::StoreUnavailable);
                    },
                    Ok(_id) => {},
                }
                proof {
                    let taken = segs@.take(k + 1);
                    assert(taken.drop_last() =~= segs@.take(k as int));
                    assert(taken.last() == segs@[k as int]);
                    assert(store.annotations@ =~= after_segments(
                        old(store).annotations@,
                        old(store).ns,
                        old(store).next_id,
                        taken,
                        line_lens@,
                        style,
                    ).0);
                }
            },
        }
        k = k + 1;
    }
    proof {
        assert(segs@.take(segs@.len() as int) =~= segs@);
    }
    Ok(())
}

/// Clears every annotation in every namespace on the document; fails with
/// `StoreUnavailable` when the document handle is invalid.
pub fn clear_all(store: &mut AnnotationStore) -> (r: Result<(), EngineError>)
    ensures
        !old(store).doc_open ==> r == Err::<(), EngineError>(EngineError::StoreUnavailable)
            && *final(store) == *old(store),
        old(store).doc_open ==> r == Ok::<(), EngineError>(())
            && final(store).annotations@ == cleared_annotations(old(store).annotations@)
            && final(store).annotations@.len() == 0
            && final(store).next_id == old(store).next_id
            && final(store).ns == old(store).ns
            && final(store).doc_open,
{
    match store.clear_all() {
        Ok(_) => Ok(()),
        Err(_) => Err(EngineError::StoreUnavailable),
    }
}

/// Law: full-line detection is exact. After a full-line segment is applied,
/// the only annotation of the namespace left on that line is the new one,
/// which carries the baseline priority plus one: no stale lower-priority
/// annotation survives alongside it.
pub proof fn lemma_full_line_exact(
    anns: Seq<Annotation>,
    ns: u32,
    next_id: u64,
    seg: Segment,
    line_len: usize,
    style: u32,
)
    requires
        is_full_line(seg.col_start, seg.col_end, line_len),
    ensures
        after_segment(anns, ns, next_id, seg, line_len, style).last() == (Annotation {
            id: next_id,
            ns,
            line: seg.line,
            col_start: seg.col_start,
            col_end: seg.col_end,
            style,
            priority: (BASELINE_PRIORITY + 1) as u32,
        }),
        forall|i: int|
            0 <= i < after_segment(anns, ns, next_id, seg, line_len, style).len()
                && (#[trigger] after_segment(anns, ns, next_id, seg, line_len, style)[i]).ns == ns
                && after_segment(anns, ns, next_id, seg, line_len, style)[i].line == seg.line
                ==> after_segment(anns, ns, next_id, seg, line_len, style)[i] == (Annotation {
                id: next_id,
                ns,
                line: seg.line,
                col_start: seg.col_start,
                col_end: seg.col_end,
                style,
                priority: (BASELINE_PRIORITY + 1) as u32,
            }),
{
    crate::store::lemma_off_line_clears(anns, ns, seg.line);
    let base = annotations_off_line(anns, ns, seg.line);
    let res = after_segment(anns, ns, next_id, seg, line_len, style);
    assert(res.len() == base.len() + 1);
    assert forall|i: int|
        0 <= i < res.len() && (#[trigger] res[i]).ns == ns && res[i].line == seg.line implies res[i]
        == res.last() by {
        if i < base.len() {
            assert(res[i] == base[i]);
        }
    }
}

} // verus!
