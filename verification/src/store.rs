//! An in-memory model of a namespaced annotation store on one document.
//!
//! The store owns every annotation of the engine's namespace and also holds
//! whatever annotations other tooling placed in other namespaces, so that the
//! document-wide clear (which is deliberately not namespace-scoped) can be
//! stated exactly. A host that keeps its own decorated buffer mirrors these
//! operations onto it.

use vstd::prelude::*;

verus! {

/// Failure of a store operation: the underlying document handle is no longer
/// valid (the document was closed mid-operation).
#[derive(Clone, Copy, PartialEq, Eq, Structural, Debug)]
pub struct StoreError;

/// One stored highlight: a style tag applied with a priority to the columns
/// `[col_start, col_end)` of a line, inside one namespace.
#[derive(Clone, Copy, PartialEq, Eq, Structural, Debug)]
pub struct Annotation {
    pub id: u64,
    pub ns: u32,
    pub line: usize,
    pub col_start: usize,
    pub col_end: usize,
    pub style: u32,
    pub priority: u32,
}

/// The annotation set of one document, with the namespace id reserved for
/// this engine and a flag for whether the document handle is still valid.
pub struct AnnotationStore {
    pub annotations: Vec<Annotation>,
    pub next_id: u64,
    pub ns: u32,
    pub doc_open: bool,
}

/// The exclusive upper column of an overlap query: a zero-width query range
/// still reports annotations covering exactly that position, so it probes as
/// if it were one column wide.
pub open spec fn probe_end(col_start: usize, col_end: usize) -> int {
    if col_end == col_start {
        col_start + 1
    } else {
        col_end as int
    }
}

/// Whether an annotation of namespace `ns` on line `line` intersects the
/// query range `[col_start, col_end)`: two ranges `a` and `b` overlap iff
/// `a.start < b.end && b.start < a.end`, with the zero-width query widened by
/// `probe_end`.
pub open spec fn ann_overlaps(
    a: Annotation,
    ns: u32,
    line: usize,
    col_start: usize,
    col_end: usize,
) -> bool {
    &&& a.ns == ns
    &&& a.line == line
    &&& a.col_start < probe_end(col_start, col_end)
    &&& col_start < a.col_end
}

/// The annotations of `s`, in order, that `ann_overlaps` the given query.
pub open spec fn overlapping_annotations(
    s: Seq<Annotation>,
    ns: u32,
    line: usize,
    col_start: usize,
    col_end: usize,
) -> Seq<Annotation>
    decreases s.len(),
{
    if s.len() == 0 {
        Seq::empty()
    } else {
        let rest = overlapping_annotations(s.drop_last(), ns, line, col_start, col_end);
        if ann_overlaps(s.last(), ns, line, col_start, col_end) {
            rest.push(s.last())
        } else {
            rest
        }
    }
}

/// The annotations of `s`, in order, that survive a whole-line wipe of
/// namespace `ns` on line `line`.
pub open spec fn annotations_off_line(s: Seq<Annotation>, ns: u32, line: usize) -> Seq<Annotation>
    decreases s.len(),
{
    if s.len() == 0 {
        Seq::empty()
    } else {
        let rest = annotations_off_line(s.drop_last(), ns, line);
        if s.last().ns == ns && s.last().line == line {
            rest
        } else {
            rest.push(s.last())
        }
    }
}

/// What the document-wide clear leaves of an annotation set: nothing, in any
/// namespace.
pub open spec fn cleared_annotations(s: Seq<Annotation>) -> Seq<Annotation> {
    Seq::empty()
}

/// The id counter after one insertion; it stops rather than wrap at the top.
pub open spec fn next_id_after(id: u64) -> u64 {
    if id == u64::MAX {
        id
    } else {
        (id + 1) as u64
    }
}

impl AnnotationStore {
    /// A fresh, empty store for an open document, scoped to the given
    /// namespace id (the host allocates that id).
    pub fn new(ns: u32) -> (s: AnnotationStore)
        ensures
            s.annotations@ == Seq::<Annotation>::empty(),
            s.next_id == 1,
            s.ns == ns,
            s.doc_open,
    {
        AnnotationStore { annotations: Vec::new(), next_id: 1, ns, doc_open: true }
    }

    /// Marks the underlying document handle invalid; every later operation
    /// fails with `StoreError`.
    pub fn close_document(&mut self)
        ensures
            final(self).annotations@ == old(self).annotations@,
            final(self).next_id == old(self).next_id,
            final(self).ns == old(self).ns,
            !final(self).doc_open,
    {
        self.doc_open = false;
    }

    /// Every annotation of the store's namespace on `line` whose column range
    /// intersects `[col_start, col_end)`, in store order; a zero-width query
    /// probes one column.
    pub fn query_overlap(&self, line: usize, col_start: usize, col_end: usize) -> (r: Result<
        Vec<Annotation>,
        StoreError,
    >)
        ensures
            !self.doc_open ==> r == Err::<Vec<Annotation>, StoreError>(StoreError),
            self.doc_open ==> (r matches Ok(v) && v@ == overlapping_annotations(
                self.annotations@,
                self.ns,
                line,
                col_start,
                col_end,
            )),
    {
        if !self.doc_open {
            return Err(StoreError);
        }
        let mut out: Vec<Annotation> = Vec::new();
        let mut i: usize = 0;
        while i < self.annotations.len()
            invariant
                0 <= i <= self.annotations@.len(),
                out@ =~= overlapping_annotations(
                    self.annotations@.take(i as int),
                    self.ns,
                    line,
                    col_start,
                    col_end,
                ),
            decreases self.annotations@.len() - i,
        {
            let a = self.annotations[i];
            let hit = if col_end == col_start {
                a.col_start <= col_start && col_start < a.col_end
            } else {
                a.col_start < col_end && col_start < a.col_end
            };
            if a.ns == self.ns && a.line == line && hit {
                out.push(a);
            }
            proof {
                let taken = self.annotations@.take(i + 1);
                assert(taken.drop_last() =~= self.annotations@.take(i as int));
                assert(taken.last() == self.annotations@[i as int]);
            }
            i = i + 1;
        }
        proof {
            assert(self.annotations@.take(self.annotations@.len() as int) =~= self.annotations@);
        }
        Ok(out)
    }

    /// Adds a new annotation of the store's namespace and returns its id;
    /// never merges with existing annotations.
    pub fn insert(
        &mut self,
        line: usize,
        col_start: usize,
        col_end: usize,
        style: u32,
        priority: u32,
    ) -> (r: Result<u64, StoreError>)
        ensures
            !old(self).doc_open ==> r == Err::<u64, StoreError>(StoreError)
                && *final(self) == *old(self),
            old(self).doc_open ==> r == Ok::<u64, StoreError>(old(self).next_id)
                && final(self).annotations@ == old(self).annotations@.push(
                    (Annotation {
                        id: old(self).next_id,
                        ns: old(self).ns,
                        line,
                        col_start,
                        col_end,
                        style,
                        priority,
                    }),
                )
                && final(self).next_id == next_id_after(old(self).next_id)
                && final(self).ns == old(self).ns
                && final(self).doc_open,
    {
        if !self.doc_open {
            return Err(StoreError);
        }
        let id = self.next_id;
        self.annotations.push(
            Annotation { id, ns: self.ns, line, col_start, col_end, style, priority },
        );
        if self.next_id < u64::MAX {
            self.next_id = self.next_id + 1;
        }
        Ok(id)
    }

    /// Removes every annotation of the store's namespace anchored on `line`.
    pub fn clear_line(&mut self, line: usize) -> (r: Result<(), StoreError>)
        ensures
            !old(self).doc_open ==> r == Err::<(), StoreError>(StoreError)
                && *final(self) == *old(self),
            old(self).doc_open ==> r == Ok::<(), StoreError>(())
                && final(self).annotations@ == annotations_off_line(
                    old(self).annotations@,
                    old(self).ns,
                    line,
                )
                && final(self).next_id == old(self).next_id
                && final(self).ns == old(self).ns
                && final(self).doc_open,
    {
        if !self.doc_open {
            return Err(StoreError);
        }
        let mut kept: Vec<Annotation> = Vec::new();
        let mut i: usize = 0;
        while i < self.annotations.len()
            invariant
                0 <= i <= self.annotations@.len(),
                kept@ =~= annotations_off_line(self.annotations@.take(i as int), self.ns, line),
            decreases self.annotations@.len() - i,
        {
            let a = self.annotations[i];
            if !(a.ns == self.ns && a.line == line) {
                kept.push(a);
            }
            proof {
                let taken = self.annotations@.take(i + 1);
                assert(taken.drop_last() =~= self.annotations@.take(i as int));
                assert(taken.last() == self.annotations@[i as int]);
            }
            i = i + 1;
        }
        proof {
            assert(self.annotations@.take(self.annotations@.len() as int) =~= self.annotations@);
        }
        self.annotations = kept;
        Ok(())
    }

    /// Removes every annotation in every namespace on the document.
    pub fn clear_all(&mut self) -> (r: Result<(), StoreError>)
        ensures
            !old(self).doc_open ==> r == Err::<(), StoreError>(StoreError)
                && *final(self) == *old(self),
            old(self).doc_open ==> r == Ok::<(), StoreError>(())
                && final(self).annotations@ == cleared_annotations(old(self).annotations@)
                && final(self).annotations@.len() == 0
                && final(self).next_id == old(self).next_id
                && final(self).ns == old(self).ns
                && final(self).doc_open,
    {
        if !self.doc_open {
            return Err(StoreError);
        }
        self.annotations = Vec::new();
        Ok(())
    }
}

/// Law: nothing anchored on the wiped line, in the wiped namespace, survives
/// a whole-line wipe, and annotations elsewhere are exactly preserved in
/// order.
pub proof fn lemma_off_line_clears(s: Seq<Annotation>, ns: u32, line: usize)
    ensures
        forall|i: int|
            0 <= i < annotations_off_line(s, ns, line).len() ==> !((#[trigger] annotations_off_line(
                s,
                ns,
                line,
            )[i]).ns == ns && annotations_off_line(s, ns, line)[i].line == line),
        forall|i: int|
            0 <= i < annotations_off_line(s, ns, line).len()
                ==> s.contains(#[trigger] annotations_off_line(s, ns, line)[i]),
    decreases s.len(),
{
    if s.len() == 0 {
    } else {
        lemma_off_line_clears(s.drop_last(), ns, line);
        let rest = annotations_off_line(s.drop_last(), ns, line);
        assert forall|i: int| 0 <= i < rest.len() implies s.contains(rest[i]) by {
            assert(s.drop_last().contains(rest[i]));
            let j = choose|j: int| 0 <= j < s.drop_last().len() && s.drop_last()[j] == rest[i];
            assert(s[j] == rest[i]);
        }
        if !(s.last().ns == ns && s.last().line == line) {
            assert(s.contains(s.last())) by {
                assert(s[s.len() - 1] == s.last());
            }
        }
    }
}

/// Law: the document-wide clear is idempotent. Clearing once leaves an empty
/// annotation set; clearing again changes nothing and leaves it empty still,
/// and no overlap query of any namespace finds anything afterwards.
pub proof fn lemma_clear_all_idempotent(s: Seq<Annotation>)
    ensures
        cleared_annotations(s).len() == 0,
        cleared_annotations(cleared_annotations(s)) == cleared_annotations(s),
        forall|ns: u32, line: usize, col_start: usize, col_end: usize|
            #[trigger] overlapping_annotations(
                cleared_annotations(s),
                ns,
                line,
                col_start,
                col_end,
            ) == Seq::<Annotation>::empty(),
{
}

} // verus!
