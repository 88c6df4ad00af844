use highlighter::config::HighlightConfig;
use highlighter::controller::{apply_highlight, clear_all, EngineError};
use highlighter::range::{normalize, selection_in_bounds, zero_based_row, Segment, Selection};
use highlighter::resolver::{entire_line, resolve_priority, BASELINE_PRIORITY};
use highlighter::store::{Annotation, AnnotationStore, StoreError};

fn sel(start_line: usize, start_col: usize, end_line: usize, end_col: usize) -> Selection {
    Selection { start_line, start_col, end_line, end_col }
}

#[test]
fn single_line_selection_is_one_segment() {
    let lens = vec![11];
    let segs = normalize(sel(0, 3, 0, 7), &lens);
    assert_eq!(segs.len(), 1);
    assert_eq!(segs[0], Segment { line: 0, col_start: 3, col_end: 7 });
}

#[test]
fn zero_width_selection_is_one_zero_width_segment() {
    let lens = vec![11];
    let segs = normalize(sel(0, 4, 0, 4), &lens);
    assert_eq!(segs.len(), 1);
    assert_eq!(segs[0], Segment { line: 0, col_start: 4, col_end: 4 });
}

#[test]
fn multi_line_selection_clamps_first_and_last() {
    let lens = vec![5, 9, 4];
    let segs = normalize(sel(0, 2, 2, 3), &lens);
    assert_eq!(segs.len(), 3);
    assert_eq!(segs[0], Segment { line: 0, col_start: 2, col_end: 5 });
    assert_eq!(segs[1], Segment { line: 1, col_start: 0, col_end: 9 });
    assert_eq!(segs[2], Segment { line: 2, col_start: 0, col_end: 3 });
    assert_eq!(segs[0].col_end, lens[0]);
    assert_eq!(segs[segs.len() - 1].col_start, 0);
}

#[test]
fn selection_lines_two_to_four_of_five_line_document() {
    let lens = vec![3, 8, 6, 7, 9];
    let segs = normalize(sel(2, 4, 4, 2), &lens);
    assert_eq!(segs.len(), 3);
    assert_eq!(segs[0], Segment { line: 2, col_start: 4, col_end: 6 });
    assert_eq!(segs[1], Segment { line: 3, col_start: 0, col_end: 7 });
    assert_eq!(segs[2], Segment { line: 4, col_start: 0, col_end: 2 });
}

#[test]
fn selection_bounds_checks() {
    let lens = vec![5, 9];
    assert!(selection_in_bounds(sel(0, 0, 1, 9), &lens));
    assert!(!selection_in_bounds(sel(0, 0, 2, 0), &lens));
    assert!(!selection_in_bounds(sel(1, 0, 0, 0), &lens));
    assert!(!selection_in_bounds(sel(0, 4, 0, 3), &lens));
    assert!(!selection_in_bounds(sel(0, 6, 1, 0), &lens));
    assert!(!selection_in_bounds(sel(0, 0, 1, 10), &lens));
}

#[test]
fn zero_based_row_shifts_row_only() {
    assert_eq!(zero_based_row((1, 0)), (0, 0));
    assert_eq!(zero_based_row((42, 7)), (41, 7));
}

#[test]
fn entire_line_detection_is_exact() {
    assert!(entire_line(0, 11, 11));
    assert!(!entire_line(1, 11, 11));
    assert!(!entire_line(0, 10, 11));
    assert!(entire_line(0, 0, 0));
}

#[test]
fn full_line_highlight_on_hello_world() {
    // line "hello world" (length 11), selection (0,0)-(0,11), style "Red"
    let lens = vec![11];
    let mut store = AnnotationStore::new(7);
    // something older sits on the line and must be wiped, not out-prioritized
    store.insert(0, 2, 6, 3, 999).unwrap();
    let red = 0;
    let r = apply_highlight(&mut store, &lens, sel(0, 0, 0, 11), red, true);
    assert_eq!(r, Ok(()));
    assert_eq!(store.annotations.len(), 1);
    let a = &store.annotations[0];
    assert_eq!((a.line, a.col_start, a.col_end), (0, 0, 11));
    assert_eq!(a.style, red);
    assert_eq!(a.priority, BASELINE_PRIORITY + 1);
}

#[test]
fn overlapping_partial_highlights_stack_by_priority() {
    // [0,5) "Red" then [3,8) "Blue" on the same line: the second observes the
    // first via the overlap query and lands one priority above it.
    let lens = vec![11];
    let mut store = AnnotationStore::new(7);
    let (red, blue) = (0, 1);
    apply_highlight(&mut store, &lens, sel(0, 0, 0, 5), red, true).unwrap();
    assert_eq!(store.annotations.len(), 1);
    assert_eq!(store.annotations[0].priority, BASELINE_PRIORITY + 1);
    apply_highlight(&mut store, &lens, sel(0, 3, 0, 8), blue, true).unwrap();
    // no full-line clear occurred: both annotations are present
    assert_eq!(store.annotations.len(), 2);
    assert_eq!(store.annotations[0].style, red);
    assert_eq!(store.annotations[1].style, blue);
    assert_eq!(store.annotations[1].priority, BASELINE_PRIORITY + 2);
}

#[test]
fn resolved_priority_rises_above_inserted_annotation() {
    let mut store = AnnotationStore::new(7);
    store.insert(0, 0, 5, 0, 500).unwrap();
    let seg = Segment { line: 0, col_start: 3, col_end: 8 };
    let r = resolve_priority(&mut store, seg, 11);
    assert_eq!(r, Ok((500, false)));
}

#[test]
fn resolve_priority_without_overlap_reports_baseline() {
    let mut store = AnnotationStore::new(7);
    store.insert(0, 0, 2, 0, 700).unwrap();
    let seg = Segment { line: 0, col_start: 5, col_end: 8 };
    let r = resolve_priority(&mut store, seg, 11);
    assert_eq!(r, Ok((BASELINE_PRIORITY, false)));
}

#[test]
fn full_line_segment_wipes_line_and_reports_baseline() {
    let mut store = AnnotationStore::new(7);
    store.insert(0, 1, 4, 0, 321).unwrap();
    store.insert(1, 0, 3, 0, 222).unwrap();
    let seg = Segment { line: 0, col_start: 0, col_end: 11 };
    let r = resolve_priority(&mut store, seg, 11);
    assert_eq!(r, Ok((BASELINE_PRIORITY, true)));
    // only the other line's annotation survives
    assert_eq!(store.annotations.len(), 1);
    assert_eq!(store.annotations[0].line, 1);
}

#[test]
fn zero_width_query_probes_one_column() {
    let mut store = AnnotationStore::new(7);
    store.insert(0, 3, 5, 0, 300).unwrap();
    let hit = store.query_overlap(0, 4, 4).unwrap();
    assert_eq!(hit.len(), 1);
    let miss = store.query_overlap(0, 5, 5).unwrap();
    assert_eq!(miss.len(), 0);
}

#[test]
fn zero_width_annotation_inside_query_range_is_reported() {
    let mut store = AnnotationStore::new(7);
    store.insert(0, 4, 4, 0, 300).unwrap();
    let hit = store.query_overlap(0, 3, 6).unwrap();
    assert_eq!(hit.len(), 1);
}

#[test]
fn query_ignores_other_lines_and_namespaces() {
    let mut store = AnnotationStore::new(7);
    store.insert(1, 0, 5, 0, 300).unwrap();
    store.annotations.push(Annotation {
        id: 900,
        ns: 9,
        line: 0,
        col_start: 0,
        col_end: 5,
        style: 0,
        priority: 300,
    });
    assert_eq!(store.query_overlap(0, 0, 5).unwrap().len(), 0);
}

#[test]
fn clear_all_twice_leaves_empty_set_both_times() {
    let mut store = AnnotationStore::new(7);
    store.insert(0, 0, 5, 0, 300).unwrap();
    // an annotation of some other tooling's namespace goes too
    store.annotations.push(Annotation {
        id: 901,
        ns: 9,
        line: 3,
        col_start: 0,
        col_end: 2,
        style: 0,
        priority: 50,
    });
    assert_eq!(clear_all(&mut store), Ok(()));
    assert_eq!(store.annotations.len(), 0);
    assert_eq!(clear_all(&mut store), Ok(()));
    assert_eq!(store.annotations.len(), 0);
}

#[test]
fn not_ready_is_no_selection_error() {
    let lens = vec![11];
    let mut store = AnnotationStore::new(7);
    let r = apply_highlight(&mut store, &lens, sel(0, 0, 0, 5), 0, false);
    assert_eq!(r, Err(EngineError::NoSelection));
    assert_eq!(store.annotations.len(), 0);
}

#[test]
fn out_of_bounds_selection_is_invalid_range_error() {
    let lens = vec![11];
    let mut store = AnnotationStore::new(7);
    let r = apply_highlight(&mut store, &lens, sel(0, 0, 1, 0), 0, true);
    assert_eq!(r, Err(EngineError::InvalidRange));
    let r = apply_highlight(&mut store, &lens, sel(0, 7, 0, 3), 0, true);
    assert_eq!(r, Err(EngineError::InvalidRange));
    let r = apply_highlight(&mut store, &lens, sel(0, 0, 0, 12), 0, true);
    assert_eq!(r, Err(EngineError::InvalidRange));
    assert_eq!(store.annotations.len(), 0);
}

#[test]
fn closed_document_is_store_unavailable() {
    let lens = vec![11];
    let mut store = AnnotationStore::new(7);
    store.insert(0, 0, 2, 0, 300).unwrap();
    store.close_document();
    let r = apply_highlight(&mut store, &lens, sel(0, 0, 0, 5), 0, true);
    assert_eq!(r, Err(EngineError::StoreUnavailable));
    assert_eq!(clear_all(&mut store), Err(EngineError::StoreUnavailable));
    assert_eq!(store.query_overlap(0, 0, 5), Err(StoreError));
    assert_eq!(store.insert(0, 0, 1, 0, 300), Err(StoreError));
    assert_eq!(store.clear_line(0), Err(StoreError));
    // nothing was committed after the close
    assert_eq!(store.annotations.len(), 1);
}

#[test]
fn multi_line_highlight_commits_segments_in_line_order() {
    let lens = vec![5, 9, 4];
    let mut store = AnnotationStore::new(7);
    apply_highlight(&mut store, &lens, sel(0, 2, 2, 3), 4, true).unwrap();
    assert_eq!(store.annotations.len(), 3);
    let lines: Vec<usize> = store.annotations.iter().map(|a| a.line).collect();
    assert_eq!(lines, vec![0, 1, 2]);
    // middle line was covered whole, so it resolved at the baseline too
    assert_eq!(store.annotations[1].col_start, 0);
    assert_eq!(store.annotations[1].col_end, 9);
    assert_eq!(store.annotations[1].priority, BASELINE_PRIORITY + 1);
}

#[test]
fn insert_hands_out_sequential_ids() {
    let mut store = AnnotationStore::new(7);
    assert_eq!(store.insert(0, 0, 1, 0, 300), Ok(1));
    assert_eq!(store.insert(0, 1, 2, 0, 300), Ok(2));
    assert_eq!(store.insert(5, 0, 3, 1, 400), Ok(3));
}

#[test]
fn default_palette_has_six_named_colors() {
    let config = HighlightConfig::default_palette();
    assert_eq!(config.style_count(), 6);
    let names: Vec<&str> = config.styles.iter().map(|s| s.name.as_str()).collect();
    assert_eq!(names, vec!["Red", "Green", "Blue", "Purple", "Yellow", "Black"]);
    assert_eq!(config.styles[0].color, "#ff0000");
    assert_eq!(config.styles[3].color, "#A020F0");
    assert_eq!(config.styles[5].color, "#000000");
}

#[test]
fn middle_full_line_of_multi_line_selection_wipes_only_that_line() {
    let lens = vec![5, 9, 4];
    let mut store = AnnotationStore::new(7);
    store.insert(0, 0, 2, 0, 400).unwrap();
    store.insert(1, 2, 5, 0, 300).unwrap();
    apply_highlight(&mut store, &lens, sel(0, 2, 2, 3), 1, true).unwrap();
    // the old annotation on line 0 survives (that segment was partial); the
    // one on line 1 was superseded by the full-line wipe
    assert_eq!(store.annotations.len(), 4);
    assert!(store.annotations.iter().any(|a| a.line == 0 && a.priority == 400));
    assert!(!store.annotations.iter().any(|a| a.line == 1 && a.priority == 300));
    // the wiped line's replacement resolved at the baseline
    let on_line_1: Vec<&Annotation> =
        store.annotations.iter().filter(|a| a.line == 1).collect();
    assert_eq!(on_line_1.len(), 1);
    assert_eq!(on_line_1[0].priority, BASELINE_PRIORITY + 1);
}

#[test]
fn priority_saturates_at_the_top_of_the_range() {
    let lens = vec![11];
    let mut store = AnnotationStore::new(7);
    store.insert(0, 0, 5, 0, u32::MAX).unwrap();
    apply_highlight(&mut store, &lens, sel(0, 3, 0, 8), 1, true).unwrap();
    assert_eq!(store.annotations.len(), 2);
    assert_eq!(store.annotations[1].priority, u32::MAX);
}
