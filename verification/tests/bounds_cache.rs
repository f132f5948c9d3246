use editor_core::CacheError;
use editor_core::bounds_cache::{ParagraphBounds, ParagraphBoundsCache};

fn cache_10_20_30() -> ParagraphBoundsCache {
    let mut cache = ParagraphBoundsCache::with_capacity(3);
    assert_eq!(cache.set_height(0, 10), Ok(()));
    assert_eq!(cache.set_height(1, 20), Ok(()));
    assert_eq!(cache.set_height(2, 30), Ok(()));
    cache
}

#[test]
fn heights_appended_in_order_keep_tops_cumulative() {
    let cache = cache_10_20_30();
    assert_eq!(cache.lines_len(), 3);
    assert_eq!(cache.tops_len(), 3);
    let b0 = cache.get_bounds(0).unwrap();
    assert_eq!((b0.top, b0.height), (0, 10));
    let b1 = cache.get_bounds(1).unwrap();
    assert_eq!((b1.top, b1.height), (10, 20));
    let b2 = cache.get_bounds(2).unwrap();
    assert_eq!((b2.top, b2.height), (30, 30));
}

#[test]
fn find_nearest_paragraph_scenarios() {
    let cache = cache_10_20_30();
    // tops are [0, 10, 30]
    assert_eq!(cache.find_nearest_paragraph(0), 0);
    assert_eq!(cache.find_nearest_paragraph(15), 1);
    assert_eq!(cache.find_nearest_paragraph(59), 2);
    assert_eq!(cache.find_nearest_paragraph(60), 2);
    assert_eq!(cache.find_nearest_paragraph(-5), 0);
}

#[test]
fn find_nearest_paragraph_on_empty_cache_is_zero() {
    let cache = ParagraphBoundsCache::with_capacity(0);
    assert_eq!(cache.find_nearest_paragraph(100), 0);
    assert_eq!(cache.find_nearest_paragraph(-1), 0);
}

#[test]
fn set_height_same_value_is_idempotent() {
    let mut cache = cache_10_20_30();
    assert_eq!(cache.set_height(1, 20), Ok(()));
    // No re-truncation: every top is still cached.
    assert_eq!(cache.tops_len(), 3);
    let b2 = cache.get_bounds(2).unwrap();
    assert_eq!((b2.top, b2.height), (30, 30));
}

#[test]
fn set_height_change_invalidates_tops_at_and_past_index() {
    let mut cache = cache_10_20_30();
    assert_eq!(cache.set_height(1, 25), Ok(()));
    assert_eq!(cache.lines_len(), 3);
    assert_eq!(cache.tops_len(), 1);
    assert!(cache.get_bounds(1).is_none());
    assert!(cache.get_bounds(2).is_none());
    let b0 = cache.get_bounds(0).unwrap();
    assert_eq!((b0.top, b0.height), (0, 10));

    // Re-accumulation restores the cumulative invariant with the new height.
    cache.calc_bounds(2);
    let b1 = cache.get_bounds(1).unwrap();
    assert_eq!((b1.top, b1.height), (10, 25));
    let b2 = cache.get_bounds(2).unwrap();
    assert_eq!((b2.top, b2.height), (35, 30));

    // Writing the changed height again is now a no-op.
    assert_eq!(cache.set_height(1, 25), Ok(()));
    assert_eq!(cache.tops_len(), 3);
}

#[test]
fn set_height_with_gap_is_out_of_order_insertion() {
    let mut cache = cache_10_20_30();
    assert_eq!(cache.set_height(5, 7), Err(CacheError::OutOfOrderInsertion));
    assert_eq!(cache.lines_len(), 3);
    // One past the end is an append, not a gap.
    assert_eq!(cache.set_height(3, 7), Ok(()));
    assert_eq!(cache.lines_len(), 4);
}

#[test]
fn calc_bounds_is_a_no_op_when_already_covered() {
    let mut cache = cache_10_20_30();
    cache.calc_bounds(1);
    cache.calc_bounds(1);
    assert_eq!(cache.tops_len(), 3);
    let b1 = cache.get_bounds(1).unwrap();
    assert_eq!((b1.top, b1.height), (10, 20));
}

#[test]
fn get_bounds_past_accumulation_is_absent() {
    let mut cache = ParagraphBoundsCache::with_capacity(2);
    assert_eq!(cache.set_height(0, 4), Ok(()));
    assert!(cache.get_bounds(1).is_none());
    assert!(cache.get_bounds(7).is_none());
}

#[test]
fn bounds_bottom_is_top_plus_height() {
    let b = ParagraphBounds { top: 35, height: 30 };
    assert_eq!(b.bottom(), 65);
}

#[test]
fn zero_height_lines_share_a_top() {
    let mut cache = ParagraphBoundsCache::with_capacity(3);
    assert_eq!(cache.set_height(0, 0), Ok(()));
    assert_eq!(cache.set_height(1, 0), Ok(()));
    assert_eq!(cache.set_height(2, 8), Ok(()));
    // tops are [0, 0, 0]: an exact match resolves to the last such line.
    assert_eq!(cache.find_nearest_paragraph(0), 2);
    assert_eq!(cache.find_nearest_paragraph(1), 2);
}
