use editor_core::CacheError;
use editor_core::buffer::Buffer;
use editor_core::engine::{LayoutEngine, UniformEngine, UniformLine};
use editor_core::paragraph_cache::ParagraphCache;
use ropey::Rope;

/// A document of `n` lines, without a trailing newline.
fn document(n: usize) -> Buffer {
    let mut text = String::new();
    for i in 0..n {
        text.push_str("line");
        if i + 1 < n {
            text.push('\n');
        }
    }
    Buffer::new(Rope::from_str(&text))
}

#[test]
fn end_to_end_thousand_line_document() {
    let buffer = document(1000);
    assert_eq!(buffer.lines_count(), 1000);
    let mut engine = UniformEngine::new(20);
    let mut cache: ParagraphCache<UniformLine> = ParagraphCache::new_with_line_capacity(1000);

    cache.layout_everything(&buffer, &mut engine, 400);
    assert_eq!(engine.layout_calls, 1000);
    assert_eq!(cache.get_full_height_px(), 20000);

    // Prefetch covers three viewport heights below the top of the viewport.
    cache.scroll(0, 800, &buffer, &mut engine, 400);
    assert_eq!(cache.start_line_idx(), 0);
    assert_eq!(cache.window_len(), 121);
    assert_eq!(engine.layout_calls, 1000 + 121);

    // A far jump lands on a window centered near line 500.
    cache.scroll(10000, 800, &buffer, &mut engine, 400);
    assert_eq!(cache.start_line_idx(), 419);
    assert_eq!(cache.window_len(), 621 - 419);
}

#[test]
fn disjoint_jump_discards_the_old_window() {
    let buffer = document(2000);
    let mut engine = UniformEngine::new(20);
    let mut cache: ParagraphCache<UniformLine> = ParagraphCache::new_with_line_capacity(2000);
    cache.layout_everything(&buffer, &mut engine, 400);
    let after_pass = engine.layout_calls;

    cache.scroll(0, 800, &buffer, &mut engine, 400);
    assert_eq!(cache.start_line_idx(), 0);
    assert_eq!(cache.window_len(), 121);

    // The new target range [959, 1161) does not overlap [0, 121): the window
    // holds only the new target lines, and every one was laid out anew.
    cache.scroll(20800, 800, &buffer, &mut engine, 400);
    assert_eq!(cache.start_line_idx(), 959);
    assert_eq!(cache.window_len(), 1161 - 959);
    assert_eq!(engine.layout_calls, after_pass + 121 + (1161 - 959));
}

#[test]
fn overlapping_scroll_reuses_laid_out_lines() {
    let buffer = document(2000);
    let mut engine = UniformEngine::new(20);
    let mut cache: ParagraphCache<UniformLine> = ParagraphCache::new_with_line_capacity(2000);
    cache.layout_everything(&buffer, &mut engine, 400);

    cache.scroll(10000, 800, &buffer, &mut engine, 400);
    assert_eq!(cache.start_line_idx(), 419);
    assert_eq!(cache.window_len(), 202);
    let before = engine.layout_calls;

    // One viewport down: [459, 661) overlaps [419, 621) in 162 lines; only
    // the 40 newly revealed lines are laid out.
    cache.scroll(10800, 800, &buffer, &mut engine, 400);
    assert_eq!(cache.start_line_idx(), 459);
    assert_eq!(cache.window_len(), 202);
    assert_eq!(engine.layout_calls, before + 40);
    assert_eq!(engine.resize_calls, 0);
}

#[test]
fn width_change_rewraps_kept_lines_instead_of_relaying() {
    let buffer = document(2000);
    let mut engine = UniformEngine::new(20);
    let mut cache: ParagraphCache<UniformLine> = ParagraphCache::new_with_line_capacity(2000);
    cache.layout_everything(&buffer, &mut engine, 400);
    cache.scroll(10000, 800, &buffer, &mut engine, 400);
    let before = engine.layout_calls;

    // Same viewport at a new width: every kept line is resized, none is
    // laid out from scratch.
    cache.scroll(10000, 800, &buffer, &mut engine, 500);
    assert_eq!(engine.layout_calls, before);
    assert_eq!(engine.resize_calls, 202);
    let pairs = cache.paragraphs().unwrap();
    assert!(pairs.iter().all(|(line, _)| line.width == 500));
}

#[test]
fn window_covers_the_visible_viewport() {
    let buffer = document(1000);
    let mut engine = UniformEngine::new(20);
    let mut cache: ParagraphCache<UniformLine> = ParagraphCache::new_with_line_capacity(1000);
    cache.layout_everything(&buffer, &mut engine, 400);
    cache.scroll(5000, 600, &buffer, &mut engine, 400);

    // The viewport [5000, 5600) needs lines [250, 280]; the window holds a
    // contiguous superset of them.
    let start = cache.start_line_idx();
    let len = cache.window_len();
    assert!(start <= 250);
    assert!(start + len > 280);

    // Each windowed line is paired with its exact bounds, in order.
    let pairs = cache.paragraphs().unwrap();
    assert_eq!(pairs.len(), len);
    for (k, (_, bounds)) in pairs.iter().enumerate() {
        assert_eq!(bounds.top, 20 * (start + k) as i64);
        assert_eq!(bounds.height, 20);
        assert_eq!(bounds.bottom(), 20 * (start + k) as i64 + 20);
    }
}

#[test]
fn paragraphs_without_bounds_pass_is_an_inconsistency() {
    let buffer = document(50);
    let mut engine = UniformEngine::new(20);
    let mut cache: ParagraphCache<UniformLine> = ParagraphCache::new_with_line_capacity(50);
    // No bounds-establishing pass has run: the window materializes a line,
    // but no top is accumulated for it.
    cache.scroll(0, 100, &buffer, &mut engine, 400);
    assert!(cache.window_len() > 0);
    assert_eq!(cache.paragraphs().unwrap_err(), CacheError::InternalInconsistency);
}

#[test]
fn empty_window_has_no_paragraphs() {
    let cache: ParagraphCache<UniformLine> = ParagraphCache::new_with_line_capacity(10);
    assert_eq!(cache.start_line_idx(), 0);
    assert_eq!(cache.window_len(), 0);
    assert_eq!(cache.paragraphs().unwrap().len(), 0);
    assert_eq!(cache.bounds_cache().lines_len(), 0);
}

#[test]
fn layout_everything_populates_the_bounds_cache() {
    let buffer = document(7);
    let mut engine = UniformEngine::new(12);
    let mut cache: ParagraphCache<UniformLine> = ParagraphCache::new_with_line_capacity(7);
    cache.layout_everything(&buffer, &mut engine, 300);
    assert_eq!(cache.bounds_cache().lines_len(), 7);
    let b = cache.bounds_cache().get_bounds(6).unwrap();
    assert_eq!((b.top, b.height), (72, 12));
    assert_eq!(cache.get_full_height_px(), 84);
}

#[test]
fn uniform_engine_reports_its_fixed_height() {
    let mut engine = UniformEngine::new(16);
    let mut line = engine.layout("hello", 640);
    assert_eq!(line, UniformLine { height: 16, width: 640 });
    assert_eq!(engine.min_height(&line), 16);
    engine.resize(&mut line, 320);
    assert_eq!(line, UniformLine { height: 16, width: 320 });
    assert_eq!(engine.layout_calls, 1);
    assert_eq!(engine.resize_calls, 1);
}
