//! A contiguous, moving window of laid-out line objects.
//!
//! The window covers the viewport plus a prefetch margin. On every scroll the
//! target line range is computed from the bounds cache, the window is trimmed
//! and grown to match, and only lines absent from the old window are laid out
//! anew; a width change re-wraps the kept entries in place.

use vstd::prelude::*;

use std::collections::VecDeque;

use crate::CacheError;
use crate::bounds_cache::{
    BoundsView, MAX_LINES, ParagraphBounds, ParagraphBoundsCache, bounds_wf, find_spec,
    lemma_prefix_sum_fits, prefix_sum,
};
use crate::buffer::TextSource;
use crate::engine::LayoutEngine;

verus! {

/// How many viewport heights above the viewport are prefetched.
pub const PREFETCH_ABOVE_FACTOR: i64 = 2;

/// How many viewport heights below the viewport top are prefetched.
pub const PREFETCH_BELOW_FACTOR: i64 = 3;

/// Largest magnitude of a scroll offset or viewport height the cache accepts:
/// keeps the prefetch arithmetic within `i64`.
pub const MAX_SCROLL_PX: i64 = 0x1000_0000_0000_0000;

/// The top of the prefetch range: the scroll top minus twice the viewport
/// height, clamped to the start of the document.
pub open spec fn fetch_top(top: int, height: int) -> int {
    vstd::math::max(top - PREFETCH_ABOVE_FACTOR * height, 0)
}

/// The bottom of the prefetch range: the scroll top plus three viewport
/// heights.
pub open spec fn fetch_bottom(top: int, height: int) -> int {
    top + PREFETCH_BELOW_FACTOR * height
}

/// The first line of the target window: one line above the line nearest the
/// prefetch top, clamped to `0`.
pub open spec fn target_lo(tops: Seq<i64>, top: int, height: int) -> int {
    let f = find_spec(tops, fetch_top(top, height));
    if f >= 1 {
        f - 1
    } else {
        0
    }
}

/// One past the last line of the target window: one line below the line
/// nearest the prefetch bottom, clamped to the document's line count and to
/// the start of the target window.
pub open spec fn target_hi(tops: Seq<i64>, top: int, height: int, line_count: int) -> int {
    let raw = find_spec(tops, fetch_bottom(top, height)) + 1;
    let clamped = vstd::math::min(raw, line_count);
    vstd::math::max(clamped, target_lo(tops, top, height))
}

/// The ghost state of a window cache: the windowed lines, the bounds cache,
/// the document index of the first windowed line, and the width the window
/// was last laid out at.
#[verifier::reject_recursive_types(L)]
pub struct CacheView<L> {
    pub window: Seq<L>,
    pub bounds: BoundsView,
    pub start: int,
    pub last_width: u32,
}

/// Manages creating and dropping the laid-out lines visible on screen. The
/// bounds cache translates the viewport's pixel range into a line range, and
/// the window deque has missing lines laid out and out-of-range lines dropped.
#[derive(Debug)]
pub struct ParagraphCache<L> {
    paragraphs: VecDeque<L>,
    paragraph_bounds_cache: ParagraphBoundsCache,
    /// The window is a moving deque, so the document index of its first
    /// entry is kept here.
    start_line_idx: usize,
    last_paragraph_size: u32,
}

impl<L> View for ParagraphCache<L> {
    type V = CacheView<L>;

    closed spec fn view(&self) -> CacheView<L> {
        CacheView {
            window: self.paragraphs@,
            bounds: self.paragraph_bounds_cache@,
            start: self.start_line_idx as int,
            last_width: self.last_paragraph_size,
        }
    }
}

impl<L> ParagraphCache<L> {
    /// The invariant: a well-formed bounds cache, and a window whose index
    /// range stays within the line bound.
    pub open spec fn wf(&self) -> bool {
        &&& bounds_wf(self@.bounds)
        &&& self@.start + self@.window.len() <= MAX_LINES
    }

    /// An empty window over an empty bounds cache sized for `line_capacity`
    /// lines.
    pub fn new_with_line_capacity(line_capacity: usize) -> (r: Self)
        ensures
            r.wf(),
            r@.window.len() == 0,
            r@.start == 0,
            r@.last_width == 0,
            r@.bounds.heights.len() == 0,
            r@.bounds.tops.len() == 0,
    {
        ParagraphCache {
            paragraphs: VecDeque::with_capacity(64),
            paragraph_bounds_cache: ParagraphBoundsCache::with_capacity(line_capacity),
            start_line_idx: 0,
            last_paragraph_size: 0,
        }
    }

    /// The document index of the first windowed line.
    pub fn start_line_idx(&self) -> (r: usize)
        ensures
            r == self@.start,
    {
        self.start_line_idx
    }

    /// How many lines the window currently holds.
    pub fn window_len(&self) -> (r: usize)
        ensures
            r == self@.window.len(),
    {
        self.paragraphs.len()
    }

    /// The bounds cache the window keeps populated.
    pub fn bounds_cache(&self) -> (r: &ParagraphBoundsCache)
        ensures
            r@ == self@.bounds,
    {
        &self.paragraph_bounds_cache
    }

    /// Each windowed line paired with its bounds, in document order.
    ///
    /// Requires the bounds to be accumulated over the whole window (a
    /// bounds-establishing pass such as `layout_everything` must have run);
    /// otherwise the call-order violation is surfaced as an error.
    pub fn paragraphs(&self) -> (r: Result<Vec<(&L, ParagraphBounds)>, CacheError>)
        requires
            self.wf(),
        ensures
            r is Ok <==> self@.start + self@.window.len() <= self@.bounds.tops.len(),
            (r matches Ok(v) ==> v@.len() == self@.window.len() && forall|k: int|
                #![trigger v@[k]]
                0 <= k < v@.len() ==> *v@[k].0 == self@.window[k] && v@[k].1.top
                    == self@.bounds.tops[self@.start + k] && v@[k].1.height
                    == self@.bounds.heights[self@.start + k]),
            (r matches Err(e) ==> e == CacheError::InternalInconsistency),
    {
        let len = self.paragraphs.len();
        if self.start_line_idx + len > self.paragraph_bounds_cache.tops_len() {
            return Err(CacheError::InternalInconsistency);
        }
        let mut out: Vec<(&L, ParagraphBounds)> = Vec::new();
        let mut k: usize = 0;
        while k < len
            invariant
                self.wf(),
                len == self@.window.len(),
                self@.start + len <= self@.bounds.tops.len(),
                k <= len,
                out@.len() == k,
                forall|j: int|
                    #![trigger out@[j]]
                    0 <= j < k ==> *out@[j].0 == self@.window[j] && out@[j].1.top
                        == self@.bounds.tops[self@.start + j] && out@[j].1.height
                        == self@.bounds.heights[self@.start + j],
            decreases len - k,
        {
            let idx = self.start_line_idx + k;
            match self.paragraph_bounds_cache.get_bounds(idx) {
                Some(b) => {
                    out.push((&self.paragraphs[k], b));
                },
                None => {},
            }
            k += 1;
        }
        Ok(out)
    }

    /// Lays out every line of the document once, purely to measure it, and
    /// records the heights in the bounds cache; the laid-out objects are
    /// discarded. This is the bounds-establishing pass that makes the total
    /// document height available without retaining every line.
    pub fn layout_everything<B: TextSource, E: LayoutEngine<Line = L>>(
        &mut self,
        buffer: &B,
        engine: &mut E,
        width: u32,
    )
        requires
            old(self).wf(),
            0 <= buffer.line_count_spec() <= MAX_LINES,
        ensures
            final(self).wf(),
            final(self)@.window == old(self)@.window,
            final(self)@.start == old(self)@.start,
            final(self)@.last_width == old(self)@.last_width,
            final(self)@.bounds.heights.len() == vstd::math::max(
                old(self)@.bounds.heights.len() as int,
                buffer.line_count_spec(),
            ),
            old(self)@.bounds.heights.len() == 0 ==> final(self)@.bounds.tops.len()
                == final(self)@.bounds.heights.len(),
    {
        let count = buffer.line_count();
        let ghost pre = self@;
        let mut idx: usize = 0;
        while idx < count
            invariant
                self.wf(),
                count == buffer.line_count_spec(),
                count <= MAX_LINES,
                idx <= count,
                self@.window == pre.window,
                self@.start == pre.start,
                self@.last_width == pre.last_width,
                self@.bounds.heights.len() == vstd::math::max(
                    pre.bounds.heights.len() as int,
                    idx as int,
                ),
                pre.bounds.heights.len() == 0 ==> self@.bounds.tops.len()
                    == self@.bounds.heights.len(),
            decreases count - idx,
        {
            let text = buffer.line_at(idx);
            let line = engine.layout(text.as_str(), width);
            let h = engine.min_height(&line);
            match self.paragraph_bounds_cache.set_height(idx, h) {
                Ok(_) => {},
                Err(_) => {},
            }
            idx += 1;
        }
    }

    /// Moves the window to the target line range `[lo, hi)`.
    ///
    /// A target disjoint from the current window discards it wholesale;
    /// otherwise the overlap is kept, the window is trimmed on both sides,
    /// kept entries are re-wrapped when the width changed, and missing lines
    /// are laid out: in descending order when prepending, ascending when
    /// appending.
    fn scroll_to_lines<B: TextSource, E: LayoutEngine<Line = L>>(
        &mut self,
        lo: usize,
        hi: usize,
        buffer: &B,
        engine: &mut E,
        width: u32,
    )
        requires
            old(self).wf(),
            lo <= hi,
            hi <= buffer.line_count_spec(),
            hi <= MAX_LINES,
        ensures
            final(self).wf(),
            final(self)@.bounds == old(self)@.bounds,
            final(self)@.start == lo,
            final(self)@.window.len() == hi - lo,
            final(self)@.last_width == width,
            width == old(self)@.last_width ==> ({
                let ov_lo = vstd::math::max(lo as int, old(self)@.start);
                let ov_hi = vstd::math::min(
                    hi as int,
                    old(self)@.start + old(self)@.window.len(),
                );
                ov_lo < ov_hi ==> final(self)@.window.subrange(ov_lo - lo, ov_hi - lo) == old(
                    self,
                )@.window.subrange(ov_lo - old(self)@.start, ov_hi - old(self)@.start)
            }),
    {
        let ghost pre = self@;
        // A complete jump: the target range does not overlap the window.
        if lo >= self.start_line_idx + self.paragraphs.len() || hi <= self.start_line_idx {
            self.paragraphs.clear();
            self.start_line_idx = lo;
        }
        let ghost s1 = self@;
        // Drop the leading entries below the target range.
        if self.start_line_idx < lo {
            let count = lo - self.start_line_idx;
            assert(count < s1.window.len());
            let mut k: usize = 0;
            while k < count
                invariant
                    k <= count,
                    count <= s1.window.len(),
                    self@.window == s1.window.skip(k as int),
                    self@.start == s1.start,
                    self@.bounds == s1.bounds,
                    self@.last_width == s1.last_width,
                decreases count - k,
            {
                let _popped = self.paragraphs.pop_front();
                k += 1;
                proof {
                    assert(self@.window =~= s1.window.skip(k as int));
                }
            }
            self.start_line_idx = lo;
        }
        let ghost s2 = self@;
        // Drop the trailing entries beyond the target range.
        if self.start_line_idx + self.paragraphs.len() > hi {
            assert(self.start_line_idx <= hi);
            let keep = hi - self.start_line_idx;
            self.paragraphs.truncate(keep);
        }
        let ghost s3 = self@;
        assert(s3.start + s3.window.len() <= hi);
        assert(lo <= s3.start);
        // Re-wrap the kept entries when the width changed.
        if width != self.last_paragraph_size {
            let n = self.paragraphs.len();
            let mut k: usize = 0;
            while k < n
                invariant
                    k <= n,
                    self@.window.len() == n,
                    self@.start == s3.start,
                    self@.bounds == s3.bounds,
                    self@.last_width == s3.last_width,
                decreases n - k,
            {
                match self.paragraphs.pop_front() {
                    Some(mut line) => {
                        engine.resize(&mut line, width);
                        self.paragraphs.push_back(line);
                    },
                    None => {},
                }
                k += 1;
            }
        }
        let ghost s4 = self@;
        // Lay out the missing lines above the window, in descending order, so
        // that prepending one at a time reconstructs ascending order.
        while lo < self.start_line_idx
            invariant
                lo <= self@.start,
                self@.start <= s4.start,
                self@.start + self@.window.len() == s4.start + s4.window.len(),
                s4.start + s4.window.len() <= hi,
                hi <= buffer.line_count_spec(),
                hi <= MAX_LINES,
                self@.window.skip(s4.start - self@.start) == s4.window,
                self@.bounds == s4.bounds,
                self@.last_width == s4.last_width,
            decreases self@.start - lo,
        {
            let idx = self.start_line_idx - 1;
            let text = buffer.line_at(idx);
            let line = engine.layout(text.as_str(), width);
            self.paragraphs.push_front(line);
            self.start_line_idx = idx;
            proof {
                assert(self@.window.skip(s4.start - self@.start) =~= s4.window);
            }
        }
        let ghost s5 = self@;
        // Lay out the missing lines below the window, in ascending order.
        while self.start_line_idx + self.paragraphs.len() < hi
            invariant
                self@.start == s5.start,
                s5.window.len() <= self@.window.len(),
                self@.start + self@.window.len() <= hi,
                hi <= buffer.line_count_spec(),
                hi <= MAX_LINES,
                self@.window.take(s5.window.len() as int) == s5.window,
                self@.bounds == s5.bounds,
                self@.last_width == s5.last_width,
            decreases hi - self@.start - self@.window.len(),
        {
            let idx = self.start_line_idx + self.paragraphs.len();
            let text = buffer.line_at(idx);
            let line = engine.layout(text.as_str(), width);
            self.paragraphs.push_back(line);
            proof {
                assert(self@.window.take(s5.window.len() as int) =~= s5.window);
            }
        }
        self.last_paragraph_size = width;
        proof {
            if width == pre.last_width {
                let ov_lo = vstd::math::max(lo as int, pre.start);
                let ov_hi = vstd::math::min(hi as int, pre.start + pre.window.len());
                if ov_lo < ov_hi {
                    assert(s1 == pre);
                    assert(s2.start == ov_lo);
                    assert(s2.window == pre.window.skip(ov_lo - pre.start));
                    assert(s3.window =~= pre.window.subrange(
                        ov_lo - pre.start,
                        ov_hi - pre.start,
                    ));
                    assert(s4 == s3);
                    assert(self@.window.subrange(ov_lo - lo, ov_hi - lo) =~= s4.window);
                }
            }
        }
    }

    /// Moves the window to cover the viewport `[top, top + height)` plus the
    /// prefetch margins, translating the pixel range into a line range
    /// through the bounds cache.
    ///
    /// The resulting window covers exactly the target range; it contains
    /// every line needed to paint the viewport, and all lines shared with
    /// the previous window are reused rather than laid out again when the
    /// width is unchanged.
    ///
    /// Scrolling never writes to the bounds cache: heights re-measured by a
    /// width change are not propagated, so offsets keep reflecting the last
    /// bounds-establishing pass until `layout_everything` runs again.
    pub fn scroll<B: TextSource, E: LayoutEngine<Line = L>>(
        &mut self,
        top: i64,
        height: i64,
        buffer: &B,
        engine: &mut E,
        width: u32,
    )
        requires
            old(self).wf(),
            0 <= height <= MAX_SCROLL_PX,
            -MAX_SCROLL_PX <= top <= MAX_SCROLL_PX,
            old(self)@.bounds.heights.len() <= buffer.line_count_spec(),
        ensures
            final(self).wf(),
            final(self)@.bounds == old(self)@.bounds,
            final(self)@.last_width == width,
            final(self)@.start == target_lo(old(self)@.bounds.tops, top as int, height as int),
            final(self)@.start + final(self)@.window.len() == target_hi(
                old(self)@.bounds.tops,
                top as int,
                height as int,
                buffer.line_count_spec(),
            ),
            final(self)@.start <= find_spec(
                old(self)@.bounds.tops,
                vstd::math::max(top as int, 0),
            ),
            final(self)@.start + final(self)@.window.len() >= vstd::math::min(
                find_spec(old(self)@.bounds.tops, top as int + height as int) + 1,
                buffer.line_count_spec(),
            ),
            width == old(self)@.last_width ==> ({
                let lo = target_lo(old(self)@.bounds.tops, top as int, height as int);
                let hi = target_hi(
                    old(self)@.bounds.tops,
                    top as int,
                    height as int,
                    buffer.line_count_spec(),
                );
                let ov_lo = vstd::math::max(lo, old(self)@.start);
                let ov_hi = vstd::math::min(
                    hi,
                    old(self)@.start + old(self)@.window.len(),
                );
                ov_lo < ov_hi ==> final(self)@.window.subrange(ov_lo - lo, ov_hi - lo) == old(
                    self,
                )@.window.subrange(ov_lo - old(self)@.start, ov_hi - old(self)@.start)
            }),
    {
        let ghost pre = self@;
        let mut layout_top: i64 = top - PREFETCH_ABOVE_FACTOR * height;
        if layout_top < 0 {
            layout_top = 0;
        }
        let layout_bottom: i64 = top + PREFETCH_BELOW_FACTOR * height;
        let top_find = self.paragraph_bounds_cache.find_nearest_paragraph(layout_top);
        let top_line = if top_find >= 1 {
            top_find - 1
        } else {
            0
        };
        let bottom_find = self.paragraph_bounds_cache.find_nearest_paragraph(layout_bottom);
        proof {
            crate::bounds_cache::lemma_find_spec_props_any(pre.bounds.tops, layout_top as int);
            crate::bounds_cache::lemma_find_spec_props_any(pre.bounds.tops, layout_bottom as int);
        }
        let bottom_line = bottom_find + 1;
        let line_count = buffer.line_count();
        let mut hi = bottom_line;
        if hi > line_count {
            hi = line_count;
        }
        if hi < top_line {
            hi = top_line;
        }
        self.scroll_to_lines(top_line, hi, buffer, engine, width);
        proof {
            crate::bounds_cache::lemma_find_spec_monotone(
                pre.bounds.tops,
                fetch_top(top as int, height as int),
                vstd::math::max(top as int, 0),
            );
            crate::bounds_cache::lemma_find_spec_monotone(
                pre.bounds.tops,
                top as int + height as int,
                fetch_bottom(top as int, height as int),
            );
            crate::bounds_cache::lemma_find_spec_props_any(
                pre.bounds.tops,
                vstd::math::max(top as int, 0),
            );
        }
    }

    /// The total content height: forces the accumulation up to the last
    /// known line and returns its bottom offset, the sum of every recorded
    /// height.
    pub fn get_full_height_px(&mut self) -> (h: i64)
        requires
            old(self).wf(),
            old(self)@.bounds.heights.len() > 0,
        ensures
            final(self).wf(),
            h == prefix_sum(old(self)@.bounds.heights, old(self)@.bounds.heights.len() as int),
            final(self)@.bounds.heights == old(self)@.bounds.heights,
            final(self)@.window == old(self)@.window,
            final(self)@.start == old(self)@.start,
            final(self)@.last_width == old(self)@.last_width,
    {
        let last_idx = self.paragraph_bounds_cache.lines_len() - 1;
        self.paragraph_bounds_cache.calc_bounds(last_idx);
        proof {
            lemma_prefix_sum_fits(self@.bounds.heights, self@.bounds.heights.len() as int);
        }
        match self.paragraph_bounds_cache.get_bounds(last_idx) {
            Some(b) => b.bottom(),
            None => 0,
        }
    }
}

} // verus!
