//! Per-line heights and lazily accumulated cumulative top offsets.
//!
//! `tops[i]` caches the sum of `heights[0..i]`; a height change truncates the
//! cached tops from the changed line on, and `calc_bounds` resumes the
//! accumulation from the last valid entry when a later query needs it.

use vstd::prelude::*;

use crate::CacheError;

verus! {

/// Upper bound on the number of lines a bounds cache will record.
///
/// Each height fits in `u32`, so with at most `0x4000_0000` lines every
/// cumulative offset stays below `2^62` and all sums fit in `i64`.
pub const MAX_LINES: usize = 0x4000_0000;

/// The sum of the first `i` heights: the top offset of line `i`.
pub open spec fn prefix_sum(heights: Seq<u32>, i: int) -> int
    decreases i,
{
    if i <= 0 {
        0
    } else {
        prefix_sum(heights, i - 1) + heights[i - 1]
    }
}

/// Two height sequences that agree below `i` have the same `i`-th prefix sum.
pub proof fn lemma_prefix_sum_agree(h1: Seq<u32>, h2: Seq<u32>, i: int)
    requires
        0 <= i <= h1.len(),
        i <= h2.len(),
        forall|j: int| 0 <= j < i ==> h1[j] == h2[j],
    ensures
        prefix_sum(h1, i) == prefix_sum(h2, i),
    decreases i,
{
    if i > 0 {
        lemma_prefix_sum_agree(h1, h2, i - 1);
    }
}

/// Prefix sums are non-negative and bounded by `i` times the largest height.
pub proof fn lemma_prefix_sum_bounds(heights: Seq<u32>, i: int)
    requires
        0 <= i <= heights.len(),
    ensures
        0 <= prefix_sum(heights, i) <= i * (u32::MAX as int),
    decreases i,
{
    if i > 0 {
        lemma_prefix_sum_bounds(heights, i - 1);
        assert((i - 1) * (u32::MAX as int) + (u32::MAX as int) == i * (u32::MAX as int))
            by (nonlinear_arith);
    }
}

/// Every prefix sum of a bounded cache fits comfortably in `i64`.
pub proof fn lemma_prefix_sum_fits(heights: Seq<u32>, i: int)
    requires
        0 <= i <= heights.len(),
        heights.len() <= MAX_LINES,
    ensures
        0 <= prefix_sum(heights, i) < 0x4000_0000_0000_0000,
{
    lemma_prefix_sum_bounds(heights, i);
    assert(i * (u32::MAX as int) <= (MAX_LINES as int) * (u32::MAX as int)) by (nonlinear_arith)
        requires
            0 <= i <= MAX_LINES as int,
    ;
}

/// Prefix sums grow with the index.
pub proof fn lemma_prefix_sum_monotone(heights: Seq<u32>, i: int, j: int)
    requires
        0 <= i <= j <= heights.len(),
    ensures
        prefix_sum(heights, i) <= prefix_sum(heights, j),
    decreases j - i,
{
    if i < j {
        lemma_prefix_sum_monotone(heights, i, j - 1);
    }
}

/// The ghost state of a bounds cache: recorded heights, cached top offsets.
pub struct BoundsView {
    pub heights: Seq<u32>,
    pub tops: Seq<i64>,
}

/// Well-formedness: tops lag heights, the line count is bounded, and every
/// cached top is the prefix sum of the heights before it.
pub open spec fn bounds_wf(v: BoundsView) -> bool {
    &&& v.tops.len() <= v.heights.len()
    &&& v.heights.len() <= MAX_LINES
    &&& forall|i: int| 0 <= i < v.tops.len() ==> v.tops[i] == prefix_sum(v.heights, i)
}

/// The heights after `set_height(idx, h)` succeeds: an append or an update.
pub open spec fn set_height_heights(heights: Seq<u32>, idx: int, h: u32) -> Seq<u32>
    recommends
        0 <= idx <= heights.len(),
{
    if idx == heights.len() {
        heights.push(h)
    } else {
        heights.update(idx, h)
    }
}

/// The cached tops after `set_height(idx, h)` succeeds.
///
/// An append extends the tops only when they are caught up; an unchanged
/// height with a cached top leaves them alone; a changed height truncates
/// them to `idx`.
pub open spec fn set_height_tops(heights: Seq<u32>, tops: Seq<i64>, idx: int, h: u32) -> Seq<i64>
    recommends
        0 <= idx <= heights.len(),
{
    if idx == heights.len() {
        if tops.len() == idx {
            tops.push(prefix_sum(heights, idx) as i64)
        } else {
            tops
        }
    } else if heights[idx] == h && tops.len() > idx {
        tops
    } else if tops.len() > idx {
        tops.take(idx)
    } else {
        tops
    }
}

/// Recording the same height twice in a row: the second recording changes
/// neither the heights nor the cached tops.
pub proof fn lemma_set_height_idempotent(heights: Seq<u32>, tops: Seq<i64>, idx: int, h: u32)
    requires
        0 <= idx <= heights.len(),
        tops.len() <= heights.len(),
    ensures
        ({
            let h1 = set_height_heights(heights, idx, h);
            let t1 = set_height_tops(heights, tops, idx, h);
            set_height_heights(h1, idx, h) == h1 && set_height_tops(h1, t1, idx, h) == t1
        }),
{
    let h1 = set_height_heights(heights, idx, h);
    let t1 = set_height_tops(heights, tops, idx, h);
    assert(h1[idx] == h);
    if idx < heights.len() {
        assert(set_height_heights(h1, idx, h) =~= h1);
        if !(heights[idx] == h && tops.len() > idx) && tops.len() > idx {
            assert(t1 == tops.take(idx));
            assert(set_height_tops(h1, t1, idx, h) == t1);
        }
    }
}

/// Changing the height of an existing line invalidates every cached top at or
/// past that line: the tops are truncated to length at most `idx`, so
/// `get_bounds(j)` is absent for every `j >= idx` until `calc_bounds` re-runs.
pub proof fn lemma_set_height_invalidates(heights: Seq<u32>, tops: Seq<i64>, idx: int, new_height: u32)
    requires
        0 <= idx < heights.len(),
        tops.len() <= heights.len(),
        heights[idx] != new_height,
    ensures
        set_height_tops(heights, tops, idx, new_height).len() <= idx,
        tops.len() > idx ==> set_height_tops(heights, tops, idx, new_height) == tops.take(idx),
{
}

/// The line whose cached top is nearest below a pixel offset.
///
/// The last index whose top is at or below `p`; `0` when there is no such
/// index (an offset above the start of the document) or when no top is cached.
pub open spec fn find_spec(tops: Seq<i64>, p: int) -> int
    decreases tops.len(),
{
    if tops.len() == 0 {
        0
    } else if tops.last() <= p {
        tops.len() - 1
    } else {
        find_spec(tops.drop_last(), p)
    }
}

/// Sortedness of a sequence of cached tops.
pub open spec fn tops_sorted(tops: Seq<i64>) -> bool {
    forall|i: int, j: int| 0 <= i <= j < tops.len() ==> tops[i] <= tops[j]
}

/// On a sorted sequence, `find_spec` is in range, is an index whose top is at
/// or below `p` whenever any index qualifies, and is the largest such index.
pub proof fn lemma_find_spec_props(tops: Seq<i64>, p: int)
    requires
        tops_sorted(tops),
    ensures
        0 <= find_spec(tops, p),
        tops.len() > 0 ==> find_spec(tops, p) < tops.len(),
        tops.len() == 0 ==> find_spec(tops, p) == 0,
        forall|j: int| 0 <= j < tops.len() && tops[j] <= p ==> j <= find_spec(tops, p),
        (tops.len() > 0 && tops[0] <= p) ==> tops[find_spec(tops, p)] <= p,
        (tops.len() > 0 && tops[0] > p) ==> find_spec(tops, p) == 0,
    decreases tops.len(),
{
    if tops.len() > 0 && tops.last() > p {
        let rest = tops.drop_last();
        assert(forall|j: int| 0 <= j < rest.len() ==> rest[j] == tops[j]);
        lemma_find_spec_props(rest, p);
        assert forall|j: int| 0 <= j < tops.len() && tops[j] <= p implies j <= find_spec(
            tops,
            p,
        ) by {
            assert(j < tops.len() - 1);
            assert(rest[j] <= p);
        }
    }
}

/// A larger offset never maps to an earlier line.
pub proof fn lemma_find_spec_monotone(tops: Seq<i64>, p_low: int, p_high: int)
    requires
        p_low <= p_high,
    ensures
        find_spec(tops, p_low) <= find_spec(tops, p_high),
    decreases tops.len(),
{
    if tops.len() > 0 && tops.last() > p_high {
        lemma_find_spec_monotone(tops.drop_last(), p_low, p_high);
    } else if tops.len() > 0 && tops.last() > p_low {
        lemma_find_spec_props_any(tops.drop_last(), p_low);
    }
}

/// `find_spec` stays in range on any sequence.
pub proof fn lemma_find_spec_props_any(tops: Seq<i64>, p: int)
    ensures
        0 <= find_spec(tops, p),
        tops.len() > 0 ==> find_spec(tops, p) < tops.len(),
        tops.len() == 0 ==> find_spec(tops, p) == 0,
    decreases tops.len(),
{
    if tops.len() > 0 && tops.last() > p {
        lemma_find_spec_props_any(tops.drop_last(), p);
    }
}

/// A well-formed cache has sorted tops: heights are non-negative, so the
/// prefix sums never decrease.
pub proof fn lemma_wf_tops_sorted(v: BoundsView)
    requires
        bounds_wf(v),
    ensures
        tops_sorted(v.tops),
{
    assert forall|i: int, j: int| 0 <= i <= j < v.tops.len() implies v.tops[i] <= v.tops[j] by {
        lemma_prefix_sum_monotone(v.heights, i, j);
    }
}

/// The vertical extent of one line: its top offset and its height.
#[derive(Clone, Copy, Debug, PartialEq, Eq, Structural)]
pub struct ParagraphBounds {
    pub top: i64,
    pub height: u32,
}

impl ParagraphBounds {
    /// The bottom offset of the line: top plus height.
    pub fn bottom(&self) -> (r: i64)
        requires
            self.top + self.height <= i64::MAX,
        ensures
            r == self.top + self.height,
    {
        self.top + self.height as i64
    }
}

/// Keeps the top offset and height of each paragraph. Whenever the paragraph
/// with index `n` changes height, the cached tops are truncated to `n`,
/// because every paragraph below moves by the height delta; `calc_bounds`
/// re-accumulates them on demand from the last valid entry.
#[derive(Debug)]
pub struct ParagraphBoundsCache {
    heights: Vec<u32>,
    tops: Vec<i64>,
}

impl View for ParagraphBoundsCache {
    type V = BoundsView;

    closed spec fn view(&self) -> BoundsView {
        BoundsView { heights: self.heights@, tops: self.tops@ }
    }
}

impl ParagraphBoundsCache {
    /// The structural and arithmetic invariant of the cache.
    pub open spec fn wf(&self) -> bool {
        bounds_wf(self@)
    }

    /// An empty cache, sized for the given number of lines.
    pub fn with_capacity(capacity: usize) -> (r: Self)
        ensures
            r.wf(),
            r@.heights.len() == 0,
            r@.tops.len() == 0,
    {
        ParagraphBoundsCache { heights: Vec::with_capacity(capacity), tops: Vec::with_capacity(capacity) }
    }

    /// The number of lines for which a height is recorded.
    pub fn lines_len(&self) -> (n: usize)
        ensures
            n == self@.heights.len(),
    {
        self.heights.len()
    }

    /// The number of lines for which a top offset is currently cached.
    pub fn tops_len(&self) -> (n: usize)
        ensures
            n == self@.tops.len(),
    {
        self.tops.len()
    }

    /// Records or updates the height of line `idx`.
    ///
    /// Appending (`idx` equal to the line count) also extends the cached tops
    /// when they are caught up; changing an existing height truncates the
    /// cached tops to `idx`, leaving re-accumulation to `calc_bounds`; writing
    /// an unchanged height is a no-op. An index past the end by more than one
    /// is a usage error.
    pub fn set_height(&mut self, idx: usize, new_height: u32) -> (r: Result<(), CacheError>)
        requires
            old(self).wf(),
            idx == old(self)@.heights.len() ==> old(self)@.heights.len() < MAX_LINES,
        ensures
            final(self).wf(),
            r is Ok <==> idx <= old(self)@.heights.len(),
            r is Err ==> *final(self) == *old(self) && r == Err::<(), CacheError>(
                CacheError::OutOfOrderInsertion,
            ),
            r is Ok ==> final(self)@.heights == set_height_heights(
                old(self)@.heights,
                idx as int,
                new_height,
            ) && final(self)@.tops == set_height_tops(
                old(self)@.heights,
                old(self)@.tops,
                idx as int,
                new_height,
            ),
    {
        if idx > self.heights.len() {
            return Err(CacheError::OutOfOrderInsertion);
        }
        if idx == self.heights.len() {
            if self.tops.len() == idx {
                let new_top: i64 = if idx == 0 {
                    0
                } else {
                    proof {
                        lemma_prefix_sum_bounds(self@.heights, idx - 1);
                    }
                    self.tops[idx - 1] + self.heights[idx - 1] as i64
                };
                self.tops.push(new_top);
            }
            self.heights.push(new_height);
            proof {
                assert forall|i: int| 0 <= i < self@.tops.len() implies self@.tops[i]
                    == prefix_sum(self@.heights, i) by {
                    lemma_prefix_sum_agree(old(self)@.heights, self@.heights, i);
                }
            }
            return Ok(());
        }
        if self.heights[idx] == new_height && self.tops.len() > idx {
            proof {
                assert(self@.heights =~= set_height_heights(
                    old(self)@.heights,
                    idx as int,
                    new_height,
                ));
            }
            return Ok(());
        }
        let ghost pre_heights = self@.heights;
        self.heights[idx] = new_height;
        if self.tops.len() > idx {
            self.tops.truncate(idx);
        }
        proof {
            assert forall|i: int| 0 <= i < self@.tops.len() implies self@.tops[i] == prefix_sum(
                self@.heights,
                i,
            ) by {
                lemma_prefix_sum_agree(pre_heights, self@.heights, i);
            }
        }
        Ok(())
    }

    /// Populates the cached tops up to and including `paragraph_idx`,
    /// resuming the accumulation from the last valid entry.
    ///
    /// Afterwards `tops[paragraph_idx]` equals the sum of the heights before
    /// it, and every previously cached top is unchanged.
    pub fn calc_bounds(&mut self, paragraph_idx: usize)
        requires
            old(self).wf(),
            paragraph_idx < old(self)@.heights.len(),
        ensures
            final(self).wf(),
            final(self)@.heights == old(self)@.heights,
            final(self)@.tops.len() >= paragraph_idx + 1,
            old(self)@.tops.len() > paragraph_idx ==> *final(self) == *old(self),
            old(self)@.tops.len() <= paragraph_idx ==> final(self)@.tops.len() == paragraph_idx
                + 1,
            final(self)@.tops == old(self)@.tops + final(self)@.tops.skip(
                old(self)@.tops.len() as int,
            ),
            final(self)@.tops[paragraph_idx as int] == prefix_sum(
                final(self)@.heights,
                paragraph_idx as int,
            ),
    {
        let ghost pre = self@;
        if self.tops.len() <= paragraph_idx {
            let mut current_top: i64 = if self.tops.len() == 0 {
                0
            } else {
                let last_idx = self.tops.len() - 1;
                proof {
                    lemma_prefix_sum_bounds(self@.heights, last_idx + 1);
                }
                self.tops[last_idx] + self.heights[last_idx] as i64
            };
            let mut i: usize = self.tops.len();
            while i <= paragraph_idx
                invariant
                    self@.heights == pre.heights,
                    bounds_wf(self@),
                    pre.tops.len() <= i,
                    i == self@.tops.len(),
                    i <= paragraph_idx + 1,
                    paragraph_idx < self@.heights.len(),
                    current_top == prefix_sum(self@.heights, i as int),
                    self@.tops == pre.tops + self@.tops.skip(pre.tops.len() as int),
                decreases paragraph_idx + 1 - i,
            {
                proof {
                    lemma_prefix_sum_bounds(self@.heights, i + 1);
                }
                self.tops.push(current_top);
                current_top = current_top + self.heights[i] as i64;
                i = i + 1;
                proof {
                    assert(self@.tops =~= pre.tops + self@.tops.skip(pre.tops.len() as int));
                }
            }
        } else {
            proof {
                assert(self@.tops =~= pre.tops + self@.tops.skip(pre.tops.len() as int));
            }
        }
    }

    /// Binary search for the line whose cached top is nearest below `top_px`.
    ///
    /// An exact match returns that line; otherwise the line whose range
    /// contains or precedes the offset, clamped to `0`. Never fails: any
    /// offset at or before the start of the document maps to line `0`.
    pub fn find_nearest_paragraph(&self, top_px: i64) -> (r: usize)
        requires
            self.wf(),
        ensures
            r == find_spec(self@.tops, top_px as int),
    {
        proof {
            lemma_wf_tops_sorted(self@);
        }
        let mut lo: usize = 0;
        let mut hi: usize = self.tops.len();
        while lo < hi
            invariant
                self.wf(),
                tops_sorted(self@.tops),
                lo <= hi <= self@.tops.len(),
                forall|j: int| 0 <= j < lo ==> self@.tops[j] <= top_px,
                forall|j: int| hi <= j < self@.tops.len() ==> self@.tops[j] > top_px,
            decreases hi - lo,
        {
            let mid = lo + (hi - lo) / 2;
            if self.tops[mid] <= top_px {
                lo = mid + 1;
            } else {
                hi = mid;
            }
        }
        proof {
            lemma_find_spec_props(self@.tops, top_px as int);
            let fs = find_spec(self@.tops, top_px as int);
            if lo == 0 {
                if self@.tops.len() > 0 {
                    assert(self@.tops[0] > top_px as int);
                    assert(fs == 0);
                }
            } else {
                assert(self@.tops[lo - 1] <= top_px as int);
                assert(lo - 1 <= fs);
                assert(self@.tops[0] <= top_px as int);
                assert(self@.tops[fs] <= top_px as int);
                assert(fs < lo);
            }
        }
        if lo == 0 {
            0
        } else {
            lo - 1
        }
    }

    /// The bounds of line `idx`, or `None` while its top is not yet accumulated.
    pub fn get_bounds(&self, idx: usize) -> (r: Option<ParagraphBounds>)
        requires
            self.wf(),
        ensures
            r is Some <==> idx < self@.tops.len(),
            (r matches Some(b) ==> b.top == self@.tops[idx as int] && b.height
                == self@.heights[idx as int]),
    {
        if self.tops.len() <= idx {
            None
        } else {
            Some(ParagraphBounds { top: self.tops[idx], height: self.heights[idx] })
        }
    }
}

} // verus!
