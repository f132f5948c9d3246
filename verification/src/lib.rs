//! A windowed layout cache for line-oriented text viewports.
//!
//! Two cooperating structures carry the work: [`bounds_cache::ParagraphBoundsCache`]
//! tracks, per line, a height and a cumulative top offset, answering pixel-to-line
//! queries by binary search and re-accumulating lazily after a height change;
//! [`paragraph_cache::ParagraphCache`] keeps a contiguous, moving window of
//! laid-out line objects covering the viewport plus a prefetch margin.
//!
//! All vertical measures are integer layout units (pixels); the text source and
//! the line-layout engine are supplied by the caller through the
//! [`buffer::TextSource`] and [`engine::LayoutEngine`] contracts.

use vstd::prelude::*;

pub mod bounds_cache;
pub mod buffer;
pub mod engine;
pub mod paragraph_cache;
pub mod view;

verus! {

/// An error signalled when a cache is driven outside its intended call order.
#[derive(Clone, Copy, Debug, PartialEq, Eq)]
pub enum CacheError {
    /// `set_height` was called with an index more than one past the lines
    /// recorded so far: lines must be introduced in order of first layout.
    OutOfOrderInsertion,
    /// A windowed line has no accumulated bounds: a bounds-establishing pass
    /// must run before the window is paired with offsets.
    InternalInconsistency,
}

} // verus!
