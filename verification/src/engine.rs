//! The line-layout engine contract, and a uniform-height engine.
//!
//! The cache never inspects a laid-out line beyond what the engine reports:
//! it asks the engine to lay out a line of text at a width, to report a
//! laid-out line's minimum height, and to re-wrap a line for a new width.

use vstd::prelude::*;

verus! {

/// A line-layout engine: produces opaque laid-out line objects from raw text
/// and a layout width, measures them, and re-wraps them in place.
///
/// The engine is threaded as an explicit parameter into every
/// layout-producing call; the cache owns no layout state of its own.
pub trait LayoutEngine {
    /// The laid-out line object this engine produces.
    type Line;

    /// Lays out one line of text at the given width.
    fn layout(&mut self, text: &str, width: u32) -> (line: Self::Line);

    /// The minimum height of a laid-out line, in layout units.
    fn min_height(&self, line: &Self::Line) -> (h: u32);

    /// Re-wraps a laid-out line in place for a new width.
    fn resize(&mut self, line: &mut Self::Line, width: u32);
}

/// A laid-out line of the uniform engine: the height it was given and the
/// width it was last laid out at.
#[derive(Clone, Copy, Debug, PartialEq, Eq, Structural)]
pub struct UniformLine {
    pub height: u32,
    pub width: u32,
}

/// A layout engine that lays every line out to one fixed height, counting
/// its layout and resize calls so a caller can observe how much work a
/// window update performed.
#[derive(Clone, Copy, Debug)]
pub struct UniformEngine {
    pub line_height: u32,
    pub layout_calls: u64,
    pub resize_calls: u64,
}

impl UniformEngine {
    /// An engine whose every line is `line_height` units tall.
    pub fn new(line_height: u32) -> (e: Self)
        ensures
            e.line_height == line_height,
            e.layout_calls == 0,
            e.resize_calls == 0,
    {
        UniformEngine { line_height, layout_calls: 0, resize_calls: 0 }
    }
}

impl LayoutEngine for UniformEngine {
    type Line = UniformLine;

    fn layout(&mut self, _text: &str, width: u32) -> (line: UniformLine)
        ensures
            line == (UniformLine { height: old(self).line_height, width }),
            final(self).line_height == old(self).line_height,
            final(self).resize_calls == old(self).resize_calls,
            old(self).layout_calls < u64::MAX ==> final(self).layout_calls == old(
                self,
            ).layout_calls + 1,
    {
        if self.layout_calls < u64::MAX {
            self.layout_calls = self.layout_calls + 1;
        }
        UniformLine { height: self.line_height, width }
    }

    fn min_height(&self, line: &UniformLine) -> (h: u32)
        ensures
            h == line.height,
    {
        line.height
    }

    fn resize(&mut self, line: &mut UniformLine, width: u32)
        ensures
            *final(line) == (UniformLine { height: old(line).height, width }),
            final(self).line_height == old(self).line_height,
            final(self).layout_calls == old(self).layout_calls,
            old(self).resize_calls < u64::MAX ==> final(self).resize_calls == old(
                self,
            ).resize_calls + 1,
    {
        if self.resize_calls < u64::MAX {
            self.resize_calls = self.resize_calls + 1;
        }
        line.width = width;
    }
}

} // verus!
