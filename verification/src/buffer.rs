//! The text source contract, and a buffer backed by a ropey rope.
//!
//! The cache needs only two things of a document: its total line count and
//! the content of line `i`. `TextSource` states that contract; `Buffer`
//! fulfils it over `ropey::Rope`.

use vstd::prelude::*;

use ropey::Rope;

verus! {

/// A random-access, line-indexed, immutable-for-the-duration document.
pub trait TextSource {
    /// The number of lines in the document.
    spec fn line_count_spec(&self) -> int;

    /// The number of lines in the document.
    fn line_count(&self) -> (n: usize)
        ensures
            n == self.line_count_spec(),
    ;

    /// The text content of line `idx`.
    fn line_at(&self, idx: usize) -> (s: String)
        requires
            idx < self.line_count_spec(),
    ;
}

#[verifier::external_type_specification]
#[verifier::external_body]
pub struct ExRope(Rope);

/// The lines a rope holds, each as its character sequence.
pub uninterp spec fn rope_lines(rope: Rope) -> Seq<Seq<char>>;

/// Relies on ropey's `Rope::len_lines`: the number of lines in the rope.
#[verifier::external_body]
fn rope_len_lines(rope: &Rope) -> (n: usize)
    ensures
        n == rope_lines(*rope).len(),
{
    rope.len_lines()
}

/// Relies on ropey's `Rope::line`: the content of the line at `line_idx`,
/// which panics on an out-of-bounds index.
#[verifier::external_body]
fn rope_line(rope: &Rope, line_idx: usize) -> (s: String)
    requires
        line_idx < rope_lines(*rope).len(),
    ensures
        s@ == rope_lines(*rope)[line_idx as int],
{
    String::from(rope.line(line_idx))
}

/// A line-indexed view of a text document, backed by a rope.
pub struct Buffer {
    rope: Rope,
}

impl Buffer {
    /// The lines of the document, each as its character sequence.
    pub closed spec fn lines(&self) -> Seq<Seq<char>> {
        rope_lines(self.rope)
    }

    /// A buffer over the given rope.
    pub fn new(rope: Rope) -> (b: Buffer)
        ensures
            b.lines() == rope_lines(rope),
    {
        Buffer { rope }
    }

    /// The total number of lines in the document.
    pub fn lines_count(&self) -> (n: usize)
        ensures
            n == self.lines().len(),
    {
        rope_len_lines(&self.rope)
    }

    /// The content of the line at `line_idx`.
    pub fn lines_at(&self, line_idx: usize) -> (s: String)
        requires
            line_idx < self.lines().len(),
        ensures
            s@ == self.lines()[line_idx as int],
    {
        rope_line(&self.rope, line_idx)
    }
}

impl TextSource for Buffer {
    open spec fn line_count_spec(&self) -> int {
        self.lines().len() as int
    }

    fn line_count(&self) -> (n: usize) {
        self.lines_count()
    }

    fn line_at(&self, idx: usize) -> (s: String) {
        self.lines_at(idx)
    }
}

} // verus!
