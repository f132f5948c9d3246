//! The document-view entry points the host embeds.

use vstd::prelude::*;

use ropey::Rope;

use crate::buffer::rope_lines;

verus! {

/// A view over one document, identified by the file it was opened from.
pub struct EditorView {
    init_file_name: Option<String>,
}

impl EditorView {
    /// The file name the view was created with, if any.
    pub closed spec fn spec_init_file_name(&self) -> Option<Seq<char>> {
        match self.init_file_name {
            Some(ref s) => Some(s@),
            None => None,
        }
    }

    /// A view that will open the given file.
    pub fn new_with_init_file_name(init_file_name: String) -> (v: Self)
        ensures
            v.spec_init_file_name() == Some(init_file_name@),
    {
        EditorView { init_file_name: Some(init_file_name) }
    }
}

/// The per-instance state a host keeps for an [`EditorView`].
pub struct EditorViewState {}

/// A view over the document in the given file.
pub fn editor(init_file_name: String) -> (v: EditorView)
    ensures
        v.spec_init_file_name() == Some(init_file_name@),
{
    EditorView::new_with_init_file_name(init_file_name)
}

/// The host-facing widget handle: borrows the document state it draws.
pub struct EditorWidget<'a> {
    state: &'a EditorState,
}

impl<'a> EditorWidget<'a> {
    /// The document state this widget draws.
    pub closed spec fn spec_state(&self) -> EditorState {
        *self.state
    }

    /// A widget over the given document state.
    pub fn new(state: &'a EditorState) -> (w: Self)
        ensures
            w.spec_state() == *state,
    {
        EditorWidget { state }
    }
}

/// The state of one open document: where it came from, and its text.
pub struct EditorState {
    /// The path of the file being read/written; `None` if the document is in
    /// memory only.
    path: Option<String>,
    buffer: Rope,
}

impl EditorState {
    /// The path the document was opened from, if any.
    pub closed spec fn spec_path(&self) -> Option<Seq<char>> {
        match self.path {
            Some(ref s) => Some(s@),
            None => None,
        }
    }

    /// The lines of the document.
    pub closed spec fn spec_buffer(&self) -> Seq<Seq<char>> {
        rope_lines(self.buffer)
    }

    /// A document state over the given rope.
    pub fn new(path: Option<String>, buffer: Rope) -> (s: Self)
        ensures
            s.spec_path() == match path {
                Some(p) => Some::<Seq<char>>(p@),
                None => None::<Seq<char>>,
            },
            s.spec_buffer() == rope_lines(buffer),
    {
        EditorState { path, buffer }
    }

    /// The path the document was opened from, if any.
    pub fn path(&self) -> (p: Option<&String>)
        ensures
            match p {
                Some(q) => self.spec_path() == Some(q@),
                None => self.spec_path() is None,
            },
    {
        match &self.path {
            Some(q) => Some(q),
            None => None,
        }
    }

    /// The document's text.
    pub fn buffer(&self) -> (r: &Rope)
        ensures
            rope_lines(*r) == self.spec_buffer(),
    {
        &self.buffer
    }

    /// The document's text, for editing by the host.
    pub fn buffer_mut(&mut self) -> (r: &mut Rope)
        ensures
            rope_lines(*r) == old(self).spec_buffer(),
            final(self).spec_buffer() == rope_lines(*final(r)),
            final(self).spec_path() == old(self).spec_path(),
    {
        &mut self.buffer
    }
}

} // verus!
