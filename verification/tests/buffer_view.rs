use editor_core::buffer::Buffer;
use editor_core::view::{EditorState, EditorView, EditorViewState, EditorWidget, editor};
use ropey::Rope;

#[test]
fn buffer_exposes_rope_lines() {
    let buffer = Buffer::new(Rope::from_str("alpha\nbeta\ngamma"));
    assert_eq!(buffer.lines_count(), 3);
    assert_eq!(buffer.lines_at(0), "alpha\n");
    assert_eq!(buffer.lines_at(1), "beta\n");
    assert_eq!(buffer.lines_at(2), "gamma");
}

#[test]
fn empty_rope_is_one_empty_line() {
    let buffer = Buffer::new(Rope::from_str(""));
    assert_eq!(buffer.lines_count(), 1);
    assert_eq!(buffer.lines_at(0), "");
}

#[test]
fn trailing_newline_opens_a_final_empty_line() {
    let buffer = Buffer::new(Rope::from_str("one\ntwo\n"));
    assert_eq!(buffer.lines_count(), 3);
    assert_eq!(buffer.lines_at(2), "");
}

#[test]
fn editor_builds_a_view_for_the_file() {
    let _view: EditorView = editor(String::from("notes.txt"));
    let _other = EditorView::new_with_init_file_name(String::from("draft.txt"));
    let _state = EditorViewState {};
}

#[test]
fn editor_state_keeps_path_and_buffer() {
    let state = EditorState::new(Some(String::from("notes.txt")), Rope::from_str("a\nb"));
    assert_eq!(state.path().map(|p| p.as_str()), Some("notes.txt"));
    assert_eq!(state.buffer().len_lines(), 2);

    let mut anon = EditorState::new(None, Rope::new());
    assert!(anon.path().is_none());
    anon.buffer_mut().insert(0, "hello\nworld");
    assert_eq!(anon.buffer().len_lines(), 2);
}

#[test]
fn widget_borrows_the_document_state() {
    let state = EditorState::new(Some(String::from("notes.txt")), Rope::from_str("a"));
    let _widget = EditorWidget::new(&state);
    assert_eq!(state.path().map(|p| p.as_str()), Some("notes.txt"));
}
