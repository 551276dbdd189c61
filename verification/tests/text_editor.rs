use tui_files::keycode::KeyCode;
use tui_files::text_editor::{EditorRequest, Mode, TextEditor};

fn loaded(path: &str, text: &str) -> TextEditor {
    let mut ed = TextEditor::new();
    ed.set_path(String::from(path), text);
    ed
}

#[test]
fn set_path_splits_lines() {
    let ed = loaded("/tmp/a.txt", "ab\ncd");
    assert_eq!(ed.lines.len(), 2);
    assert_eq!(ed.lines[0], vec!['a', 'b']);
    assert_eq!(ed.lines[1], vec!['c', 'd']);
    assert_eq!(ed.cursor_position.line, 0);
    assert_eq!(ed.cursor_position.char, 0);
    assert!(ed.file_saved);
}

#[test]
fn set_path_keeps_empty_pieces() {
    let ed = loaded("/tmp/a.txt", "a\n\nb\n");
    assert_eq!(ed.lines.len(), 4);
    assert_eq!(ed.lines[1], Vec::<char>::new());
    assert_eq!(ed.lines[3], Vec::<char>::new());
}

#[test]
fn get_text_joins_lines_back() {
    let ed = loaded("/tmp/a.txt", "a\n\nb");
    assert_eq!(ed.get_text(), "a\n\nb");
}

#[test]
fn char_moves_clamp_at_line_ends() {
    let mut ed = loaded("/tmp/a.txt", "ab");
    ed.prev_char();
    assert_eq!(ed.cursor_position.char, 0);
    ed.next_char();
    ed.next_char();
    assert_eq!(ed.cursor_position.char, 2);
    ed.next_char();
    assert_eq!(ed.cursor_position.char, 2);
}

#[test]
fn line_moves_clamp_char_to_line_length() {
    let mut ed = loaded("/tmp/a.txt", "abcd\nx\n");
    ed.next_char();
    ed.next_char();
    ed.next_char();
    ed.next_char();
    assert_eq!(ed.cursor_position.char, 4);
    ed.next_line();
    assert_eq!(ed.cursor_position.line, 1);
    assert_eq!(ed.cursor_position.char, 1);
    ed.next_line();
    assert_eq!(ed.cursor_position.line, 2);
    assert_eq!(ed.cursor_position.char, 0);
    ed.next_line();
    assert_eq!(ed.cursor_position.line, 2);
    ed.prev_line();
    ed.prev_line();
    assert_eq!(ed.cursor_position.line, 0);
    assert_eq!(ed.cursor_position.char, 0);
}

#[test]
fn line_move_sequences_keep_cursor_in_line() {
    let mut ed = loaded("/tmp/a.txt", "abcd\n\nxy");
    for c in "llll".chars() {
        let _ = c;
        ed.next_char();
    }
    for step in [true, true, false, true, false, false, true] {
        if step {
            ed.next_line();
        } else {
            ed.prev_line();
        }
        assert!(ed.cursor_position.line < ed.lines.len());
        assert!(ed.cursor_position.char <= ed.lines[ed.cursor_position.line].len());
    }
}

#[test]
fn insert_char_advances_and_marks_dirty() {
    let mut ed = loaded("/tmp/a.txt", "ab");
    ed.next_char();
    ed.insert(KeyCode::Char('x'));
    assert_eq!(ed.lines[0], vec!['a', 'x', 'b']);
    assert_eq!(ed.cursor_position.char, 2);
    assert!(!ed.file_saved);
}

#[test]
fn insert_then_backspace_restores_line_and_cursor() {
    let mut ed = loaded("/tmp/a.txt", "ab");
    ed.next_char();
    ed.insert(KeyCode::Char('x'));
    ed.insert(KeyCode::Backspace);
    assert_eq!(ed.lines[0], vec!['a', 'b']);
    assert_eq!(ed.cursor_position.line, 0);
    assert_eq!(ed.cursor_position.char, 1);
}

#[test]
fn delete_forward_merges_next_line() {
    let mut ed = loaded("/tmp/a.txt", "ab\ncd");
    ed.next_char();
    ed.next_char();
    assert_eq!(ed.cursor_position.char, 2);
    ed.insert(KeyCode::Delete);
    assert_eq!(ed.lines.len(), 1);
    assert_eq!(ed.lines[0], vec!['a', 'b', 'c', 'd']);
    assert_eq!(ed.cursor_position.line, 0);
    assert_eq!(ed.cursor_position.char, 2);
}

#[test]
fn backspace_at_line_start_merges_into_previous() {
    let mut ed = loaded("/tmp/a.txt", "ab\ncd");
    ed.next_line();
    assert_eq!(ed.cursor_position.line, 1);
    assert_eq!(ed.cursor_position.char, 0);
    ed.insert(KeyCode::Backspace);
    assert_eq!(ed.lines.len(), 1);
    assert_eq!(ed.lines[0], vec!['a', 'b', 'c', 'd']);
    assert_eq!(ed.cursor_position.line, 0);
    assert_eq!(ed.cursor_position.char, 2);
}

#[test]
fn backspace_at_origin_changes_nothing() {
    let mut ed = loaded("/tmp/a.txt", "ab");
    ed.insert(KeyCode::Backspace);
    assert_eq!(ed.lines[0], vec!['a', 'b']);
    assert_eq!(ed.cursor_position.char, 0);
    assert!(ed.file_saved);
}

#[test]
fn delete_at_end_of_last_line_changes_nothing() {
    let mut ed = loaded("/tmp/a.txt", "ab");
    ed.next_char();
    ed.next_char();
    ed.insert(KeyCode::Delete);
    assert_eq!(ed.lines.len(), 1);
    assert_eq!(ed.lines[0], vec!['a', 'b']);
    assert!(ed.file_saved);
}

#[test]
fn arrow_keys_move_the_cursor_in_edit_mode() {
    let mut ed = loaded("/tmp/a.txt", "ab\ncd");
    assert!(ed.handle_input(KeyCode::Char('i')));
    assert!(ed.handle_input(KeyCode::Right));
    assert_eq!(ed.cursor_position.char, 1);
    assert!(ed.handle_input(KeyCode::Down));
    assert_eq!(ed.cursor_position.line, 1);
    assert!(ed.handle_input(KeyCode::Up));
    assert_eq!(ed.cursor_position.line, 0);
    assert!(ed.handle_input(KeyCode::Left));
    assert_eq!(ed.cursor_position.char, 0);
    assert_eq!(ed.lines[0], vec!['a', 'b']);
    assert!(ed.file_saved);
}

#[test]
fn enter_splits_line_at_cursor() {
    let mut ed = loaded("/tmp/a.txt", "abcd");
    ed.next_char();
    ed.next_char();
    ed.insert(KeyCode::Enter);
    assert_eq!(ed.lines.len(), 2);
    assert_eq!(ed.lines[0], vec!['a', 'b']);
    assert_eq!(ed.lines[1], vec!['c', 'd']);
    assert_eq!(ed.cursor_position.line, 1);
    assert_eq!(ed.cursor_position.char, 0);
}

#[test]
fn enter_at_line_end_adds_empty_line() {
    let mut ed = loaded("/tmp/a.txt", "ab");
    ed.next_char();
    ed.next_char();
    ed.insert(KeyCode::Enter);
    assert_eq!(ed.lines.len(), 2);
    assert_eq!(ed.lines[0], vec!['a', 'b']);
    assert_eq!(ed.lines[1], Vec::<char>::new());
}

#[test]
fn save_requests_write_of_joined_text() {
    let mut ed = loaded("/tmp/a.txt", "ab\ncd");
    ed.save();
    match ed.take_request() {
        Some(EditorRequest::Write { path, text }) => {
            assert_eq!(path, "/tmp/a.txt");
            assert_eq!(text, "ab\ncd");
        },
        _ => panic!("expected a write request"),
    }
    assert!(ed.take_request().is_none());
}

#[test]
fn failed_write_leaves_buffer_dirty() {
    let mut ed = loaded("/tmp/a.txt", "ab");
    ed.insert(KeyCode::Char('x'));
    assert!(!ed.file_saved);
    ed.save();
    let _ = ed.take_request();
    ed.apply_save_result(false);
    assert!(!ed.file_saved);
    ed.save();
    let _ = ed.take_request();
    ed.apply_save_result(true);
    assert!(ed.file_saved);
}

#[test]
fn go_back_is_gated_by_dirty_state() {
    let mut ed = loaded("/tmp/a.txt", "ab");
    assert!(!ed.go_back(KeyCode::Esc));
    assert!(!ed.modal_open);
    ed.edit_mode();
    assert!(ed.go_back(KeyCode::Esc));
    assert!(matches!(ed.mode, Mode::View));
    ed.insert(KeyCode::Char('x'));
    assert!(ed.go_back(KeyCode::Esc));
    assert!(ed.modal_open);
}

#[test]
fn modal_resolution_closes_and_optionally_saves() {
    let mut ed = loaded("/tmp/a.txt", "ab");
    ed.insert(KeyCode::Char('x'));
    ed.go_back(KeyCode::Esc);
    assert!(ed.modal_open);
    ed.refuse_modal();
    assert!(!ed.modal_open);
    assert!(ed.take_request().is_none());
    ed.go_back(KeyCode::Esc);
    ed.confirm_modal();
    assert!(!ed.modal_open);
    assert!(matches!(ed.take_request(), Some(EditorRequest::Write { .. })));
}

#[test]
fn titles_show_mode_name_and_dirty_star() {
    let mut ed = loaded("/tmp/dir/notes.txt", "hi");
    assert_eq!(ed.get_file_name(), "notes.txt");
    assert_eq!(ed.get_title(), "notes.txt");
    ed.focus();
    assert_eq!(ed.get_title(), "[View] notes.txt");
    ed.edit_mode();
    ed.insert(KeyCode::Char('!'));
    assert_eq!(ed.get_title(), "[Edit] notes.txt*");
}

#[test]
fn handle_input_dispatches_view_mode_commands() {
    let mut ed = loaded("/tmp/a.txt", "ab\ncd");
    assert!(ed.handle_input(KeyCode::Char('j')));
    assert_eq!(ed.cursor_position.line, 1);
    assert!(ed.handle_input(KeyCode::Char('k')));
    assert_eq!(ed.cursor_position.line, 0);
    assert!(ed.handle_input(KeyCode::Char('l')));
    assert_eq!(ed.cursor_position.char, 1);
    assert!(ed.handle_input(KeyCode::Char('h')));
    assert_eq!(ed.cursor_position.char, 0);
    assert!(!ed.handle_input(KeyCode::Char('z')));
    assert!(!ed.handle_input(KeyCode::Esc));
}

#[test]
fn handle_input_inserts_in_edit_mode() {
    let mut ed = loaded("/tmp/a.txt", "ab");
    assert!(ed.handle_input(KeyCode::Char('i')));
    assert!(matches!(ed.mode, Mode::Edit));
    assert!(ed.handle_input(KeyCode::Char('z')));
    assert_eq!(ed.lines[0], vec!['z', 'a', 'b']);
    assert!(ed.handle_input(KeyCode::Esc));
    assert!(matches!(ed.mode, Mode::View));
}

#[test]
fn handle_input_ignored_while_modal_open() {
    let mut ed = loaded("/tmp/a.txt", "ab");
    ed.insert(KeyCode::Char('x'));
    ed.go_back(KeyCode::Esc);
    assert!(ed.modal_open);
    assert!(!ed.handle_input(KeyCode::Char('j')));
    assert_eq!(ed.cursor_position.line, 0);
}
