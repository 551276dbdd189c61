use tui_files::app::{ActiveEditor, App, LoadRequest};
use tui_files::file_explorer::FileEntry;
use tui_files::keycode::KeyCode;
use tui_files::text_editor::EditorRequest;

fn entry(path: &str, is_dir: bool) -> FileEntry {
    FileEntry { path: String::from(path), is_dir, size: 1, modified: 1 }
}

fn sample_app() -> App {
    let entries = vec![entry("/home/d", true), entry("/home/f.txt", false)];
    let preview = vec![entry("/home/d", true), entry("/home/f.txt", false)];
    App::new(String::from("/home"), entries, preview)
}

#[test]
fn new_app_focuses_browser_and_requests_first_load() {
    let mut app = sample_app();
    assert!(app.wf_check());
    assert!(app.explorer.is_focused());
    assert!(!app.text_editor.is_focused());
    assert!(!app.should_stop);
    match app.take_load_request() {
        Some(LoadRequest::Dir(p)) => assert_eq!(p, "/home/d"),
        _ => panic!("expected a directory load for the first selection"),
    }
}

#[test]
fn quit_key_stops_the_application() {
    let mut app = sample_app();
    assert!(app.handle_input(KeyCode::Char('q')));
    assert!(app.should_stop);
}

#[test]
fn enter_on_directory_keeps_focus_on_browser() {
    let mut app = sample_app();
    let _ = app.take_load_request();
    assert!(app.handle_input(KeyCode::Enter));
    assert!(app.explorer.is_focused());
    assert!(!app.text_editor.is_focused());
    assert_eq!(app.provide_editor(), ActiveEditor::Preview);
}

#[test]
fn enter_on_loaded_file_moves_focus_to_editor() {
    let mut app = sample_app();
    let _ = app.take_load_request();
    assert!(app.handle_input(KeyCode::Down));
    match app.take_load_request() {
        Some(LoadRequest::File(p)) => assert_eq!(p, "/home/f.txt"),
        _ => panic!("expected a file load after the selection change"),
    }
    app.apply_load_file(String::from("/home/f.txt"), "hello\nworld");
    assert_eq!(app.text_editor.get_text(), "hello\nworld");
    assert_eq!(app.provide_editor(), ActiveEditor::Text);
    assert!(app.handle_input(KeyCode::Enter));
    assert!(app.text_editor.is_focused());
    assert!(!app.explorer.is_focused());
}

#[test]
fn esc_returns_focus_from_editor_to_browser() {
    let mut app = sample_app();
    let _ = app.take_load_request();
    app.handle_input(KeyCode::Down);
    let _ = app.take_load_request();
    app.apply_load_file(String::from("/home/f.txt"), "hello");
    app.handle_input(KeyCode::Enter);
    assert!(app.text_editor.is_focused());
    assert!(app.handle_input(KeyCode::Esc));
    assert!(!app.text_editor.is_focused());
    assert!(app.explorer.is_focused());
}

#[test]
fn dirty_editor_gates_esc_behind_save_modal() {
    let mut app = sample_app();
    let _ = app.take_load_request();
    app.handle_input(KeyCode::Down);
    let _ = app.take_load_request();
    app.apply_load_file(String::from("/home/f.txt"), "hello");
    app.handle_input(KeyCode::Enter);
    app.handle_input(KeyCode::Char('i'));
    app.handle_input(KeyCode::Char('z'));
    assert!(!app.text_editor.file_saved);
    app.handle_input(KeyCode::Esc);
    assert!(!app.text_editor.modal_open);
    app.handle_input(KeyCode::Esc);
    assert!(app.text_editor.modal_open);
    assert!(app.text_editor.is_focused());

    assert!(app.handle_input(KeyCode::Char('x')));
    assert!(app.text_editor.modal_open);

    assert!(app.handle_input(KeyCode::Char('n')));
    assert!(!app.text_editor.modal_open);
    assert!(app.text_editor.is_focused());
    assert!(!app.text_editor.file_saved);
    assert_eq!(app.text_editor.lines[0], vec!['z', 'h', 'e', 'l', 'l', 'o']);

    app.handle_input(KeyCode::Esc);
    assert!(app.text_editor.modal_open);
    assert!(app.handle_input(KeyCode::Char('y')));
    assert!(!app.text_editor.modal_open);
    assert!(!app.text_editor.is_focused());
    assert!(app.explorer.is_focused());
    match app.text_editor.take_request() {
        Some(EditorRequest::Write { path, text }) => {
            assert_eq!(path, "/home/f.txt");
            assert_eq!(text, "zhello");
        },
        _ => panic!("expected a write request from the confirmed save"),
    }
}

#[test]
fn load_error_activates_placeholder() {
    let mut app = sample_app();
    app.apply_load_error(String::from("Binary file"));
    assert_eq!(app.provide_editor(), ActiveEditor::Null);
    assert_eq!(app.null_editor.message.as_deref(), Some("Binary file"));
    let _ = app.take_load_request();
    assert!(app.handle_input(KeyCode::Enter));
    assert!(!app.text_editor.is_focused());
    assert!(app.explorer.is_focused());
}

#[test]
fn apply_explorer_dir_reseeds_selection_load() {
    let mut app = sample_app();
    let _ = app.take_load_request();
    app.apply_explorer_dir(
        String::from("/home/d"),
        vec![entry("/home/d/inner.txt", false)],
    );
    assert_eq!(app.explorer.current_dir, "/home/d");
    assert_eq!(app.explorer.selected_index, 0);
    match app.take_load_request() {
        Some(LoadRequest::File(p)) => assert_eq!(p, "/home/d/inner.txt"),
        _ => panic!("expected a file load for the new selection"),
    }
}

#[test]
fn browser_keys_reseed_pending_load() {
    let mut app = sample_app();
    let _ = app.take_load_request();
    assert!(app.handle_input(KeyCode::Char('j')));
    match app.take_load_request() {
        Some(LoadRequest::File(p)) => assert_eq!(p, "/home/f.txt"),
        _ => panic!("expected a file load"),
    }
    assert!(app.handle_input(KeyCode::Char('k')));
    match app.take_load_request() {
        Some(LoadRequest::Dir(p)) => assert_eq!(p, "/home/d"),
        _ => panic!("expected a directory load"),
    }
}

#[test]
fn app_command_list_is_fixed() {
    let app = sample_app();
    let commands = app.get_commands();
    assert_eq!(commands.len(), 3);
    assert_eq!(commands[0].name, "Quit");
    assert_eq!(commands[1].name, "Back");
    assert_eq!(commands[2].name, "Open file");
    assert_eq!(app.get_name(), "app");
}

#[test]
fn legend_follows_focus() {
    let expected_explorer = " [Up Arrow] Prev file  [Down Arrow] Next file  [Escape] Back  \
        [Enter] Open file  [d] Delete file  [m] Move file  [/] Filter ";
    let mut app = sample_app();
    assert_eq!(app.legend.command_bindings_string, expected_explorer);
    let _ = app.take_load_request();
    app.handle_input(KeyCode::Down);
    let _ = app.take_load_request();
    app.apply_load_file(String::from("/home/f.txt"), "hello");
    app.handle_input(KeyCode::Enter);
    app.on_window_change();
    let expected_editor = " [l] Next char  [h] Prev char  [j] Next line  [k] Prev line  \
        [s] Save  [i] Edit  [Escape] Go back ";
    assert_eq!(app.legend.command_bindings_string, expected_editor);
}
