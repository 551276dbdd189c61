use tui_files::binding::{get_bindings, resolve};
use tui_files::command::{Command, CommandId, CommandOwner};
use tui_files::keycode::KeyCode;
use tui_files::legend::{binding_key_for, keycode_to_string, legend_scroll_step, Legend};
use tui_files::sort_entries::{get_sort_entries, sort_by_name, SortCriterion};
use tui_files::file_explorer::FileEntry;
use tui_files::text_editor::{get_insertable_key_codes, is_insertable_key_code};

#[test]
fn binding_table_has_twenty_three_rows() {
    let bindings = get_bindings();
    assert_eq!(bindings.len(), 23);
    assert_eq!(bindings[0].command_id, CommandId::AppQuit);
    assert_eq!(bindings[0].key_code, KeyCode::Char('q'));
}

#[test]
fn resolve_is_scoped_by_owner_namespace() {
    assert_eq!(
        resolve(CommandOwner::Explorer, KeyCode::Up),
        Some(CommandId::ExplorerSelectPreviousFile)
    );
    assert_eq!(
        resolve(CommandOwner::TextEditor, KeyCode::Char('j')),
        Some(CommandId::TextEditorNextLine)
    );
    assert_eq!(
        resolve(CommandOwner::Explorer, KeyCode::Char('j')),
        Some(CommandId::ExplorerSelectNextFile)
    );
    assert_eq!(resolve(CommandOwner::App, KeyCode::Esc), Some(CommandId::AppGoBack));
    assert_eq!(resolve(CommandOwner::Explorer, KeyCode::Char('z')), None);
    assert_eq!(resolve(CommandOwner::PreviewExplorer, KeyCode::Enter), None);
}

#[test]
fn editor_arrow_keys_resolve_to_cursor_moves() {
    assert_eq!(
        resolve(CommandOwner::TextEditor, KeyCode::Right),
        Some(CommandId::TextEditorNextChar)
    );
    assert_eq!(
        resolve(CommandOwner::TextEditor, KeyCode::Left),
        Some(CommandId::TextEditorPrevChar)
    );
    assert_eq!(
        resolve(CommandOwner::TextEditor, KeyCode::Down),
        Some(CommandId::TextEditorNextLine)
    );
    assert_eq!(
        resolve(CommandOwner::TextEditor, KeyCode::Up),
        Some(CommandId::TextEditorPrevLine)
    );
    // the letter keys stay the first match, so the legend still shows them
    assert_eq!(binding_key_for(CommandId::TextEditorNextChar), Some(KeyCode::Char('l')));
}

#[test]
fn resolve_takes_the_first_match() {
    assert_eq!(
        resolve(CommandOwner::Explorer, KeyCode::Enter),
        Some(CommandId::ExplorerOpenSelectedFile)
    );
    assert_eq!(
        resolve(CommandOwner::App, KeyCode::Enter),
        Some(CommandId::AppOpenSelectedFile)
    );
}

#[test]
fn command_ids_render_as_owner_dot_action() {
    assert_eq!(CommandId::AppQuit.id_str(), "app.quit");
    assert_eq!(
        CommandId::ExplorerSelectPreviousFile.id_str(),
        "explorer.select_previous_file"
    );
    assert_eq!(CommandId::TextEditorInsertMode.id_str(), "text_editor.insert_mode");
    assert_eq!(CommandId::TextEditorSave.owner(), CommandOwner::TextEditor);
}

#[test]
fn keycode_display_names_match_the_table() {
    assert_eq!(keycode_to_string(KeyCode::Backspace), "Backspace");
    assert_eq!(keycode_to_string(KeyCode::Esc), "Escape");
    assert_eq!(keycode_to_string(KeyCode::Char('x')), "x");
    assert_eq!(keycode_to_string(KeyCode::F(1)), "F1");
    assert_eq!(keycode_to_string(KeyCode::F(12)), "F12");
    assert_eq!(keycode_to_string(KeyCode::F(255)), "F255");
    assert_eq!(keycode_to_string(KeyCode::Unknown), "Unknown key");
}

#[test]
fn binding_key_lookup_finds_first_key_or_nothing() {
    assert_eq!(
        binding_key_for(CommandId::ExplorerSelectPreviousFile),
        Some(KeyCode::Up)
    );
    assert_eq!(binding_key_for(CommandId::ExplorerSortEntries), None);
    assert_eq!(binding_key_for(CommandId::ExplorerCreateFile), None);
}

#[test]
fn legend_line_is_exact() {
    let mut legend = Legend::new();
    assert_eq!(legend.command_bindings_string, "  ");
    legend.update_command_bindings(vec![
        Command { id: CommandId::AppQuit, name: "Quit" },
        Command { id: CommandId::AppGoBack, name: "Back" },
    ]);
    assert_eq!(legend.command_bindings_string, " [q] Quit  [Escape] Back ");
}

#[test]
fn legend_skips_commands_without_a_binding() {
    let mut legend = Legend::new();
    legend.update_command_bindings(vec![
        Command { id: CommandId::ExplorerSortEntries, name: "Sort" },
        Command { id: CommandId::AppQuit, name: "Quit" },
    ]);
    assert_eq!(legend.command_bindings_string, " [q] Quit ");
}

#[test]
fn scroll_step_walks_and_turns() {
    assert_eq!(legend_scroll_step(false, 0, 10, 5), (false, 1));
    assert_eq!(legend_scroll_step(false, 4, 10, 5), (false, 5));
    assert_eq!(legend_scroll_step(false, 5, 10, 5), (true, 4));
    assert_eq!(legend_scroll_step(true, 1, 10, 5), (true, 0));
    assert_eq!(legend_scroll_step(true, 0, 10, 5), (false, 1));
}

#[test]
fn insertable_keys_are_printable_ascii_plus_editing_keys() {
    let keys = get_insertable_key_codes();
    assert_eq!(keys.len(), 98);
    assert_eq!(keys[0], KeyCode::Char(' '));
    assert_eq!(keys[94], KeyCode::Char('~'));
    assert_eq!(keys[97], KeyCode::Enter);
    assert!(is_insertable_key_code(KeyCode::Char('a')));
    assert!(is_insertable_key_code(KeyCode::Backspace));
    assert!(is_insertable_key_code(KeyCode::Delete));
    assert!(is_insertable_key_code(KeyCode::Enter));
    assert!(!is_insertable_key_code(KeyCode::Esc));
    assert!(!is_insertable_key_code(KeyCode::Up));
}

#[test]
fn sort_table_names_three_criteria() {
    let table = get_sort_entries();
    assert_eq!(table.len(), 3);
    assert_eq!(table[0].name, "Name");
    assert_eq!(table[1].name, "Size");
    assert_eq!(table[2].name, "Modified Date");
    assert!(matches!(table[0].criterion, SortCriterion::Name));
}

#[test]
fn sort_by_name_orders_paths_lexicographically() {
    let mut entries = vec![
        FileEntry { path: String::from("/b"), is_dir: false, size: 1, modified: 1 },
        FileEntry { path: String::from("/a/z"), is_dir: true, size: 2, modified: 2 },
        FileEntry { path: String::from("/a"), is_dir: false, size: 3, modified: 3 },
    ];
    assert!(sort_by_name(&mut entries));
    assert_eq!(entries[0].path, "/a");
    assert_eq!(entries[1].path, "/a/z");
    assert_eq!(entries[2].path, "/b");
}
