use tui_files::file_explorer::{
    ExplorerRequest, ExplorerTask, FileEntry, FileExplorer,
};
use tui_files::keycode::KeyCode;
use tui_files::modal::{ModalStatus, ModalVariant};

fn entry(path: &str, is_dir: bool, size: u64, modified: u64) -> FileEntry {
    FileEntry { path: String::from(path), is_dir, size, modified }
}

fn browser(entries: Vec<FileEntry>) -> FileExplorer {
    FileExplorer::new("explorer", true, String::from("/home/user"), entries)
}

#[test]
fn selection_moves_clamp_at_both_ends() {
    let mut ex = browser(vec![
        entry("/home/user/a", false, 1, 1),
        entry("/home/user/b", false, 2, 2),
    ]);
    assert!(ex.select_previous(KeyCode::Up));
    assert_eq!(ex.selected_index, 0);
    assert!(ex.select_next(KeyCode::Down));
    assert_eq!(ex.selected_index, 1);
    assert!(ex.select_next(KeyCode::Down));
    assert_eq!(ex.selected_index, 1);
    assert!(ex.select_previous(KeyCode::Up));
    assert_eq!(ex.selected_index, 0);
}

#[test]
fn selection_moves_on_empty_listing_do_nothing() {
    let mut ex = browser(Vec::new());
    assert!(ex.select_next(KeyCode::Down));
    assert!(ex.select_previous(KeyCode::Up));
    assert_eq!(ex.selected_index, 0);
    assert!(ex.get_selected_file().is_none());
}

#[test]
fn confirmed_delete_requests_exactly_that_path() {
    let mut ex = browser(vec![
        entry("/home/user/a", false, 1, 1),
        entry("/home/user/b", false, 2, 2),
    ]);
    assert!(ex.handle_input(KeyCode::Char('d')));
    assert!(ex.modal.is_open());
    assert!(ex.handle_input(KeyCode::Char('y')));
    assert!(!ex.modal.is_open());
    match ex.take_request() {
        Some(ExplorerRequest::Delete(p)) => assert_eq!(p, "/home/user/a"),
        _ => panic!("expected a delete request"),
    }
    ex.refresh(vec![entry("/home/user/b", false, 2, 2)]);
    assert_eq!(ex.entries.len(), 1);
    assert_eq!(ex.entries[0].path, "/home/user/b");
}

#[test]
fn refused_delete_changes_nothing() {
    let mut ex = browser(vec![
        entry("/home/user/a", false, 1, 1),
        entry("/home/user/b", false, 2, 2),
    ]);
    assert!(ex.handle_input(KeyCode::Char('d')));
    assert!(ex.handle_input(KeyCode::Char('n')));
    assert!(!ex.modal.is_open());
    assert!(ex.take_request().is_none());
    assert_eq!(ex.entries.len(), 2);
    assert_eq!(ex.entries[0].path, "/home/user/a");
    assert_eq!(ex.selected_index, 0);
}

#[test]
fn question_modal_esc_leaves_browser_unchanged() {
    let mut ex = browser(vec![entry("/home/user/a", false, 1, 1)]);
    assert!(ex.handle_input(KeyCode::Char('/')));
    assert!(ex.modal.is_open());
    assert!(ex.handle_input(KeyCode::Char('a')));
    assert!(ex.handle_input(KeyCode::Char('b')));
    assert!(ex.handle_input(KeyCode::Esc));
    assert!(!ex.modal.is_open());
    assert_eq!(ex.modal.status, ModalStatus::Waiting);
    assert!(ex.take_request().is_none());
    assert_eq!(ex.current_dir, "/home/user");
    assert_eq!(ex.selected_index, 0);
    assert_eq!(ex.entries.len(), 1);
    assert_eq!(ex.name_filter, "");
    assert_eq!(ex.current_sort, 0);
    match &ex.modal.variant {
        ModalVariant::Info(i) => assert_eq!(i.message, ""),
        _ => panic!("expected the resting info variant"),
    }
}

#[test]
fn filter_task_refreshes_with_case_insensitive_match() {
    let mut ex = browser(vec![
        entry("/home/user/Foo.txt", false, 1, 1),
        entry("/home/user/bar.md", false, 2, 2),
    ]);
    ex.dispatch_on_task(ExplorerTask::Filter(String::from("FOO")));
    assert!(matches!(ex.take_request(), Some(ExplorerRequest::Refresh)));
    ex.refresh(vec![
        entry("/home/user/Foo.txt", false, 1, 1),
        entry("/home/user/bar.md", false, 2, 2),
    ]);
    assert_eq!(ex.entries.len(), 1);
    assert_eq!(ex.entries[0].path, "/home/user/Foo.txt");
}

#[test]
fn sort_task_orders_by_size_descending() {
    let mut ex = browser(Vec::new());
    ex.dispatch_on_task(ExplorerTask::Sort(1));
    assert!(matches!(ex.take_request(), Some(ExplorerRequest::Refresh)));
    ex.refresh(vec![
        entry("/home/user/small", false, 5, 1),
        entry("/home/user/big", false, 50, 2),
        entry("/home/user/mid", false, 20, 3),
    ]);
    assert_eq!(ex.entries[0].path, "/home/user/big");
    assert_eq!(ex.entries[1].path, "/home/user/mid");
    assert_eq!(ex.entries[2].path, "/home/user/small");
}

#[test]
fn sort_task_orders_by_modified_date_newest_first() {
    let mut ex = browser(Vec::new());
    ex.dispatch_on_task(ExplorerTask::Sort(2));
    let _ = ex.take_request();
    ex.refresh(vec![
        entry("/home/user/old", false, 1, 100),
        entry("/home/user/new", false, 1, 300),
        entry("/home/user/mid", false, 1, 200),
    ]);
    assert_eq!(ex.entries[0].path, "/home/user/new");
    assert_eq!(ex.entries[1].path, "/home/user/mid");
    assert_eq!(ex.entries[2].path, "/home/user/old");
}

#[test]
fn default_refresh_sorts_by_path_and_keeps_equal_keys() {
    let mut ex = browser(Vec::new());
    ex.refresh(vec![
        entry("/home/user/b", false, 7, 1),
        entry("/home/user/a", false, 7, 1),
        entry("/home/user/a", false, 7, 1),
    ]);
    assert_eq!(ex.entries.len(), 3);
    assert_eq!(ex.entries[0].path, "/home/user/a");
    assert_eq!(ex.entries[1].path, "/home/user/a");
    assert_eq!(ex.entries[2].path, "/home/user/b");
    assert_eq!(ex.selected_index, 0);
}

#[test]
fn move_task_requests_rename() {
    let mut ex = browser(vec![entry("/home/user/a", false, 1, 1)]);
    assert!(ex.handle_input(KeyCode::Char('m')));
    assert!(ex.modal.is_open());
    assert!(ex.handle_input(KeyCode::Char('2')));
    assert!(ex.handle_input(KeyCode::Enter));
    match ex.take_request() {
        Some(ExplorerRequest::Move(from, to)) => {
            assert_eq!(from, "/home/user/a");
            assert_eq!(to, "/home/user/a2");
        },
        _ => panic!("expected a move request"),
    }
}

#[test]
fn create_task_joins_path_and_detects_directories() {
    let mut ex = browser(Vec::new());
    ex.dispatch_on_task(ExplorerTask::CreateFile(String::from("sub/")));
    match ex.take_request() {
        Some(ExplorerRequest::Create { path, is_dir }) => {
            assert_eq!(path, "/home/user/sub/");
            assert!(is_dir);
        },
        _ => panic!("expected a create request"),
    }
    ex.dispatch_on_task(ExplorerTask::CreateFile(String::from("n.txt")));
    match ex.take_request() {
        Some(ExplorerRequest::Create { path, is_dir }) => {
            assert_eq!(path, "/home/user/n.txt");
            assert!(!is_dir);
        },
        _ => panic!("expected a create request"),
    }
}

#[test]
fn prompt_on_empty_listing_reports_invalid_selection() {
    let mut ex = browser(Vec::new());
    assert!(ex.prompt_for_delete_current_file(KeyCode::Char('d')));
    assert!(ex.modal.is_open());
    match &ex.modal.variant {
        ModalVariant::Info(i) => assert_eq!(i.message, "Selected file is invalid"),
        _ => panic!("expected an info modal"),
    }
}

#[test]
fn go_back_requests_parent_directory() {
    let mut ex = browser(Vec::new());
    assert!(ex.go_back(KeyCode::Esc));
    match ex.take_request() {
        Some(ExplorerRequest::LoadDir(p)) => assert_eq!(p, "/home"),
        _ => panic!("expected a load request"),
    }
    ex.set_path(String::from("/home"), Vec::new());
    assert!(ex.go_back(KeyCode::Esc));
    match ex.take_request() {
        Some(ExplorerRequest::LoadDir(p)) => assert_eq!(p, "/"),
        _ => panic!("expected a load request"),
    }
    ex.set_path(String::from("/"), Vec::new());
    assert!(ex.go_back(KeyCode::Esc));
    assert!(ex.take_request().is_none());
}

#[test]
fn open_selected_descends_into_directories_only() {
    let mut ex = browser(vec![
        entry("/home/user/dir", true, 0, 1),
        entry("/home/user/file", false, 1, 1),
    ]);
    assert!(ex.open_selected_file(KeyCode::Enter));
    match ex.take_request() {
        Some(ExplorerRequest::LoadDir(p)) => assert_eq!(p, "/home/user/dir"),
        _ => panic!("expected a load request"),
    }
    ex.select_next(KeyCode::Down);
    assert!(!ex.open_selected_file(KeyCode::Enter));
    assert!(ex.take_request().is_none());
}

#[test]
fn fresh_listings_are_installed_name_sorted() {
    let ex = browser(vec![
        entry("/home/user/c", false, 1, 1),
        entry("/home/user/a", false, 2, 2),
        entry("/home/user/b", true, 3, 3),
    ]);
    assert_eq!(ex.entries[0].path, "/home/user/a");
    assert_eq!(ex.entries[1].path, "/home/user/b");
    assert_eq!(ex.entries[2].path, "/home/user/c");

    let mut ex2 = browser(Vec::new());
    ex2.set_path(
        String::from("/tmp"),
        vec![entry("/tmp/z", false, 1, 1), entry("/tmp/a", false, 1, 1)],
    );
    assert_eq!(ex2.entries[0].path, "/tmp/a");
    assert_eq!(ex2.entries[1].path, "/tmp/z");
}

#[test]
fn set_path_resets_filter_sort_and_selection() {
    let mut ex = browser(vec![entry("/home/user/a", false, 1, 1)]);
    ex.dispatch_on_task(ExplorerTask::Filter(String::from("x")));
    let _ = ex.take_request();
    ex.dispatch_on_task(ExplorerTask::Sort(2));
    let _ = ex.take_request();
    ex.set_path(String::from("/tmp"), vec![entry("/tmp/z", false, 1, 1)]);
    assert_eq!(ex.current_dir, "/tmp");
    assert_eq!(ex.name_filter, "");
    assert_eq!(ex.current_sort, 0);
    assert_eq!(ex.selected_index, 0);
    assert_eq!(ex.entries.len(), 1);
}

#[test]
fn inert_preview_consumes_nothing_and_takes_no_focus() {
    let mut ex = FileExplorer::new("preview_explorer", false, String::from("/"), Vec::new());
    assert!(!ex.handle_input(KeyCode::Char('d')));
    assert!(!ex.modal.is_open());
    ex.focus();
    assert!(!ex.is_focused());
    assert_eq!(ex.get_commands().len(), 0);
}

#[test]
fn interactive_browser_lists_nine_commands() {
    let ex = browser(Vec::new());
    let commands = ex.get_commands();
    assert_eq!(commands.len(), 9);
    assert_eq!(commands[0].name, "Prev file");
    assert_eq!(commands[8].name, "Filter");
    assert_eq!(ex.get_name(), "explorer");
}
