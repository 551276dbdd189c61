use tui_files::file_explorer::ExplorerTask;
use tui_files::keycode::KeyCode;
use tui_files::modal::{Modal, ModalStatus, ModalVariant};
use tui_files::modal_variants::{
    ConfirmationVariant, ErrorVariant, InfoVariant, OptionsVariant, QuestionTask, QuestionVariant,
};

#[test]
fn info_modal_acknowledged_only_by_y() {
    let mut m = Modal::new(ModalVariant::Info(InfoVariant::new(String::from("hello"))));
    assert!(m.is_open());
    assert!(m.handle_input(KeyCode::Char('x')).is_none());
    assert!(m.is_open());
    assert_eq!(m.status, ModalStatus::Waiting);
    assert!(m.handle_input(KeyCode::Char('y')).is_none());
    assert!(!m.is_open());
    assert_eq!(m.status, ModalStatus::Confirmed);
}

#[test]
fn error_modal_acknowledged_only_by_y() {
    let mut m = Modal::new(ModalVariant::Error(ErrorVariant::new(String::from(
        "Could not delete: denied",
    ))));
    assert!(m.handle_input(KeyCode::Esc).is_none());
    assert!(m.is_open());
    assert!(m.handle_input(KeyCode::Char('y')).is_none());
    assert!(!m.is_open());
    assert_eq!(m.status, ModalStatus::Confirmed);
}

#[test]
fn question_modal_edits_answer_and_confirms_with_it() {
    let mut m = Modal::new(ModalVariant::Question(QuestionVariant::new(
        String::from("Filter: "),
        String::from("a"),
        QuestionTask::Filter,
    )));
    assert!(m.handle_input(KeyCode::Char('b')).is_none());
    assert!(m.handle_input(KeyCode::Char('c')).is_none());
    assert!(m.handle_input(KeyCode::Backspace).is_none());
    assert!(m.is_open());
    match m.handle_input(KeyCode::Enter) {
        Some(ExplorerTask::Filter(s)) => assert_eq!(s, "ab"),
        _ => panic!("expected a filter task"),
    }
    assert!(!m.is_open());
    assert_eq!(m.status, ModalStatus::Confirmed);
}

#[test]
fn question_modal_backspace_on_empty_answer_is_harmless() {
    let mut m = Modal::new(ModalVariant::Question(QuestionVariant::new(
        String::from("Create file:"),
        String::new(),
        QuestionTask::CreateFile,
    )));
    assert!(m.handle_input(KeyCode::Backspace).is_none());
    match m.handle_input(KeyCode::Enter) {
        Some(ExplorerTask::CreateFile(s)) => assert_eq!(s, ""),
        _ => panic!("expected a create task"),
    }
}

#[test]
fn question_modal_esc_refuses_without_task() {
    let mut m = Modal::new(ModalVariant::Question(QuestionVariant::new(
        String::from("Move file: x to?"),
        String::from("x"),
        QuestionTask::MoveFile(String::from("x")),
    )));
    assert!(m.handle_input(KeyCode::Char('y')).is_none());
    assert!(m.handle_input(KeyCode::Esc).is_none());
    assert!(!m.is_open());
    assert_eq!(m.status, ModalStatus::Refused);
}

#[test]
fn question_modal_move_task_carries_answer_as_target() {
    let mut m = Modal::new(ModalVariant::Question(QuestionVariant::new(
        String::from("Move file: /a to?"),
        String::from("/a"),
        QuestionTask::MoveFile(String::from("/a")),
    )));
    assert!(m.handle_input(KeyCode::Char('2')).is_none());
    match m.handle_input(KeyCode::Enter) {
        Some(ExplorerTask::MoveFile(from, to)) => {
            assert_eq!(from, "/a");
            assert_eq!(to, "/a2");
        },
        _ => panic!("expected a move task"),
    }
}

#[test]
fn confirmation_modal_yields_task_on_y_and_drops_it_on_n() {
    let mut m = Modal::new(ModalVariant::Confirmation(ConfirmationVariant::new(
        String::from("Delete file: /a?"),
        ExplorerTask::DeleteFile(String::from("/a")),
    )));
    assert!(m.handle_input(KeyCode::Char('z')).is_none());
    assert!(m.is_open());
    match m.handle_input(KeyCode::Char('y')) {
        Some(ExplorerTask::DeleteFile(p)) => assert_eq!(p, "/a"),
        _ => panic!("expected a delete task"),
    }
    assert!(!m.is_open());
    assert_eq!(m.status, ModalStatus::Confirmed);

    let mut m2 = Modal::new(ModalVariant::Confirmation(ConfirmationVariant::new(
        String::from("Delete file: /b?"),
        ExplorerTask::DeleteFile(String::from("/b")),
    )));
    assert!(m2.handle_input(KeyCode::Char('n')).is_none());
    assert!(!m2.is_open());
    assert_eq!(m2.status, ModalStatus::Refused);
}

#[test]
fn options_modal_digit_selects_and_confirms() {
    let mut m = Modal::new(ModalVariant::Options(OptionsVariant::new(
        String::from("Sort by: "),
        vec![String::from("Name"), String::from("Size")],
    )));
    assert!(m.handle_input(KeyCode::Char('0')).is_none());
    assert!(m.is_open());
    assert!(m.handle_input(KeyCode::Char('3')).is_none());
    assert!(m.is_open());
    match m.handle_input(KeyCode::Char('2')) {
        Some(ExplorerTask::Sort(i)) => assert_eq!(i, 1),
        _ => panic!("expected a sort task"),
    }
    assert!(!m.is_open());
    assert_eq!(m.status, ModalStatus::Confirmed);
}

#[test]
fn options_modal_esc_refuses() {
    let mut m = Modal::new(ModalVariant::Options(OptionsVariant::new(
        String::from("Sort by: "),
        vec![String::from("Name")],
    )));
    assert!(m.handle_input(KeyCode::Esc).is_none());
    assert!(!m.is_open());
    assert_eq!(m.status, ModalStatus::Refused);
}

#[test]
fn close_resets_to_the_resting_value() {
    let mut m = Modal::new(ModalVariant::Confirmation(ConfirmationVariant::new(
        String::from("Delete file: /a?"),
        ExplorerTask::DeleteFile(String::from("/a")),
    )));
    m.close();
    assert!(!m.is_open());
    assert_eq!(m.status, ModalStatus::Waiting);
    match &m.variant {
        ModalVariant::Info(i) => assert_eq!(i.message, ""),
        _ => panic!("expected the resting info variant"),
    }
}
