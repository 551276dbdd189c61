//! The concrete modal dialogs: plain information, a surfaced error, a
//! free-text question, a yes/no confirmation, and a numbered list of
//! options.
//!
//! Each variant carries its deferred intent as data instead of a
//! callback, so that what a confirmation will do can be inspected and
//! stated in contracts.

use vstd::prelude::*;

use crate::file_explorer::{ExplorerTask, ExplorerTaskView};
use crate::keycode::KeyCode;
use crate::modal::{ModalState, ModalStatus};
use crate::text::{chars_to_string, str_chars};

verus! {

/// What a confirmed answer to a `QuestionVariant` is turned into.
#[derive(Debug)]
pub enum QuestionTask {
    /// Move the named entry to the path the answer gives.
    MoveFile(String),
    /// Create an entry named by the answer.
    CreateFile,
    /// Use the answer as the listing's name filter.
    Filter,
}

/// The mathematical value of a `QuestionTask`.
pub enum QuestionTaskView {
    MoveFile { from: Seq<char> },
    CreateFile,
    Filter,
}

pub open spec fn question_task_view(t: QuestionTask) -> QuestionTaskView {
    match t {
        QuestionTask::MoveFile(from) => QuestionTaskView::MoveFile { from: from@ },
        QuestionTask::CreateFile => QuestionTaskView::CreateFile,
        QuestionTask::Filter => QuestionTaskView::Filter,
    }
}

/// The task an answered question resolves to.
pub open spec fn spec_answered(t: QuestionTaskView, answer: Seq<char>) -> ExplorerTaskView {
    match t {
        QuestionTaskView::MoveFile { from } => ExplorerTaskView::MoveFile { from, to: answer },
        QuestionTaskView::CreateFile => ExplorerTaskView::CreateFile { name: answer },
        QuestionTaskView::Filter => ExplorerTaskView::Filter { text: answer },
    }
}

/// A message with a single acknowledgement key.
#[derive(Debug)]
pub struct InfoVariant {
    pub message: String,
}

impl InfoVariant {
    pub fn new(message: String) -> (r: Self)
        ensures
            r.message@ == message@,
    {
        Self { message }
    }

    /// `y` acknowledges the message and closes the dialog; there is no
    /// refusing key.
    pub fn handle_input(&mut self, state: &mut ModalState, key_code: KeyCode) -> (r: (
        ModalStatus,
        Option<ExplorerTask>,
    ))
        ensures
            final(self).message@ == old(self).message@,
            r.1 is None,
            key_code == KeyCode::Char('y') ==> r.0 == ModalStatus::Confirmed
                && !final(state).is_open,
            key_code != KeyCode::Char('y') ==> r.0 == ModalStatus::Waiting
                && *final(state) == *old(state),
    {
        match key_code {
            KeyCode::Char('y') => {
                state.is_open = false;
                (ModalStatus::Confirmed, None)
            },
            _ => (ModalStatus::Waiting, None),
        }
    }
}

/// A failure being surfaced; acknowledged exactly like an
/// `InfoVariant`, but kept apart so the renderer can mark it as an
/// error.
#[derive(Debug)]
pub struct ErrorVariant {
    pub message: String,
}

impl ErrorVariant {
    pub fn new(message: String) -> (r: Self)
        ensures
            r.message@ == message@,
    {
        Self { message }
    }

    /// `y` acknowledges the failure and closes the dialog; there is no
    /// refusing key.
    pub fn handle_input(&mut self, state: &mut ModalState, key_code: KeyCode) -> (r: (
        ModalStatus,
        Option<ExplorerTask>,
    ))
        ensures
            final(self).message@ == old(self).message@,
            r.1 is None,
            key_code == KeyCode::Char('y') ==> r.0 == ModalStatus::Confirmed
                && !final(state).is_open,
            key_code != KeyCode::Char('y') ==> r.0 == ModalStatus::Waiting
                && *final(state) == *old(state),
    {
        match key_code {
            KeyCode::Char('y') => {
                state.is_open = false;
                (ModalStatus::Confirmed, None)
            },
            _ => (ModalStatus::Waiting, None),
        }
    }
}

/// A free-text question with an editable answer and a deferred task built
/// from the answer on confirmation.
#[derive(Debug)]
pub struct QuestionVariant {
    pub message: String,
    pub answer: Vec<char>,
    pub task: QuestionTask,
}

impl QuestionVariant {
    pub fn new(message: String, answer: String, task: QuestionTask) -> (r: Self)
        ensures
            r.message@ == message@,
            r.answer@ == answer@,
            question_task_view(r.task) == question_task_view(task),
    {
        let answer = str_chars(answer.as_str());
        Self { message, answer, task }
    }

    /// Characters extend the answer, backspace shortens it, Enter
    /// confirms with the answer as payload, Esc refuses; anything else
    /// changes nothing.
    pub fn handle_input(&mut self, state: &mut ModalState, key_code: KeyCode) -> (r: (
        ModalStatus,
        Option<ExplorerTask>,
    ))
        ensures
            final(self).message@ == old(self).message@,
            question_task_view(final(self).task) == question_task_view(old(self).task),
            match key_code {
                KeyCode::Backspace => {
                    &&& final(self).answer@ == (if old(self).answer@.len() == 0 {
                        old(self).answer@
                    } else {
                        old(self).answer@.drop_last()
                    })
                    &&& r == ((ModalStatus::Waiting, Option::<ExplorerTask>::None))
                    &&& *final(state) == *old(state)
                },
                KeyCode::Char(c) => {
                    &&& final(self).answer@ == old(self).answer@.push(c)
                    &&& r == ((ModalStatus::Waiting, Option::<ExplorerTask>::None))
                    &&& *final(state) == *old(state)
                },
                KeyCode::Enter => {
                    &&& final(self).answer@ == old(self).answer@
                    &&& r.0 == ModalStatus::Confirmed
                    &&& opt_view(r.1) == Some(
                        spec_answered(question_task_view(old(self).task), old(self).answer@),
                    )
                    &&& !final(state).is_open
                },
                KeyCode::Esc => {
                    &&& final(self).answer@ == old(self).answer@
                    &&& r == ((ModalStatus::Refused, Option::<ExplorerTask>::None))
                    &&& !final(state).is_open
                },
                _ => {
                    &&& final(self).answer@ == old(self).answer@
                    &&& r == ((ModalStatus::Waiting, Option::<ExplorerTask>::None))
                    &&& *final(state) == *old(state)
                },
            },
    {
        match key_code {
            KeyCode::Backspace => {
                let _ = self.answer.pop();
                (ModalStatus::Waiting, None)
            },
            KeyCode::Char(c) => {
                self.answer.push(c);
                (ModalStatus::Waiting, None)
            },
            KeyCode::Enter => {
                state.is_open = false;
                let answer = chars_to_string(&self.answer);
                let task = match &self.task {
                    QuestionTask::MoveFile(from) => ExplorerTask::MoveFile(from.clone(), answer),
                    QuestionTask::CreateFile => ExplorerTask::CreateFile(answer),
                    QuestionTask::Filter => ExplorerTask::Filter(answer),
                };
                (ModalStatus::Confirmed, Some(task))
            },
            KeyCode::Esc => {
                state.is_open = false;
                (ModalStatus::Refused, None)
            },
            _ => (ModalStatus::Waiting, None),
        }
    }
}

/// A yes/no question guarding one deferred task.
#[derive(Debug)]
pub struct ConfirmationVariant {
    pub message: String,
    pub task: ExplorerTask,
}

impl ConfirmationVariant {
    pub fn new(message: String, task: ExplorerTask) -> (r: Self)
        ensures
            r.message@ == message@,
            task_view_of(r.task) == task_view_of(task),
    {
        Self { message, task }
    }

    /// `y` confirms and yields the deferred task, `n` refuses and drops
    /// it; anything else changes nothing.
    pub fn handle_input(&mut self, state: &mut ModalState, key_code: KeyCode) -> (r: (
        ModalStatus,
        Option<ExplorerTask>,
    ))
        ensures
            final(self).message@ == old(self).message@,
            task_view_of(final(self).task) == task_view_of(old(self).task),
            if key_code == KeyCode::Char('y') {
                &&& r.0 == ModalStatus::Confirmed
                &&& opt_view(r.1) == Some(task_view_of(old(self).task))
                &&& !final(state).is_open
            } else if key_code == KeyCode::Char('n') {
                &&& r == ((ModalStatus::Refused, Option::<ExplorerTask>::None))
                &&& !final(state).is_open
            } else {
                &&& r == ((ModalStatus::Waiting, Option::<ExplorerTask>::None))
                &&& *final(state) == *old(state)
            },
    {
        match key_code {
            KeyCode::Char('y') => {
                state.is_open = false;
                (ModalStatus::Confirmed, Some(self.task.duplicate()))
            },
            KeyCode::Char('n') => {
                state.is_open = false;
                (ModalStatus::Refused, None)
            },
            _ => (ModalStatus::Waiting, None),
        }
    }
}

/// A numbered list of choices; a digit key both selects and confirms.
#[derive(Debug)]
pub struct OptionsVariant {
    pub message: String,
    pub options: Vec<String>,
    pub selected_index: usize,
}

/// The digit a character key stands for, out-of-range keys counting as 0.
pub open spec fn spec_digit_val(c: char) -> int {
    if 48 <= c as u32 <= 57 {
        c as u32 - 48
    } else {
        0
    }
}

impl OptionsVariant {
    pub fn new(message: String, options: Vec<String>) -> (r: Self)
        ensures
            r.message@ == message@,
            r.options@ == options@,
            r.selected_index == 0,
    {
        Self { message, options, selected_index: 0 }
    }

    /// Digit keys `1..=len(options)` select that choice and confirm with
    /// a sort task for it; out-of-range digits are ignored; Esc refuses.
    pub fn handle_input(&mut self, state: &mut ModalState, key_code: KeyCode) -> (r: (
        ModalStatus,
        Option<ExplorerTask>,
    ))
        ensures
            final(self).message@ == old(self).message@,
            final(self).options@ == old(self).options@,
            match key_code {
                KeyCode::Char(c) => {
                    if 1 <= spec_digit_val(c) <= old(self).options@.len() {
                        &&& final(self).selected_index == spec_digit_val(c) - 1
                        &&& r.0 == ModalStatus::Confirmed
                        &&& opt_view(r.1) == Some(
                            ExplorerTaskView::Sort { index: spec_digit_val(c) - 1 },
                        )
                        &&& !final(state).is_open
                    } else {
                        &&& final(self).selected_index == old(self).selected_index
                        &&& r == ((ModalStatus::Waiting, Option::<ExplorerTask>::None))
                        &&& *final(state) == *old(state)
                    }
                },
                KeyCode::Esc => {
                    &&& final(self).selected_index == old(self).selected_index
                    &&& r == ((ModalStatus::Refused, Option::<ExplorerTask>::None))
                    &&& !final(state).is_open
                },
                _ => {
                    &&& final(self).selected_index == old(self).selected_index
                    &&& r == ((ModalStatus::Waiting, Option::<ExplorerTask>::None))
                    &&& *final(state) == *old(state)
                },
            },
    {
        match key_code {
            KeyCode::Char(c) => {
                let u = c as u32;
                let index: usize = if 48 <= u && u <= 57 {
                    (u - 48) as usize
                } else {
                    0
                };
                if index > 0 && index <= self.options.len() {
                    state.is_open = false;
                    self.selected_index = index - 1;
                    (ModalStatus::Confirmed, Some(ExplorerTask::Sort(index - 1)))
                } else {
                    (ModalStatus::Waiting, None)
                }
            },
            KeyCode::Esc => {
                state.is_open = false;
                (ModalStatus::Refused, None)
            },
            _ => (ModalStatus::Waiting, None),
        }
    }
}

/// Shorthands used in the contracts above.
pub open spec fn task_view_of(t: ExplorerTask) -> ExplorerTaskView {
    crate::file_explorer::task_view(t)
}

pub open spec fn opt_view(t: Option<ExplorerTask>) -> Option<ExplorerTaskView> {
    crate::file_explorer::opt_task_view(t)
}

} // verus!
