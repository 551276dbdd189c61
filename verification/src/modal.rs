//! The modal dialog: one instance per owning component, opened with a
//! variant and a deferred task, resolved to confirmed or refused by a
//! single key, and closed by its owner once the resolution is read.
//!
//! While a modal is open it receives input exclusively; nothing is
//! executed before the owner sees `Confirmed` and the task that goes
//! with it.

use vstd::prelude::*;

use crate::file_explorer::{opt_task_view, task_view, ExplorerTask, ExplorerTaskView};
use crate::keycode::KeyCode;
use crate::modal_variants::{
    question_task_view, spec_answered, spec_digit_val, ConfirmationVariant, ErrorVariant,
    InfoVariant, OptionsVariant, QuestionTaskView, QuestionVariant,
};

verus! {

/// Whether the dialog is currently shown and owns the input.
#[derive(Clone, Copy, PartialEq, Eq, Structural, Debug)]
pub struct ModalState {
    pub is_open: bool,
}

/// How the dialog was resolved; `Waiting` while it still is open.
#[derive(Clone, Copy, PartialEq, Eq, Structural, Debug)]
pub enum ModalStatus {
    Confirmed,
    Refused,
    Waiting,
}

/// The closed set of dialog kinds.
#[derive(Debug)]
pub enum ModalVariant {
    Info(InfoVariant),
    Error(ErrorVariant),
    Question(QuestionVariant),
    Confirmation(ConfirmationVariant),
    Options(OptionsVariant),
}

/// A dialog instance.
#[derive(Debug)]
pub struct Modal {
    pub state: ModalState,
    pub status: ModalStatus,
    pub variant: ModalVariant,
}

/// The mathematical value of a dialog variant.
#[allow(inconsistent_fields)]
pub enum ModalVariantObs {
    Info { message: Seq<char> },
    Error { message: Seq<char> },
    Question { message: Seq<char>, answer: Seq<char>, task: QuestionTaskView },
    Confirmation { message: Seq<char>, task: ExplorerTaskView },
    Options { message: Seq<char>, options: Seq<Seq<char>>, selected_index: int },
}

/// The mathematical value of a dialog.
pub struct ModalObs {
    pub is_open: bool,
    pub status: ModalStatus,
    pub variant: ModalVariantObs,
}

pub open spec fn variant_obs(v: ModalVariant) -> ModalVariantObs {
    match v {
        ModalVariant::Info(i) => ModalVariantObs::Info { message: i.message@ },
        ModalVariant::Error(e) => ModalVariantObs::Error { message: e.message@ },
        ModalVariant::Question(q) => ModalVariantObs::Question {
            message: q.message@,
            answer: q.answer@,
            task: question_task_view(q.task),
        },
        ModalVariant::Confirmation(c) => ModalVariantObs::Confirmation {
            message: c.message@,
            task: task_view(c.task),
        },
        ModalVariant::Options(o) => ModalVariantObs::Options {
            message: o.message@,
            options: o.options@.map_values(|s: String| s@),
            selected_index: o.selected_index as int,
        },
    }
}

pub open spec fn modal_obs(m: Modal) -> ModalObs {
    ModalObs { is_open: m.state.is_open, status: m.status, variant: variant_obs(m.variant) }
}

/// The one closed resting value every resolved or dismissed dialog is
/// reset to.
pub open spec fn spec_closed_modal() -> ModalObs {
    ModalObs {
        is_open: false,
        status: ModalStatus::Waiting,
        variant: ModalVariantObs::Info { message: Seq::empty() },
    }
}

/// One step of the dialog state machine: the dialog after the key, and
/// the deferred task it yields if the key confirmed it.
pub open spec fn spec_modal_step(m: ModalObs, key: KeyCode) -> (ModalObs, Option<
    ExplorerTaskView,
>) {
    match m.variant {
        ModalVariantObs::Info { message } => {
            if key == KeyCode::Char('y') {
                (
                    ModalObs {
                        is_open: false,
                        status: ModalStatus::Confirmed,
                        variant: m.variant,
                    },
                    None,
                )
            } else {
                (
                    ModalObs {
                        is_open: m.is_open,
                        status: ModalStatus::Waiting,
                        variant: m.variant,
                    },
                    None,
                )
            }
        },
        ModalVariantObs::Error { message } => {
            if key == KeyCode::Char('y') {
                (
                    ModalObs {
                        is_open: false,
                        status: ModalStatus::Confirmed,
                        variant: m.variant,
                    },
                    None,
                )
            } else {
                (
                    ModalObs {
                        is_open: m.is_open,
                        status: ModalStatus::Waiting,
                        variant: m.variant,
                    },
                    None,
                )
            }
        },
        ModalVariantObs::Question { message, answer, task } => match key {
            KeyCode::Backspace => (
                ModalObs {
                    is_open: m.is_open,
                    status: ModalStatus::Waiting,
                    variant: ModalVariantObs::Question {
                        message,
                        answer: if answer.len() == 0 {
                            answer
                        } else {
                            answer.drop_last()
                        },
                        task,
                    },
                },
                None,
            ),
            KeyCode::Char(c) => (
                ModalObs {
                    is_open: m.is_open,
                    status: ModalStatus::Waiting,
                    variant: ModalVariantObs::Question { message, answer: answer.push(c), task },
                },
                None,
            ),
            KeyCode::Enter => (
                ModalObs { is_open: false, status: ModalStatus::Confirmed, variant: m.variant },
                Some(spec_answered(task, answer)),
            ),
            KeyCode::Esc => (
                ModalObs { is_open: false, status: ModalStatus::Refused, variant: m.variant },
                None,
            ),
            _ => (
                ModalObs { is_open: m.is_open, status: ModalStatus::Waiting, variant: m.variant },
                None,
            ),
        },
        ModalVariantObs::Confirmation { message, task } => {
            if key == KeyCode::Char('y') {
                (
                    ModalObs {
                        is_open: false,
                        status: ModalStatus::Confirmed,
                        variant: m.variant,
                    },
                    Some(task),
                )
            } else if key == KeyCode::Char('n') {
                (
                    ModalObs { is_open: false, status: ModalStatus::Refused, variant: m.variant },
                    None,
                )
            } else {
                (
                    ModalObs {
                        is_open: m.is_open,
                        status: ModalStatus::Waiting,
                        variant: m.variant,
                    },
                    None,
                )
            }
        },
        ModalVariantObs::Options { message, options, selected_index } => match key {
            KeyCode::Char(c) => {
                if 1 <= spec_digit_val(c) <= options.len() {
                    (
                        ModalObs {
                            is_open: false,
                            status: ModalStatus::Confirmed,
                            variant: ModalVariantObs::Options {
                                message,
                                options,
                                selected_index: spec_digit_val(c) - 1,
                            },
                        },
                        Some(ExplorerTaskView::Sort { index: spec_digit_val(c) - 1 }),
                    )
                } else {
                    (
                        ModalObs {
                            is_open: m.is_open,
                            status: ModalStatus::Waiting,
                            variant: m.variant,
                        },
                        None,
                    )
                }
            },
            KeyCode::Esc => (
                ModalObs { is_open: false, status: ModalStatus::Refused, variant: m.variant },
                None,
            ),
            _ => (
                ModalObs { is_open: m.is_open, status: ModalStatus::Waiting, variant: m.variant },
                None,
            ),
        },
    }
}

impl Modal {
    /// A freshly opened dialog, waiting for its resolution.
    pub fn new(variant: ModalVariant) -> (r: Modal)
        ensures
            modal_obs(r) == (ModalObs {
                is_open: true,
                status: ModalStatus::Waiting,
                variant: variant_obs(variant),
            }),
    {
        Self { state: ModalState { is_open: true }, status: ModalStatus::Waiting, variant }
    }

    pub fn is_open(&self) -> (r: bool)
        ensures
            r == modal_obs(*self).is_open,
    {
        self.state.is_open
    }

    /// Dismisses the dialog and resets it to the one closed resting
    /// value, so that nothing of a resolved dialog lingers.
    pub fn close(&mut self)
        ensures
            modal_obs(*final(self)) == spec_closed_modal(),
    {
        self.state.is_open = false;
        self.status = ModalStatus::Waiting;
        self.variant = ModalVariant::Info(InfoVariant::new(String::new()));
    }

    /// Feeds one key to the dialog; the dialog steps as
    /// `spec_modal_step` says, and the result is the deferred task if
    /// this key confirmed the dialog.
    pub fn handle_input(&mut self, key_code: KeyCode) -> (t: Option<ExplorerTask>)
        ensures
            modal_obs(*final(self)) == spec_modal_step(modal_obs(*old(self)), key_code).0,
            opt_task_view(t) == spec_modal_step(modal_obs(*old(self)), key_code).1,
    {
        let (status, task) = match &mut self.variant {
            ModalVariant::Info(v) => v.handle_input(&mut self.state, key_code),
            ModalVariant::Error(v) => v.handle_input(&mut self.state, key_code),
            ModalVariant::Question(v) => v.handle_input(&mut self.state, key_code),
            ModalVariant::Confirmation(v) => v.handle_input(&mut self.state, key_code),
            ModalVariant::Options(v) => v.handle_input(&mut self.state, key_code),
        };
        self.status = status;
        task
    }
}

} // verus!
