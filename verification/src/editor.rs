//! The editor-like components that sit beside the file browser: the
//! text editor, the inert preview pane, and the placeholder shown when
//! nothing can be edited.

use vstd::prelude::*;

use crate::keycode::KeyCode;
use crate::window::Focusable;

verus! {

/// What the application asks of every editor-like component: resolving
/// an open modal one way or the other.
pub trait Editor {
    fn confirm_modal(&mut self);

    fn refuse_modal(&mut self);
}

/// The placeholder editor: it shows an explanatory message, consumes no
/// input, and never takes focus.
#[derive(Debug)]
pub struct NullEdtior {
    pub message: Option<String>,
}

impl NullEdtior {
    pub fn handle_input(&mut self, _key_code: KeyCode) -> (r: bool)
        ensures
            !r,
            *final(self) == *old(self),
    {
        false
    }
}

impl Focusable for NullEdtior {
    fn focus(&mut self) {
    }

    fn unfocus(&mut self) {
    }

    fn is_focused(&self) -> bool {
        false
    }
}

impl Editor for NullEdtior {
    fn confirm_modal(&mut self) {
    }

    fn refuse_modal(&mut self) {
    }
}

} // verus!
