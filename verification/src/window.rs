//! What every window-like component offers: focus handling.

use vstd::prelude::*;

verus! {

/// Exactly one component at a time is focused and receives navigation
/// and edit input; the others keep their state untouched.
pub trait Focusable {
    fn focus(&mut self);

    fn unfocus(&mut self);

    fn is_focused(&self) -> bool;
}

} // verus!
