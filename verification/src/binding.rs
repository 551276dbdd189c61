//! The binding table: which key triggers which command.
//!
//! The table is built once and read through `resolve`, which picks the
//! first binding whose owner namespace and key both match; so where two
//! bindings collide on `(owner, key)` the first one wins, by design.

use vstd::prelude::*;

use crate::command::{spec_owner_of, CommandId, CommandOwner};
use crate::keycode::KeyCode;

verus! {

/// One row of the binding table.
#[derive(Clone, Copy, PartialEq, Eq, Structural, Debug)]
pub struct Binding {
    pub command_id: CommandId,
    pub key_code: KeyCode,
}

/// The table's rows, in the order `get_bindings` returns them.
pub open spec fn spec_bindings() -> Seq<Binding> {
    seq![
        Binding { command_id: CommandId::AppQuit, key_code: KeyCode::Char('q') },
        Binding { command_id: CommandId::AppOpenSelectedFile, key_code: KeyCode::Enter },
        Binding { command_id: CommandId::AppGoBack, key_code: KeyCode::Esc },
        Binding { command_id: CommandId::ExplorerSelectPreviousFile, key_code: KeyCode::Up },
        Binding { command_id: CommandId::ExplorerSelectNextFile, key_code: KeyCode::Down },
        Binding { command_id: CommandId::ExplorerSelectPreviousFile, key_code: KeyCode::Char('k') },
        Binding { command_id: CommandId::ExplorerSelectNextFile, key_code: KeyCode::Char('j') },
        Binding { command_id: CommandId::ExplorerOpenSelectedFile, key_code: KeyCode::Enter },
        Binding { command_id: CommandId::ExplorerDeleteCurrentFile, key_code: KeyCode::Char('d') },
        Binding { command_id: CommandId::ExplorerMoveCurrentFile, key_code: KeyCode::Char('m') },
        Binding { command_id: CommandId::ExplorerFilter, key_code: KeyCode::Char('/') },
        Binding { command_id: CommandId::ExplorerGoBack, key_code: KeyCode::Esc },
        Binding { command_id: CommandId::TextEditorNextChar, key_code: KeyCode::Char('l') },
        Binding { command_id: CommandId::TextEditorPrevChar, key_code: KeyCode::Char('h') },
        Binding { command_id: CommandId::TextEditorNextLine, key_code: KeyCode::Char('j') },
        Binding { command_id: CommandId::TextEditorPrevLine, key_code: KeyCode::Char('k') },
        Binding { command_id: CommandId::TextEditorNextChar, key_code: KeyCode::Right },
        Binding { command_id: CommandId::TextEditorPrevChar, key_code: KeyCode::Left },
        Binding { command_id: CommandId::TextEditorNextLine, key_code: KeyCode::Down },
        Binding { command_id: CommandId::TextEditorPrevLine, key_code: KeyCode::Up },
        Binding { command_id: CommandId::TextEditorSave, key_code: KeyCode::Char('s') },
        Binding { command_id: CommandId::TextEditorInsertMode, key_code: KeyCode::Char('i') },
        Binding { command_id: CommandId::TextEditorGoBack, key_code: KeyCode::Esc },
    ]
}

/// The binding table, row for row as `spec_bindings` lists it.
pub fn get_bindings() -> (r: Vec<Binding>)
    ensures
        r@ == spec_bindings(),
{
    let r: Vec<Binding> = vec![
        Binding { command_id: CommandId::AppQuit, key_code: KeyCode::Char('q') },
        Binding { command_id: CommandId::AppOpenSelectedFile, key_code: KeyCode::Enter },
        Binding { command_id: CommandId::AppGoBack, key_code: KeyCode::Esc },
        Binding { command_id: CommandId::ExplorerSelectPreviousFile, key_code: KeyCode::Up },
        Binding { command_id: CommandId::ExplorerSelectNextFile, key_code: KeyCode::Down },
        Binding { command_id: CommandId::ExplorerSelectPreviousFile, key_code: KeyCode::Char('k') },
        Binding { command_id: CommandId::ExplorerSelectNextFile, key_code: KeyCode::Char('j') },
        Binding { command_id: CommandId::ExplorerOpenSelectedFile, key_code: KeyCode::Enter },
        Binding { command_id: CommandId::ExplorerDeleteCurrentFile, key_code: KeyCode::Char('d') },
        Binding { command_id: CommandId::ExplorerMoveCurrentFile, key_code: KeyCode::Char('m') },
        Binding { command_id: CommandId::ExplorerFilter, key_code: KeyCode::Char('/') },
        Binding { command_id: CommandId::ExplorerGoBack, key_code: KeyCode::Esc },
        Binding { command_id: CommandId::TextEditorNextChar, key_code: KeyCode::Char('l') },
        Binding { command_id: CommandId::TextEditorPrevChar, key_code: KeyCode::Char('h') },
        Binding { command_id: CommandId::TextEditorNextLine, key_code: KeyCode::Char('j') },
        Binding { command_id: CommandId::TextEditorPrevLine, key_code: KeyCode::Char('k') },
        Binding { command_id: CommandId::TextEditorNextChar, key_code: KeyCode::Right },
        Binding { command_id: CommandId::TextEditorPrevChar, key_code: KeyCode::Left },
        Binding { command_id: CommandId::TextEditorNextLine, key_code: KeyCode::Down },
        Binding { command_id: CommandId::TextEditorPrevLine, key_code: KeyCode::Up },
        Binding { command_id: CommandId::TextEditorSave, key_code: KeyCode::Char('s') },
        Binding { command_id: CommandId::TextEditorInsertMode, key_code: KeyCode::Char('i') },
        Binding { command_id: CommandId::TextEditorGoBack, key_code: KeyCode::Esc },
    ];
    proof {
        assert(r@ =~= spec_bindings());
    }
    r
}

/// Whether a row answers for `owner` and `key`.
pub open spec fn spec_binding_matches(b: Binding, owner: CommandOwner, key: KeyCode) -> bool {
    spec_owner_of(b.command_id) == owner && b.key_code == key
}

/// First-match-wins lookup over the tail `bs` of the table.
pub open spec fn spec_resolve_from(bs: Seq<Binding>, owner: CommandOwner, key: KeyCode) -> Option<
    CommandId,
>
    decreases bs.len(),
{
    if bs.len() == 0 {
        None
    } else if spec_binding_matches(bs[0], owner, key) {
        Some(bs[0].command_id)
    } else {
        spec_resolve_from(bs.drop_first(), owner, key)
    }
}

/// What `resolve` answers for `owner` and `key`.
pub open spec fn spec_resolve(owner: CommandOwner, key: KeyCode) -> Option<CommandId> {
    spec_resolve_from(spec_bindings(), owner, key)
}

/// Looks `key` up in the binding table within the `owner` namespace; the
/// first matching row wins, and `None` means the key is unbound there.
pub fn resolve(owner: CommandOwner, key: KeyCode) -> (r: Option<CommandId>)
    ensures
        r == spec_resolve(owner, key),
{
    let bindings = get_bindings();
    let n = bindings.len();
    let mut i: usize = 0;
    proof {
        assert(bindings@.skip(0) =~= bindings@);
    }
    while i < n
        invariant
            n == bindings@.len(),
            i <= n,
            bindings@ == spec_bindings(),
            spec_resolve(owner, key) == spec_resolve_from(
                bindings@.skip(i as int),
                owner,
                key,
            ),
        decreases n - i,
    {
        let b = bindings[i];
        proof {
            assert(bindings@.skip(i as int)[0] == bindings@[i as int]);
            assert(bindings@.skip(i as int).drop_first() =~= bindings@.skip(i + 1));
        }
        if b.command_id.owner() == owner && b.key_code == key {
            return Some(b.command_id);
        }
        i = i + 1;
    }
    None
}

} // verus!
