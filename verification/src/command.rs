//! Commands: named operations, each belonging to exactly one component.
//!
//! A command is identified by a closed enum rather than an open string, so
//! that dispatch is an exhaustive match; the two-part textual id
//! `"<owner>.<action>"` is still available for display.

use vstd::prelude::*;

verus! {

/// The component a command or a binding belongs to.
#[derive(Clone, Copy, PartialEq, Eq, Structural, Debug)]
pub enum CommandOwner {
    App,
    Explorer,
    PreviewExplorer,
    TextEditor,
}

/// Every operation a key can be bound to, across all components.
#[derive(Clone, Copy, PartialEq, Eq, Structural, Debug)]
pub enum CommandId {
    AppQuit,
    AppGoBack,
    AppOpenSelectedFile,
    ExplorerSelectPreviousFile,
    ExplorerSelectNextFile,
    ExplorerOpenSelectedFile,
    ExplorerDeleteCurrentFile,
    ExplorerMoveCurrentFile,
    ExplorerSortEntries,
    ExplorerCreateFile,
    ExplorerFilter,
    ExplorerGoBack,
    TextEditorNextChar,
    TextEditorPrevChar,
    TextEditorNextLine,
    TextEditorPrevLine,
    TextEditorSave,
    TextEditorInsertMode,
    TextEditorGoBack,
}

/// The owner namespace of a command id: the first segment of its textual
/// form.
pub open spec fn spec_owner_of(id: CommandId) -> CommandOwner {
    match id {
        CommandId::AppQuit => CommandOwner::App,
        CommandId::AppGoBack => CommandOwner::App,
        CommandId::AppOpenSelectedFile => CommandOwner::App,
        CommandId::ExplorerSelectPreviousFile => CommandOwner::Explorer,
        CommandId::ExplorerSelectNextFile => CommandOwner::Explorer,
        CommandId::ExplorerOpenSelectedFile => CommandOwner::Explorer,
        CommandId::ExplorerDeleteCurrentFile => CommandOwner::Explorer,
        CommandId::ExplorerMoveCurrentFile => CommandOwner::Explorer,
        CommandId::ExplorerSortEntries => CommandOwner::Explorer,
        CommandId::ExplorerCreateFile => CommandOwner::Explorer,
        CommandId::ExplorerFilter => CommandOwner::Explorer,
        CommandId::ExplorerGoBack => CommandOwner::Explorer,
        CommandId::TextEditorNextChar => CommandOwner::TextEditor,
        CommandId::TextEditorPrevChar => CommandOwner::TextEditor,
        CommandId::TextEditorNextLine => CommandOwner::TextEditor,
        CommandId::TextEditorPrevLine => CommandOwner::TextEditor,
        CommandId::TextEditorSave => CommandOwner::TextEditor,
        CommandId::TextEditorInsertMode => CommandOwner::TextEditor,
        CommandId::TextEditorGoBack => CommandOwner::TextEditor,
    }
}

impl CommandId {
    /// The owner namespace of this command id.
    pub fn owner(&self) -> (r: CommandOwner)
        ensures
            r == spec_owner_of(*self),
    {
        match self {
            CommandId::AppQuit => CommandOwner::App,
            CommandId::AppGoBack => CommandOwner::App,
            CommandId::AppOpenSelectedFile => CommandOwner::App,
            CommandId::ExplorerSelectPreviousFile => CommandOwner::Explorer,
            CommandId::ExplorerSelectNextFile => CommandOwner::Explorer,
            CommandId::ExplorerOpenSelectedFile => CommandOwner::Explorer,
            CommandId::ExplorerDeleteCurrentFile => CommandOwner::Explorer,
            CommandId::ExplorerMoveCurrentFile => CommandOwner::Explorer,
            CommandId::ExplorerSortEntries => CommandOwner::Explorer,
            CommandId::ExplorerCreateFile => CommandOwner::Explorer,
            CommandId::ExplorerFilter => CommandOwner::Explorer,
            CommandId::ExplorerGoBack => CommandOwner::Explorer,
            CommandId::TextEditorNextChar => CommandOwner::TextEditor,
            CommandId::TextEditorPrevChar => CommandOwner::TextEditor,
            CommandId::TextEditorNextLine => CommandOwner::TextEditor,
            CommandId::TextEditorPrevLine => CommandOwner::TextEditor,
            CommandId::TextEditorSave => CommandOwner::TextEditor,
            CommandId::TextEditorInsertMode => CommandOwner::TextEditor,
            CommandId::TextEditorGoBack => CommandOwner::TextEditor,
        }
    }

    /// The two-part textual form `"<owner>.<action>"` of this id.
    pub fn id_str(&self) -> (r: &'static str) {
        match self {
            CommandId::AppQuit => "app.quit",
            CommandId::AppGoBack => "app.go_back",
            CommandId::AppOpenSelectedFile => "app.open_selected_file",
            CommandId::ExplorerSelectPreviousFile => "explorer.select_previous_file",
            CommandId::ExplorerSelectNextFile => "explorer.select_next_file",
            CommandId::ExplorerOpenSelectedFile => "explorer.open_selected_file",
            CommandId::ExplorerDeleteCurrentFile => "explorer.delete_current_file",
            CommandId::ExplorerMoveCurrentFile => "explorer.move_current_file",
            CommandId::ExplorerSortEntries => "explorer.sort_entries",
            CommandId::ExplorerCreateFile => "explorer.create_file",
            CommandId::ExplorerFilter => "explorer.filter",
            CommandId::ExplorerGoBack => "explorer.go_back",
            CommandId::TextEditorNextChar => "text_editor.next_char",
            CommandId::TextEditorPrevChar => "text_editor.prev_char",
            CommandId::TextEditorNextLine => "text_editor.next_line",
            CommandId::TextEditorPrevLine => "text_editor.prev_line",
            CommandId::TextEditorSave => "text_editor.save",
            CommandId::TextEditorInsertMode => "text_editor.insert_mode",
            CommandId::TextEditorGoBack => "text_editor.go_back",
        }
    }
}

/// One named operation of a component, as shown in the legend.
#[derive(Clone, Copy, Debug)]
pub struct Command {
    pub id: CommandId,
    pub name: &'static str,
}

} // verus!
