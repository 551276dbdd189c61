//! The focus router: one browser, one preview pane, one text editor and
//! one placeholder, exactly one of them receiving each key.
//!
//! A key goes first to an open modal of the focused editor, then to the
//! focused component, and only if nobody consumed it to the
//! application's own commands.  File-system work requested along the way
//! is left for the caller to perform and report back.

use vstd::prelude::*;

use crate::binding::{resolve, spec_resolve};
use crate::command::{Command, CommandId, CommandOwner};
use crate::editor::NullEdtior;
use crate::file_explorer::{ex_obs, spec_explorer_input, ExplorerObs, FileEntry, FileExplorer};
use crate::keycode::KeyCode;
use crate::legend::{cmds_view, spec_legend_string, Legend};
use crate::sort_entries::{spec_entries_sorted, SortCriterion};
use crate::text::spec_join;
use crate::text_editor::{
    buf, ed_obs, spec_editor_input, spec_insert_step, EditorObs, EditorRequestView, Mode,
    TextEditor,
};

verus! {

/// What the router asks its caller to load after a selection change:
/// the selected directory's listing for the preview pane, or the
/// selected file's decoded text for the editor.
#[derive(Debug)]
pub enum LoadRequest {
    Dir(String),
    File(String),
}

/// The mathematical value of a `LoadRequest`.
pub enum LoadRequestView {
    Dir { path: Seq<char> },
    File { path: Seq<char> },
}

pub open spec fn load_view(r: LoadRequest) -> LoadRequestView {
    match r {
        LoadRequest::Dir(p) => LoadRequestView::Dir { path: p@ },
        LoadRequest::File(p) => LoadRequestView::File { path: p@ },
    }
}

pub open spec fn opt_load_view(r: Option<LoadRequest>) -> Option<LoadRequestView> {
    match r {
        Some(r) => Some(load_view(r)),
        None => None,
    }
}

pub open spec fn opt_str_view(s: Option<String>) -> Option<Seq<char>> {
    match s {
        Some(s) => Some(s@),
        None => None,
    }
}

/// Which editor-like component currently answers for the right-hand
/// pane.
#[derive(Clone, Copy, PartialEq, Eq, Structural, Debug)]
pub enum ActiveEditor {
    Preview,
    Text,
    Null,
}

/// The application.
#[derive(Debug)]
pub struct App {
    pub explorer: FileExplorer,
    pub preview_explorer: FileExplorer,
    pub text_editor: TextEditor,
    pub null_editor: NullEdtior,
    pub info_message: Option<String>,
    pub legend: Legend,
    pub should_stop: bool,
    pub pending_load: Option<LoadRequest>,
}

/// The mathematical value of the application.
pub struct AppObs {
    pub explorer: ExplorerObs,
    pub preview: ExplorerObs,
    pub editor: EditorObs,
    pub null_message: Option<Seq<char>>,
    pub info_message: Option<Seq<char>>,
    pub legend: Seq<char>,
    pub should_stop: bool,
    pub pending_load: Option<LoadRequestView>,
}

pub open spec fn app_obs(a: App) -> AppObs {
    AppObs {
        explorer: ex_obs(a.explorer),
        preview: ex_obs(a.preview_explorer),
        editor: ed_obs(a.text_editor),
        null_message: opt_str_view(a.null_editor.message),
        info_message: opt_str_view(a.info_message),
        legend: a.legend.command_bindings_string@,
        should_stop: a.should_stop,
        pending_load: opt_load_view(a.pending_load),
    }
}

/// The application's resting assumptions: the editor's cursor is valid,
/// and whenever the editor is focused or in edit mode its buffer holds
/// at least one line, so every edit lands somewhere.
pub open spec fn app_wf(a: App) -> bool {
    &&& a.text_editor.wf()
    &&& (a.text_editor.mode == Mode::Edit || a.text_editor.is_focused) ==> buf(
        a.text_editor,
    ).len() > 0
    &&& a.explorer.interactive
    &&& !a.preview_explorer.interactive
}

/// Which editor-like component answers: the placeholder while an error
/// message stands or nothing is selected, else the preview pane for a
/// directory and the text editor for a file.
pub open spec fn spec_active_editor(o: AppObs) -> ActiveEditor {
    if o.info_message is Some {
        ActiveEditor::Null
    } else if 0 <= o.explorer.selected_index < o.explorer.entries.len() {
        if o.explorer.entries[o.explorer.selected_index].is_dir {
            ActiveEditor::Preview
        } else {
            ActiveEditor::Text
        }
    } else {
        ActiveEditor::Null
    }
}

/// The load the current selection asks for: the listing of a selected
/// directory, the text of a selected file, nothing when nothing is
/// selected.
pub open spec fn spec_selection_load(o: ExplorerObs) -> Option<LoadRequestView> {
    if 0 <= o.selected_index < o.entries.len() {
        if o.entries[o.selected_index].is_dir {
            Some(LoadRequestView::Dir { path: o.entries[o.selected_index].path@ })
        } else {
            Some(LoadRequestView::File { path: o.entries[o.selected_index].path@ })
        }
    } else {
        None
    }
}

/// The command pairs of the text editor, as the legend sees them.
pub open spec fn spec_text_editor_cmds() -> Seq<(CommandId, Seq<char>)> {
    seq![
        (CommandId::TextEditorNextChar, "Next char"@),
        (CommandId::TextEditorPrevChar, "Prev char"@),
        (CommandId::TextEditorNextLine, "Next line"@),
        (CommandId::TextEditorPrevLine, "Prev line"@),
        (CommandId::TextEditorSave, "Save"@),
        (CommandId::TextEditorInsertMode, "Edit"@),
        (CommandId::TextEditorGoBack, "Go back"@),
    ]
}

/// The command pairs of the browser, as the legend sees them.
pub open spec fn spec_explorer_cmds() -> Seq<(CommandId, Seq<char>)> {
    seq![
        (CommandId::ExplorerSelectPreviousFile, "Prev file"@),
        (CommandId::ExplorerSelectNextFile, "Next file"@),
        (CommandId::ExplorerGoBack, "Back"@),
        (CommandId::ExplorerOpenSelectedFile, "Open file"@),
        (CommandId::ExplorerDeleteCurrentFile, "Delete file"@),
        (CommandId::ExplorerMoveCurrentFile, "Move file"@),
        (CommandId::ExplorerSortEntries, "Sort"@),
        (CommandId::ExplorerCreateFile, "New file"@),
        (CommandId::ExplorerFilter, "Filter"@),
    ]
}

/// What the help bar shows: the editor's commands while the text editor
/// is the active, focused component, the browser's otherwise.
pub open spec fn spec_window_legend(o: AppObs) -> Seq<char> {
    if spec_active_editor(o) == ActiveEditor::Text && o.editor.is_focused {
        spec_legend_string(spec_text_editor_cmds())
    } else {
        spec_legend_string(spec_explorer_cmds())
    }
}

/// Quit: the main loop stops after this turn.
pub open spec fn spec_app_quit(o: AppObs) -> (AppObs, bool) {
    ((AppObs { should_stop: true, ..o }), true)
}

/// Back at the application level: the active editor loses focus and the
/// browser takes it.
pub open spec fn spec_app_go_back(o: AppObs) -> (AppObs, bool) {
    let o2 = match spec_active_editor(o) {
        ActiveEditor::Preview => AppObs {
            preview: ExplorerObs { is_focused: false, ..o.preview },
            ..o
        },
        ActiveEditor::Text => AppObs {
            editor: EditorObs { is_focused: false, ..o.editor },
            ..o
        },
        ActiveEditor::Null => o,
    };
    (
        (AppObs {
            explorer: ExplorerObs {
                is_focused: o2.explorer.is_focused || o2.explorer.interactive,
                ..o2.explorer
            },
            ..o2
        }),
        true,
    )
}

/// Open at the application level: with a loaded regular file selected
/// and no standing error, focus moves from the browser to the text
/// editor; a selected directory changes no focus at all.
pub open spec fn spec_app_open_selected(o: AppObs) -> (AppObs, bool) {
    if 0 <= o.explorer.selected_index < o.explorer.entries.len()
        && !o.explorer.entries[o.explorer.selected_index].is_dir && o.info_message is None
        && o.editor.lines.len() > 0 {
        (
            (AppObs {
                explorer: ExplorerObs { is_focused: false, ..o.explorer },
                editor: EditorObs { is_focused: true, ..o.editor },
                ..o
            }),
            true,
        )
    } else {
        (o, true)
    }
}

/// The selection changed: note which load the caller should perform.
pub open spec fn spec_on_selected_change(o: AppObs) -> AppObs {
    AppObs { pending_load: spec_selection_load(o.explorer), ..o }
}

/// The application's own command set.
pub open spec fn spec_app_command(o: AppObs, key: KeyCode) -> (AppObs, bool) {
    match spec_resolve(CommandOwner::App, key) {
        Some(id) => match id {
            CommandId::AppQuit => spec_app_quit(o),
            CommandId::AppGoBack => spec_app_go_back(o),
            CommandId::AppOpenSelectedFile => spec_app_open_selected(o),
            _ => (o, false),
        },
        None => (o, false),
    }
}

/// The editor's save dialog resolved: `y` confirms — the save is
/// requested, the dialog closes, and the deferred go-back happens — `n`
/// refuses — the dialog closes and nothing else moves; other keys are
/// swallowed.
pub open spec fn spec_editor_modal_step(o: AppObs, key: KeyCode) -> AppObs {
    if key == KeyCode::Char('y') {
        AppObs {
            editor: EditorObs {
                modal_open: false,
                pending: Some(
                    EditorRequestView::Write {
                        path: o.editor.file,
                        text: spec_join(o.editor.lines, '\n'),
                    },
                ),
                is_focused: false,
                ..o.editor
            },
            explorer: ExplorerObs {
                is_focused: o.explorer.is_focused || o.explorer.interactive,
                ..o.explorer
            },
            ..o
        }
    } else if key == KeyCode::Char('n') {
        AppObs { editor: EditorObs { modal_open: false, ..o.editor }, ..o }
    } else {
        o
    }
}

/// One key routed through the application, most specific first: the
/// focused editor's open modal, then the focused component, then the
/// application's own commands; a consumed browser key re-seeds the
/// pending load, a consumed application command refreshes the help bar.
pub open spec fn spec_app_input(o: AppObs, key: KeyCode) -> (AppObs, bool) {
    let first = if o.editor.is_focused {
        if o.editor.modal_open {
            (spec_editor_modal_step(o, key), true)
        } else {
            let (e2, c) = spec_editor_input(o.editor, key);
            ((AppObs { editor: e2, ..o }), c)
        }
    } else if o.explorer.is_focused && o.explorer.interactive {
        let (x2, c) = spec_explorer_input(o.explorer, key);
        let o2 = AppObs { explorer: x2, ..o };
        if c {
            (spec_on_selected_change(o2), c)
        } else {
            (o2, c)
        }
    } else {
        (o, false)
    };
    if first.1 {
        first
    } else {
        let (o3, c2) = spec_app_command(first.0, key);
        if c2 {
            ((AppObs { legend: spec_window_legend(o3), ..o3 }), true)
        } else {
            (o3, false)
        }
    }
}

/// Buffers in edit mode or under focus stay non-empty through one edit
/// step.
proof fn lemma_insert_step_keeps_lines(o: EditorObs, key: KeyCode)
    requires
        o.lines.len() > 0,
        0 <= o.cursor_line < o.lines.len(),
    ensures
        spec_insert_step(o, key).lines.len() > 0,
{
}

impl App {
    /// The application over an initial directory: the browser focused on
    /// its listing, the preview pane beside it, a fresh editor, and the
    /// help bar filled in.
    pub fn new(current_dir: String, entries: Vec<FileEntry>, preview_entries: Vec<FileEntry>) -> (r:
        App)
        ensures
            app_wf(r),
            ex_obs(r.explorer).current_dir == current_dir@,
            spec_entries_sorted(SortCriterion::Name, ex_obs(r.explorer).entries),
            ex_obs(r.explorer).entries.to_multiset() == entries@.to_multiset(),
            ex_obs(r.explorer).is_focused,
            ex_obs(r.explorer).interactive,
            ex_obs(r.explorer).selected_index == 0,
            ex_obs(r.preview_explorer).current_dir == current_dir@,
            spec_entries_sorted(SortCriterion::Name, ex_obs(r.preview_explorer).entries),
            ex_obs(r.preview_explorer).entries.to_multiset() == preview_entries@.to_multiset(),
            !ex_obs(r.preview_explorer).interactive,
            ed_obs(r.text_editor).lines == Seq::<Seq<char>>::empty(),
            !ed_obs(r.text_editor).is_focused,
            app_obs(r).info_message is None,
            !r.should_stop,
            app_obs(r).pending_load == spec_selection_load(ex_obs(r.explorer)),
            app_obs(r).legend == spec_window_legend(app_obs(r)),
    {
        let explorer_dir = current_dir.clone();
        let explorer = FileExplorer::new("explorer", true, explorer_dir, entries);
        let preview = FileExplorer::new("preview_explorer", false, current_dir, preview_entries);
        let mut app = App {
            explorer,
            preview_explorer: preview,
            text_editor: TextEditor::new(),
            null_editor: NullEdtior { message: None },
            info_message: None,
            legend: Legend::new(),
            should_stop: false,
            pending_load: None,
        };
        app.explorer.focus();
        app.on_selected_file_change();
        app.on_window_change();
        app
    }

    /// Which editor-like component answers, as `spec_active_editor`
    /// says.
    pub fn provide_editor(&self) -> (r: ActiveEditor)
        ensures
            r == spec_active_editor(app_obs(*self)),
    {
        if self.info_message.is_some() {
            ActiveEditor::Null
        } else if self.explorer.selected_index < self.explorer.entries.len() {
            if self.explorer.entries[self.explorer.selected_index].is_dir {
                ActiveEditor::Preview
            } else {
                ActiveEditor::Text
            }
        } else {
            ActiveEditor::Null
        }
    }

    /// Notes which load the new selection asks for, as
    /// `spec_on_selected_change` says.
    pub fn on_selected_file_change(&mut self)
        ensures
            app_obs(*final(self)) == spec_on_selected_change(app_obs(*old(self))),
    {
        if self.explorer.selected_index < self.explorer.entries.len() {
            let e = &self.explorer.entries[self.explorer.selected_index];
            let path = e.path.clone();
            if e.is_dir {
                self.pending_load = Some(LoadRequest::Dir(path));
            } else {
                self.pending_load = Some(LoadRequest::File(path));
            }
        } else {
            self.pending_load = None;
        }
    }

    /// Refills the help bar from the focused component's command list,
    /// as `spec_window_legend` says.
    pub fn on_window_change(&mut self)
        requires
            old(self).explorer.interactive,
            !old(self).preview_explorer.interactive,
        ensures
            app_obs(*final(self)) == (AppObs {
                legend: spec_window_legend(app_obs(*old(self))),
                ..app_obs(*old(self))
            }),
    {
        let active = self.provide_editor();
        let text_focused = matches!(active, ActiveEditor::Text) && self.text_editor.is_focused();
        let commands: Vec<Command> = if text_focused {
            self.text_editor.get_commands()
        } else if matches!(active, ActiveEditor::Preview) && self.preview_explorer.is_focused() {
            self.preview_explorer.get_commands()
        } else {
            self.explorer.get_commands()
        };
        proof {
            if text_focused {
                assert(cmds_view(commands@) =~= spec_text_editor_cmds());
            } else {
                assert(cmds_view(commands@) =~= spec_explorer_cmds());
            }
        }
        self.legend.update_command_bindings(commands);
    }

    /// Stops the application after this turn.
    pub fn quit(&mut self, _key_code: KeyCode) -> (r: bool)
        ensures
            (app_obs(*final(self)), r) == spec_app_quit(app_obs(*old(self))),
    {
        self.should_stop = true;
        true
    }

    /// Focus returns from the active editor to the browser.
    pub fn go_back(&mut self, _key_code: KeyCode) -> (r: bool)
        ensures
            (app_obs(*final(self)), r) == spec_app_go_back(app_obs(*old(self))),
    {
        let active = self.provide_editor();
        match active {
            ActiveEditor::Preview => self.preview_explorer.unfocus(),
            ActiveEditor::Text => self.text_editor.unfocus(),
            ActiveEditor::Null => {},
        }
        self.explorer.focus();
        true
    }

    /// With a loaded regular file selected and no standing error, focus
    /// moves to the text editor; a selected directory changes nothing
    /// here.
    pub fn open_selected_file(&mut self, _key_code: KeyCode) -> (r: bool)
        ensures
            (app_obs(*final(self)), r) == spec_app_open_selected(app_obs(*old(self))),
    {
        if self.explorer.selected_index < self.explorer.entries.len() {
            let is_dir = self.explorer.entries[self.explorer.selected_index].is_dir;
            if !is_dir && self.info_message.is_none() && self.text_editor.lines.len() > 0 {
                self.explorer.unfocus();
                self.text_editor.focus();
            }
        }
        true
    }

    /// The application's own command set, as `spec_app_command` says.
    pub fn handle_command(&mut self, key_code: KeyCode) -> (r: bool)
        ensures
            (app_obs(*final(self)), r) == spec_app_command(app_obs(*old(self)), key_code),
    {
        match resolve(CommandOwner::App, key_code) {
            Some(id) => match id {
                CommandId::AppQuit => self.quit(key_code),
                CommandId::AppGoBack => self.go_back(key_code),
                CommandId::AppOpenSelectedFile => self.open_selected_file(key_code),
                _ => false,
            },
            None => false,
        }
    }

    /// One key routed through the application, as `spec_app_input`
    /// says.
    #[verifier::rlimit(100)]
    pub fn handle_input(&mut self, key_code: KeyCode) -> (r: bool)
        requires
            app_wf(*old(self)),
        ensures
            app_wf(*final(self)),
            (app_obs(*final(self)), r) == spec_app_input(app_obs(*old(self)), key_code),
    {
        let mut captured: bool;
        if self.text_editor.is_focused() {
            if self.text_editor.modal_open {
                if is_char(key_code, 'y') {
                    self.text_editor.confirm_modal();
                    self.text_editor.unfocus();
                    self.explorer.focus();
                } else if is_char(key_code, 'n') {
                    self.text_editor.refuse_modal();
                }
                captured = true;
            } else {
                captured = self.text_editor.handle_input(key_code);
                proof {
                    if old(self).text_editor.mode == Mode::Edit {
                        lemma_insert_step_keeps_lines(ed_obs(old(self).text_editor), key_code);
                    }
                }
            }
        } else if self.explorer.is_focused() {
            captured = self.explorer.handle_input(key_code);
            if captured {
                self.on_selected_file_change();
            }
        } else {
            captured = false;
        }
        if !captured {
            captured = self.handle_command(key_code);
            if captured {
                self.on_window_change();
            }
        }
        captured
    }

    /// Hands the pending load, if any, to the caller.
    pub fn take_load_request(&mut self) -> (r: Option<LoadRequest>)
        ensures
            opt_load_view(r) == app_obs(*old(self)).pending_load,
            app_obs(*final(self)) == (AppObs { pending_load: None, ..app_obs(*old(self)) }),
    {
        self.pending_load.take()
    }

    /// A requested directory load came back: the browser shows the new
    /// directory name-ordered, and the pending load follows the new
    /// selection.
    pub fn apply_explorer_dir(&mut self, path: String, entries: Vec<FileEntry>)
        ensures
            spec_entries_sorted(SortCriterion::Name, final(self).explorer.entries@),
            final(self).explorer.entries@.to_multiset() == entries@.to_multiset(),
            app_obs(*final(self)) == spec_on_selected_change(
                AppObs {
                    explorer: ExplorerObs {
                        current_dir: path@,
                        selected_index: 0,
                        entries: final(self).explorer.entries@,
                        name_filter: Seq::<char>::empty(),
                        current_sort: 0,
                        ..app_obs(*old(self)).explorer
                    },
                    ..app_obs(*old(self))
                },
            ),
    {
        self.explorer.set_path(path, entries);
        self.on_selected_file_change();
    }

    /// A requested preview load came back: the preview pane shows the
    /// selected directory name-ordered, and any standing error is
    /// cleared.
    pub fn apply_load_dir(&mut self, path: String, entries: Vec<FileEntry>)
        ensures
            spec_entries_sorted(SortCriterion::Name, final(self).preview_explorer.entries@),
            final(self).preview_explorer.entries@.to_multiset() == entries@.to_multiset(),
            app_obs(*final(self)) == (AppObs {
                preview: ExplorerObs {
                    current_dir: path@,
                    selected_index: 0,
                    entries: final(self).preview_explorer.entries@,
                    name_filter: Seq::<char>::empty(),
                    current_sort: 0,
                    ..app_obs(*old(self)).preview
                },
                info_message: None,
                null_message: None,
                ..app_obs(*old(self))
            }),
    {
        self.preview_explorer.set_path(path, entries);
        self.info_message = None;
        self.null_editor.message = None;
    }

    /// A requested file load came back decoded: the editor holds the
    /// text, and any standing error is cleared.
    pub fn apply_load_file(&mut self, path: String, text: &str)
        requires
            app_wf(*old(self)),
        ensures
            app_wf(*final(self)),
            app_obs(*final(self)) == (AppObs {
                editor: EditorObs {
                    lines: crate::text::spec_split(text@, '\n'),
                    cursor_line: 0,
                    cursor_char: 0,
                    file: path@,
                    file_saved: true,
                    ..app_obs(*old(self)).editor
                },
                info_message: None,
                null_message: None,
                ..app_obs(*old(self))
            }),
    {
        self.text_editor.set_path(path, text);
        self.info_message = None;
        self.null_editor.message = None;
    }

    /// A requested load failed: the placeholder shows the message and
    /// the error stands until a later load succeeds.
    pub fn apply_load_error(&mut self, message: String)
        ensures
            app_obs(*final(self)) == (AppObs {
                info_message: Some(message@),
                null_message: Some(message@),
                ..app_obs(*old(self))
            }),
    {
        self.info_message = Some(message.clone());
        self.null_editor.message = Some(message);
    }

    /// Whether the resting assumptions hold right now; the caller
    /// checks this before feeding a key.
    pub fn wf_check(&self) -> (r: bool)
        ensures
            r == app_wf(*self),
    {
        let roles_ok = self.explorer.interactive && !self.preview_explorer.interactive;
        let cursor_ok = if self.text_editor.lines.len() == 0 {
            self.text_editor.cursor_position.line == 0 && self.text_editor.cursor_position.char
                == 0
        } else {
            self.text_editor.cursor_position.line < self.text_editor.lines.len()
                && self.text_editor.cursor_position.char <= self.text_editor.lines[self.text_editor.cursor_position.line].len()
        };
        let edit_ok = if matches!(self.text_editor.mode, Mode::Edit) || self.text_editor.is_focused {
            self.text_editor.lines.len() > 0
        } else {
            true
        };
        roles_ok && cursor_ok && edit_ok
    }

    /// The application's namespace in the binding table.
    pub fn get_name(&self) -> (r: &'static str)
        ensures
            r@ == "app"@,
    {
        "app"
    }

    /// The application's command list.
    pub fn get_commands(&self) -> (r: Vec<Command>)
        ensures
            r@.len() == 3,
            r@[0].id == CommandId::AppQuit && r@[0].name@ == "Quit"@,
            r@[1].id == CommandId::AppGoBack && r@[1].name@ == "Back"@,
            r@[2].id == CommandId::AppOpenSelectedFile && r@[2].name@ == "Open file"@,
    {
        vec![
            Command { id: CommandId::AppQuit, name: "Quit" },
            Command { id: CommandId::AppGoBack, name: "Back" },
            Command { id: CommandId::AppOpenSelectedFile, name: "Open file" },
        ]
    }
}

/// Whether this key is the given character.
fn is_char(key_code: KeyCode, c: char) -> (r: bool)
    ensures
        r == (key_code == KeyCode::Char(c)),
{
    match key_code {
        KeyCode::Char(k) => k == c,
        _ => false,
    }
}

/// Law: with the browser focused, pressing Enter on a selected
/// directory is consumed by the browser's descent and moves no focus at
/// all; pressing Enter on a selected, loaded regular file with no
/// standing error hands focus to the text editor.
pub proof fn lemma_open_selected_focus(o: AppObs)
    requires
        !o.editor.is_focused,
        o.explorer.is_focused,
        o.explorer.interactive,
        !o.explorer.modal.is_open,
        0 <= o.explorer.selected_index < o.explorer.entries.len(),
    ensures
        o.explorer.entries[o.explorer.selected_index].is_dir ==> ({
            let (o2, consumed) = spec_app_input(o, KeyCode::Enter);
            &&& consumed
            &&& o2.explorer.is_focused == o.explorer.is_focused
            &&& o2.editor.is_focused == o.editor.is_focused
            &&& o2.preview.is_focused == o.preview.is_focused
        }),
        (!o.explorer.entries[o.explorer.selected_index].is_dir && o.info_message is None
            && o.editor.lines.len() > 0) ==> ({
            let (o2, consumed) = spec_app_input(o, KeyCode::Enter);
            &&& consumed
            &&& o2.editor.is_focused
            &&& !o2.explorer.is_focused
        }),
{
    reveal_with_fuel(crate::binding::spec_resolve_from, 21);
    assert(spec_resolve(CommandOwner::Explorer, KeyCode::Enter) == Some(
        CommandId::ExplorerOpenSelectedFile,
    ));
    assert(spec_resolve(CommandOwner::App, KeyCode::Enter) == Some(
        CommandId::AppOpenSelectedFile,
    ));
}

} // verus!
