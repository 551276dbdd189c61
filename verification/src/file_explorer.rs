//! The file browser: a directory listing with selection, filtering,
//! sorting, and deferred file-system intents.
//!
//! The browser never reads or mutates the file system itself: listings
//! are handed in, and destructive work leaves a request that the caller
//! performs before reporting back.

use vstd::prelude::*;

use crate::binding::{resolve, spec_resolve};
use crate::command::{Command, CommandId, CommandOwner};
use crate::editor::Editor;
use crate::keycode::KeyCode;
use crate::modal::{
    modal_obs, spec_closed_modal, spec_modal_step, Modal, ModalObs, ModalStatus, ModalVariant,
    ModalVariantObs,
};
use crate::modal_variants::{
    ConfirmationVariant, ErrorVariant, InfoVariant, OptionsVariant, QuestionTask,
    QuestionTaskView, QuestionVariant,
};
use crate::sort_entries::{get_sort_entries, sort_entries_by, spec_entries_sorted, SortCriterion};
use crate::text::{
    chars_after_last, contains_chars, lower_chars, spec_contains, spec_file_name, spec_last_index,
    spec_lower, str_chars,
};
use crate::window::Focusable;

verus! {

/// One row of a directory listing, as the listing provider hands it in:
/// the full path, whether it is a directory, and the plain numbers the
/// sort criteria read.
#[derive(Debug)]
pub struct FileEntry {
    pub path: String,
    pub is_dir: bool,
    pub size: u64,
    pub modified: u64,
}

/// The mathematical value of a listing row.
pub struct FileEntryView {
    pub path: Seq<char>,
    pub is_dir: bool,
    pub size: u64,
    pub modified: u64,
}

pub open spec fn entry_view(e: FileEntry) -> FileEntryView {
    FileEntryView { path: e.path@, is_dir: e.is_dir, size: e.size, modified: e.modified }
}

pub open spec fn opt_entry_view(e: Option<FileEntry>) -> Option<FileEntryView> {
    match e {
        Some(e) => Some(entry_view(e)),
        None => None,
    }
}

impl FileEntry {
    /// A row equal to this one, character for character.
    pub fn duplicate(&self) -> (r: FileEntry)
        ensures
            entry_view(r) == entry_view(*self),
    {
        FileEntry {
            path: self.path.clone(),
            is_dir: self.is_dir,
            size: self.size,
            modified: self.modified,
        }
    }
}

/// A deferred file-system intent: queued when a modal is opened, executed
/// only when the modal resolves to confirmed.
#[derive(Debug)]
pub enum ExplorerTask {
    DeleteFile(String),
    MoveFile(String, String),
    CreateFile(String),
    Sort(usize),
    Filter(String),
}

/// The mathematical value of an `ExplorerTask`.
pub enum ExplorerTaskView {
    DeleteFile { path: Seq<char> },
    MoveFile { from: Seq<char>, to: Seq<char> },
    CreateFile { name: Seq<char> },
    Sort { index: int },
    Filter { text: Seq<char> },
}

pub open spec fn task_view(t: ExplorerTask) -> ExplorerTaskView {
    match t {
        ExplorerTask::DeleteFile(p) => ExplorerTaskView::DeleteFile { path: p@ },
        ExplorerTask::MoveFile(from, to) => ExplorerTaskView::MoveFile { from: from@, to: to@ },
        ExplorerTask::CreateFile(name) => ExplorerTaskView::CreateFile { name: name@ },
        ExplorerTask::Sort(i) => ExplorerTaskView::Sort { index: i as int },
        ExplorerTask::Filter(s) => ExplorerTaskView::Filter { text: s@ },
    }
}

pub open spec fn opt_task_view(t: Option<ExplorerTask>) -> Option<ExplorerTaskView> {
    match t {
        Some(t) => Some(task_view(t)),
        None => None,
    }
}

impl ExplorerTask {
    /// A task equal to this one, character for character.
    pub fn duplicate(&self) -> (r: ExplorerTask)
        ensures
            task_view(r) == task_view(*self),
    {
        match self {
            ExplorerTask::DeleteFile(p) => ExplorerTask::DeleteFile(p.clone()),
            ExplorerTask::MoveFile(from, to) => ExplorerTask::MoveFile(from.clone(), to.clone()),
            ExplorerTask::CreateFile(name) => ExplorerTask::CreateFile(name.clone()),
            ExplorerTask::Sort(i) => ExplorerTask::Sort(*i),
            ExplorerTask::Filter(s) => ExplorerTask::Filter(s.clone()),
        }
    }
}

/// File-system work the browser asks its caller to perform.
#[derive(Debug)]
pub enum ExplorerRequest {
    /// Read this directory and hand its listing to `set_path`.
    LoadDir(String),
    /// Re-read the current directory and hand its listing to `refresh`.
    Refresh,
    /// Delete this entry, then refresh on success or report the failure.
    Delete(String),
    /// Rename the first path to the second, likewise.
    Move(String, String),
    /// Create a file, or a directory where `is_dir` says so, likewise.
    Create { path: String, is_dir: bool },
}

/// The mathematical value of an `ExplorerRequest`.
pub enum ExplorerRequestView {
    LoadDir { path: Seq<char> },
    Refresh,
    Delete { path: Seq<char> },
    Move { from: Seq<char>, to: Seq<char> },
    Create { path: Seq<char>, is_dir: bool },
}

pub open spec fn request_view(r: ExplorerRequest) -> ExplorerRequestView {
    match r {
        ExplorerRequest::LoadDir(p) => ExplorerRequestView::LoadDir { path: p@ },
        ExplorerRequest::Refresh => ExplorerRequestView::Refresh,
        ExplorerRequest::Delete(p) => ExplorerRequestView::Delete { path: p@ },
        ExplorerRequest::Move(from, to) => ExplorerRequestView::Move { from: from@, to: to@ },
        ExplorerRequest::Create { path, is_dir } => ExplorerRequestView::Create {
            path: path@,
            is_dir,
        },
    }
}

pub open spec fn opt_request_view(r: Option<ExplorerRequest>) -> Option<ExplorerRequestView> {
    match r {
        Some(r) => Some(request_view(r)),
        None => None,
    }
}

/// The file browser component.
#[derive(Debug)]
pub struct FileExplorer {
    pub current_dir: String,
    pub selected_index: usize,
    pub entries: Vec<FileEntry>,
    pub interactive: bool,
    pub name: &'static str,
    pub modal: Modal,
    pub name_filter: String,
    pub current_sort: usize,
    pub is_focused: bool,
    pub pending_request: Option<ExplorerRequest>,
}

/// The mathematical value of the browser.
pub struct ExplorerObs {
    pub current_dir: Seq<char>,
    pub selected_index: int,
    pub entries: Seq<FileEntry>,
    pub interactive: bool,
    pub modal: ModalObs,
    pub name_filter: Seq<char>,
    pub current_sort: int,
    pub is_focused: bool,
    pub pending: Option<ExplorerRequestView>,
}

pub open spec fn ex_obs(e: FileExplorer) -> ExplorerObs {
    ExplorerObs {
        current_dir: e.current_dir@,
        selected_index: e.selected_index as int,
        entries: e.entries@,
        interactive: e.interactive,
        modal: modal_obs(e.modal),
        name_filter: e.name_filter@,
        current_sort: e.current_sort as int,
        is_focused: e.is_focused,
        pending: opt_request_view(e.pending_request),
    }
}

/// The parent directory of a path: the part before the final `/`, the
/// root `/` counting as its own first segment's parent, and a path
/// without `/` having none.
pub open spec fn spec_parent(s: Seq<char>) -> Option<Seq<char>> {
    let i = spec_last_index(s, '/');
    if i == -1 {
        None
    } else if i == 0 {
        if s.len() == 1 {
            None
        } else {
            Some(s.take(1))
        }
    } else {
        Some(s.take(i))
    }
}

/// Whether a row passes the name filter: the filter occurs in the file
/// name, ASCII letters compared without regard to case — the crate's
/// deliberate matching choice.
pub open spec fn spec_entry_matches(e: FileEntry, filter: Seq<char>) -> bool {
    spec_contains(spec_lower(spec_file_name(e.path@)), spec_lower(filter))
}

/// The rows of `s` that pass the name filter, in order.
pub open spec fn spec_filter_entries(s: Seq<FileEntry>, filter: Seq<char>) -> Seq<FileEntry> {
    s.filter(|e: FileEntry| spec_entry_matches(e, filter))
}

/// The criterion a sort index selects; an index past the table falls
/// back to the name sort.
pub open spec fn spec_criterion_of(i: int) -> SortCriterion {
    if i == 1 {
        SortCriterion::Size
    } else if i == 2 {
        SortCriterion::ModifiedDate
    } else {
        SortCriterion::Name
    }
}

/// Selection moved one row up, clamped at the top.
pub open spec fn spec_select_previous(o: ExplorerObs) -> ExplorerObs {
    if o.entries.len() > 0 && o.selected_index > 0 {
        ExplorerObs { selected_index: o.selected_index - 1, ..o }
    } else {
        o
    }
}

/// Selection moved one row down, clamped at the bottom.
pub open spec fn spec_select_next(o: ExplorerObs) -> ExplorerObs {
    if o.entries.len() > 0 && o.selected_index < o.entries.len() - 1 {
        ExplorerObs { selected_index: o.selected_index + 1, ..o }
    } else {
        o
    }
}

/// A freshly opened modal over `o`.
pub open spec fn with_open_modal(o: ExplorerObs, v: ModalVariantObs) -> ExplorerObs {
    ExplorerObs {
        modal: ModalObs { is_open: true, status: ModalStatus::Waiting, variant: v },
        ..o
    }
}

/// The info modal shown when the selection is stale or out of range.
pub open spec fn spec_invalid_selection_modal(o: ExplorerObs) -> ExplorerObs {
    with_open_modal(o, ModalVariantObs::Info { message: "Selected file is invalid"@ })
}

/// Asking before deleting: a confirmation modal whose deferred task
/// deletes the selected entry.
pub open spec fn spec_prompt_delete(o: ExplorerObs) -> ExplorerObs {
    if 0 <= o.selected_index < o.entries.len() {
        let p = o.entries[o.selected_index].path@;
        with_open_modal(
            o,
            ModalVariantObs::Confirmation {
                message: "Delete file: "@ + p + "?"@,
                task: ExplorerTaskView::DeleteFile { path: p },
            },
        )
    } else {
        spec_invalid_selection_modal(o)
    }
}

/// Asking where to move: a question modal seeded with the selected
/// path, whose answer becomes the move target.
pub open spec fn spec_prompt_move(o: ExplorerObs) -> ExplorerObs {
    if 0 <= o.selected_index < o.entries.len() {
        let p = o.entries[o.selected_index].path@;
        with_open_modal(
            o,
            ModalVariantObs::Question {
                message: "Move file: "@ + p + " to?"@,
                answer: p,
                task: QuestionTaskView::MoveFile { from: p },
            },
        )
    } else {
        spec_invalid_selection_modal(o)
    }
}

/// Asking for a sort criterion: an options modal over the sort table.
pub open spec fn spec_prompt_sort(o: ExplorerObs) -> ExplorerObs {
    with_open_modal(
        o,
        ModalVariantObs::Options {
            message: "Sort by: "@,
            options: seq!["Name"@, "Size"@, "Modified Date"@],
            selected_index: 0,
        },
    )
}

/// Asking for a new entry's name.
pub open spec fn spec_prompt_create(o: ExplorerObs) -> ExplorerObs {
    with_open_modal(
        o,
        ModalVariantObs::Question {
            message: "Create file:"@,
            answer: Seq::empty(),
            task: QuestionTaskView::CreateFile,
        },
    )
}

/// Asking for a name filter.
pub open spec fn spec_prompt_filter(o: ExplorerObs) -> ExplorerObs {
    with_open_modal(
        o,
        ModalVariantObs::Question {
            message: "Filter: "@,
            answer: Seq::empty(),
            task: QuestionTaskView::Filter,
        },
    )
}

/// Stepping into the selected directory: a load request for it; a file
/// or an empty listing leaves the key unconsumed.
pub open spec fn spec_open_selected(o: ExplorerObs) -> (ExplorerObs, bool) {
    if 0 <= o.selected_index < o.entries.len() && o.entries[o.selected_index].is_dir {
        (
            (ExplorerObs {
                pending: Some(
                    ExplorerRequestView::LoadDir { path: o.entries[o.selected_index].path@ },
                ),
                ..o
            }),
            true,
        )
    } else {
        (o, false)
    }
}

/// Going up: a load request for the parent directory, where one exists.
pub open spec fn spec_explorer_go_back(o: ExplorerObs) -> ExplorerObs {
    match spec_parent(o.current_dir) {
        Some(p) => ExplorerObs { pending: Some(ExplorerRequestView::LoadDir { path: p }), ..o },
        None => o,
    }
}

/// A confirmed task applied to the browser: the destructive intents
/// become requests for the caller, sort and filter settle into the
/// browser's state together with a refresh request.
pub open spec fn spec_dispatch(o: ExplorerObs, t: ExplorerTaskView) -> ExplorerObs {
    match t {
        ExplorerTaskView::CreateFile { name } => ExplorerObs {
            pending: Some(
                ExplorerRequestView::Create {
                    path: o.current_dir + seq!['/'] + name,
                    is_dir: name.len() > 0 && name.last() == '/',
                },
            ),
            ..o
        },
        ExplorerTaskView::DeleteFile { path } => ExplorerObs {
            pending: Some(ExplorerRequestView::Delete { path }),
            ..o
        },
        ExplorerTaskView::MoveFile { from, to } => ExplorerObs {
            pending: Some(ExplorerRequestView::Move { from, to }),
            ..o
        },
        ExplorerTaskView::Sort { index } => ExplorerObs {
            current_sort: index,
            pending: Some(ExplorerRequestView::Refresh),
            ..o
        },
        ExplorerTaskView::Filter { text } => ExplorerObs {
            name_filter: text,
            pending: Some(ExplorerRequestView::Refresh),
            ..o
        },
    }
}

/// One browser command applied to the browser's value, and whether it
/// consumed the key.
pub open spec fn spec_explorer_cmd_step(o: ExplorerObs, id: CommandId) -> (ExplorerObs, bool) {
    match id {
        CommandId::ExplorerSelectPreviousFile => (spec_select_previous(o), true),
        CommandId::ExplorerSelectNextFile => (spec_select_next(o), true),
        CommandId::ExplorerGoBack => (spec_explorer_go_back(o), true),
        CommandId::ExplorerOpenSelectedFile => spec_open_selected(o),
        CommandId::ExplorerDeleteCurrentFile => (spec_prompt_delete(o), true),
        CommandId::ExplorerMoveCurrentFile => (spec_prompt_move(o), true),
        CommandId::ExplorerSortEntries => (spec_prompt_sort(o), true),
        CommandId::ExplorerCreateFile => (spec_prompt_create(o), true),
        CommandId::ExplorerFilter => (spec_prompt_filter(o), true),
        _ => (o, false),
    }
}

/// The browser's share of command dispatch: nothing for the inert
/// preview variant, else the key resolved in the `explorer` namespace
/// and the bound command applied.
pub open spec fn spec_explorer_command(o: ExplorerObs, key: KeyCode) -> (ExplorerObs, bool) {
    if !o.interactive {
        (o, false)
    } else {
        match spec_resolve(CommandOwner::Explorer, key) {
            Some(id) => spec_explorer_cmd_step(o, id),
            None => (o, false),
        }
    }
}

/// One key fed to the browser: with a modal open it goes exclusively to
/// the modal, whose resolution resets it to the closed resting value and
/// dispatches a confirmed task; otherwise it is command dispatch.
pub open spec fn spec_explorer_input(o: ExplorerObs, key: KeyCode) -> (ExplorerObs, bool) {
    if o.modal.is_open {
        let (m2, t) = spec_modal_step(o.modal, key);
        let o2 = if !m2.is_open {
            ExplorerObs { modal: spec_closed_modal(), ..o }
        } else {
            ExplorerObs { modal: m2, ..o }
        };
        match t {
            Some(tv) => (spec_dispatch(o2, tv), true),
            None => (o2, true),
        }
    } else {
        spec_explorer_command(o, key)
    }
}

impl FileExplorer {
    /// A browser over the given directory and its listing, the listing
    /// ordered by name as every freshly installed listing is;
    /// interactive for the real browser, inert for the preview pane.
    pub fn new(name: &'static str, interactive: bool, current_dir: String, entries: Vec<
        FileEntry,
    >) -> (r: Self)
        ensures
            spec_entries_sorted(SortCriterion::Name, r.entries@),
            r.entries@.to_multiset() == entries@.to_multiset(),
            ex_obs(r) == (ExplorerObs {
                current_dir: current_dir@,
                selected_index: 0,
                entries: r.entries@,
                interactive,
                modal: spec_closed_modal(),
                name_filter: Seq::<char>::empty(),
                current_sort: 0,
                is_focused: false,
                pending: None,
            }),
            r.name == name,
    {
        let mut modal = Modal::new(ModalVariant::Info(InfoVariant::new(String::new())));
        modal.close();
        let mut entries = entries;
        sort_entries_by(SortCriterion::Name, &mut entries);
        Self {
            current_dir,
            selected_index: 0,
            entries,
            interactive,
            name,
            modal,
            name_filter: String::new(),
            current_sort: 0,
            is_focused: false,
            pending_request: None,
        }
    }

    pub fn select_previous(&mut self, _key_code: KeyCode) -> (r: bool)
        ensures
            r,
            ex_obs(*final(self)) == spec_select_previous(ex_obs(*old(self))),
    {
        if self.entries.len() > 0 && self.selected_index > 0 {
            self.selected_index = self.selected_index - 1;
        }
        true
    }

    pub fn select_next(&mut self, _key_code: KeyCode) -> (r: bool)
        ensures
            r,
            ex_obs(*final(self)) == spec_select_next(ex_obs(*old(self))),
    {
        if self.entries.len() > 0 && self.selected_index < self.entries.len() - 1 {
            self.selected_index = self.selected_index + 1;
        }
        true
    }

    /// The selected row, if the selection is in range.
    pub fn get_selected_file(&self) -> (r: Option<FileEntry>)
        ensures
            opt_entry_view(r) == (if 0 <= self.selected_index < self.entries@.len() {
                Some(entry_view(self.entries@[self.selected_index as int]))
            } else {
                None::<FileEntryView>
            }),
    {
        if self.selected_index < self.entries.len() {
            Some(self.entries[self.selected_index].duplicate())
        } else {
            None
        }
    }

    /// Opens the info modal with this message.
    pub fn open_info_modal(&mut self, message: String)
        ensures
            ex_obs(*final(self)) == with_open_modal(
                ex_obs(*old(self)),
                ModalVariantObs::Info { message: message@ },
            ),
    {
        self.modal = Modal::new(ModalVariant::Info(InfoVariant::new(message)));
    }

    /// Opens the error modal with this message; used by the caller to
    /// surface a failed file-system operation.
    pub fn open_error_modal(&mut self, message: String)
        ensures
            ex_obs(*final(self)) == with_open_modal(
                ex_obs(*old(self)),
                ModalVariantObs::Error { message: message@ },
            ),
    {
        self.modal = Modal::new(ModalVariant::Error(ErrorVariant::new(message)));
    }

    pub fn prompt_for_delete_current_file(&mut self, _key_code: KeyCode) -> (r: bool)
        ensures
            r,
            ex_obs(*final(self)) == spec_prompt_delete(ex_obs(*old(self))),
    {
        match self.get_selected_file() {
            Some(selected) => {
                let mut message = String::from_str("Delete file: ");
                message.append(selected.path.as_str());
                message.append("?");
                self.modal = Modal::new(
                    ModalVariant::Confirmation(
                        ConfirmationVariant::new(message, ExplorerTask::DeleteFile(selected.path)),
                    ),
                );
            },
            None => {
                self.open_info_modal(String::from_str("Selected file is invalid"));
            },
        }
        true
    }

    pub fn prompt_for_move_file(&mut self, _key_code: KeyCode) -> (r: bool)
        ensures
            r,
            ex_obs(*final(self)) == spec_prompt_move(ex_obs(*old(self))),
    {
        match self.get_selected_file() {
            Some(selected) => {
                let mut message = String::from_str("Move file: ");
                message.append(selected.path.as_str());
                message.append(" to?");
                let answer = selected.path.clone();
                self.modal = Modal::new(
                    ModalVariant::Question(
                        QuestionVariant::new(
                            message,
                            answer,
                            QuestionTask::MoveFile(selected.path),
                        ),
                    ),
                );
            },
            None => {
                self.open_info_modal(String::from_str("Selected file is invalid"));
            },
        }
        true
    }

    pub fn prompt_for_sorting_criterion(&mut self, _key_code: KeyCode) -> (r: bool)
        ensures
            r,
            ex_obs(*final(self)) == spec_prompt_sort(ex_obs(*old(self))),
    {
        let sort_entries = get_sort_entries();
        let mut options: Vec<String> = Vec::new();
        options.push(String::from_str(sort_entries[0].name));
        options.push(String::from_str(sort_entries[1].name));
        options.push(String::from_str(sort_entries[2].name));
        proof {
            assert(options@.map_values(|s: String| s@) =~= seq!["Name"@, "Size"@, "Modified Date"@]);
        }
        self.modal = Modal::new(
            ModalVariant::Options(OptionsVariant::new(String::from_str("Sort by: "), options)),
        );
        true
    }

    pub fn prompt_for_new_file(&mut self, _key_code: KeyCode) -> (r: bool)
        ensures
            r,
            ex_obs(*final(self)) == spec_prompt_create(ex_obs(*old(self))),
    {
        self.modal = Modal::new(
            ModalVariant::Question(
                QuestionVariant::new(
                    String::from_str("Create file:"),
                    String::new(),
                    QuestionTask::CreateFile,
                ),
            ),
        );
        true
    }

    pub fn prompt_for_new_filter(&mut self, _key_code: KeyCode) -> (r: bool)
        ensures
            r,
            ex_obs(*final(self)) == spec_prompt_filter(ex_obs(*old(self))),
    {
        self.modal = Modal::new(
            ModalVariant::Question(
                QuestionVariant::new(
                    String::from_str("Filter: "),
                    String::new(),
                    QuestionTask::Filter,
                ),
            ),
        );
        true
    }

    /// Asks for the parent directory's listing, where the current
    /// directory has a parent.
    pub fn go_back(&mut self, _key_code: KeyCode) -> (r: bool)
        ensures
            r,
            ex_obs(*final(self)) == spec_explorer_go_back(ex_obs(*old(self))),
    {
        let n = self.current_dir.as_str().unicode_len();
        let mut i: usize = n;
        proof {
            assert(self.current_dir@.take(n as int) =~= self.current_dir@);
        }
        loop
            invariant
                i <= n,
                n == self.current_dir@.len(),
                spec_last_index(self.current_dir@, '/') == spec_last_index(
                    self.current_dir@.take(i as int),
                    '/',
                ),
            ensures
                i <= n,
                i == spec_last_index(self.current_dir@, '/') + 1,
            decreases i,
        {
            if i == 0 {
                proof {
                    assert(self.current_dir@.take(0) =~= Seq::<char>::empty());
                }
                break;
            }
            proof {
                assert(self.current_dir@.take(i as int).drop_last() =~= self.current_dir@.take(
                    i - 1,
                ));
                assert(self.current_dir@.take(i as int).last() == self.current_dir@[i - 1]);
            }
            if self.current_dir.as_str().get_char(i - 1) == '/' {
                break;
            }
            i = i - 1;
        }
        if i == 0 {
            return true;
        }
        if i == 1 && n == 1 {
            return true;
        }
        let end = if i == 1 {
            1
        } else {
            i - 1
        };
        let parent = self.current_dir.as_str().substring_char(0, end).to_owned();
        proof {
            assert(parent@ =~= self.current_dir@.take(end as int));
            assert(Some(parent@) == spec_parent(ex_obs(*old(self)).current_dir));
        }
        self.pending_request = Some(ExplorerRequest::LoadDir(parent));
        true
    }

    /// Steps into the selected directory by asking for its listing; a
    /// selected file is not consumed here, so the key travels on to the
    /// surrounding application.
    pub fn open_selected_file(&mut self, _key_code: KeyCode) -> (r: bool)
        ensures
            (ex_obs(*final(self)), r) == spec_open_selected(ex_obs(*old(self))),
    {
        match self.get_selected_file() {
            Some(selected) => {
                if selected.is_dir {
                    self.pending_request = Some(ExplorerRequest::LoadDir(selected.path));
                    true
                } else {
                    false
                }
            },
            None => false,
        }
    }

    /// Replaces the browser's directory and listing, resetting the
    /// selection, the filter and the sort; the fresh listing is
    /// installed ordered by name, the criterion the reset sort selects.
    pub fn set_path(&mut self, new_dir: String, entries: Vec<FileEntry>)
        ensures
            spec_entries_sorted(SortCriterion::Name, final(self).entries@),
            final(self).entries@.to_multiset() == entries@.to_multiset(),
            ex_obs(*final(self)) == (ExplorerObs {
                current_dir: new_dir@,
                selected_index: 0,
                entries: final(self).entries@,
                name_filter: Seq::<char>::empty(),
                current_sort: 0,
                ..ex_obs(*old(self))
            }),
    {
        let mut entries = entries;
        sort_entries_by(SortCriterion::Name, &mut entries);
        self.entries = entries;
        self.current_dir = new_dir;
        self.selected_index = 0;
        self.name_filter = String::new();
        self.current_sort = 0;
    }

    /// Installs a fresh listing of the current directory: the rows that
    /// pass the name filter, ordered by the current sort criterion, with
    /// the selection back on the first row.
    pub fn refresh(&mut self, raw_entries: Vec<FileEntry>)
        ensures
            spec_entries_sorted(
                spec_criterion_of(old(self).current_sort as int),
                final(self).entries@,
            ),
            final(self).entries@.to_multiset() == spec_filter_entries(
                raw_entries@,
                old(self).name_filter@,
            ).to_multiset(),
            ex_obs(*final(self)) == (ExplorerObs {
                selected_index: 0,
                entries: final(self).entries@,
                ..ex_obs(*old(self))
            }),
    {
        let filter_low = lower_chars(&str_chars(self.name_filter.as_str()));
        let mut raw = raw_entries;
        let mut kept: Vec<FileEntry> = Vec::new();
        let ghost orig = raw@;
        let ghost filt = self.name_filter@;
        let n0 = raw.len();
        proof {
            reveal(Seq::filter);
            assert(orig.take(0) =~= Seq::<FileEntry>::empty());
            assert(kept@ =~= spec_filter_entries(orig.take(0), filt));
        }
        let mut i: usize = 0;
        while raw.len() > 0
            invariant
                orig.len() == n0,
                i <= n0,
                raw@ == orig.skip(i as int),
                filt == self.name_filter@,
                filter_low@ == spec_lower(filt),
                kept@ == spec_filter_entries(orig.take(i as int), filt),
            decreases raw@.len(),
        {
            let e = raw.remove(0);
            proof {
                assert(e == orig[i as int]);
                assert(raw@ =~= orig.skip(i + 1));
            }
            let name_low = lower_chars(&chars_after_last(e.path.as_str(), '/'));
            let matched = contains_chars(&name_low, &filter_low);
            proof {
                reveal(Seq::filter);
                assert(matched == spec_entry_matches(orig[i as int], filt));
                assert(orig.take(i + 1).drop_last() =~= orig.take(i as int));
                assert(orig.take(i + 1).last() == orig[i as int]);
            }
            if matched {
                kept.push(e);
            }
            proof {
                reveal(Seq::filter);
                assert(kept@ =~= spec_filter_entries(orig.take(i + 1), filt));
            }
            i = i + 1;
        }
        proof {
            assert(orig.take(i as int) =~= orig);
        }
        let criterion = match self.current_sort {
            1 => SortCriterion::Size,
            2 => SortCriterion::ModifiedDate,
            _ => SortCriterion::Name,
        };
        sort_entries_by(criterion, &mut kept);
        self.entries = kept;
        self.selected_index = 0;
    }

    /// Applies a confirmed task, as `spec_dispatch` says.
    pub fn dispatch_on_task(&mut self, task: ExplorerTask)
        ensures
            ex_obs(*final(self)) == spec_dispatch(ex_obs(*old(self)), task_view(task)),
    {
        match task {
            ExplorerTask::CreateFile(name) => {
                let n = name.as_str().unicode_len();
                let is_dir = n > 0 && name.as_str().get_char(n - 1) == '/';
                let mut path = self.current_dir.clone();
                path.append("/");
                path.append(name.as_str());
                proof {
                    reveal_strlit("/");
                    assert(path@ =~= ex_obs(*old(self)).current_dir + seq!['/'] + name@);
                }
                self.pending_request = Some(ExplorerRequest::Create { path, is_dir });
            },
            ExplorerTask::DeleteFile(filepath) => {
                self.pending_request = Some(ExplorerRequest::Delete(filepath));
            },
            ExplorerTask::MoveFile(from_path, new_path) => {
                self.pending_request = Some(ExplorerRequest::Move(from_path, new_path));
            },
            ExplorerTask::Sort(entry_index) => {
                self.current_sort = entry_index;
                self.pending_request = Some(ExplorerRequest::Refresh);
            },
            ExplorerTask::Filter(search) => {
                self.name_filter = search;
                self.pending_request = Some(ExplorerRequest::Refresh);
            },
        }
    }

    /// Resolves the key in the browser's namespace and runs the bound
    /// command, as `spec_explorer_command` says.
    pub fn handle_command(&mut self, key_code: KeyCode) -> (r: bool)
        ensures
            (ex_obs(*final(self)), r) == spec_explorer_command(ex_obs(*old(self)), key_code),
    {
        if !self.interactive {
            return false;
        }
        match resolve(CommandOwner::Explorer, key_code) {
            Some(id) => match id {
                CommandId::ExplorerSelectPreviousFile => self.select_previous(key_code),
                CommandId::ExplorerSelectNextFile => self.select_next(key_code),
                CommandId::ExplorerGoBack => self.go_back(key_code),
                CommandId::ExplorerOpenSelectedFile => self.open_selected_file(key_code),
                CommandId::ExplorerDeleteCurrentFile => self.prompt_for_delete_current_file(
                    key_code,
                ),
                CommandId::ExplorerMoveCurrentFile => self.prompt_for_move_file(key_code),
                CommandId::ExplorerSortEntries => self.prompt_for_sorting_criterion(key_code),
                CommandId::ExplorerCreateFile => self.prompt_for_new_file(key_code),
                CommandId::ExplorerFilter => self.prompt_for_new_filter(key_code),
                _ => false,
            },
            None => false,
        }
    }

    /// One key fed to the browser, as `spec_explorer_input` says.
    pub fn handle_input(&mut self, key_code: KeyCode) -> (r: bool)
        ensures
            (ex_obs(*final(self)), r) == spec_explorer_input(ex_obs(*old(self)), key_code),
    {
        if self.modal.is_open() {
            let task = self.modal.handle_input(key_code);
            if !self.modal.is_open() {
                self.modal.close();
            }
            match task {
                Some(task) => {
                    self.dispatch_on_task(task);
                },
                None => {},
            }
            true
        } else {
            self.handle_command(key_code)
        }
    }

    /// Hands the pending file-system request, if any, to the caller.
    pub fn take_request(&mut self) -> (r: Option<ExplorerRequest>)
        ensures
            opt_request_view(r) == ex_obs(*old(self)).pending,
            ex_obs(*final(self)) == (ExplorerObs { pending: None, ..ex_obs(*old(self)) }),
    {
        self.pending_request.take()
    }

    /// The browser's namespace in the binding table.
    pub fn get_name(&self) -> (r: &'static str)
        ensures
            r == self.name,
    {
        self.name
    }

    /// The browser's command list, in legend order; the inert preview
    /// variant offers none.
    pub fn get_commands(&self) -> (r: Vec<Command>)
        ensures
            !self.interactive ==> r@.len() == 0,
            self.interactive ==> {
                &&& r@.len() == 9
                &&& r@[0].id == CommandId::ExplorerSelectPreviousFile && r@[0].name@
                    == "Prev file"@
                &&& r@[1].id == CommandId::ExplorerSelectNextFile && r@[1].name@ == "Next file"@
                &&& r@[2].id == CommandId::ExplorerGoBack && r@[2].name@ == "Back"@
                &&& r@[3].id == CommandId::ExplorerOpenSelectedFile && r@[3].name@ == "Open file"@
                &&& r@[4].id == CommandId::ExplorerDeleteCurrentFile && r@[4].name@
                    == "Delete file"@
                &&& r@[5].id == CommandId::ExplorerMoveCurrentFile && r@[5].name@ == "Move file"@
                &&& r@[6].id == CommandId::ExplorerSortEntries && r@[6].name@ == "Sort"@
                &&& r@[7].id == CommandId::ExplorerCreateFile && r@[7].name@ == "New file"@
                &&& r@[8].id == CommandId::ExplorerFilter && r@[8].name@ == "Filter"@
            },
    {
        if !self.interactive {
            Vec::new()
        } else {
            vec![
                Command { id: CommandId::ExplorerSelectPreviousFile, name: "Prev file" },
                Command { id: CommandId::ExplorerSelectNextFile, name: "Next file" },
                Command { id: CommandId::ExplorerGoBack, name: "Back" },
                Command { id: CommandId::ExplorerOpenSelectedFile, name: "Open file" },
                Command { id: CommandId::ExplorerDeleteCurrentFile, name: "Delete file" },
                Command { id: CommandId::ExplorerMoveCurrentFile, name: "Move file" },
                Command { id: CommandId::ExplorerSortEntries, name: "Sort" },
                Command { id: CommandId::ExplorerCreateFile, name: "New file" },
                Command { id: CommandId::ExplorerFilter, name: "Filter" },
            ]
        }
    }

    pub fn focus(&mut self)
        ensures
            ex_obs(*final(self)) == (ExplorerObs {
                is_focused: old(self).is_focused || old(self).interactive,
                ..ex_obs(*old(self))
            }),
    {
        if self.interactive {
            self.is_focused = true;
        }
    }

    pub fn unfocus(&mut self)
        ensures
            ex_obs(*final(self)) == (ExplorerObs { is_focused: false, ..ex_obs(*old(self)) }),
    {
        self.is_focused = false;
    }

    pub fn is_focused(&self) -> (r: bool)
        ensures
            r == (self.is_focused && self.interactive),
    {
        self.is_focused && self.interactive
    }
}

impl Focusable for FileExplorer {
    fn focus(&mut self) {
        FileExplorer::focus(self)
    }

    fn unfocus(&mut self) {
        FileExplorer::unfocus(self)
    }

    fn is_focused(&self) -> bool {
        FileExplorer::is_focused(self)
    }
}

impl Editor for FileExplorer {
    fn confirm_modal(&mut self) {
    }

    fn refuse_modal(&mut self) {
    }
}

} // verus!

verus! {

/// The browser after a sequence of character keys typed into it, first
/// key first.
pub open spec fn spec_apply_chars(o: ExplorerObs, keys: Seq<char>) -> ExplorerObs
    decreases keys.len(),
{
    if keys.len() == 0 {
        o
    } else {
        spec_apply_chars(spec_explorer_input(o, KeyCode::Char(keys[0])).0, keys.drop_first())
    }
}

/// Typing into an open question dialog only ever extends its answer.
pub proof fn lemma_apply_chars_question(
    o: ExplorerObs,
    message: Seq<char>,
    answer: Seq<char>,
    task: QuestionTaskView,
    keys: Seq<char>,
)
    ensures
        spec_apply_chars(
            with_open_modal(o, ModalVariantObs::Question { message, answer, task }),
            keys,
        ) == with_open_modal(
            o,
            ModalVariantObs::Question { message, answer: answer + keys, task },
        ),
    decreases keys.len(),
{
    let o1 = with_open_modal(o, ModalVariantObs::Question { message, answer, task });
    if keys.len() == 0 {
        assert(answer + keys =~= answer);
    } else {
        let k = keys[0];
        assert(spec_explorer_input(o1, KeyCode::Char(k)).0 == with_open_modal(
            o,
            ModalVariantObs::Question { message, answer: answer.push(k), task },
        ));
        lemma_apply_chars_question(o, message, answer.push(k), task, keys.drop_first());
        assert(answer.push(k) + keys.drop_first() =~= answer + keys);
    }
}

/// Law: opening a question dialog over a browser at rest, typing any
/// characters, and pressing Esc leaves the browser exactly as it was —
/// no partial mutation survives a refused dialog.
pub proof fn lemma_question_esc_leaves_state(
    o: ExplorerObs,
    message: Seq<char>,
    answer: Seq<char>,
    task: QuestionTaskView,
    keys: Seq<char>,
)
    requires
        o.modal == spec_closed_modal(),
    ensures
        ({
            let o1 = with_open_modal(o, ModalVariantObs::Question { message, answer, task });
            let o2 = spec_apply_chars(o1, keys);
            let (o3, consumed) = spec_explorer_input(o2, KeyCode::Esc);
            o3 == o && consumed
        }),
{
    lemma_apply_chars_question(o, message, answer, task, keys);
}

/// Law: a confirmation dialog guarding the deletion of the selected
/// entry either yields, on `y`, exactly the request to delete that
/// entry's path, or leaves, on `n`, the browser exactly as it was.
pub proof fn lemma_delete_confirm_refuse(o: ExplorerObs)
    requires
        o.modal == spec_closed_modal(),
        0 <= o.selected_index < o.entries.len(),
    ensures
        ({
            let p = o.entries[o.selected_index].path@;
            let o1 = spec_prompt_delete(o);
            let (refused, cn) = spec_explorer_input(o1, KeyCode::Char('n'));
            let (confirmed, cy) = spec_explorer_input(o1, KeyCode::Char('y'));
            &&& refused == o
            &&& cn
            &&& confirmed == (ExplorerObs {
                pending: Some(ExplorerRequestView::Delete { path: p }),
                ..o
            })
            &&& cy
        }),
{
}

/// Law: a listing installed by `refresh` from rows that do not carry a
/// path cannot show that path — so after a confirmed deletion is
/// carried out and the directory re-read, the deleted entry is gone
/// from the listing.
pub proof fn lemma_refresh_excludes_path(
    raw: Seq<FileEntry>,
    filter: Seq<char>,
    result: Seq<FileEntry>,
    p: Seq<char>,
)
    requires
        result.to_multiset() == spec_filter_entries(raw, filter).to_multiset(),
        forall|i: int| 0 <= i < raw.len() ==> raw[i].path@ != p,
    ensures
        forall|i: int| 0 <= i < result.len() ==> result[i].path@ != p,
{
    assert forall|i: int| 0 <= i < result.len() implies result[i].path@ != p by {
        let e = result[i];
        result.to_multiset_ensures();
        assert(result.contains(e));
        assert(result.to_multiset().count(e) > 0);
        let filtered = spec_filter_entries(raw, filter);
        filtered.to_multiset_ensures();
        assert(filtered.contains(e));
        raw.lemma_filter_contains_rev(
            |x: FileEntry| spec_entry_matches(x, filter),
            e,
        );
        assert(raw.contains(e));
    }
}

} // verus!
