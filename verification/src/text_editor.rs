//! The line-addressed text buffer: a cursor over a sequence of lines,
//! character edits, line splits and merges, and save/dirty tracking.
//!
//! The buffer never touches the file system itself: loading hands the
//! decoded text in, and saving leaves a write request that the caller
//! performs and reports back.

use vstd::prelude::*;

use crate::binding::{resolve, spec_resolve};
use crate::command::{Command, CommandId, CommandOwner};
use crate::editor::Editor;
use crate::keycode::KeyCode;
use crate::text::{
    chars_to_string, join_chars, lemma_split_len, spec_join, spec_last_index, spec_split,
    split_chars, vec_index_mut, views_of,
};
use crate::window::Focusable;

verus! {

/// Where the next edit happens: `char` may equal the line length, which
/// stands for "after the last character".
#[derive(Clone, Copy, PartialEq, Eq, Structural, Debug)]
pub struct CursorPosition {
    pub line: usize,
    pub char: usize,
}

impl CursorPosition {
    pub fn new() -> (r: Self)
        ensures
            r.line == 0 && r.char == 0,
    {
        CursorPosition { line: 0, char: 0 }
    }
}

/// Navigation only, or character-level mutation enabled.
#[derive(Clone, Copy, PartialEq, Eq, Structural, Debug)]
pub enum Mode {
    View,
    Edit,
}

/// File-system work the buffer asks its caller to perform.
#[derive(Debug)]
pub enum EditorRequest {
    Write { path: String, text: String },
}

/// The mathematical value of an `EditorRequest`.
pub enum EditorRequestView {
    Write { path: Seq<char>, text: Seq<char> },
}

pub open spec fn request_view(r: EditorRequest) -> EditorRequestView {
    match r {
        EditorRequest::Write { path, text } => EditorRequestView::Write {
            path: path@,
            text: text@,
        },
    }
}

pub open spec fn opt_request_view(r: Option<EditorRequest>) -> Option<EditorRequestView> {
    match r {
        Some(r) => Some(request_view(r)),
        None => None,
    }
}

/// The editor component.
#[derive(Debug)]
pub struct TextEditor {
    pub cursor_position: CursorPosition,
    pub is_focused: bool,
    pub file: String,
    pub lines: Vec<Vec<char>>,
    pub mode: Mode,
    pub file_saved: bool,
    pub modal_open: bool,
    pub pending_request: Option<EditorRequest>,
}

/// The mathematical value of the editor.
pub struct EditorObs {
    pub lines: Seq<Seq<char>>,
    pub cursor_line: int,
    pub cursor_char: int,
    pub file: Seq<char>,
    pub mode: Mode,
    pub file_saved: bool,
    pub modal_open: bool,
    pub is_focused: bool,
    pub pending: Option<EditorRequestView>,
}

/// The buffer contents as a sequence of character sequences.
pub open spec fn buf(e: TextEditor) -> Seq<Seq<char>> {
    views_of(e.lines@)
}

pub open spec fn ed_obs(e: TextEditor) -> EditorObs {
    EditorObs {
        lines: buf(e),
        cursor_line: e.cursor_position.line as int,
        cursor_char: e.cursor_position.char as int,
        file: e.file@,
        mode: e.mode,
        file_saved: e.file_saved,
        modal_open: e.modal_open,
        is_focused: e.is_focused,
        pending: opt_request_view(e.pending_request),
    }
}

impl TextEditor {
    /// The cursor addresses a line of the buffer and a position within
    /// that line, "one past the end" allowed.
    pub open spec fn wf(self) -> bool {
        if self.lines@.len() == 0 {
            self.cursor_position.line == 0 && self.cursor_position.char == 0
        } else {
            self.cursor_position.line < self.lines@.len() && self.cursor_position.char
                <= buf(self)[self.cursor_position.line as int].len()
        }
    }
}

/// The cursor after moving one character right: clamped at the line end,
/// never wrapping to the next line.
pub open spec fn spec_next_char(lines: Seq<Seq<char>>, line: int, ch: int) -> (int, int) {
    if lines.len() > 0 && ch < lines[line].len() {
        (line, ch + 1)
    } else {
        (line, ch)
    }
}

/// The cursor after moving one character left: clamped at the line
/// start.
pub open spec fn spec_prev_char(lines: Seq<Seq<char>>, line: int, ch: int) -> (int, int) {
    if lines.len() > 0 && ch > 0 {
        (line, ch - 1)
    } else {
        (line, ch)
    }
}

/// The cursor after moving one line down: `char` is clamped to the new
/// line's length, so it never dangles past the end.
pub open spec fn spec_next_line(lines: Seq<Seq<char>>, line: int, ch: int) -> (int, int) {
    if line + 1 < lines.len() {
        (line + 1, if ch <= lines[line + 1].len() {
            ch
        } else {
            lines[line + 1].len() as int
        })
    } else {
        (line, ch)
    }
}

/// The cursor after moving one line up, clamped like `spec_next_line`.
pub open spec fn spec_prev_line(lines: Seq<Seq<char>>, line: int, ch: int) -> (int, int) {
    if line > 0 {
        (line - 1, if ch <= lines[line - 1].len() {
            ch
        } else {
            lines[line - 1].len() as int
        })
    } else {
        (line, ch)
    }
}

/// `o` with another cursor, everything else as it was.
pub open spec fn with_cursor(o: EditorObs, c: (int, int)) -> EditorObs {
    EditorObs { cursor_line: c.0, cursor_char: c.1, ..o }
}

/// The buffer after the outcome of a requested write is known: a
/// successful write clears the dirty state, a failed one leaves it.
pub open spec fn spec_apply_save(o: EditorObs, ok: bool) -> EditorObs {
    EditorObs { file_saved: o.file_saved || ok, ..o }
}

/// Law: a failed write leaves the saved state exactly as it was — a
/// buffer with unsaved edits stays dirty, so the user can retry, and a
/// clean buffer stays clean.
pub proof fn lemma_failed_save_stays_dirty(o: EditorObs)
    ensures
        spec_apply_save(o, false).file_saved == o.file_saved,
{
}

/// One step of the edit engine on an insertable key, on the
/// mathematical value of the editor.  Guards are tried in the order the
/// engine tries them; a key that changes the buffer marks it dirty, and
/// a key whose guards all fail changes nothing at all.
pub open spec fn spec_insert_step(o: EditorObs, key: KeyCode) -> EditorObs {
    let li = o.cursor_line;
    let ci = o.cursor_char;
    let cur = o.lines[li];
    match key {
        KeyCode::Char(c) => EditorObs {
            lines: o.lines.update(li, cur.insert(ci, c)),
            cursor_char: ci + 1,
            file_saved: false,
            ..o
        },
        KeyCode::Backspace => {
            if cur.len() > 0 && ci >= 1 {
                EditorObs {
                    lines: o.lines.update(li, cur.remove(ci - 1)),
                    cursor_char: ci - 1,
                    file_saved: false,
                    ..o
                }
            } else if li > 0 && ci == 0 {
                EditorObs {
                    lines: o.lines.update(li - 1, o.lines[li - 1] + cur).remove(li),
                    cursor_line: li - 1,
                    cursor_char: o.lines[li - 1].len() as int,
                    file_saved: false,
                    ..o
                }
            } else {
                o
            }
        },
        KeyCode::Delete => {
            if cur.len() > 0 && ci < cur.len() {
                EditorObs { lines: o.lines.update(li, cur.remove(ci)), file_saved: false, ..o }
            } else if li + 1 < o.lines.len() && ci == cur.len() {
                EditorObs {
                    lines: o.lines.update(li, cur + o.lines[li + 1]).remove(li + 1),
                    file_saved: false,
                    ..o
                }
            } else {
                o
            }
        },
        KeyCode::Enter => EditorObs {
            lines: o.lines.update(li, cur.take(ci)).insert(li + 1, cur.skip(ci)),
            cursor_line: li + 1,
            cursor_char: 0,
            file_saved: false,
            ..o
        },
        _ => o,
    }
}

/// The editor's window title: the mode tag when focused, the file name,
/// and a trailing `*` while there are unsaved edits.
pub open spec fn spec_title(e: TextEditor) -> Seq<char> {
    (if !e.is_focused {
        Seq::<char>::empty()
    } else if e.mode == Mode::Edit {
        "[Edit] "@
    } else {
        "[View] "@
    }) + e.file@.skip(spec_last_index(e.file@, '/') + 1) + (if !e.file_saved {
        "*"@
    } else {
        Seq::<char>::empty()
    })
}

/// Leaving the editor: edit mode falls back to view mode; view mode with
/// unsaved edits opens the save dialog instead of leaving; view mode
/// with a saved buffer does not consume the key, so it travels on to the
/// surrounding application.
pub open spec fn spec_go_back(o: EditorObs) -> (EditorObs, bool) {
    if o.mode == Mode::View {
        if o.file_saved {
            (o, false)
        } else {
            (EditorObs { modal_open: true, ..o }, true)
        }
    } else {
        (EditorObs { mode: Mode::View, ..o }, true)
    }
}

/// The keys the edit engine consumes: the printable ASCII characters and
/// the three structural editing keys.
pub open spec fn spec_insertable(key: KeyCode) -> bool {
    match key {
        KeyCode::Char(c) => 32 <= c as u32 <= 126,
        KeyCode::Backspace | KeyCode::Delete | KeyCode::Enter => true,
        _ => false,
    }
}

pub open spec fn spec_insertable_key_codes() -> Seq<KeyCode> {
    Seq::new(95, |i: int| KeyCode::Char(((i + 32) as u8) as char)) + seq![
        KeyCode::Backspace,
        KeyCode::Delete,
        KeyCode::Enter,
    ]
}

/// The list of keys the edit engine consumes, as `spec_insertable_key_codes`
/// gives it.
pub fn get_insertable_key_codes() -> (r: Vec<KeyCode>)
    ensures
        r@ == spec_insertable_key_codes(),
{
    let mut r: Vec<KeyCode> = Vec::new();
    let mut u: u32 = 32;
    while u <= 126
        invariant
            32 <= u <= 127,
            r@ == Seq::new((u - 32) as nat, |i: int| KeyCode::Char(((i + 32) as u8) as char)),
        decreases 127 - u,
    {
        r.push(KeyCode::Char((u as u8) as char));
        u = u + 1;
        proof {
            assert(r@ =~= Seq::new(
                (u - 32) as nat,
                |i: int| KeyCode::Char(((i + 32) as u8) as char),
            ));
        }
    }
    r.push(KeyCode::Backspace);
    r.push(KeyCode::Delete);
    r.push(KeyCode::Enter);
    proof {
        assert(r@ =~= spec_insertable_key_codes());
    }
    r
}

/// Whether the edit engine consumes this key.
pub fn is_insertable_key_code(key_code: KeyCode) -> (r: bool)
    ensures
        r == spec_insertable(key_code),
{
    match key_code {
        KeyCode::Char(c) => {
            let u = c as u32;
            32 <= u && u <= 126
        },
        KeyCode::Backspace | KeyCode::Delete | KeyCode::Enter => true,
        _ => false,
    }
}

/// Every key the edit engine consumes is in the list
/// `get_insertable_key_codes` returns, and nothing else is.
pub proof fn lemma_insertable_iff_listed(key: KeyCode)
    ensures
        spec_insertable_key_codes().contains(key) <==> spec_insertable(key),
{
    if spec_insertable(key) {
        match key {
            KeyCode::Char(c) => {
                let i = c as u32 - 32;
                assert(spec_insertable_key_codes()[i as int] == key);
            },
            _ => {
                assert(spec_insertable_key_codes()[97] == KeyCode::Enter);
                assert(spec_insertable_key_codes()[96] == KeyCode::Delete);
                assert(spec_insertable_key_codes()[95] == KeyCode::Backspace);
            },
        }
    }
}

/// One text-editor command applied to the editor's value, and whether
/// it consumed the key.
pub open spec fn spec_command_step(o: EditorObs, id: CommandId) -> (EditorObs, bool) {
    match id {
        CommandId::TextEditorNextChar => (
            with_cursor(o, spec_next_char(o.lines, o.cursor_line, o.cursor_char)),
            true,
        ),
        CommandId::TextEditorPrevChar => (
            with_cursor(o, spec_prev_char(o.lines, o.cursor_line, o.cursor_char)),
            true,
        ),
        CommandId::TextEditorNextLine => (
            with_cursor(o, spec_next_line(o.lines, o.cursor_line, o.cursor_char)),
            true,
        ),
        CommandId::TextEditorPrevLine => (
            with_cursor(o, spec_prev_line(o.lines, o.cursor_line, o.cursor_char)),
            true,
        ),
        CommandId::TextEditorSave => (
            EditorObs {
                pending: Some(
                    EditorRequestView::Write { path: o.file, text: spec_join(o.lines, '\n') },
                ),
                ..o
            },
            true,
        ),
        CommandId::TextEditorInsertMode => (EditorObs { mode: Mode::Edit, ..o }, true),
        CommandId::TextEditorGoBack => spec_go_back(o),
        _ => (o, false),
    }
}

/// The editor's share of command dispatch: the key resolved in the
/// `text_editor` namespace, then the command applied; an unbound key is
/// not consumed.
pub open spec fn spec_handle_command(o: EditorObs, key: KeyCode) -> (EditorObs, bool) {
    match spec_resolve(CommandOwner::TextEditor, key) {
        Some(id) => spec_command_step(o, id),
        None => (o, false),
    }
}

/// One key fed to the editor: nothing while its modal is open, the edit
/// engine on insertable keys in edit mode, command dispatch otherwise.
pub open spec fn spec_editor_input(o: EditorObs, key: KeyCode) -> (EditorObs, bool) {
    if o.modal_open {
        (o, false)
    } else if o.mode == Mode::Edit && spec_insertable(key) {
        (spec_insert_step(o, key), true)
    } else {
        spec_handle_command(o, key)
    }
}

impl TextEditor {
    pub fn new() -> (r: Self)
        ensures
            r.wf(),
            buf(r) == Seq::<Seq<char>>::empty(),
            r.cursor_position == (CursorPosition { line: 0, char: 0 }),
            r.file@ == Seq::<char>::empty(),
            r.mode == Mode::View,
            r.file_saved,
            !r.modal_open,
            !r.is_focused,
            r.pending_request is None,
    {
        let editor = TextEditor {
            cursor_position: CursorPosition { line: 0, char: 0 },
            is_focused: false,
            file: String::new(),
            lines: Vec::new(),
            mode: Mode::View,
            file_saved: true,
            modal_open: false,
            pending_request: None,
        };
        proof {
            assert(buf(editor) =~= Seq::<Seq<char>>::empty());
        }
        editor
    }

    pub fn next_char(&mut self)
        requires
            old(self).wf(),
        ensures
            final(self).wf(),
            ed_obs(*final(self)) == with_cursor(
                ed_obs(*old(self)),
                spec_next_char(
                    buf(*old(self)),
                    old(self).cursor_position.line as int,
                    old(self).cursor_position.char as int,
                ),
            ),
    {
        if self.lines.len() > 0 {
            let line = &self.lines[self.cursor_position.line];
            if self.cursor_position.char < line.len() {
                self.cursor_position.char = self.cursor_position.char + 1;
            }
        }
    }

    pub fn prev_char(&mut self)
        requires
            old(self).wf(),
        ensures
            final(self).wf(),
            ed_obs(*final(self)) == with_cursor(
                ed_obs(*old(self)),
                spec_prev_char(
                    buf(*old(self)),
                    old(self).cursor_position.line as int,
                    old(self).cursor_position.char as int,
                ),
            ),
    {
        if self.lines.len() > 0 {
            if self.cursor_position.char > 0 {
                self.cursor_position.char = self.cursor_position.char - 1;
            }
        }
    }

    pub fn next_line(&mut self)
        requires
            old(self).wf(),
        ensures
            final(self).wf(),
            ed_obs(*final(self)) == with_cursor(
                ed_obs(*old(self)),
                spec_next_line(
                    buf(*old(self)),
                    old(self).cursor_position.line as int,
                    old(self).cursor_position.char as int,
                ),
            ),
    {
        if self.cursor_position.line < self.lines.len() && self.cursor_position.line + 1
            < self.lines.len() {
            self.cursor_position.line = self.cursor_position.line + 1;
            let line = &self.lines[self.cursor_position.line];
            if self.cursor_position.char > line.len() {
                self.cursor_position.char = line.len();
            }
        }
    }

    pub fn prev_line(&mut self)
        requires
            old(self).wf(),
        ensures
            final(self).wf(),
            ed_obs(*final(self)) == with_cursor(
                ed_obs(*old(self)),
                spec_prev_line(
                    buf(*old(self)),
                    old(self).cursor_position.line as int,
                    old(self).cursor_position.char as int,
                ),
            ),
    {
        if self.cursor_position.line > 0 {
            self.cursor_position.line = self.cursor_position.line - 1;
            let line = &self.lines[self.cursor_position.line];
            if self.cursor_position.char > line.len() {
                self.cursor_position.char = line.len();
            }
        }
    }

    /// Applies one insertable key to the buffer, as `spec_insert_step`
    /// says: characters are inserted at the cursor, backspace and delete
    /// remove a character or merge adjacent lines at a line boundary,
    /// Enter splits the current line at the cursor; every change marks
    /// the buffer dirty, and a key that changes nothing leaves the dirty
    /// state alone.
    pub fn insert(&mut self, key_code: KeyCode)
        requires
            old(self).wf(),
            old(self).lines@.len() > 0,
        ensures
            final(self).wf(),
            ed_obs(*final(self)) == spec_insert_step(ed_obs(*old(self)), key_code),
    {
        let li = self.cursor_position.line;
        let ci = self.cursor_position.char;
        let n_lines = self.lines.len();
        let cur_len = self.lines[li].len();
        match key_code {
            KeyCode::Char(c) => {
                self.file_saved = false;
                let line = vec_index_mut(&mut self.lines, li);
                line.insert(ci, c);
                let new_len = line.len();
                self.cursor_position.char = ci + 1;
                proof {
                    assert(buf(*self) =~= spec_insert_step(ed_obs(*old(self)), key_code).lines);
                }
            },
            KeyCode::Backspace if cur_len > 0 && ci >= 1 => {
                self.file_saved = false;
                let line = vec_index_mut(&mut self.lines, li);
                line.remove(ci - 1);
                self.cursor_position.char = ci - 1;
                proof {
                    assert(buf(*self) =~= spec_insert_step(ed_obs(*old(self)), key_code).lines);
                }
            },
            KeyCode::Delete if cur_len > 0 && ci < cur_len => {
                self.file_saved = false;
                let line = vec_index_mut(&mut self.lines, li);
                line.remove(ci);
                proof {
                    assert(buf(*self) =~= spec_insert_step(ed_obs(*old(self)), key_code).lines);
                }
            },
            KeyCode::Backspace if li > 0 && ci == 0 => {
                self.file_saved = false;
                let prev_len = self.lines[li - 1].len();
                let mut tail = self.lines.remove(li);
                let prev = vec_index_mut(&mut self.lines, li - 1);
                prev.append(&mut tail);
                self.cursor_position.line = li - 1;
                self.cursor_position.char = prev_len;
                proof {
                    assert(buf(*self) =~= spec_insert_step(ed_obs(*old(self)), key_code).lines);
                }
            },
            KeyCode::Delete if li + 1 < n_lines && ci == cur_len => {
                self.file_saved = false;
                let mut tail = self.lines.remove(li + 1);
                let line = vec_index_mut(&mut self.lines, li);
                line.append(&mut tail);
                proof {
                    assert(buf(*self) =~= spec_insert_step(ed_obs(*old(self)), key_code).lines);
                }
            },
            KeyCode::Enter => {
                self.file_saved = false;
                let ghost cur0 = buf(*old(self))[li as int];
                let line = vec_index_mut(&mut self.lines, li);
                let mut second: Vec<char> = Vec::new();
                let mut j: usize = ci;
                while j < line.len()
                    invariant
                        ci <= j <= line@.len(),
                        line@ == cur0,
                        second@ == line@.subrange(ci as int, j as int),
                    decreases line@.len() - j,
                {
                    second.push(line[j]);
                    j = j + 1;
                    proof {
                        assert(second@ =~= line@.subrange(ci as int, j as int));
                    }
                }
                line.truncate(ci);
                proof {
                    assert(second@ =~= cur0.skip(ci as int));
                    assert(line@ =~= cur0.take(ci as int));
                }
                self.lines.insert(li + 1, second);
                self.cursor_position.line = li + 1;
                self.cursor_position.char = 0;
                proof {
                    assert(buf(*self) =~= spec_insert_step(ed_obs(*old(self)), key_code).lines);
                }
            },
            _ => {},
        }
    }

    /// The buffer rejoined with newlines, as it would be written out.
    pub fn get_text(&self) -> (r: String)
        ensures
            r@ == spec_join(buf(*self), '\n'),
    {
        let joined = join_chars(&self.lines, '\n');
        chars_to_string(&joined)
    }

    /// Leaves a request to write the whole buffer to the bound path; the
    /// dirty flag is cleared only when `apply_save_result` reports that
    /// the write succeeded.
    pub fn save(&mut self)
        ensures
            ed_obs(*final(self)) == (EditorObs {
                pending: Some(
                    EditorRequestView::Write {
                        path: old(self).file@,
                        text: spec_join(buf(*old(self)), '\n'),
                    },
                ),
                ..ed_obs(*old(self))
            }),
    {
        let text = self.get_text();
        let path = self.file.clone();
        self.pending_request = Some(EditorRequest::Write { path, text });
    }

    /// Records whether the write that `save` requested went through: on
    /// success the buffer counts as saved, on failure it stays dirty.
    pub fn apply_save_result(&mut self, ok: bool)
        requires
            old(self).wf(),
        ensures
            final(self).wf(),
            ed_obs(*final(self)) == spec_apply_save(ed_obs(*old(self)), ok),
    {
        if ok {
            self.file_saved = true;
        }
    }

    /// Hands the pending file-system request, if any, to the caller.
    pub fn take_request(&mut self) -> (r: Option<EditorRequest>)
        requires
            old(self).wf(),
        ensures
            final(self).wf(),
            opt_request_view(r) == ed_obs(*old(self)).pending,
            ed_obs(*final(self)) == (EditorObs { pending: None, ..ed_obs(*old(self)) }),
    {
        self.pending_request.take()
    }

    /// Replaces the buffer with the decoded text of the file at `path`:
    /// the text divided at newlines, the cursor at the origin, and the
    /// buffer counting as saved.
    pub fn set_path(&mut self, path: String, text: &str)
        ensures
            final(self).wf(),
            ed_obs(*final(self)) == (EditorObs {
                lines: spec_split(text@, '\n'),
                cursor_line: 0,
                cursor_char: 0,
                file: path@,
                file_saved: true,
                ..ed_obs(*old(self))
            }),
            final(self).lines@.len() > 0,
    {
        self.file = path;
        self.lines = split_chars(text, '\n');
        self.cursor_position = CursorPosition::new();
        self.file_saved = true;
        proof {
            lemma_split_len(text@, '\n');
        }
    }

    /// The last component of the bound path: everything after the final
    /// path separator.
    pub fn get_file_name<'a>(&'a self) -> (r: &'a str)
        ensures
            r@ == self.file@.skip(spec_last_index(self.file@, '/') + 1),
    {
        let n = self.file.as_str().unicode_len();
        let mut i: usize = n;
        proof {
            assert(self.file@.take(n as int) =~= self.file@);
        }
        loop
            invariant
                i <= n,
                n == self.file@.len(),
                spec_last_index(self.file@, '/') == spec_last_index(
                    self.file@.take(i as int),
                    '/',
                ),
            decreases i,
        {
            if i == 0 {
                let r = self.file.as_str().substring_char(0, n);
                proof {
                    assert(r@ =~= self.file@.skip(0));
                }
                return r;
            }
            proof {
                assert(self.file@.take(i as int).drop_last() =~= self.file@.take(i - 1));
                assert(self.file@.take(i as int).last() == self.file@[i - 1]);
            }
            if self.file.as_str().get_char(i - 1) == '/' {
                let r = self.file.as_str().substring_char(i, n);
                proof {
                    assert(r@ =~= self.file@.skip(i as int));
                }
                return r;
            }
            i = i - 1;
        }
    }

    /// The window title: the mode tag when focused, the file name, and a
    /// trailing `*` while there are unsaved edits.
    pub fn get_title(&self) -> (r: String)
        ensures
            r@ == spec_title(*self),
    {
        let mut r = String::new();
        if self.is_focused {
            match self.mode {
                Mode::Edit => r.append("[Edit] "),
                Mode::View => r.append("[View] "),
            }
        }
        r.append(self.get_file_name());
        if !self.file_saved {
            r.append("*");
        }
        proof {
            assert(r@ =~= spec_title(*self));
        }
        r
    }

    /// Leaves the editable state: from edit mode back to view mode; out
    /// of view mode with unsaved edits, a confirmation modal opens
    /// instead and the transition is deferred to its resolution.  The
    /// result says whether the key was consumed.
    pub fn go_back(&mut self, _key_code: KeyCode) -> (r: bool)
        requires
            old(self).wf(),
        ensures
            final(self).wf(),
            (ed_obs(*final(self)), r) == spec_go_back(ed_obs(*old(self))),
    {
        if matches!(self.mode, Mode::View) {
            if self.file_saved {
                false
            } else {
                self.modal_open = true;
                true
            }
        } else {
            self.mode = Mode::View;
            true
        }
    }

    /// Confirms the save dialog: the dialog closes and the save is
    /// requested.
    pub fn confirm_modal(&mut self)
        ensures
            ed_obs(*final(self)) == (EditorObs {
                modal_open: false,
                pending: Some(
                    EditorRequestView::Write {
                        path: old(self).file@,
                        text: spec_join(buf(*old(self)), '\n'),
                    },
                ),
                ..ed_obs(*old(self))
            }),
    {
        self.modal_open = false;
        self.save();
    }

    /// Refuses the save dialog: the dialog closes and nothing else
    /// changes.
    pub fn refuse_modal(&mut self)
        ensures
            ed_obs(*final(self)) == (EditorObs { modal_open: false, ..ed_obs(*old(self)) }),
    {
        self.modal_open = false;
    }

    /// Enables character-level editing.
    pub fn edit_mode(&mut self)
        requires
            old(self).wf(),
        ensures
            final(self).wf(),
            ed_obs(*final(self)) == (EditorObs { mode: Mode::Edit, ..ed_obs(*old(self)) }),
    {
        self.mode = Mode::Edit;
    }

    /// Resolves the key in the editor's namespace and runs the bound
    /// command, as `spec_handle_command` says.
    pub fn handle_command(&mut self, key_code: KeyCode) -> (r: bool)
        requires
            old(self).wf(),
        ensures
            final(self).wf(),
            (ed_obs(*final(self)), r) == spec_handle_command(ed_obs(*old(self)), key_code),
    {
        match resolve(CommandOwner::TextEditor, key_code) {
            Some(id) => match id {
                CommandId::TextEditorNextChar => {
                    self.next_char();
                    true
                },
                CommandId::TextEditorPrevChar => {
                    self.prev_char();
                    true
                },
                CommandId::TextEditorNextLine => {
                    self.next_line();
                    true
                },
                CommandId::TextEditorPrevLine => {
                    self.prev_line();
                    true
                },
                CommandId::TextEditorSave => {
                    self.save();
                    true
                },
                CommandId::TextEditorInsertMode => {
                    self.edit_mode();
                    true
                },
                CommandId::TextEditorGoBack => self.go_back(key_code),
                _ => false,
            },
            None => false,
        }
    }

    /// One key fed to the editor, as `spec_editor_input` says; the
    /// result tells whether the editor consumed it.
    pub fn handle_input(&mut self, key_code: KeyCode) -> (r: bool)
        requires
            old(self).wf(),
            old(self).mode == Mode::Edit && !old(self).modal_open ==> old(self).lines@.len() > 0,
        ensures
            final(self).wf(),
            (ed_obs(*final(self)), r) == spec_editor_input(ed_obs(*old(self)), key_code),
    {
        if self.modal_open {
            false
        } else {
            let insertable = is_insertable_key_code(key_code);
            match self.mode {
                Mode::Edit if insertable => {
                    self.insert(key_code);
                    true
                },
                _ => self.handle_command(key_code),
            }
        }
    }

    /// The editor's namespace in the binding table.
    pub fn get_name(&self) -> (r: &'static str)
        ensures
            r@ == "text_editor"@,
    {
        "text_editor"
    }

    /// The editor's command list, in legend order.
    pub fn get_commands(&self) -> (r: Vec<Command>)
        ensures
            r@.len() == 7,
            r@[0].id == CommandId::TextEditorNextChar && r@[0].name@ == "Next char"@,
            r@[1].id == CommandId::TextEditorPrevChar && r@[1].name@ == "Prev char"@,
            r@[2].id == CommandId::TextEditorNextLine && r@[2].name@ == "Next line"@,
            r@[3].id == CommandId::TextEditorPrevLine && r@[3].name@ == "Prev line"@,
            r@[4].id == CommandId::TextEditorSave && r@[4].name@ == "Save"@,
            r@[5].id == CommandId::TextEditorInsertMode && r@[5].name@ == "Edit"@,
            r@[6].id == CommandId::TextEditorGoBack && r@[6].name@ == "Go back"@,
    {
        vec![
            Command { id: CommandId::TextEditorNextChar, name: "Next char" },
            Command { id: CommandId::TextEditorPrevChar, name: "Prev char" },
            Command { id: CommandId::TextEditorNextLine, name: "Next line" },
            Command { id: CommandId::TextEditorPrevLine, name: "Prev line" },
            Command { id: CommandId::TextEditorSave, name: "Save" },
            Command { id: CommandId::TextEditorInsertMode, name: "Edit" },
            Command { id: CommandId::TextEditorGoBack, name: "Go back" },
        ]
    }

    pub fn focus(&mut self)
        ensures
            ed_obs(*final(self)) == (EditorObs { is_focused: true, ..ed_obs(*old(self)) }),
    {
        self.is_focused = true;
    }

    pub fn unfocus(&mut self)
        ensures
            ed_obs(*final(self)) == (EditorObs { is_focused: false, ..ed_obs(*old(self)) }),
    {
        self.is_focused = false;
    }

    pub fn is_focused(&self) -> (r: bool)
        ensures
            r == self.is_focused,
    {
        self.is_focused
    }
}

/// One vertical cursor move: down a line when `dir` says so, up a line
/// otherwise.
pub open spec fn spec_line_move(lines: Seq<Seq<char>>, c: (int, int), dir: bool) -> (int, int) {
    if dir {
        spec_next_line(lines, c.0, c.1)
    } else {
        spec_prev_line(lines, c.0, c.1)
    }
}

/// The cursor after a whole sequence of vertical moves, first move
/// first.
pub open spec fn spec_line_moves(lines: Seq<Seq<char>>, c: (int, int), moves: Seq<bool>) -> (
    int,
    int,
)
    decreases moves.len(),
{
    if moves.len() == 0 {
        c
    } else {
        spec_line_moves(lines, spec_line_move(lines, c, moves[0]), moves.drop_first())
    }
}

/// Law: after any sequence of `next_line` / `prev_line` moves from a
/// valid cursor, the cursor still addresses a line of the buffer and a
/// position no further than that line's end — so `cursor.char` never
/// dangles past the current line.  Since this holds of every sequence,
/// it holds after every single call along the way.
pub proof fn lemma_line_moves_keep_cursor(lines: Seq<Seq<char>>, c: (int, int), moves: Seq<bool>)
    requires
        lines.len() > 0,
        0 <= c.0 < lines.len(),
        0 <= c.1 <= lines[c.0].len(),
    ensures
        ({
            let c2 = spec_line_moves(lines, c, moves);
            0 <= c2.0 < lines.len() && 0 <= c2.1 <= lines[c2.0].len()
        }),
    decreases moves.len(),
{
    if moves.len() > 0 {
        let c1 = spec_line_move(lines, c, moves[0]);
        lemma_line_moves_keep_cursor(lines, c1, moves.drop_first());
    }
}

/// Law: inserting a character and immediately deleting backward
/// restores the prior buffer contents and cursor position.
pub proof fn lemma_insert_then_backspace_round_trip(o: EditorObs, c: char)
    requires
        0 <= o.cursor_line < o.lines.len(),
        0 <= o.cursor_char <= o.lines[o.cursor_line].len(),
    ensures
        ({
            let o1 = spec_insert_step(o, KeyCode::Char(c));
            let o2 = spec_insert_step(o1, KeyCode::Backspace);
            o2.lines == o.lines && o2.cursor_line == o.cursor_line && o2.cursor_char
                == o.cursor_char
        }),
{
    let li = o.cursor_line;
    let ci = o.cursor_char;
    let cur = o.lines[li];
    let o1 = spec_insert_step(o, KeyCode::Char(c));
    assert(o1.lines[li] == cur.insert(ci, c));
    assert(cur.insert(ci, c).len() > 0);
    let o2 = spec_insert_step(o1, KeyCode::Backspace);
    assert(cur.insert(ci, c).remove(ci) =~= cur);
    assert(o2.lines =~= o.lines);
}

impl Focusable for TextEditor {
    fn focus(&mut self) {
        TextEditor::focus(self)
    }

    fn unfocus(&mut self) {
        TextEditor::unfocus(self)
    }

    fn is_focused(&self) -> bool {
        TextEditor::is_focused(self)
    }
}

impl Editor for TextEditor {
    fn confirm_modal(&mut self) {
        TextEditor::confirm_modal(self)
    }

    fn refuse_modal(&mut self) {
        TextEditor::refuse_modal(self)
    }
}

} // verus!
