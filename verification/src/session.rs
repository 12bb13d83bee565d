//! The dialog lifecycle coordinator.
//!
//! One [`DialogSession`] owns everything the modal file browser mutates:
//! which windows are visible, whether the dialog and its new-folder
//! sub-dialog are open, the column stack, the current selection, and the
//! new-folder text field.  The host performs the window, input and
//! filesystem work and drives these transitions with plain values.
use crate::columns::{ColumnBody, Columns};
use crate::file::{CurrentFile, File};
use crate::states::{SeekerFileDialogFnState, SeekerNewFolderState, SeekerState};
use crate::text::{append_range, string_of_chars};
use crate::textbuf::{ImeEvent, KeyPress, TextBuffer, Toast};
use vstd::prelude::*;

verus! {

/// The three buttons of the file dialog.
#[derive(Clone, Copy, Debug, PartialEq, Eq, Structural)]
pub enum FileDialogAction {
    Open,
    Cancel,
    NewFolder,
}

/// The two buttons of the new-folder sub-dialog.
#[derive(Clone, Copy, Debug, PartialEq, Eq, Structural)]
pub enum NewFolderAction {
    Cancel,
    Create,
}

/// Whitespace for the purposes of trimming a folder name.
pub open spec fn is_space(c: char) -> bool {
    c == ' ' || c == '\t' || c == '\n' || c == '\r'
}

/// `s` without leading whitespace.
pub open spec fn trim_front(s: Seq<char>) -> Seq<char>
    decreases s.len(),
{
    if s.len() > 0 && is_space(s[0]) {
        trim_front(s.drop_first())
    } else {
        s
    }
}

/// `s` without trailing whitespace.
pub open spec fn trim_back(s: Seq<char>) -> Seq<char>
    decreases s.len(),
{
    if s.len() > 0 && is_space(s.last()) {
        trim_back(s.drop_last())
    } else {
        s
    }
}

/// `s` without leading or trailing whitespace.
pub open spec fn trimmed(s: Seq<char>) -> Seq<char> {
    trim_back(trim_front(s))
}

/// A child path under a directory: `dir/name`.  A name that is already
/// absolute replaces the directory; a directory already ending in the
/// separator gets no second one.
pub open spec fn joined_path(dir: Seq<char>, name: Seq<char>) -> Seq<char> {
    if name.len() > 0 && name[0] == '/' {
        name
    } else if dir.len() > 0 && dir.last() == '/' {
        dir + name
    } else {
        dir + seq!['/'] + name
    }
}

fn is_space_char(c: char) -> (r: bool)
    ensures
        r == is_space(c),
{
    c == ' ' || c == '\t' || c == '\n' || c == '\r'
}

/// The characters of `v` without leading or trailing whitespace.
pub fn trimmed_chars(v: &Vec<char>) -> (r: Vec<char>)
    ensures
        r@ == trimmed(v@),
{
    let n = v.len();
    let mut i: usize = 0;
    proof {
        assert(v@.skip(0) =~= v@);
    }
    while i < n && is_space_char(v[i])
        invariant
            i <= n,
            n == v@.len(),
            trim_front(v@) == trim_front(v@.skip(i as int)),
        decreases n - i,
    {
        proof {
            assert(v@.skip(i as int)[0] == v@[i as int]);
            assert(v@.skip(i as int).drop_first() =~= v@.skip(i + 1));
        }
        i = i + 1;
    }
    proof {
        if i == n {
            assert(v@.skip(i as int) =~= Seq::<char>::empty());
        }
        assert(trim_front(v@) == v@.skip(i as int));
    }
    let t = Ghost(v@.skip(i as int));
    let mut j: usize = n;
    proof {
        assert(t@.take(n - i) =~= t@);
    }
    while j > i && is_space_char(v[j - 1])
        invariant
            i <= j <= n,
            n == v@.len(),
            t@ == v@.skip(i as int),
            trim_back(t@) == trim_back(t@.take(j - i)),
        decreases j,
    {
        proof {
            assert(t@.take(j - i).last() == v@[j - 1]);
            assert(t@.take(j - i).drop_last() =~= t@.take(j - 1 - i));
        }
        j = j - 1;
    }
    proof {
        if j > i {
            assert(t@.take(j - i).last() == v@[j - 1]);
        }
        assert(trim_back(t@) == t@.take(j - i));
        assert(t@.take(j - i) =~= v@.subrange(i as int, j as int));
    }
    let mut r: Vec<char> = Vec::new();
    append_range(&mut r, v, i, j);
    r
}

/// The target path for creating `name` under `dir`.
pub fn join_path(dir: &str, name: &Vec<char>) -> (r: String)
    ensures
        r@ == joined_path(dir@, name@),
{
    proof {
        reveal_strlit("/");
        assert("/"@ =~= seq!['/']);
    }
    let name_abs = name.len() > 0 && name[0] == '/';
    if name_abs {
        return string_of_chars(name);
    }
    let mut out = dir.to_owned();
    let dn = dir.unicode_len();
    if !(dn > 0 && dir.get_char(dn - 1) == '/') {
        out.append("/");
    }
    let tail = string_of_chars(name);
    out.append(tail.as_str());
    out
}

/// All the state the modal file dialog owns.
#[derive(Debug)]
pub struct DialogSession {
    /// The host application's top-level mode.
    pub host_mode: SeekerState,
    /// Whether the file dialog is open.
    pub dialog_state: SeekerFileDialogFnState,
    /// Whether the new-folder sub-dialog is open.
    pub new_folder_state: SeekerNewFolderState,
    /// Visibility of the host window (hidden while the dialog is up).
    pub host_window_visible: bool,
    /// Visibility of the dialog window (hidden while the sub-dialog is up).
    pub dialog_window_visible: bool,
    /// Whether the input method is engaged for the new-folder field.
    pub ime_enabled: bool,
    /// The open columns, one per depth.
    pub columns: Columns,
    /// The most recently clicked row.
    pub current_file: CurrentFile,
    /// The new-folder text field.
    pub input: TextBuffer,
}

impl DialogSession {
    pub open spec fn wf(self) -> bool {
        self.columns.wf() && self.input.wf()
    }

    /// A fresh host: home mode, no dialog, host window shown.
    pub fn new() -> (r: Self)
        ensures
            r.wf(),
            r.host_mode == SeekerState::Home,
            r.dialog_state == SeekerFileDialogFnState::Closed,
            r.new_folder_state == SeekerNewFolderState::Closed,
            r.host_window_visible,
            !r.dialog_window_visible,
            r.columns.depth() == 0,
            r.current_file.file is None,
            r.input.chars@.len() == 0,
            !r.ime_enabled,
    {
        DialogSession {
            host_mode: SeekerState::Home,
            dialog_state: SeekerFileDialogFnState::Closed,
            new_folder_state: SeekerNewFolderState::Closed,
            host_window_visible: true,
            dialog_window_visible: false,
            ime_enabled: false,
            columns: Columns::empty(),
            current_file: CurrentFile::default(),
            input: TextBuffer::new(),
        }
    }

    /// Opening the dialog hides the host window, clears the selection, and
    /// shows a single column at depth 1 listing the starting directory
    /// (the user's home), whose rows the host hands over.
    pub fn open_dialog(&mut self, initial_rows: Vec<File>)
        requires
            old(self).wf(),
            old(self).dialog_state == SeekerFileDialogFnState::Closed,
        ensures
            final(self).wf(),
            final(self).dialog_state == SeekerFileDialogFnState::Open,
            final(self).new_folder_state == SeekerNewFolderState::Closed,
            !final(self).host_window_visible,
            final(self).dialog_window_visible,
            final(self).columns.depth() == 1,
            final(self).columns.columns@[0].level.level == 1,
            final(self).columns.columns@[0].body == (ColumnBody::Listing { rows: initial_rows }),
            final(self).current_file.file is None,
            final(self).host_mode == old(self).host_mode,
            final(self).input.chars@.len() == 0,
    {
        self.host_window_visible = false;
        self.dialog_window_visible = true;
        self.dialog_state = SeekerFileDialogFnState::Open;
        self.new_folder_state = SeekerNewFolderState::Closed;
        self.columns = Columns::open_root(initial_rows);
        self.current_file = CurrentFile::default();
        self.input = TextBuffer::new();
    }

    /// A click on the row `sel`: records it as the current selection,
    /// prunes every column deeper than the row's own, and opens the
    /// replacement column at the next depth — a listing of `children` for a
    /// directory row, a detail panel for a file row.
    pub fn click_row(&mut self, sel: File, children: Vec<File>)
        requires
            old(self).wf(),
            old(self).dialog_state == SeekerFileDialogFnState::Open,
            1 <= sel.level.level,
            sel.level.level <= old(self).columns.depth(),
            sel.level.level < usize::MAX,
        ensures
            final(self).wf(),
            final(self).columns.depth() == sel.level.level + 1,
            forall|i: int|
                0 <= i < sel.level.level ==> final(self).columns.columns@[i] == old(
                    self,
                ).columns.columns@[i],
            final(self).columns.columns@.last().level.level == sel.level.level + 1,
            sel.is_dir ==> final(self).columns.columns@.last().body == (ColumnBody::Listing {
                rows: children,
            }),
            !sel.is_dir ==> (final(self).columns.columns@.last().body matches ColumnBody::Detail {
                file,
            } && file.same_entry(sel)),
            final(self).current_file.file == Some(sel),
            final(self).dialog_state == old(self).dialog_state,
            final(self).new_folder_state == old(self).new_folder_state,
            final(self).host_mode == old(self).host_mode,
            final(self).host_window_visible == old(self).host_window_visible,
            final(self).dialog_window_visible == old(self).dialog_window_visible,
            final(self).input == old(self).input,
    {
        self.columns.click(&sel, children);
        self.current_file = CurrentFile { file: Some(sel) };
    }

    /// One of the dialog's own buttons.  `Open` commits: the host window
    /// returns, the host advances to edit mode, and the dialog tears down.
    /// `Cancel` tears the dialog down without advancing the host.
    /// `NewFolder` opens the sub-dialog: the dialog window hides and a
    /// fresh text field appears.
    pub fn dialog_action(&mut self, action: FileDialogAction)
        requires
            old(self).wf(),
            old(self).dialog_state == SeekerFileDialogFnState::Open,
        ensures
            final(self).wf(),
            final(self).current_file == old(self).current_file,
            final(self).host_mode == (if action == FileDialogAction::Open {
                SeekerState::Edit
            } else {
                old(self).host_mode
            }),
            action == FileDialogAction::Open || action == FileDialogAction::Cancel ==> {
                &&& final(self).dialog_state == SeekerFileDialogFnState::Closed
                &&& final(self).host_window_visible
                &&& !final(self).dialog_window_visible
                &&& final(self).columns.depth() == 0
                &&& final(self).new_folder_state == old(self).new_folder_state
            },
            action == FileDialogAction::NewFolder ==> {
                &&& final(self).new_folder_state == SeekerNewFolderState::Open
                &&& !final(self).dialog_window_visible
                &&& final(self).input.chars@.len() == 0
                &&& final(self).dialog_state == old(self).dialog_state
                &&& final(self).columns == old(self).columns
                &&& final(self).host_window_visible == old(self).host_window_visible
            },
    {
        match action {
            FileDialogAction::Open => {
                self.host_window_visible = true;
                self.host_mode = SeekerState::Edit;
                self.dialog_state = SeekerFileDialogFnState::Closed;
                self.dialog_window_visible = false;
                self.columns.close_all();
            },
            FileDialogAction::Cancel => {
                self.host_window_visible = true;
                self.dialog_state = SeekerFileDialogFnState::Closed;
                self.dialog_window_visible = false;
                self.columns.close_all();
            },
            FileDialogAction::NewFolder => {
                self.new_folder_state = SeekerNewFolderState::Open;
                self.dialog_window_visible = false;
                self.input = TextBuffer::new();
            },
        }
    }

    /// Whether `Create` would have a directory to work in: the current
    /// selection is a directory and the trimmed field is non-empty.
    pub open spec fn create_applies(self) -> bool {
        match self.current_file.file {
            Some(f) => f.is_dir && trimmed(self.input.chars@).len() > 0,
            None => false,
        }
    }

    /// One of the sub-dialog's buttons.  Both close the sub-dialog and
    /// bring the dialog window back; the selection is untouched either way.
    /// `Create` on a selected directory also yields the path of the folder
    /// to create there, named by the trimmed field: the host performs the
    /// actual creation, and a failure there is logged and swallowed — the
    /// sub-dialog has already closed.
    pub fn new_folder_action(&mut self, action: NewFolderAction) -> (target: Option<String>)
        requires
            old(self).wf(),
            old(self).new_folder_state == SeekerNewFolderState::Open,
        ensures
            final(self).wf(),
            final(self).new_folder_state == SeekerNewFolderState::Closed,
            final(self).dialog_window_visible,
            final(self).current_file == old(self).current_file,
            final(self).host_mode == old(self).host_mode,
            final(self).dialog_state == old(self).dialog_state,
            final(self).columns == old(self).columns,
            final(self).input.chars@.len() == 0,
            action == NewFolderAction::Cancel ==> target is None,
            action == NewFolderAction::Create ==> match old(self).current_file.file {
                Some(f) => {
                    if f.is_dir && trimmed(old(self).input.chars@).len() > 0 {
                        target matches Some(p) && p@ == joined_path(
                            f.path@,
                            trimmed(old(self).input.chars@),
                        )
                    } else {
                        target is None
                    }
                },
                None => target is None,
            },
    {
        self.dialog_window_visible = true;
        self.new_folder_state = SeekerNewFolderState::Closed;
        let target: Option<String> = match action {
            NewFolderAction::Cancel => None,
            NewFolderAction::Create => {
                match &self.current_file.file {
                    Some(f) => {
                        if f.is_dir {
                            let name = trimmed_chars(&self.input.chars);
                            if name.len() > 0 {
                                Some(join_path(f.path.as_str(), &name))
                            } else {
                                None
                            }
                        } else {
                            None
                        }
                    },
                    None => None,
                }
            },
        };
        self.input = TextBuffer::new();
        target
    }

    /// A key event while the sub-dialog is open, fed to the text field.
    pub fn new_folder_key(&mut self, key: &KeyPress) -> (toast: Option<Toast>)
        requires
            old(self).wf(),
            old(self).new_folder_state == SeekerNewFolderState::Open,
        ensures
            final(self).wf(),
            match key {
                KeyPress::Enter => {
                    if old(self).input.chars@.len() == 0 {
                        final(self).input == old(self).input && toast is None
                    } else {
                        final(self).input.chars@.len() == 0 && (toast matches Some(b)
                            && b.text@ == old(self).input.chars@)
                    }
                },
                KeyPress::Backspace => {
                    final(self).input.chars@ == crate::textbuf::after_backspace(
                        old(self).input.chars@,
                    ) && toast is None
                },
                KeyPress::Text(t) => {
                    final(self).input.chars@ == crate::textbuf::key_appended(
                        old(self).input.chars@,
                        t@,
                    ) && toast is None
                },
            },
            final(self).current_file == old(self).current_file,
            final(self).columns == old(self).columns,
            final(self).dialog_state == old(self).dialog_state,
            final(self).new_folder_state == old(self).new_folder_state,
            final(self).host_mode == old(self).host_mode,
            final(self).host_window_visible == old(self).host_window_visible,
            final(self).dialog_window_visible == old(self).dialog_window_visible,
    {
        self.input.handle_key(key)
    }

    /// A left mouse click in the sub-dialog toggles the input method on or
    /// off; the host also moves the candidate window to the click point.
    pub fn toggle_ime(&mut self)
        requires
            old(self).wf(),
            old(self).new_folder_state == SeekerNewFolderState::Open,
        ensures
            final(self).wf(),
            final(self).ime_enabled == !old(self).ime_enabled,
            final(self).input == old(self).input,
            final(self).current_file == old(self).current_file,
            final(self).columns == old(self).columns,
            final(self).dialog_state == old(self).dialog_state,
            final(self).new_folder_state == old(self).new_folder_state,
            final(self).host_mode == old(self).host_mode,
            final(self).host_window_visible == old(self).host_window_visible,
            final(self).dialog_window_visible == old(self).dialog_window_visible,
    {
        self.ime_enabled = !self.ime_enabled;
    }

    /// An input-method event while the sub-dialog is open.
    pub fn new_folder_ime(&mut self, ev: &ImeEvent)
        requires
            old(self).wf(),
            old(self).new_folder_state == SeekerNewFolderState::Open,
        ensures
            final(self).wf(),
            match ev {
                ImeEvent::Commit { value } => {
                    final(self).input.chars@ == crate::textbuf::commit_appended(
                        old(self).input.chars@,
                        value@,
                    )
                },
                _ => final(self).input == old(self).input,
            },
            final(self).current_file == old(self).current_file,
            final(self).columns == old(self).columns,
            final(self).dialog_state == old(self).dialog_state,
            final(self).new_folder_state == old(self).new_folder_state,
            final(self).host_mode == old(self).host_mode,
            final(self).host_window_visible == old(self).host_window_visible,
            final(self).dialog_window_visible == old(self).dialog_window_visible,
    {
        self.input.handle_ime(ev)
    }
}

} // verus!
