//! Directory entries as the dialog sees them.
//!
//! The host reads a directory and hands over one [`RawEntry`] per immediate
//! child, in enumeration order.  [`get_files`] turns that listing into the
//! dialog's row records, dropping hidden entries (names starting with `.`)
//! and tagging each row with its owning column and nesting depth.
use vstd::prelude::*;

verus! {

/// Nesting depth of one open column in the file browser.  The dialog's
/// initial column sits at depth 1; each step into a subdirectory adds 1.
#[derive(Clone, Copy, Debug, PartialEq, Eq, Structural)]
pub struct Level {
    pub level: usize,
}

impl Level {
    pub fn new(level: usize) -> (r: Self)
        ensures
            r.level == level,
    {
        Self { level }
    }
}

/// One immediate child of a directory, as enumerated by the host: its full
/// path, its bare name, and whether it is itself a directory.
#[derive(Debug)]
pub struct RawEntry {
    pub path: String,
    pub name: String,
    pub is_dir: bool,
}

/// One row of a directory-listing column.
#[derive(Debug)]
pub struct File {
    pub path: String,
    pub filename: String,
    pub is_dir: bool,
    pub root_entity: u64,
    pub level: Level,
}

impl File {
    /// Field-for-field agreement, with strings compared by their characters.
    pub open spec fn same_entry(self, o: File) -> bool {
        self.path@ == o.path@ && self.filename@ == o.filename@ && self.is_dir == o.is_dir
            && self.root_entity == o.root_entity && self.level == o.level
    }
}

impl Clone for File {
    fn clone(&self) -> (r: Self)
        ensures
            r.same_entry(*self),
    {
        File {
            path: self.path.clone(),
            filename: self.filename.clone(),
            is_dir: self.is_dir,
            root_entity: self.root_entity,
            level: self.level,
        }
    }
}

/// The single row most recently clicked in any column, if any.
#[derive(Debug)]
pub struct CurrentFile {
    pub file: Option<File>,
}

impl Default for CurrentFile {
    fn default() -> (r: Self)
        ensures
            r.file is None,
    {
        CurrentFile { file: None }
    }
}

/// A name is hidden when it starts with a dot.
pub open spec fn hidden_name(name: Seq<char>) -> bool {
    name.len() > 0 && name[0] == '.'
}

/// The row record for one raw entry.
pub open spec fn entry_file(e: RawEntry, root_entity: u64, level: Level) -> File {
    File { path: e.path, filename: e.name, is_dir: e.is_dir, root_entity, level }
}

/// The rows of a listing: the raw entries without the hidden ones, in order,
/// each turned into a [`File`] tagged with the column and depth.
pub open spec fn visible_files(raws: Seq<RawEntry>, root_entity: u64, level: Level) -> Seq<File>
    decreases raws.len(),
{
    if raws.len() == 0 {
        Seq::empty()
    } else {
        let rest = visible_files(raws.drop_last(), root_entity, level);
        if hidden_name(raws.last().name@) {
            rest
        } else {
            rest.push(entry_file(raws.last(), root_entity, level))
        }
    }
}

/// Every listing excludes each hidden entry and keeps every other entry
/// exactly once, in enumeration order: the rows are precisely the non-hidden
/// raw entries, mapped one for one.
pub proof fn lemma_visible_files_filter(raws: Seq<RawEntry>, root_entity: u64, level: Level)
    ensures
        visible_files(raws, root_entity, level) == raws.filter(
            |e: RawEntry| !hidden_name(e.name@),
        ).map_values(|e: RawEntry| entry_file(e, root_entity, level)),
        forall|j: int|
            0 <= j < visible_files(raws, root_entity, level).len() ==> !hidden_name(
                #[trigger] visible_files(raws, root_entity, level)[j].filename@,
            ),
    decreases raws.len(),
{
    reveal(Seq::filter);
    let pred = |e: RawEntry| !hidden_name(e.name@);
    let m = |e: RawEntry| entry_file(e, root_entity, level);
    if raws.len() == 0 {
        assert(visible_files(raws, root_entity, level) =~= raws.filter(pred).map_values(m));
    } else {
        let s0 = raws.drop_last();
        let x = raws.last();
        lemma_visible_files_filter(s0, root_entity, level);
        if pred(x) {
            assert(raws.filter(pred).map_values(m) =~= s0.filter(pred).map_values(m).push(m(x)));
        }
        assert(visible_files(raws, root_entity, level) =~= raws.filter(pred).map_values(m));
    }
    assert forall|j: int| 0 <= j < visible_files(raws, root_entity, level).len() implies !hidden_name(
        visible_files(raws, root_entity, level)[j].filename@,
    ) by {
        Seq::lemma_filter_pred(raws, pred, j);
    }
}

fn is_hidden(name: &String) -> (r: bool)
    ensures
        r == hidden_name(name@),
{
    name.as_str().unicode_len() > 0 && name.as_str().get_char(0) == '.'
}

/// The rows for one directory listing: the raw entries with hidden names
/// dropped, each tagged with the owning column and the nesting depth.
pub fn get_files(raw: Vec<RawEntry>, root_entity: u64, dialog_level: Level) -> (files: Vec<File>)
    ensures
        files@ == visible_files(raw@, root_entity, dialog_level),
{
    let mut work = raw;
    let mut files: Vec<File> = Vec::new();
    let ghost mut i: int = 0;
    proof {
        assert(work@ =~= raw@.skip(0));
        assert(visible_files(raw@.take(0), root_entity, dialog_level) =~= Seq::empty());
    }
    while work.len() > 0
        invariant
            0 <= i,
            i + work@.len() == raw@.len(),
            work@ == raw@.skip(i),
            files@ == visible_files(raw@.take(i), root_entity, dialog_level),
        decreases work@.len(),
    {
        let e = work.remove(0);
        assert(e == raw@[i]);
        proof {
            assert(raw@.take(i + 1).drop_last() =~= raw@.take(i));
            assert(raw@.take(i + 1).last() == raw@[i]);
        }
        if !is_hidden(&e.name) {
            files.push(
                File {
                    path: e.path,
                    filename: e.name,
                    is_dir: e.is_dir,
                    root_entity,
                    level: dialog_level,
                },
            );
        }
        proof {
            assert(work@ =~= raw@.skip(i + 1));
            i = i + 1;
        }
    }
    proof {
        assert(raw@.take(raw@.len() as int) =~= raw@);
    }
    files
}

/// Among the rows reported pressed in one update pass, the last one wins:
/// the dialog keeps a single selection.
pub fn last_pressed(pressed: Vec<File>) -> (r: Option<File>)
    ensures
        pressed@.len() == 0 ==> r is None,
        pressed@.len() > 0 ==> r == Some(pressed@.last()),
{
    let mut work = pressed;
    work.pop()
}

} // verus!
