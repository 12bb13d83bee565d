//! The column stack of the file dialog.
//!
//! Every open column shows either a directory listing or one file's details,
//! and carries the nesting depth it stands at.  Navigation keeps one column
//! per depth: a click at depth `d` first prunes every column at depth
//! `d + 1` or deeper, then spawns the replacement column at `d + 1`.
use crate::file::{File, Level};
use vstd::prelude::*;

verus! {

/// What one column shows.
#[derive(Debug)]
pub enum ColumnBody {
    /// A directory's children, one row each.
    Listing { rows: Vec<File> },
    /// One file's detail panel.
    Detail { file: File },
}

/// One open column, tagged with its nesting depth.
#[derive(Debug)]
pub struct Column {
    pub level: Level,
    pub body: ColumnBody,
}

/// The open columns of the dialog, shallowest first.
#[derive(Debug)]
pub struct Columns {
    pub columns: Vec<Column>,
}

impl Columns {
    /// One column per depth, in order: the column at position `i` is at
    /// depth `i + 1`.
    pub open spec fn wf(self) -> bool {
        forall|i: int|
            0 <= i < self.columns@.len() ==> (#[trigger] self.columns@[i]).level.level == i + 1
    }

    /// The deepest open depth.
    pub open spec fn depth(self) -> int {
        self.columns@.len() as int
    }

    /// No open columns.
    pub fn empty() -> (r: Self)
        ensures
            r.wf(),
            r.depth() == 0,
    {
        Columns { columns: Vec::new() }
    }

    /// The dialog's initial state: a single listing column at depth 1.
    pub fn open_root(rows: Vec<File>) -> (r: Self)
        ensures
            r.wf(),
            r.depth() == 1,
            r.columns@[0].level.level == 1,
            r.columns@[0].body == (ColumnBody::Listing { rows }),
    {
        let mut columns: Vec<Column> = Vec::new();
        columns.push(Column { level: Level::new(1), body: ColumnBody::Listing { rows } });
        Columns { columns }
    }

    /// A row click at depth `sel_level`: prunes every column at depth
    /// `sel_level + 1` or deeper, then opens the replacement column there —
    /// a listing of `children` for a directory row (even when `children` is
    /// empty), a detail panel for a file row.
    pub fn click(&mut self, sel: &File, children: Vec<File>)
        requires
            old(self).wf(),
            1 <= sel.level.level,
            sel.level.level <= old(self).depth(),
            sel.level.level < usize::MAX,
        ensures
            final(self).wf(),
            final(self).depth() == sel.level.level + 1,
            forall|i: int|
                0 <= i < sel.level.level ==> final(self).columns@[i] == old(self).columns@[i],
            final(self).columns@.last().level.level == sel.level.level + 1,
            sel.is_dir ==> final(self).columns@.last().body == (ColumnBody::Listing {
                rows: children,
            }),
            !sel.is_dir ==> (final(self).columns@.last().body matches ColumnBody::Detail {
                file,
            } && file.same_entry(*sel)),
    {
        let next = sel.level.level + 1;
        self.columns.truncate(sel.level.level);
        let body = if sel.is_dir {
            ColumnBody::Listing { rows: children }
        } else {
            ColumnBody::Detail { file: sel.clone() }
        };
        self.columns.push(Column { level: Level::new(next), body });
    }

    /// Closing the dialog despawns every column.
    pub fn close_all(&mut self)
        ensures
            final(self).wf(),
            final(self).depth() == 0,
    {
        self.columns.clear();
    }
}

/// Some open column stands at depth `d`.
pub open spec fn has_column_at(c: Columns, d: int) -> bool {
    exists|i: int| 0 <= i < c.depth() && (#[trigger] c.columns@[i]).level.level == d
}

/// The pruning invariant: a well-formed stack has exactly one column per
/// depth from 1 up to the deepest open depth — no gaps and no duplicates.
pub proof fn lemma_one_column_per_depth(c: Columns)
    requires
        c.wf(),
    ensures
        forall|d: int| 1 <= d <= c.depth() ==> #[trigger] has_column_at(c, d),
        forall|i: int, j: int|
            0 <= i < c.depth() && 0 <= j < c.depth() && c.columns@[i].level.level
                == c.columns@[j].level.level ==> i == j,
{
    assert forall|d: int| 1 <= d <= c.depth() implies #[trigger] has_column_at(c, d) by {
        assert(c.columns@[d - 1].level.level == d);
    }
}

} // verus!
