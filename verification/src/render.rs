//! Row labels for a directory-listing column.
//!
//! Directory rows show the truncated name and reserve room for a trailing
//! `>` affordance; file rows have no affordance and get the three cells the
//! affordance padding would take, so their names truncate a little later.
use crate::file::File;
use crate::truncate::{truncate_filename, truncated};
use vstd::prelude::*;

verus! {

/// Display-cell budget for a directory row's name.
pub const DIR_NAME_WIDTH: usize = 20;

/// Display-cell budget for a file row's name: three cells wider, since no
/// affordance follows.
pub const FILE_NAME_WIDTH: usize = 23;

/// One rendered row: its label text, and whether it carries the `>`
/// affordance of a directory row.
#[derive(Debug)]
pub struct RowLabel {
    pub text: String,
    pub is_dir: bool,
}

/// The budget a row's name is truncated to.
pub open spec fn row_budget(is_dir: bool) -> int {
    if is_dir {
        20
    } else {
        23
    }
}

/// The labels of a listing column, one per row in order: each row's name
/// truncated to its budget, directory rows marked for the affordance.
pub fn column_row_labels(files: &Vec<File>) -> (r: Vec<RowLabel>)
    requires
        forall|i: int|
            0 <= i < files@.len() ==> 2 * (#[trigger] files@[i]).filename@.len() + 8 <= usize::MAX,
    ensures
        r@.len() == files@.len(),
        forall|i: int|
            0 <= i < files@.len() ==> (#[trigger] r@[i]).is_dir == files@[i].is_dir && r@[i].text@
                == truncated(files@[i].filename@, row_budget(files@[i].is_dir)),
{
    let mut r: Vec<RowLabel> = Vec::new();
    let mut i: usize = 0;
    while i < files.len()
        invariant
            i <= files@.len(),
            r@.len() == i,
            forall|k: int|
                0 <= k < files@.len() ==> 2 * (#[trigger] files@[k]).filename@.len() + 8
                    <= usize::MAX,
            forall|k: int|
                0 <= k < i ==> (#[trigger] r@[k]).is_dir == files@[k].is_dir && r@[k].text@
                    == truncated(files@[k].filename@, row_budget(files@[k].is_dir)),
        decreases files@.len() - i,
    {
        let f = &files[i];
        let budget = if f.is_dir {
            DIR_NAME_WIDTH
        } else {
            FILE_NAME_WIDTH
        };
        let text = truncate_filename(f.filename.as_str(), budget);
        r.push(RowLabel { text, is_dir: f.is_dir });
        i = i + 1;
    }
    r
}

} // verus!
