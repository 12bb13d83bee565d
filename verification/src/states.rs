//! The application's mode enums.
//!
//! The host runs in one of two top-level modes; within the home mode the
//! screen shows one sub-function at a time, and the file dialog and its
//! new-folder sub-dialog each carry their own open/closed state.
use vstd::prelude::*;

verus! {

/// Top-level application mode.  Committing the file dialog advances the
/// host from `Home` to `Edit`.
#[derive(Clone, Copy, Debug, Default, Eq, PartialEq, Hash, Structural)]
pub enum SeekerState {
    #[default]
    Home,
    Edit,
}

/// Which sub-function of the home screen is active.
#[derive(Clone, Copy, Debug, Default, Eq, PartialEq, Hash, Structural)]
pub enum SeekerHomeSubFnState {
    Project,
    NewProject,
    CloneRepo,
    #[default]
    Idle,
}

/// Whether the file dialog is open.
#[derive(Clone, Copy, Debug, Default, Eq, PartialEq, Hash, Structural)]
pub enum SeekerFileDialogFnState {
    #[default]
    Closed,
    Open,
}

/// Whether the new-folder sub-dialog is open.
#[derive(Clone, Copy, Debug, Default, Eq, PartialEq, Hash, Structural)]
pub enum SeekerNewFolderState {
    #[default]
    Closed,
    Open,
}

/// Whether the home screen has loaded its project list.
#[derive(Clone, Copy, Debug, Default, Eq, PartialEq, Hash, Structural)]
pub enum SeekerHomeSubLoadState {
    #[default]
    Loading,
    Loaded,
}

} // verus!
