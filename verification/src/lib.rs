//! Seeker: a file-dialog navigation library.
//!
//! The heart of a desktop project launcher: a modal file browser rendered as
//! cascading columns, one per nesting depth.  This crate holds the verified
//! data model and state machines behind that dialog — directory-entry
//! filtering, display-name truncation, the column pruning rules, the
//! new-folder text buffer, and the dialog lifecycle — together with the small
//! SQL-backed project record store.  A host front end performs the actual
//! window, input and filesystem work and feeds plain values in and out.
pub mod columns;
pub mod config;
pub mod detail;
pub mod file;
pub mod render;
pub mod session;
pub mod states;
pub mod store;
pub mod text;
pub mod theme;
pub mod textbuf;
pub mod truncate;
