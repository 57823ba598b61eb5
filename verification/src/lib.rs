//! Core of a minimal text editor: the outcomes of file-chooser and file
//! operations, the in-memory editor surface, a file store with the editor's
//! access semantics, chooser requests, and the shell that wires user actions
//! to state changes and user-facing reports.

pub mod dialog;
pub mod editor;
pub mod outcome;
pub mod shell;
pub mod store;
