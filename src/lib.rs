//! A live command-line previewer: a single-line edit buffer whose text is
//! run as a shell command on every edit, with the latest output shown.
//!
//! The library holds the decisions; the program around it performs the
//! terminal and process work they call for.
pub mod buffer;
pub mod keys;
pub mod runner;
pub mod session;
pub mod text;
