//! Browsing the git history of one file: the turning points of a file, the
//! navigation between them, and the decisions of the interactive viewer.

pub mod app;
pub mod args;
