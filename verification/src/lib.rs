//! Mirrors the working-tree changes of a git repository into destination folders.
//!
//! The library holds the decisions: which files a destination receives, how each file
//! operation is planned, how outcomes are counted and reported, and the control of the
//! application's sync runs. The surrounding program performs the disk and git work.
//! The library targets Unix-like systems: paths are joined with `/`.
pub mod app;
pub mod config;
pub mod git;
pub mod sync;
pub mod text;
