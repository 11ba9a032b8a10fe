//! Decision core of a desktop bridge that manages WordPress sites.
//!
//! The bridge offers two operations to a front-end: running the WP-CLI tool
//! inside a site's directory, and performing one file operation (copy, move,
//! delete or a permission change). This crate holds everything about them that
//! is a computation: which process to launch, what to answer once it has ended,
//! which file-system actions an operation consists of, and which message a
//! failure is reported with. Launching the process and touching the file system
//! are left to the caller, which hands the outcomes back as plain values.

pub mod cli;
pub mod fileops;
pub mod plan;
pub mod site;
pub mod text;
