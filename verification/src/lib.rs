//! Reports file sizes under a directory tree, filtered and sorted by user
//! intent, with a fuzzy suggestion engine that helps recover from invalid
//! file-type filter names.

pub mod args;
pub mod fuzzy;
pub mod report;
pub mod types;
pub mod types_default;
