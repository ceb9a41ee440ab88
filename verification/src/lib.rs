//! Selecting the files of a directory tree by a deny list of glob patterns,
//! and packing the selected files into one compressed archive.

pub mod archive;
pub mod engine;
pub mod files;
pub mod glob;
pub mod packing;
pub mod path;
pub mod pattern;
pub mod submission;
pub mod text;
