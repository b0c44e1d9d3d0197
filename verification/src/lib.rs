//! Sorting of a staging directory's entries into destination directories.
//!
//! Each entry is described in text, the description is classified by a remote
//! service, the returned label is resolved to a destination directory, and the
//! entry is moved there. This crate holds the decisions of that pipeline; the
//! caller reads the file system, talks to the network and performs the moves.

pub mod classifier;
pub mod config;
pub mod descriptor;
pub mod json;
pub mod pipeline;
pub mod relocator;
pub mod resolver;
pub mod text;
