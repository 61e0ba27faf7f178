//! What a look at the file system found, as plain values.
use crate::error::StorageError;
use crate::session::Session;
use vstd::prelude::*;

verus! {

/// What stands at a path, without following a symbolic link.
pub enum Probe {
    Missing,
    Directory,
    File,
    /// A symbolic link, or anything that is neither a directory nor a regular file.
    Other,
    /// The path could not be inspected.
    Failed(StorageError),
}

/// What reading a file that holds a session gave.
pub enum SessionFile {
    Missing,
    /// The file could not be read.
    Failed(StorageError),
    /// The file does not hold a session; the text says why.
    Corrupt(String),
    Parsed(Session),
}

/// What stands at a session's directory and at its `session.json`, and what reading that gave.
pub struct MainProbe {
    pub directory: Probe,
    pub file: Probe,
    pub content: SessionFile,
}

} // verus!
