//! Request records of the chat service and the rules they are held to.
pub mod chat;
pub mod workspace;

use vstd::prelude::*;

verus! {

/// A file stored for a workspace, found by the hash of its content.
#[derive(Debug, Clone)]
pub struct ChatFile {
    pub ws_id: u64,
    /// The extension, from the file's name or its media type.
    pub ext: String,
    pub hash: String,
}

} // verus!
