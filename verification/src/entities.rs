//! The values that cross the boundary of the manager.

use vstd::prelude::*;

verus! {

/// A delta of one document: an edit proposed by the caller, or the whole
/// content of the document after an edit.
#[derive(Clone, Debug)]
pub struct DocumentDelta {
    pub doc_id: String,
    pub delta_json: String,
}

/// A document as the cloud service reports it.
#[derive(Clone, Debug)]
pub struct DocumentInfo {
    pub doc_id: String,
    pub text: String,
    pub rev_id: i64,
    pub base_rev_id: i64,
}

/// One immutable unit of the history of a document.
#[derive(Clone, Debug)]
pub struct Revision {
    /// The revision that this one was composed against.
    pub base_rev_id: i64,
    pub rev_id: i64,
    /// The content of the revision.
    pub delta_data: Vec<u8>,
    /// The checksum of `delta_data`, in lower-case hexadecimal.
    pub md5: String,
    pub doc_id: String,
    /// The author.
    pub user_id: String,
}

/// The connectivity of the real-time transport.
#[derive(Clone, Copy, Debug, PartialEq, Eq, Structural)]
pub enum WSConnectState {
    Init,
    Connecting,
    Connected,
    Disconnected,
}

} // verus!
