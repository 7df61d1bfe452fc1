//! The bridge from the cloud's document service to the revision history: a
//! document as the cloud reports it becomes the one revision that a fresh
//! revision cache starts from.

use crate::entities::DocumentInfo;
use crate::entities::Revision;
use crate::errors::ErrorCode;
use crate::errors::FlowyError;
use vstd::prelude::*;
use vstd::slice::slice_to_vec;
use vstd::utf8::encode_utf8;

verus! {

/// The MD5 digest of `data`, written as lower-case hexadecimal digits.
pub uninterp spec fn md5_hex(data: Seq<u8>) -> Seq<char>;

/// `md5::compute`, formatted with `{:x}`: the digest of `data` as lower-case
/// hexadecimal digits. The same bytes give the same digest.
#[verifier::external_body]
pub(crate) fn checksum(data: &[u8]) -> (digest: String)
    ensures
        digest@ == md5_hex(data@),
{
    format!("{:x}", md5::compute(data))
}

/// Whether `revision` is the first revision of the document `doc`, written by
/// `user_id`: the whole text, in UTF-8, as its content, under the revision numbers that
/// the cloud reports, with the checksum of the content.
pub open spec fn is_initial_revision(
    revision: Revision,
    user_id: Seq<char>,
    doc: DocumentInfo,
) -> bool {
    &&& revision.doc_id@ == doc.doc_id@
    &&& revision.base_rev_id == doc.base_rev_id
    &&& revision.rev_id == doc.rev_id
    &&& revision.delta_data@ == encode_utf8(doc.text@)
    &&& revision.user_id@ == user_id
    &&& revision.md5@ == md5_hex(revision.delta_data@)
}

impl Revision {
    /// A revision with the given fields.
    pub fn new(
        doc_id: &str,
        base_rev_id: i64,
        rev_id: i64,
        delta_data: Vec<u8>,
        user_id: &str,
        md5: String,
    ) -> (revision: Revision)
        ensures
            revision.doc_id@ == doc_id@,
            revision.base_rev_id == base_rev_id,
            revision.rev_id == rev_id,
            revision.delta_data == delta_data,
            revision.user_id@ == user_id@,
            revision.md5 == md5,
    {
        Revision {
            base_rev_id,
            rev_id,
            delta_data,
            md5,
            doc_id: doc_id.to_owned(),
            user_id: user_id.to_owned(),
        }
    }
}

/// The first revision of a document, from what the cloud answered to the
/// request to read it.
///
/// A failure of the request is handed on. Where the cloud has no such
/// document the result is `RecordNotFound`. Otherwise the document's text
/// becomes one revision by `user_id`.
pub fn initial_revision(user_id: &str, remote: Result<Option<DocumentInfo>, FlowyError>) -> (fetched:
    Result<Revision, FlowyError>)
    ensures
        match remote {
            Err(failure) => fetched matches Err(e) && e == failure,
            Ok(None) => fetched matches Err(e) && e.code == ErrorCode::RecordNotFound && e.msg@
                == "Remote doesn't have this document"@,
            Ok(Some(doc)) => fetched matches Ok(revision) && is_initial_revision(
                revision,
                user_id@,
                doc,
            ),
        },
{
    match remote {
        Err(failure) => Err(failure),
        Ok(None) => Err(FlowyError::record_not_found().context("Remote doesn't have this document")),
        Ok(Some(doc)) => {
            let delta_data = slice_to_vec(doc.text.as_str().as_bytes());
            let doc_md5 = checksum(delta_data.as_slice());
            Ok(
                Revision::new(
                    doc.doc_id.as_str(),
                    doc.base_rev_id,
                    doc.rev_id,
                    delta_data,
                    user_id,
                    doc_md5,
                ),
            )
        },
    }
}

} // verus!
