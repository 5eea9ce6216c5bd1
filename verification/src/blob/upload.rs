//! The result of uploading a blob to the session's upload URL.
use vstd::prelude::*;

verus! {

/// What the upload endpoint answers (RFC 8620 §6.1).
#[derive(Debug)]
pub struct UploadResponse {
    pub account_id: String,
    pub blob_id: String,
    pub type_: String,
    pub size: usize,
}

impl UploadResponse {
    pub fn account_id(&self) -> (r: &str)
        ensures
            r@ == self.account_id@,
    {
        self.account_id.as_str()
    }

    pub fn blob_id(&self) -> (r: &str)
        ensures
            r@ == self.blob_id@,
    {
        self.blob_id.as_str()
    }

    /// The media type of the blob.
    pub fn content_type(&self) -> (r: &str)
        ensures
            r@ == self.type_@,
    {
        self.type_.as_str()
    }

    /// The size of the blob in bytes.
    pub fn size(&self) -> (r: usize)
        ensures
            r == self.size,
    {
        self.size
    }

    /// Takes the blob id, leaving an empty one.
    pub fn take_blob_id(&mut self) -> (r: String)
        ensures
            r == old(self).blob_id,
            final(self).blob_id@ == Seq::<char>::empty(),
            final(self).account_id == old(self).account_id,
            final(self).type_ == old(self).type_,
            final(self).size == old(self).size,
    {
        let mut id = String::new();
        std::mem::swap(&mut id, &mut self.blob_id);
        id
    }
}

} // verus!
