//! Progress of a resumable upload, as the node last confirmed it.

use vstd::prelude::*;
use crate::dto::{UploadSessionResumeResponse, UploadSessionStartResponse};

verus! {

/// A started upload session of `size` bytes. `offset` is where the next
/// streamed body must begin: the byte count that the node last confirmed.
#[derive(Clone, Debug, PartialEq, Eq)]
pub struct UploadSession {
    pub session: UploadSessionStartResponse,
    pub size: u64,
    pub offset: u64,
}

impl UploadSession {
    /// The session the node opened for an upload of `size` bytes; it goes on
    /// from what the node already holds.
    pub fn started(size: u64, session: UploadSessionStartResponse) -> (r: Self)
        ensures
            r.session == session,
            r.size == size,
            r.offset == session.uploaded,
    {
        let offset = session.uploaded;
        UploadSession { session, size, offset }
    }

    /// Takes the node's answer to a resume: its count replaces whatever
    /// progress was held here.
    pub fn resumed(&mut self, response: &UploadSessionResumeResponse)
        ensures
            final(self).offset == response.uploaded_size,
            final(self).session == old(self).session,
            final(self).size == old(self).size,
    {
        self.offset = response.uploaded_size;
    }

    /// Bytes still to send.
    pub fn remaining(&self) -> (r: u64)
        ensures
            r == if self.offset >= self.size {
                0
            } else {
                self.size - self.offset
            },
    {
        if self.offset >= self.size {
            0
        } else {
            self.size - self.offset
        }
    }
}

} // verus!
