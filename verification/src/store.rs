//! Storage of anonymous responses: encrypted blobs with batch and arrival time,
//! never any identity.
use vstd::prelude::*;

use crate::newtypes::{EncryptedBlob, QuestionBatchId, UnixTimestamp};

verus! {

/// A stored anonymous response: encrypted blob with metadata.
pub struct StoredResponse {
    /// The encrypted response blob (opaque ciphertext).
    pub encrypted_blob: EncryptedBlob,
    /// Question batch this response belongs to.
    pub question_batch_id: QuestionBatchId,
    /// Unix timestamp when the response was received.
    pub received_at: UnixTimestamp,
}

/// The contents of a stored response, as plain values.
pub struct StoredResponseView {
    pub encrypted_blob: Seq<u8>,
    pub question_batch_id: u128,
    pub received_at: u64,
}

impl View for StoredResponse {
    type V = StoredResponseView;

    open spec fn view(&self) -> StoredResponseView {
        StoredResponseView {
            encrypted_blob: self.encrypted_blob.0@,
            question_batch_id: self.question_batch_id.0,
            received_at: self.received_at.0,
        }
    }
}

impl StoredResponse {
    /// A copy of this response.
    pub fn duplicate(&self) -> (r: Self)
        ensures
            r@ == self@,
    {
        let blob = self.encrypted_blob.0.clone();
        assert(blob@ =~= self.encrypted_blob.0@);
        StoredResponse {
            encrypted_blob: EncryptedBlob(blob),
            question_batch_id: QuestionBatchId(self.question_batch_id.0),
            received_at: UnixTimestamp(self.received_at.0),
        }
    }
}

/// The views of a sequence of stored responses.
pub open spec fn response_views(s: Seq<StoredResponse>) -> Seq<StoredResponseView> {
    s.map_values(|r: StoredResponse| r@)
}

/// Persistence of anonymous responses.
pub trait ResponseStore {
    /// The stored responses, oldest first.
    spec fn responses(&self) -> Seq<StoredResponseView>;

    /// Append a response.
    fn store(&mut self, response: StoredResponse)
        ensures
            final(self).responses() == old(self).responses().push(response@),
    ;

    /// How many responses are stored.
    fn count(&self) -> (r: usize)
        ensures
            r == self.responses().len(),
    ;

    /// Copies of all stored responses, oldest first.
    fn list(&self) -> (r: Vec<StoredResponse>)
        ensures
            response_views(r@) == self.responses(),
    ;
}

/// In-memory response store.
pub struct InMemoryStore {
    responses: Vec<StoredResponse>,
}

impl InMemoryStore {
    /// An empty store.
    pub fn new() -> (r: Self)
        ensures
            r.responses() == Seq::<StoredResponseView>::empty(),
    {
        let r = InMemoryStore { responses: Vec::new() };
        assert(response_views(r.responses@) =~= Seq::<StoredResponseView>::empty());
        r
    }
}

impl Default for InMemoryStore {
    fn default() -> (r: Self)
        ensures
            r.responses() == Seq::<StoredResponseView>::empty(),
    {
        Self::new()
    }
}

impl ResponseStore for InMemoryStore {
    closed spec fn responses(&self) -> Seq<StoredResponseView> {
        response_views(self.responses@)
    }

    fn store(&mut self, response: StoredResponse) {
        self.responses.push(response);
        assert(response_views(self.responses@) =~= response_views(old(self).responses@).push(response@));
    }

    fn count(&self) -> (r: usize) {
        self.responses.len()
    }

    fn list(&self) -> (r: Vec<StoredResponse>) {
        let mut out: Vec<StoredResponse> = Vec::new();
        let mut i: usize = 0;
        while i < self.responses.len()
            invariant
                i <= self.responses@.len(),
                response_views(out@) =~= response_views(self.responses@.take(i as int)),
            decreases self.responses@.len() - i,
        {
            let ghost before = out@;
            let d = self.responses[i].duplicate();
            out.push(d);
            assert(out@ == before.push(d));
            assert(response_views(out@) =~= response_views(before).push(d@));
            assert(self.responses@.take(i + 1) =~= self.responses@.take(i as int).push(self.responses@[i as int]));
            assert(response_views(self.responses@.take(i + 1)) =~= response_views(self.responses@.take(i as int)).push(self.responses@[i as int]@));
            i = i + 1;
        }
        assert(self.responses@.take(i as int) =~= self.responses@);
        out
    }
}

} // verus!
