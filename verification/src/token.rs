//! The token payload that the Token Issuer blind-signs.
use vstd::prelude::*;

use crate::newtypes::{QuestionBatchId, TenantId};

verus! {

/// Device attestation class: the identity confidence of the device.
#[derive(Debug, Clone, Copy, PartialEq, Eq)]
pub enum AttestationClass {
    /// Personal authenticated device (phone, laptop): high confidence.
    Personal,
    /// Shared device scoped to a group (team tablet): medium confidence.
    Group,
    /// Shared device scoped to a location (breakroom button): low confidence.
    Location,
    /// Hybrid: shared display plus phone handoff: high confidence.
    Hybrid,
}

/// Token payload that gets blind-signed by the Token Issuer.
///
/// The client blinds this payload, the Token Issuer signs it blind, and the
/// Response Collector verifies the signature over its serialized bytes.
#[derive(Debug, Clone, PartialEq, Eq)]
pub struct TokenPayload {
    /// Random unique value preventing token collision.
    pub nonce: [u8; 32],
    /// Scopes the token to a specific question batch.
    pub question_batch_id: QuestionBatchId,
    /// Prevents cross-tenant token reuse.
    pub tenant_id: TenantId,
    /// Unix timestamp bounding the validity window.
    pub expiry: u64,
    /// Coarsened org segment identifiers (embedded at issuance time for k-anonymity).
    pub segment_vector: Vec<String>,
    /// Device class that obtained this token.
    pub attestation_class: AttestationClass,
    /// Which signing key version was used.
    pub key_version: u32,
}

impl TokenPayload {
    /// Whether the token has expired at `now_unix`: the expiry instant itself
    /// already counts as expired.
    pub fn is_expired(&self, now_unix: u64) -> (r: bool)
        ensures
            r == (now_unix >= self.expiry),
    {
        now_unix >= self.expiry
    }
}

} // verus!
