//! Wire messages of both protocol phases.
use vstd::prelude::*;

use crate::newtypes::{
    BlindSig, BlindedToken, EncryptedBlob, KeyVersion, QuestionBatchId, QuestionText,
    SegmentLabel, SignatureBytes, TenantId, TokenBytes, UnixTimestamp,
};

verus! {

// ── Phase 1: identity-aware channel (client ↔ identity zone) ──

/// Client requests a blind signature on a token.
#[derive(Clone)]
pub struct TokenRequest {
    /// The blinded token payload (opaque to the Token Issuer).
    pub blinded_token: BlindedToken,
    /// Which question batch this token is for.
    pub question_batch_id: QuestionBatchId,
}

/// Token Issuer returns a blind signature.
#[derive(Clone)]
pub struct TokenResponse {
    /// The blind signature over the blinded token.
    pub blind_signature: BlindSig,
    /// Which signing key version was used.
    pub key_version: KeyVersion,
}

/// Token Issuer denies the request.
#[derive(Debug, Clone)]
pub struct TokenDenied {
    pub reason: TokenDeniedReason,
}

/// Why a token request was denied.
#[derive(Debug, Clone, Copy, PartialEq, Eq)]
pub enum TokenDeniedReason {
    FrequencyCap,
    NotAuthorized,
    BatchExpired,
}

/// Server delivers a question to the client.
#[derive(Debug, Clone)]
pub struct QuestionDelivery {
    pub question_batch_id: QuestionBatchId,
    pub question_text: QuestionText,
    pub response_type: ResponseType,
    /// Unix timestamp when this batch expires.
    pub expiry: UnixTimestamp,
    /// Coarsened org segment identifiers for k-anonymity; the client embeds
    /// them in the token payload before blinding.
    pub segment_vector: Vec<SegmentLabel>,
}

/// How a question is answered.
#[derive(Debug, Clone, Copy, PartialEq, Eq)]
pub enum ResponseType {
    Scale5,
    Binary,
    Emoji,
    FreeText,
}

/// An answer, before encryption.
#[derive(Debug, Clone, PartialEq, Eq)]
pub enum ResponseData {
    Scale5(u8),
    Binary(bool),
    Emoji(String),
    FreeText(String),
}

// ── Phase 2: anonymous channel (client → relay → signal zone) ──

/// Client submits an anonymous response with a verified token.
#[derive(Clone)]
pub struct ResponseSubmit {
    /// The unblinded token payload (serialized `TokenPayload`).
    pub token: TokenBytes,
    /// The unblinded signature.
    pub signature: SignatureBytes,
    /// Message randomizer from the blinding process (needed for verification).
    pub msg_randomizer: Option<[u8; 32]>,
    /// Which signing key version to verify against.
    pub key_version: KeyVersion,
    /// The question batch this response is for.
    pub question_batch_id: QuestionBatchId,
    /// Tenant identifier.
    pub tenant_id: TenantId,
    /// Encrypted response content (opaque: the protocol does not interpret it).
    pub response_blob: EncryptedBlob,
}

/// Response accepted by the Response Collector.
#[derive(Debug, Clone)]
pub struct ResponseAck;

/// Response rejected by the Response Collector.
#[derive(Debug, Clone)]
pub struct ResponseReject {
    pub reason: RejectReason,
}

/// Why the Response Collector rejected a submission.
#[derive(Debug, Clone, Copy, PartialEq, Eq)]
pub enum RejectReason {
    InvalidSignature,
    TokenExpired,
    TokenAlreadySpent,
    BatchMismatch,
    TenantMismatch,
    Malformed,
}

} // verus!
