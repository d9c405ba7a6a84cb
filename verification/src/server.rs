//! The server's request logic for both zones: the Identity zone's stub
//! authentication, question delivery and token signing, and the Signal zone's
//! anonymous response submission, with the structured errors they answer.
//!
//! Each handler here takes the parsed request and the shared state and gives
//! the response body or the error; the HTTP layer around it only moves bytes.
use vstd::prelude::*;

use crate::blind_sig::{blind_sig_error_message, blind_signature_of};
use crate::collector::{
    outcome, reaches_ledger, rejection, stored_view, submission_signature_ok, CollectorError,
    ResponseCollector,
};
use crate::issuer::{EmployeeId, IssuerError, TokenIssuer};
use crate::ledger::{sha256_digest, InMemoryLedger};
use crate::messages::{
    QuestionDelivery, RejectReason, ResponseSubmit, ResponseType, TokenDeniedReason, TokenRequest,
    TokenResponse,
};
use crate::newtypes::{
    is_v4_uuid, new_session_token, uuid_text, BlindedToken, QuestionBatchId, QuestionText,
    UnixTimestamp,
};
use crate::store::{InMemoryStore, ResponseStore, StoredResponseView};
use crate::token::TokenPayload;

verus! {

/// A structured API error: an HTTP status, a machine-readable code and a
/// human-readable message.
#[derive(Debug, Clone, PartialEq, Eq)]
pub enum ApiError {
    /// 401: the caller is not authenticated.
    Unauthorized(String),
    /// 403: the issuer refused the token.
    TokenDenied { code: String, message: String },
    /// 500: the issuer could not sign.
    SigningFailed(String),
    /// 422: the collector refused the response.
    ResponseRejected { code: String, message: String },
}

/// The HTTP status of each error.
pub open spec fn api_error_status(e: ApiError) -> u16 {
    match e {
        ApiError::Unauthorized(_) => 401,
        ApiError::TokenDenied { .. } => 403,
        ApiError::SigningFailed(_) => 500,
        ApiError::ResponseRejected { .. } => 422,
    }
}

/// The machine-readable code of each error.
pub open spec fn api_error_code(e: ApiError) -> Seq<char> {
    match e {
        ApiError::Unauthorized(_) => "UNAUTHORIZED"@,
        ApiError::TokenDenied { code, .. } => code@,
        ApiError::SigningFailed(_) => "SIGNING_FAILED"@,
        ApiError::ResponseRejected { code, .. } => code@,
    }
}

/// The human-readable message of each error.
pub open spec fn api_error_message(e: ApiError) -> Seq<char> {
    match e {
        ApiError::Unauthorized(m) => m@,
        ApiError::TokenDenied { message, .. } => message@,
        ApiError::SigningFailed(m) => m@,
        ApiError::ResponseRejected { message, .. } => message@,
    }
}

impl ApiError {
    /// The HTTP status code.
    pub fn status(&self) -> (r: u16)
        ensures
            r == api_error_status(*self),
    {
        match self {
            ApiError::Unauthorized(_) => 401,
            ApiError::TokenDenied { .. } => 403,
            ApiError::SigningFailed(_) => 500,
            ApiError::ResponseRejected { .. } => 422,
        }
    }

    /// The machine-readable code, the `code` field of the response body.
    pub fn code(&self) -> (r: String)
        ensures
            r@ == api_error_code(*self),
    {
        match self {
            ApiError::Unauthorized(_) => String::from_str("UNAUTHORIZED"),
            ApiError::TokenDenied { code, .. } => code.clone(),
            ApiError::SigningFailed(_) => String::from_str("SIGNING_FAILED"),
            ApiError::ResponseRejected { code, .. } => code.clone(),
        }
    }

    /// The human-readable message, the `message` field of the response body.
    pub fn message(&self) -> (r: String)
        ensures
            r@ == api_error_message(*self),
    {
        match self {
            ApiError::Unauthorized(m) => m.clone(),
            ApiError::TokenDenied { message, .. } => message.clone(),
            ApiError::SigningFailed(m) => m.clone(),
            ApiError::ResponseRejected { message, .. } => message.clone(),
        }
    }
}

/// The code of each reason for denying a token.
pub open spec fn denial_code(reason: TokenDeniedReason) -> Seq<char> {
    match reason {
        TokenDeniedReason::FrequencyCap => "TOKEN_DENIED_FREQUENCY_CAP"@,
        TokenDeniedReason::NotAuthorized => "TOKEN_DENIED_NOT_AUTHORIZED"@,
        TokenDeniedReason::BatchExpired => "TOKEN_DENIED_BATCH_EXPIRED"@,
    }
}

/// The message of each reason for denying a token.
pub open spec fn denial_message(reason: TokenDeniedReason) -> Seq<char> {
    match reason {
        TokenDeniedReason::FrequencyCap => "frequency cap exceeded for this batch"@,
        TokenDeniedReason::NotAuthorized => "employee not authorized for this batch"@,
        TokenDeniedReason::BatchExpired => "question batch has expired"@,
    }
}

/// The API error that answers each issuer error.
pub open spec fn issuer_error_answer(e: IssuerError, a: ApiError) -> bool {
    match e {
        IssuerError::Denied(reason) => a matches ApiError::TokenDenied { code, message } && code@
            == denial_code(reason) && message@ == denial_message(reason),
        IssuerError::SigningFailed(inner) => a matches ApiError::SigningFailed(m) && m@
            == blind_sig_error_message(inner),
    }
}

/// The API error for an issuer error: a denial becomes a 403 with its code
/// and message, a signing failure a 500 with the failure's description.
pub fn map_issuer_error(e: IssuerError) -> (r: ApiError)
    ensures
        issuer_error_answer(e, r),
{
    match e {
        IssuerError::Denied(reason) => {
            let (code, message) = match reason {
                TokenDeniedReason::FrequencyCap => (
                    "TOKEN_DENIED_FREQUENCY_CAP",
                    "frequency cap exceeded for this batch",
                ),
                TokenDeniedReason::NotAuthorized => (
                    "TOKEN_DENIED_NOT_AUTHORIZED",
                    "employee not authorized for this batch",
                ),
                TokenDeniedReason::BatchExpired => (
                    "TOKEN_DENIED_BATCH_EXPIRED",
                    "question batch has expired",
                ),
            };
            ApiError::TokenDenied { code: String::from_str(code), message: String::from_str(message) }
        },
        IssuerError::SigningFailed(inner) => ApiError::SigningFailed(inner.message()),
    }
}

/// The code of each reason for rejecting a response.
pub open spec fn rejection_code(reason: RejectReason) -> Seq<char> {
    match reason {
        RejectReason::InvalidSignature => "RESPONSE_INVALID_SIGNATURE"@,
        RejectReason::TokenExpired => "RESPONSE_TOKEN_EXPIRED"@,
        RejectReason::TokenAlreadySpent => "RESPONSE_TOKEN_ALREADY_SPENT"@,
        RejectReason::BatchMismatch => "RESPONSE_BATCH_MISMATCH"@,
        RejectReason::TenantMismatch => "RESPONSE_TENANT_MISMATCH"@,
        RejectReason::Malformed => "RESPONSE_MALFORMED"@,
    }
}

/// The message of each reason for rejecting a response.
pub open spec fn rejection_message(reason: RejectReason) -> Seq<char> {
    match reason {
        RejectReason::InvalidSignature => "blind signature verification failed"@,
        RejectReason::TokenExpired => "token has expired"@,
        RejectReason::TokenAlreadySpent => "token has already been used"@,
        RejectReason::BatchMismatch => "question batch ID does not match token"@,
        RejectReason::TenantMismatch => "tenant ID does not match token"@,
        RejectReason::Malformed => "token payload is malformed"@,
    }
}

/// The API error that answers each collector error.
pub open spec fn collector_error_answer(e: CollectorError, a: ApiError) -> bool {
    match e {
        CollectorError::Rejected(reason) => a matches ApiError::ResponseRejected { code, message }
            && code@ == rejection_code(reason) && message@ == rejection_message(reason),
    }
}

/// The API error for a collector error: a 422 with the rejection's code and
/// message.
pub fn map_collector_error(e: CollectorError) -> (r: ApiError)
    ensures
        collector_error_answer(e, r),
{
    match e {
        CollectorError::Rejected(reason) => {
            let (code, message) = match reason {
                RejectReason::InvalidSignature => (
                    "RESPONSE_INVALID_SIGNATURE",
                    "blind signature verification failed",
                ),
                RejectReason::TokenExpired => ("RESPONSE_TOKEN_EXPIRED", "token has expired"),
                RejectReason::TokenAlreadySpent => (
                    "RESPONSE_TOKEN_ALREADY_SPENT",
                    "token has already been used",
                ),
                RejectReason::BatchMismatch => (
                    "RESPONSE_BATCH_MISMATCH",
                    "question batch ID does not match token",
                ),
                RejectReason::TenantMismatch => (
                    "RESPONSE_TENANT_MISMATCH",
                    "tenant ID does not match token",
                ),
                RejectReason::Malformed => ("RESPONSE_MALFORMED", "token payload is malformed"),
            };
            ApiError::ResponseRejected {
                code: String::from_str(code),
                message: String::from_str(message),
            }
        },
    }
}

/// Shared state of both zones. In production the zones would share nothing
/// but the Token Issuer's public key; here they run in one process.
pub struct AppState {
    pub issuer: TokenIssuer,
    pub collector: ResponseCollector<InMemoryLedger, InMemoryStore>,
    pub question_batch_id: QuestionBatchId,
}

// ── Auth stub ──

/// An API key. Its debug form is redacted.
pub struct ApiKey(pub String);

impl ApiKey {
    /// Debug form: `ApiKey("[REDACTED]")`, whatever the key.
    pub fn debug_string(&self) -> (r: String)
        ensures
            r@ == "ApiKey(\"[REDACTED]\")"@,
    {
        String::from_str("ApiKey(\"[REDACTED]\")")
    }
}

/// Body of an authentication request.
pub struct AuthRequest {
    pub api_key: ApiKey,
}

/// Body of a successful authentication.
pub struct AuthResponse {
    pub employee_id: String,
    pub session_token: String,
}

/// Stub authentication: any non-empty API key is accepted and is the
/// employee's ID; the session token is the text of a fresh version-4 UUID.
/// An empty key is refused with `Unauthorized("missing api_key")`.
pub fn auth(req: &AuthRequest) -> (r: Result<AuthResponse, ApiError>)
    ensures
        r is Err <==> req.api_key.0@.len() == 0,
        r matches Err(e) ==> e == ApiError::Unauthorized(e->Unauthorized_0) && e->Unauthorized_0@
            == "missing api_key"@,
        r matches Ok(resp) ==> resp.employee_id@ == req.api_key.0@ && exists|v: u128|
            is_v4_uuid(v) && resp.session_token@ == uuid_text(v),
{
    if req.api_key.0.as_str().unicode_len() == 0 {
        return Err(ApiError::Unauthorized(String::from_str("missing api_key")));
    }
    Ok(AuthResponse { employee_id: req.api_key.0.clone(), session_token: new_session_token() })
}

// ── Question delivery ──

/// The question of the running batch: how work feels today, on a five-point
/// scale, never expiring, with no segments.
pub fn get_question(state: &AppState) -> (q: QuestionDelivery)
    ensures
        q.question_batch_id == state.question_batch_id,
        q.question_text.0@ == "How are you feeling about work today?"@,
        q.response_type is Scale5,
        q.expiry.0 == u64::MAX,
        q.segment_vector@.len() == 0,
{
    QuestionDelivery {
        question_batch_id: QuestionBatchId(state.question_batch_id.0),
        question_text: QuestionText::from_text("How are you feeling about work today?"),
        response_type: ResponseType::Scale5,
        expiry: UnixTimestamp(u64::MAX),
        segment_vector: Vec::new(),
    }
}

// ── Token signing ──

/// Body of a signing request.
pub struct SignRequest {
    pub employee_id: String,
    pub blinded_token: BlindedToken,
    pub question_batch_id: QuestionBatchId,
}

/// Sign a blinded token for an employee: the issuer signs and logs it, or
/// its error is answered as [`map_issuer_error`] says.
pub fn sign_token(state: &mut AppState, req: SignRequest) -> (r: Result<TokenResponse, ApiError>)
    ensures
        final(state).issuer.key() == old(state).issuer.key(),
        final(state).issuer.version() == old(state).issuer.version(),
        r is Ok <==> blind_signature_of(old(state).issuer.key(), req.blinded_token.0@) is Some,
        r matches Ok(resp) ==> {
            &&& blind_signature_of(old(state).issuer.key(), req.blinded_token.0@) == Some(
                resp.blind_signature.0@,
            )
            &&& resp.key_version.0 == old(state).issuer.version()
            &&& final(state).issuer.log().drop_last() == old(state).issuer.log()
            &&& final(state).issuer.log().len() == old(state).issuer.log().len() + 1
            &&& final(state).issuer.log().last().employee_id == req.employee_id@
            &&& final(state).issuer.log().last().question_batch_id == req.question_batch_id.0
        },
        r matches Err(e) ==> issuer_error_answer(
            IssuerError::SigningFailed(crate::blind_sig::BlindSigError::Signing),
            e,
        ) && final(state).issuer.log() == old(state).issuer.log(),
        final(state).collector == old(state).collector,
        final(state).question_batch_id == old(state).question_batch_id,
{
    let token_request = TokenRequest {
        blinded_token: req.blinded_token,
        question_batch_id: req.question_batch_id,
    };
    let employee_id = EmployeeId(req.employee_id);
    match state.issuer.sign_token(&employee_id, &token_request) {
        Ok(resp) => Ok(resp),
        Err(e) => Err(map_issuer_error(e)),
    }
}

// ── Response submission ──

/// What a submission received at `now` is answered, and what it does to the
/// collector: the collector's decision, answered as [`map_collector_error`]
/// says, with the token spent and the response stored as the collector does.
pub open spec fn submission_answered(
    before: ResponseCollector<InMemoryLedger, InMemoryStore>,
    after: ResponseCollector<InMemoryLedger, InMemoryStore>,
    submit: ResponseSubmit,
    token: Option<TokenPayload>,
    now: u64,
    r: Result<(), ApiError>,
) -> bool {
    let reason = rejection(submit, token, now, submission_signature_ok(before.key(), submit), before.spent());
    &&& after.key() == before.key()
    &&& match outcome(reason) {
        Ok(()) => r is Ok,
        Err(ce) => r matches Err(a) && collector_error_answer(ce, a),
    }
    &&& after.spent() == if reaches_ledger(reason) {
        before.spent().insert(sha256_digest(submit.token.0@))
    } else {
        before.spent()
    }
    &&& after.stored() == if r is Ok {
        before.stored().push(stored_view(submit, now))
    } else {
        before.stored()
    }
}

/// Accept an anonymous response, given its parsed token payload (`None`
/// when the token bytes do not parse). No authentication: the token is the
/// credential. The collector's decision at the time of receipt is answered
/// as [`map_collector_error`] says.
pub fn submit_response(state: &mut AppState, submit: &ResponseSubmit, token: Option<TokenPayload>) -> (r: Result<(), ApiError>)
    ensures
        exists|now: u64| #[trigger]
            submission_answered(old(state).collector, final(state).collector, *submit, token, now, r),
        final(state).collector.key() == old(state).collector.key(),
        final(state).issuer == old(state).issuer,
        final(state).question_batch_id == old(state).question_batch_id,
{
    let now = UnixTimestamp::now();
    let r = match state.collector.accept_at(submit, token, now) {
        Ok(()) => Ok(()),
        Err(e) => Err(map_collector_error(e)),
    };
    assert(submission_answered(old(state).collector, state.collector, *submit, token, now.0, r));
    r
}

// ── Debug listing ──

/// One stored response, as the debug listing shows it.
pub struct DebugResponseEntry {
    pub question_batch_id: QuestionBatchId,
    pub encrypted_blob_len: usize,
    pub received_at: UnixTimestamp,
}

/// The debug listing of stored responses.
pub struct DebugResponse {
    pub count: usize,
    pub responses: Vec<DebugResponseEntry>,
}

/// Whether a debug entry shows a stored response.
pub open spec fn entry_shows(e: DebugResponseEntry, s: StoredResponseView) -> bool {
    &&& e.question_batch_id.0 == s.question_batch_id
    &&& e.encrypted_blob_len == s.encrypted_blob.len()
    &&& e.received_at.0 == s.received_at
}

/// The stored encrypted responses (development only): how many, and for
/// each, oldest first, its batch, the length of its blob and when it came.
pub fn debug_responses(state: &AppState) -> (r: DebugResponse)
    ensures
        r.count == state.collector.stored().len(),
        r.responses@.len() == state.collector.stored().len(),
        forall|i: int|
            0 <= i < r.responses@.len() ==> #[trigger] entry_shows(
                r.responses@[i],
                state.collector.stored()[i],
            ),
{
    let stored = state.collector.store().list();
    let mut responses: Vec<DebugResponseEntry> = Vec::new();
    let mut i: usize = 0;
    while i < stored.len()
        invariant
            i <= stored@.len(),
            crate::store::response_views(stored@) == state.collector.stored(),
            responses@.len() == i,
            forall|j: int|
                0 <= j < i ==> #[trigger] entry_shows(responses@[j], state.collector.stored()[j]),
        decreases stored@.len() - i,
    {
        let s = &stored[i];
        proof {
            assert(crate::store::response_views(stored@)[i as int] == stored@[i as int]@);
        }
        responses.push(
            DebugResponseEntry {
                question_batch_id: QuestionBatchId(s.question_batch_id.0),
                encrypted_blob_len: s.encrypted_blob.0.len(),
                received_at: UnixTimestamp(s.received_at.0),
            },
        );
        i = i + 1;
    }
    DebugResponse { count: stored.len(), responses }
}

/// Replay is answered, not accepted: once a submission has been accepted,
/// submitting it again (with its token in scope and unexpired at that time)
/// is answered with a 422 `RESPONSE_TOKEN_ALREADY_SPENT` and stores nothing.
pub proof fn resubmission_is_already_spent(
    c0: ResponseCollector<InMemoryLedger, InMemoryStore>,
    c1: ResponseCollector<InMemoryLedger, InMemoryStore>,
    c2: ResponseCollector<InMemoryLedger, InMemoryStore>,
    submit: ResponseSubmit,
    token: Option<TokenPayload>,
    now: u64,
    r: Result<(), ApiError>,
    later_token: TokenPayload,
    later_now: u64,
    r2: Result<(), ApiError>,
)
    requires
        submission_answered(c0, c1, submit, token, now, r),
        r is Ok,
        submission_answered(c1, c2, submit, Some(later_token), later_now, r2),
        crate::collector::token_fields_pass(submit, later_token, later_now),
    ensures
        r2 matches Err(a) && api_error_status(a) == 422 && api_error_code(a) == "RESPONSE_TOKEN_ALREADY_SPENT"@,
        c2.stored() == c1.stored(),
{
}

} // verus!
