//! Client-side protocol values: session context, the finished token ready for
//! anonymous submission, transport responses and client errors.
use vstd::prelude::*;

use crate::blind_sig::{
    self, blind_sig_error_message, blind_signature_of, finalized_signature, is_blinding_of,
    secret_key_public_der, pem_public_key_der, randomizer_view,
    signature_verifies, BlindSignature, BlindingResult, BrssPublicKey,
};
use crate::messages::{QuestionDelivery, ResponseSubmit};
use crate::newtypes::{
    EncryptedBlob, KeyVersion, Nonce, QuestionBatchId, SignatureBytes, TenantId, TokenBytes,
};
use crate::token::{AttestationClass, TokenPayload};

verus! {

/// Session context returned after authentication.
pub struct SessionContext {
    pub session_token: String,
}

/// Server configuration: tenant, key version and public key.
pub struct ServerConfig {
    pub tenant_id: TenantId,
    pub key_version: KeyVersion,
    pub public_key: BrssPublicKey,
}

/// Errors of the client-side protocol flow.
#[derive(Debug, Clone, PartialEq, Eq)]
pub enum ClientError {
    Transport(String),
    Serialization(String),
    AuthFailed(String),
    TokenDenied { code: String, reason: String },
    ResponseRejected { code: String, reason: String },
    ServerError { status: u16, body: String },
}

/// An HTTP response as the transport hands it over.
pub struct TransportResponse {
    pub status: u16,
    pub body: Vec<u8>,
}

/// What `String::from_utf8_lossy` gives for a byte string.
pub uninterp spec fn utf8_lossy(bytes: Seq<u8>) -> Seq<char>;

/// `String::from_utf8_lossy(bytes).into_owned()`.
///
/// Claims that the text is std's lossy UTF-8 decoding of the bytes.
#[verifier::external_body]
fn utf8_lossy_string(bytes: &[u8]) -> (r: String)
    ensures
        r@ == utf8_lossy(bytes@),
{
    String::from_utf8_lossy(bytes).into_owned()
}

/// Turn an HTTP error status (400 and above) into `ServerError` carrying the
/// lossily decoded body; any other status passes.
pub fn check_error(resp: &TransportResponse) -> (r: Result<(), ClientError>)
    ensures
        resp.status < 400 ==> r is Ok,
        resp.status >= 400 ==> (r matches Err(ClientError::ServerError { status, body }) && status == resp.status && body@ == utf8_lossy(resp.body@)),
{
    if resp.status >= 400 {
        return Err(ClientError::ServerError { status: resp.status, body: utf8_lossy_string(resp.body.as_slice()) });
    }
    Ok(())
}

/// A token whose signature is unblinded and checked: ready to be spent in an
/// anonymous submission.
pub struct ReadyToken {
    /// The token payload.
    pub payload: TokenPayload,
    /// The payload's serialized bytes, over which the signature was made.
    pub token_bytes: TokenBytes,
    /// The unblinded signature.
    pub signature: SignatureBytes,
    /// The message randomizer used when blinding.
    pub msg_randomizer: Option<[u8; 32]>,
    /// The signing key version.
    pub key_version: KeyVersion,
}

impl ReadyToken {
    /// The token payload.
    pub fn token_payload(&self) -> (r: &TokenPayload)
        ensures
            *r == self.payload,
    {
        &self.payload
    }

    /// The anonymous submission of `response_blob` spending this token: the
    /// token bytes, signature, randomizer and key version, with the batch and
    /// tenant that the payload names.
    pub fn build_submission(&self, response_blob: EncryptedBlob) -> (r: ResponseSubmit)
        ensures
            r.token.0@ == self.token_bytes.0@,
            r.signature.0@ == self.signature.0@,
            r.msg_randomizer == self.msg_randomizer,
            r.key_version == self.key_version,
            r.question_batch_id == self.payload.question_batch_id,
            r.tenant_id == self.payload.tenant_id,
            r.response_blob == response_blob,
    {
        let token = self.token_bytes.0.clone();
        let signature = self.signature.0.clone();
        assert(token@ =~= self.token_bytes.0@);
        assert(signature@ =~= self.signature.0@);
        ResponseSubmit {
            token: TokenBytes(token),
            signature: SignatureBytes(signature),
            msg_randomizer: self.msg_randomizer,
            key_version: KeyVersion(self.key_version.0),
            question_batch_id: QuestionBatchId(self.payload.question_batch_id.0),
            tenant_id: TenantId(self.payload.tenant_id.0),
            response_blob,
        }
    }
}

/// The `code` and `message` fields of a JSON error body, as far as they are
/// strings; `None` for each that is missing or not a string.
pub struct ErrorBody {
    pub code: Option<String>,
    pub message: Option<String>,
}

/// A text field of an error body, or `fallback` where it is absent.
pub open spec fn field_or(field: Option<String>, fallback: Seq<char>) -> Seq<char> {
    match field {
        Some(s) => s@,
        None => fallback,
    }
}

fn text_or(field: Option<String>, fallback: &str) -> (r: String)
    ensures
        r@ == field_or(field, fallback@),
{
    match field {
        Some(s) => s,
        None => String::from_str(fallback),
    }
}

/// The refusal of an authentication: status 401 is `AuthFailed` with the
/// lossily decoded body; any other status is no refusal.
pub fn auth_refusal(resp: &TransportResponse) -> (r: Option<ClientError>)
    ensures
        resp.status != 401 ==> r is None,
        resp.status == 401 ==> (r matches Some(ClientError::AuthFailed(body)) && body@ == utf8_lossy(
            resp.body@,
        )),
{
    if resp.status == 401 {
        Some(ClientError::AuthFailed(utf8_lossy_string(resp.body.as_slice())))
    } else {
        None
    }
}

/// The refusal of a signing request: a 403 or 422 whose body parses as JSON
/// is `TokenDenied`, with its code (`UNKNOWN` if absent) and message
/// (`unknown` if absent). Anything else is no refusal here (other errors go
/// through [`check_error`]).
pub fn signature_refusal(status: u16, body: Option<ErrorBody>) -> (r: Option<ClientError>)
    ensures
        !((status == 403 || status == 422) && body is Some) ==> r is None,
        (status == 403 || status == 422) && body is Some ==> (r matches Some(
            ClientError::TokenDenied { code, reason },
        ) && code@ == field_or(body->0.code, "UNKNOWN"@) && reason@ == field_or(
            body->0.message,
            "unknown"@,
        )),
{
    if status == 403 || status == 422 {
        match body {
            Some(b) => Some(
                ClientError::TokenDenied {
                    code: text_or(b.code, "UNKNOWN"),
                    reason: text_or(b.message, "unknown"),
                },
            ),
            None => None,
        }
    } else {
        None
    }
}

/// The refusal of an anonymous submission: a 422 whose body parses as JSON
/// is `ResponseRejected`, with its code (`UNKNOWN` if absent) and message
/// (`unknown` if absent). Anything else is no refusal here.
pub fn submission_refusal(status: u16, body: Option<ErrorBody>) -> (r: Option<ClientError>)
    ensures
        !(status == 422 && body is Some) ==> r is None,
        status == 422 && body is Some ==> (r matches Some(
            ClientError::ResponseRejected { code, reason },
        ) && code@ == field_or(body->0.code, "UNKNOWN"@) && reason@ == field_or(
            body->0.message,
            "unknown"@,
        )),
{
    if status == 422 {
        match body {
            Some(b) => Some(
                ClientError::ResponseRejected {
                    code: text_or(b.code, "UNKNOWN"),
                    reason: text_or(b.message, "unknown"),
                },
            ),
            None => None,
        }
    } else {
        None
    }
}

/// The protocol client's connection: where the zones are and, once
/// connected, the server's tenant, key version and public key.
pub struct PulseClient<T> {
    pub transport: T,
    pub identity_url: String,
    pub signal_url: String,
    pub public_key: Option<BrssPublicKey>,
    pub tenant_id: Option<TenantId>,
    pub key_version: Option<KeyVersion>,
}

impl<T> PulseClient<T> {
    /// A client that is not connected yet.
    pub fn new(transport: T, identity_url: String, signal_url: String) -> (r: Self)
        ensures
            r.transport == transport,
            r.identity_url == identity_url,
            r.signal_url == signal_url,
            r.public_key is None,
            r.tenant_id is None,
            r.key_version is None,
    {
        PulseClient { transport, identity_url, signal_url, public_key: None, tenant_id: None, key_version: None }
    }

    /// A client with the server configuration already known.
    pub fn with_config(
        transport: T,
        identity_url: String,
        signal_url: String,
        public_key: BrssPublicKey,
        tenant_id: TenantId,
        key_version: KeyVersion,
    ) -> (r: Self)
        ensures
            r.transport == transport,
            r.identity_url == identity_url,
            r.signal_url == signal_url,
            r.public_key == Some(public_key),
            r.tenant_id == Some(tenant_id),
            r.key_version == Some(key_version),
    {
        PulseClient {
            transport,
            identity_url,
            signal_url,
            public_key: Some(public_key),
            tenant_id: Some(tenant_id),
            key_version: Some(key_version),
        }
    }

    /// The server's tenant, once connected.
    pub fn tenant_id(&self) -> (r: Option<TenantId>)
        ensures
            r == self.tenant_id,
    {
        self.tenant_id
    }

    /// The server's key version, once connected.
    pub fn key_version(&self) -> (r: Option<KeyVersion>)
        ensures
            r == self.key_version,
    {
        self.key_version
    }

    /// The server's public key, once connected.
    pub fn public_key(&self) -> (r: Option<&BrssPublicKey>)
        ensures
            r matches Some(k) ==> self.public_key == Some(*k),
            r is None <==> self.public_key is None,
    {
        match &self.public_key {
            Some(k) => Some(k),
            None => None,
        }
    }

    /// Record the configuration that the server announced.
    pub fn set_config(&mut self, config: &ServerConfig)
        ensures
            final(self).transport == old(self).transport,
            final(self).identity_url == old(self).identity_url,
            final(self).signal_url == old(self).signal_url,
            final(self).public_key matches Some(k) && k.0@ == config.public_key.0@,
            final(self).tenant_id == Some(config.tenant_id),
            final(self).key_version == Some(config.key_version),
    {
        self.tenant_id = Some(config.tenant_id);
        self.key_version = Some(config.key_version);
        let key = config.public_key.0.clone();
        assert(key@ =~= config.public_key.0@);
        self.public_key = Some(BrssPublicKey(key));
    }

    /// Blind the serialized token for the signer: the connected server's key
    /// blinds the bytes. Not connected is `Transport("not connected — call
    /// connect() first")`; a blinding failure is `Transport` with its
    /// description.
    pub fn blind_token(&self, token_bytes: &[u8]) -> (r: Result<BlindingResult, ClientError>)
        ensures
            !(self.public_key is Some && self.tenant_id is Some && self.key_version is Some) ==> (r matches Err(
                ClientError::Transport(m),
            ) && m@ == "not connected — call connect() first"@),
            r matches Ok(b) ==> b.msg_randomizer is Some,
            r matches Ok(b) ==> self.public_key matches Some(pk) && is_blinding_of(
                pk.0@,
                token_bytes@,
                b.blind_message.0@,
                b.secret@,
                randomizer_view(b.msg_randomizer),
            ),
            r matches Err(e) ==> e is Transport,
            (self.public_key is Some && self.tenant_id is Some && self.key_version is Some) ==> (
            r matches Err(e) ==> e == ClientError::Transport(e->Transport_0) && e->Transport_0@
                == blind_sig_error_message(blind_sig::BlindSigError::Blinding)),
    {
        let (pk, _tenant_id, _key_version) = self.connection()?;
        match blind_sig::blind(pk, token_bytes) {
            Ok(b) => Ok(b),
            Err(e) => Err(ClientError::Transport(e.message())),
        }
    }

    /// Unblind the server's signature into the ready token for `payload`,
    /// whose serialized bytes `token_bytes` were blinded as `blinding`. The
    /// signature is checked to verify under the connected server's key. Not
    /// connected is `Transport("not connected — call connect() first")`; a
    /// signature that does not unblind and verify is `Transport` with the
    /// finalization failure's description.
    pub fn finalize_token(
        &self,
        payload: TokenPayload,
        token_bytes: Vec<u8>,
        blinding: &BlindingResult,
        blind_signature: &BlindSignature,
        key_version: KeyVersion,
    ) -> (r: Result<ReadyToken, ClientError>)
        ensures
            !(self.public_key is Some && self.tenant_id is Some && self.key_version is Some) ==> (r matches Err(
                ClientError::Transport(m),
            ) && m@ == "not connected — call connect() first"@),
            (self.public_key is Some && self.tenant_id is Some && self.key_version is Some) ==> (r is Ok
                <==> finalized_signature(
                self.public_key.unwrap().0@,
                blind_signature.0@,
                blinding.secret@,
                randomizer_view(blinding.msg_randomizer),
                token_bytes@,
            ) is Some),
            r matches Ok(t) ==> {
                &&& self.public_key matches Some(pk) && finalized_signature(
                    pk.0@,
                    blind_signature.0@,
                    blinding.secret@,
                    randomizer_view(blinding.msg_randomizer),
                    token_bytes@,
                ) == Some(t.signature.0@)
                &&& self.public_key matches Some(pk) && signature_verifies(
                    pk.0@,
                    t.signature.0@,
                    randomizer_view(blinding.msg_randomizer),
                    token_bytes@,
                )
                &&& t.payload == payload
                &&& t.token_bytes.0@ == token_bytes@
                &&& randomizer_view(blinding.msg_randomizer) == match t.msg_randomizer {
                    Some(x) => Some(x@),
                    None => None::<Seq<u8>>,
                }
                &&& t.key_version == key_version
            },
            r matches Err(e) ==> e is Transport,
            (self.public_key is Some && self.tenant_id is Some && self.key_version is Some) ==> (
            r matches Err(e) ==> e == ClientError::Transport(e->Transport_0) && e->Transport_0@
                == blind_sig_error_message(blind_sig::BlindSigError::Finalization)),
    {
        let (pk, _tenant_id, _key_version) = self.connection()?;
        match blind_sig::finalize(pk, blind_signature, blinding, token_bytes.as_slice()) {
            Ok(sig) => {
                let msg_randomizer = match blinding.msg_randomizer {
                    Some(m) => Some(m.0),
                    None => None,
                };
                Ok(
                    ReadyToken {
                        payload,
                        token_bytes: TokenBytes(token_bytes),
                        signature: SignatureBytes(sig.0),
                        msg_randomizer,
                        key_version,
                    },
                )
            },
            Err(e) => Err(ClientError::Transport(e.message())),
        }
    }

    /// The configuration needed to blind or finalize a token: the public
    /// key, tenant and key version, or `Transport("not connected — call
    /// connect() first")` when any is missing.
    pub fn connection(&self) -> (r: Result<(&BrssPublicKey, TenantId, KeyVersion), ClientError>)
        ensures
            r is Ok <==> (self.public_key is Some && self.tenant_id is Some && self.key_version is Some),
            r matches Ok((k, t, v)) ==> self.public_key == Some(*k) && self.tenant_id == Some(t)
                && self.key_version == Some(v),
            r matches Err(e) ==> (e matches ClientError::Transport(m) && m@
                == "not connected — call connect() first"@),
    {
        let pk = match &self.public_key {
            Some(k) => k,
            None => return Err(ClientError::Transport(String::from_str("not connected — call connect() first"))),
        };
        let tenant_id = match self.tenant_id {
            Some(t) => t,
            None => return Err(ClientError::Transport(String::from_str("not connected — call connect() first"))),
        };
        let key_version = match self.key_version {
            Some(v) => v,
            None => return Err(ClientError::Transport(String::from_str("not connected — call connect() first"))),
        };
        Ok((pk, tenant_id, key_version))
    }
}

/// The texts of a question's segment labels.
pub open spec fn segment_texts(labels: Seq<crate::newtypes::SegmentLabel>) -> Seq<Seq<char>> {
    labels.map_values(|l: crate::newtypes::SegmentLabel| l.0@)
}

/// The token to blind for a question: a fresh random nonce, the question's
/// batch, expiry and segments, and the client's tenant, device class and key
/// version.
pub fn token_payload_for(
    question: &QuestionDelivery,
    tenant_id: TenantId,
    attestation_class: AttestationClass,
    key_version: KeyVersion,
) -> (t: TokenPayload)
    ensures
        t.question_batch_id == question.question_batch_id,
        t.tenant_id == tenant_id,
        t.expiry == question.expiry.0,
        t.segment_vector@.map_values(|s: String| s@) == segment_texts(question.segment_vector@),
        t.attestation_class == attestation_class,
        t.key_version == key_version.0,
{
    let mut segments: Vec<String> = Vec::new();
    let mut i: usize = 0;
    while i < question.segment_vector.len()
        invariant
            i <= question.segment_vector@.len(),
            segments@.map_values(|s: String| s@) == segment_texts(question.segment_vector@.take(i as int)),
        decreases question.segment_vector@.len() - i,
    {
        let label = question.segment_vector[i].0.clone();
        proof {
            assert(question.segment_vector@.take(i + 1) =~= question.segment_vector@.take(i as int).push(
                question.segment_vector@[i as int],
            ));
        }
        let ghost before = segments@;
        segments.push(label);
        proof {
            assert(segments@.map_values(|s: String| s@) =~= before.map_values(|s: String| s@).push(label@));
            assert(segment_texts(question.segment_vector@.take(i + 1)) =~= segment_texts(
                question.segment_vector@.take(i as int),
            ).push(question.segment_vector@[i as int].0@));
        }
        i = i + 1;
    }
    proof {
        assert(question.segment_vector@.take(i as int) =~= question.segment_vector@);
    }
    TokenPayload {
        nonce: Nonce::random().0,
        question_batch_id: QuestionBatchId(question.question_batch_id.0),
        tenant_id,
        expiry: question.expiry.0,
        segment_vector: segments,
        attestation_class,
        key_version: key_version.0,
    }
}

/// The view of an optional text.
pub open spec fn text_view(o: Option<String>) -> Option<Seq<char>> {
    match o {
        Some(t) => Some(t@),
        None => None,
    }
}

/// A text, or `fallback` where there is none.
pub open spec fn text_or_else(o: Option<Seq<char>>, fallback: Seq<char>) -> Seq<char> {
    match o {
        Some(t) => t,
        None => fallback,
    }
}

/// What `serde_json::from_slice::<serde_json::Value>(body)` gives, as far
/// as the client reads it: `None` when the body parses as JSON, the error's
/// text when it does not.
pub uninterp spec fn json_parse_error(body: Seq<u8>) -> Option<Seq<char>>;

/// What `serde_json::from_slice::<serde_json::Value>(body)` followed by
/// `value[key].as_str()` gives: the text under `key` when the body parses,
/// is an object, and holds a string there.
pub uninterp spec fn json_text_field_of(body: Seq<u8>, key: Seq<char>) -> Option<Seq<char>>;

/// What `serde_json::from_slice::<serde_json::Value>(body)` followed by
/// `value[key].as_u64()` gives.
pub uninterp spec fn json_u64_field_of(body: Seq<u8>, key: Seq<char>) -> Option<u64>;

/// What `uuid::Uuid::parse_str(text)` gives: the UUID's value, or the
/// error's text.
pub uninterp spec fn uuid_parse_of(text: Seq<char>) -> Result<u128, Seq<char>>;

/// `serde_json::from_slice::<serde_json::Value>(body)`, reduced to its
/// error's text.
///
/// Claims only that the result is serde_json's verdict on the bytes.
#[verifier::external_body]
fn json_error_text(body: &[u8]) -> (r: Option<String>)
    ensures
        text_view(r) == json_parse_error(body@),
{
    match serde_json::from_slice::<serde_json::Value>(body) {
        Ok(_) => None,
        Err(e) => Some(e.to_string()),
    }
}

/// `serde_json::from_slice::<serde_json::Value>(body)` then
/// `value[key].as_str()`.
///
/// Claims only that the result is serde_json's reading of the bytes.
#[verifier::external_body]
fn json_text_field(body: &[u8], key: &str) -> (r: Option<String>)
    ensures
        text_view(r) == json_text_field_of(body@, key@),
{
    let value: serde_json::Value = serde_json::from_slice(body).ok()?;
    value[key].as_str().map(str::to_string)
}

/// `serde_json::from_slice::<serde_json::Value>(body)` then
/// `value[key].as_u64()`.
///
/// Claims only that the result is serde_json's reading of the bytes.
#[verifier::external_body]
fn json_u64_field(body: &[u8], key: &str) -> (r: Option<u64>)
    ensures
        r == json_u64_field_of(body@, key@),
{
    let value: serde_json::Value = serde_json::from_slice(body).ok()?;
    value[key].as_u64()
}

/// `uuid::Uuid::parse_str(text)`, the UUID as its 128-bit value.
///
/// Claims only that the result is the crate's parse of the text.
#[verifier::external_body]
fn uuid_from_text(text: &str) -> (r: Result<u128, String>)
    ensures
        match r {
            Ok(v) => uuid_parse_of(text@) == Ok::<u128, Seq<char>>(v),
            Err(e) => uuid_parse_of(text@) == Err::<u128, Seq<char>>(e@),
        },
{
    match uuid::Uuid::parse_str(text) {
        Ok(u) => Ok(u.as_u128()),
        Err(e) => Err(e.to_string()),
    }
}

/// The server configuration that a `/config` response body announces: the
/// tenant (a UUID text under `tenant_id`), the key version (`key_version`,
/// cut to 32 bits) and the public key (a PEM text under `public_key_pem`),
/// or the text of the first thing that is wrong.
pub open spec fn server_config_of(body: Seq<u8>) -> Result<(u128, u32, Seq<u8>), Seq<char>> {
    match json_parse_error(body) {
        Some(e) => Err(e),
        None => match json_text_field_of(body, "tenant_id"@) {
            None => Err("missing tenant_id"@),
            Some(t) => match uuid_parse_of(t) {
                Err(e) => Err("invalid tenant_id: "@ + e),
                Ok(id) => match json_u64_field_of(body, "key_version"@) {
                    None => Err("missing key_version"@),
                    Some(kv) => match json_text_field_of(body, "public_key_pem"@) {
                        None => Err("missing public_key_pem"@),
                        Some(pem) => match pem_public_key_der(pem) {
                            None => Err("invalid public key PEM"@),
                            Some(der) => Ok((id, kv as u32, der)),
                        },
                    },
                },
            },
        },
    }
}

/// Read the server configuration from a `/config` response body, as
/// [`server_config_of`] says; every failure is a `Serialization` error.
pub fn server_config_from_body(body: &[u8]) -> (r: Result<ServerConfig, ClientError>)
    ensures
        match r {
            Ok(c) => server_config_of(body@) == Ok::<(u128, u32, Seq<u8>), Seq<char>>(
                (c.tenant_id.0, c.key_version.0, c.public_key.0@),
            ),
            Err(e) => e matches ClientError::Serialization(m) && server_config_of(body@) == Err::<
                (u128, u32, Seq<u8>),
                Seq<char>,
            >(m@),
        },
{
    if let Some(e) = json_error_text(body) {
        return Err(ClientError::Serialization(e));
    }
    let tenant_text = match json_text_field(body, "tenant_id") {
        Some(t) => t,
        None => return Err(ClientError::Serialization(String::from_str("missing tenant_id"))),
    };
    let tenant = match uuid_from_text(tenant_text.as_str()) {
        Ok(v) => v,
        Err(e) => {
            return Err(
                ClientError::Serialization(String::from_str("invalid tenant_id: ").concat(e.as_str())),
            )
        },
    };
    let kv = match json_u64_field(body, "key_version") {
        Some(v) => v,
        None => return Err(ClientError::Serialization(String::from_str("missing key_version"))),
    };
    let pem = match json_text_field(body, "public_key_pem") {
        Some(p) => p,
        None => return Err(ClientError::Serialization(String::from_str("missing public_key_pem"))),
    };
    let public_key = match blind_sig::public_key_from_pem(pem.as_str()) {
        Some(k) => k,
        None => return Err(ClientError::Serialization(String::from_str("invalid public key PEM"))),
    };
    Ok(ServerConfig { tenant_id: TenantId(tenant), key_version: KeyVersion(kv as u32), public_key })
}

/// The session that an `/auth` response body grants: the text under
/// `session_token`, or the text of what is wrong.
pub open spec fn session_of(body: Seq<u8>) -> Result<Seq<char>, Seq<char>> {
    match json_parse_error(body) {
        Some(e) => Err(e),
        None => match json_text_field_of(body, "session_token"@) {
            None => Err("missing session_token"@),
            Some(t) => Ok(t),
        },
    }
}

/// Read the session from an `/auth` response body, as [`session_of`] says;
/// every failure is a `Serialization` error.
pub fn session_from_body(body: &[u8]) -> (r: Result<SessionContext, ClientError>)
    ensures
        match r {
            Ok(s) => session_of(body@) == Ok::<Seq<char>, Seq<char>>(s.session_token@),
            Err(e) => e matches ClientError::Serialization(m) && session_of(body@) == Err::<
                Seq<char>,
                Seq<char>,
            >(m@),
        },
{
    if let Some(e) = json_error_text(body) {
        return Err(ClientError::Serialization(e));
    }
    match json_text_field(body, "session_token") {
        Some(t) => Ok(SessionContext { session_token: t }),
        None => Err(ClientError::Serialization(String::from_str("missing session_token"))),
    }
}

/// The `code` and `message` of an error body: `None` when the body is not
/// JSON; otherwise each field that is a string.
pub fn error_body_from(body: &[u8]) -> (r: Option<ErrorBody>)
    ensures
        r is Some <==> json_parse_error(body@) is None,
        r matches Some(b) ==> text_view(b.code) == json_text_field_of(body@, "code"@) && text_view(
            b.message,
        ) == json_text_field_of(body@, "message"@),
{
    if let Some(_) = json_error_text(body) {
        return None;
    }
    Some(ErrorBody { code: json_text_field(body, "code"), message: json_text_field(body, "message") })
}

/// The outcome of an anonymous submission from the Signal zone's response:
/// 200 is success; a 422 whose body parses as JSON is `ResponseRejected`
/// with its code (`UNKNOWN` if absent) and message (`unknown` if absent);
/// anything else is `ServerError` with the status and the lossily decoded
/// body.
pub fn submission_outcome(resp: &TransportResponse) -> (r: Result<(), ClientError>)
    ensures
        resp.status == 200 <==> r is Ok,
        resp.status == 422 && json_parse_error(resp.body@) is None ==> (r matches Err(
            ClientError::ResponseRejected { code, reason },
        ) && code@ == text_or_else(json_text_field_of(resp.body@, "code"@), "UNKNOWN"@) && reason@
            == text_or_else(json_text_field_of(resp.body@, "message"@), "unknown"@)),
        resp.status != 200 && !(resp.status == 422 && json_parse_error(resp.body@) is None) ==> (
        r matches Err(ClientError::ServerError { status, body }) && status == resp.status && body@
            == utf8_lossy(resp.body@)),
{
    if resp.status == 200 {
        return Ok(());
    }
    let parsed = error_body_from(resp.body.as_slice());
    match submission_refusal(resp.status, parsed) {
        Some(e) => Err(e),
        None => Err(
            ClientError::ServerError { status: resp.status, body: utf8_lossy_string(resp.body.as_slice()) },
        ),
    }
}

/// The client's token flow goes through: a token that `blind_token`
/// blinded under the connected key, once the matching secret key has
/// blind-signed it, is finalized by `finalize_token` over the very token
/// bytes that were blinded.
pub proof fn blinded_tokens_finalize<T>(
    client: PulseClient<T>,
    sk: Seq<u8>,
    token_bytes: Seq<u8>,
    blinding: BlindingResult,
    blind_sig: Seq<u8>,
)
    requires
        client.public_key matches Some(pk) && is_blinding_of(
            pk.0@,
            token_bytes,
            blinding.blind_message.0@,
            blinding.secret@,
            randomizer_view(blinding.msg_randomizer),
        ),
        secret_key_public_der(sk) == Some(client.public_key.unwrap().0@),
        blind_signature_of(sk, blinding.blind_message.0@) == Some(blind_sig),
    ensures
        finalized_signature(
            client.public_key.unwrap().0@,
            blind_sig,
            blinding.secret@,
            randomizer_view(blinding.msg_randomizer),
            token_bytes,
        ) is Some,
{
}

} // verus!
