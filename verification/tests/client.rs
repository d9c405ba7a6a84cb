use pulse::client::{check_error, ClientError, ReadyToken, TransportResponse};
use pulse::newtypes::{EncryptedBlob, KeyVersion, QuestionBatchId, SignatureBytes, TenantId, TokenBytes};
use pulse::token::{AttestationClass, TokenPayload};

#[test]
fn check_error_passes_success_statuses() {
    for status in [100u16, 200, 204, 302, 399] {
        assert_eq!(check_error(&TransportResponse { status, body: b"x".to_vec() }), Ok(()));
    }
}

#[test]
fn check_error_reports_server_errors() {
    let r = check_error(&TransportResponse { status: 400, body: b"bad request".to_vec() });
    assert_eq!(r, Err(ClientError::ServerError { status: 400, body: "bad request".to_string() }));
    let r = check_error(&TransportResponse { status: 503, body: vec![b'o', 0xFF, b'k'] });
    assert_eq!(r, Err(ClientError::ServerError { status: 503, body: "o\u{FFFD}k".to_string() }));
}

#[test]
fn submission_carries_token_and_scope() {
    let ready = ReadyToken {
        payload: TokenPayload {
            nonce: [1u8; 32],
            question_batch_id: QuestionBatchId(11),
            tenant_id: TenantId(22),
            expiry: 5,
            segment_vector: Vec::new(),
            attestation_class: AttestationClass::Group,
            key_version: 3,
        },
        token_bytes: TokenBytes(vec![1, 2, 3]),
        signature: SignatureBytes(vec![4, 5]),
        msg_randomizer: Some([9u8; 32]),
        key_version: KeyVersion(3),
    };
    let s = ready.build_submission(EncryptedBlob(vec![7]));
    assert_eq!(s.token.0, vec![1, 2, 3]);
    assert_eq!(s.signature.0, vec![4, 5]);
    assert_eq!(s.msg_randomizer, Some([9u8; 32]));
    assert_eq!(s.key_version, KeyVersion(3));
    assert_eq!(s.question_batch_id, QuestionBatchId(11));
    assert_eq!(s.tenant_id, TenantId(22));
    assert_eq!(s.response_blob.0, vec![7]);
    assert_eq!(ready.token_payload().expiry, 5);
}

use pulse::blind_sig::BrssPublicKey;
use pulse::client::{
    auth_refusal, signature_refusal, submission_refusal, token_payload_for, ErrorBody, PulseClient,
    ServerConfig,
};
use pulse::messages::{QuestionDelivery, ResponseType};
use pulse::newtypes::{QuestionText, SegmentLabel, UnixTimestamp};

fn body(code: Option<&str>, message: Option<&str>) -> Option<ErrorBody> {
    Some(ErrorBody { code: code.map(str::to_string), message: message.map(str::to_string) })
}

#[test]
fn auth_refusal_only_for_401() {
    let r = auth_refusal(&TransportResponse { status: 401, body: b"{\"code\":\"UNAUTHORIZED\"}".to_vec() });
    assert_eq!(r, Some(ClientError::AuthFailed("{\"code\":\"UNAUTHORIZED\"}".to_string())));
    assert_eq!(auth_refusal(&TransportResponse { status: 403, body: vec![] }), None);
    assert_eq!(auth_refusal(&TransportResponse { status: 200, body: vec![] }), None);
}

#[test]
fn signature_refusal_reads_code_and_message() {
    assert_eq!(
        signature_refusal(403, body(Some("TOKEN_DENIED_FREQUENCY_CAP"), Some("frequency cap exceeded for this batch"))),
        Some(ClientError::TokenDenied {
            code: "TOKEN_DENIED_FREQUENCY_CAP".to_string(),
            reason: "frequency cap exceeded for this batch".to_string(),
        })
    );
    assert_eq!(
        signature_refusal(422, body(None, None)),
        Some(ClientError::TokenDenied { code: "UNKNOWN".to_string(), reason: "unknown".to_string() })
    );
    assert_eq!(signature_refusal(403, None), None);
    assert_eq!(signature_refusal(500, body(Some("X"), Some("y"))), None);
}

#[test]
fn submission_refusal_only_for_422() {
    assert_eq!(
        submission_refusal(422, body(Some("RESPONSE_TOKEN_ALREADY_SPENT"), None)),
        Some(ClientError::ResponseRejected {
            code: "RESPONSE_TOKEN_ALREADY_SPENT".to_string(),
            reason: "unknown".to_string(),
        })
    );
    assert_eq!(submission_refusal(403, body(Some("X"), Some("y"))), None);
    assert_eq!(submission_refusal(422, None), None);
}

#[test]
fn client_connection_needs_config() {
    let mut client = PulseClient::new((), "http://id".to_string(), "http://sig".to_string());
    assert!(client.public_key().is_none());
    assert_eq!(
        client.connection().err(),
        Some(ClientError::Transport("not connected — call connect() first".to_string()))
    );
    client.set_config(&ServerConfig { tenant_id: TenantId(3), key_version: KeyVersion(2), public_key: BrssPublicKey(vec![5]) });
    assert_eq!(client.tenant_id(), Some(TenantId(3)));
    assert_eq!(client.key_version(), Some(KeyVersion(2)));
    let (pk, t, v) = client.connection().unwrap();
    assert_eq!(pk.0, vec![5]);
    assert_eq!((t, v), (TenantId(3), KeyVersion(2)));
    let c2 = PulseClient::with_config((), String::new(), String::new(), BrssPublicKey(vec![1]), TenantId(4), KeyVersion(9));
    assert!(c2.connection().is_ok());
}

#[test]
fn token_payload_takes_question_scope() {
    let q = QuestionDelivery {
        question_batch_id: QuestionBatchId(77),
        question_text: QuestionText::from_text("q"),
        response_type: ResponseType::Scale5,
        expiry: UnixTimestamp(1234),
        segment_vector: vec![SegmentLabel::from_text("company"), SegmentLabel::from_text("eng")],
    };
    let a = token_payload_for(&q, TenantId(8), AttestationClass::Hybrid, KeyVersion(2));
    let b = token_payload_for(&q, TenantId(8), AttestationClass::Hybrid, KeyVersion(2));
    assert_eq!(a.question_batch_id, QuestionBatchId(77));
    assert_eq!(a.tenant_id, TenantId(8));
    assert_eq!(a.expiry, 1234);
    assert_eq!(a.segment_vector, vec!["company".to_string(), "eng".to_string()]);
    assert_eq!(a.attestation_class, AttestationClass::Hybrid);
    assert_eq!(a.key_version, 2);
    assert_ne!(a.nonce, b.nonce);
}

use pulse::client::{error_body_from, session_from_body, submission_outcome};

#[test]
fn session_is_read_from_body() {
    let s = session_from_body(br#"{"employee_id":"e","session_token":"abc-123"}"#).unwrap();
    assert_eq!(s.session_token, "abc-123");
    assert_eq!(
        session_from_body(br#"{"session_token":5}"#).err(),
        Some(ClientError::Serialization("missing session_token".to_string()))
    );
    assert!(matches!(session_from_body(b"not json"), Err(ClientError::Serialization(_))));
}

#[test]
fn error_body_fields() {
    let b = error_body_from(br#"{"code":"RESPONSE_MALFORMED","message":"token payload is malformed"}"#).unwrap();
    assert_eq!(b.code.as_deref(), Some("RESPONSE_MALFORMED"));
    assert_eq!(b.message.as_deref(), Some("token payload is malformed"));
    let b = error_body_from(b"[1,2]").unwrap();
    assert!(b.code.is_none() && b.message.is_none());
    assert!(error_body_from(b"<html>").is_none());
}

#[test]
fn submission_outcomes() {
    assert_eq!(submission_outcome(&TransportResponse { status: 200, body: vec![] }), Ok(()));
    assert_eq!(
        submission_outcome(&TransportResponse {
            status: 422,
            body: br#"{"code":"RESPONSE_TOKEN_ALREADY_SPENT","message":"token has already been used"}"#.to_vec(),
        }),
        Err(ClientError::ResponseRejected {
            code: "RESPONSE_TOKEN_ALREADY_SPENT".to_string(),
            reason: "token has already been used".to_string(),
        })
    );
    assert_eq!(
        submission_outcome(&TransportResponse { status: 422, body: b"oops".to_vec() }),
        Err(ClientError::ServerError { status: 422, body: "oops".to_string() })
    );
    assert_eq!(
        submission_outcome(&TransportResponse { status: 204, body: vec![] }),
        Err(ClientError::ServerError { status: 204, body: String::new() })
    );
}
