use pulse::newtypes::{
    BlindSig, BlindedToken, EncryptedBlob, QuestionBatchId, SignatureBytes, TenantId, TokenBytes,
};

/// Sensitive types never leak their inner value through their debug form.
#[test]
fn sensitive_types_redact_debug() {
    let blinded = BlindedToken(vec![1, 2, 3]);
    let blind_sig = BlindSig(vec![4, 5, 6]);
    let token = TokenBytes(vec![7, 8, 9]);
    let sig = SignatureBytes(vec![10, 11, 12]);
    let blob = EncryptedBlob(vec![13, 14, 15]);

    for (debug_output, kind) in [
        (blinded.debug_string(), "BlindedToken"),
        (blind_sig.debug_string(), "BlindSig"),
        (token.debug_string(), "TokenBytes"),
        (sig.debug_string(), "SignatureBytes"),
        (blob.debug_string(), "EncryptedBlob"),
    ] {
        assert!(
            debug_output.contains("[REDACTED]"),
            "{kind} Debug must contain [REDACTED], got: {debug_output}"
        );
        assert!(
            !debug_output.contains("1,")
                && !debug_output.contains("4,")
                && !debug_output.contains("7,")
                && !debug_output.contains("10,")
                && !debug_output.contains("13,"),
            "{kind} Debug must not contain inner bytes, got: {debug_output}"
        );
    }
}

#[test]
fn sensitive_types_redact_display() {
    let blinded = BlindedToken(vec![1, 2, 3]);
    let blind_sig = BlindSig(vec![4, 5, 6]);
    let token = TokenBytes(vec![7, 8, 9]);
    let sig = SignatureBytes(vec![10, 11, 12]);
    let blob = EncryptedBlob(vec![13, 14, 15]);

    for (display_output, kind) in [
        (blinded.to_string(), "BlindedToken"),
        (blind_sig.to_string(), "BlindSig"),
        (token.to_string(), "TokenBytes"),
        (sig.to_string(), "SignatureBytes"),
        (blob.to_string(), "EncryptedBlob"),
    ] {
        assert!(
            display_output.contains("[REDACTED"),
            "{kind} Display must contain [REDACTED, got: {display_output}"
        );
    }
}

#[test]
fn safe_types_show_real_values_in_debug() {
    let batch = QuestionBatchId::new();
    let debug = format!("{batch:?}");
    assert!(
        !debug.contains("REDACTED"),
        "safe types must not be redacted"
    );
}

#[test]
fn redacted_forms_are_exact() {
    assert_eq!(BlindedToken(vec![9; 40]).debug_string(), "BlindedToken(\"[REDACTED]\")");
    assert_eq!(EncryptedBlob(vec![]).to_string(), "[REDACTED:EncryptedBlob]");
}

#[test]
fn uuid_text_is_hyphenated_lowercase_hex() {
    let id = QuestionBatchId::from_uuid(0xa1a2a3a4b1b2c1c2d1d2d3d4d5d6d7d8);
    assert_eq!(id.to_string(), "a1a2a3a4-b1b2-c1c2-d1d2-d3d4d5d6d7d8");
    assert_eq!(TenantId::from_uuid(0).to_string(), "00000000-0000-0000-0000-000000000000");
}

#[test]
fn new_ids_are_version_4() {
    let id = TenantId::new();
    assert_eq!((id.0 >> 76) & 0xf, 4);
    assert_eq!((id.0 >> 62) & 0x3, 2);
    let s = pulse::newtypes::new_session_token();
    assert_eq!(s.len(), 36);
    assert_eq!(s.as_bytes()[14], b'4');
}
