use pulse::blind_sig::{self, BlindSigError, MessageRandomizer, Signature};
use pulse::issuer::{EmployeeId, TokenIssuer};
use pulse::messages::TokenRequest;
use pulse::newtypes::{BlindedToken, KeyVersion, QuestionBatchId};


/// A fixed RSA-2048 test key (PKCS#8 DER), so that tests do not spend their
/// time searching for primes.
const TEST_KEY_DER: [u8; 1191] = [
    0x30, 0x82, 0x04, 0xa3, 0x02, 0x01, 0x00, 0x02, 0x82, 0x01, 0x01, 0x00, 0xdd, 0x8b, 0xe3, 0x75,
    0x03, 0x26, 0x0a, 0xbf, 0xed, 0x7b, 0x43, 0x80, 0x04, 0x04, 0xe0, 0xb0, 0x7c, 0xfa, 0x11, 0xc5,
    0x80, 0xed, 0xc5, 0x87, 0x93, 0x73, 0x16, 0xd4, 0x1b, 0xa2, 0x9c, 0xce, 0xfe, 0x26, 0x7e, 0xb0,
    0x52, 0x2c, 0xae, 0xe2, 0x89, 0xfd, 0xdb, 0xba, 0x75, 0x62, 0x57, 0x2b, 0x84, 0xa9, 0xb0, 0xeb,
    0xba, 0x42, 0x7c, 0xff, 0x5b, 0xd2, 0x3a, 0x71, 0xb4, 0x73, 0x6e, 0x2a, 0x73, 0xc6, 0x05, 0xa0,
    0xef, 0xb5, 0xde, 0x48, 0xe3, 0x73, 0xb5, 0xde, 0x31, 0x76, 0xe9, 0x60, 0xcd, 0xef, 0x93, 0x7d,
    0xe6, 0x67, 0xcc, 0x33, 0x1a, 0x6a, 0x6c, 0xe1, 0xc8, 0x6f, 0xd7, 0x8e, 0x75, 0x53, 0xda, 0x20,
    0x9b, 0x25, 0x01, 0x8c, 0xf3, 0x45, 0x84, 0xd7, 0x54, 0x85, 0xbb, 0xbe, 0x4a, 0x13, 0x90, 0x0a,
    0xab, 0xa2, 0x75, 0xd8, 0xdd, 0x5b, 0xd5, 0x5f, 0xfb, 0x6b, 0xa7, 0x21, 0x8f, 0xd4, 0xa4, 0x56,
    0xe2, 0x41, 0x03, 0x17, 0xdd, 0xda, 0x96, 0x51, 0x72, 0x12, 0x48, 0xbb, 0xc9, 0x26, 0x19, 0xbc,
    0x4a, 0x22, 0x22, 0xad, 0xeb, 0x99, 0x9b, 0x61, 0x15, 0xc5, 0x1c, 0x3a, 0xc9, 0xd8, 0x9d, 0x7b,
    0x76, 0x7b, 0x0d, 0x04, 0x32, 0x09, 0x2f, 0x2c, 0xbf, 0x6a, 0xf8, 0x3c, 0xd9, 0xa7, 0x27, 0xb0,
    0x19, 0x3d, 0x80, 0xed, 0x4e, 0x6d, 0x5a, 0x4d, 0x95, 0x92, 0xff, 0x53, 0x52, 0x87, 0x2d, 0x1b,
    0xa8, 0xd6, 0x25, 0x6f, 0x0b, 0x21, 0x0f, 0x15, 0xa3, 0xf1, 0x04, 0x27, 0xa5, 0xe3, 0xec, 0x25,
    0x53, 0x11, 0x7f, 0x4f, 0x56, 0xff, 0xbb, 0xf7, 0x61, 0x9e, 0x7b, 0x3e, 0x51, 0xe2, 0x25, 0x86,
    0x58, 0x0c, 0x52, 0xf7, 0xef, 0x32, 0x18, 0x77, 0xfd, 0x3c, 0x2f, 0x81, 0xe3, 0x00, 0xbe, 0xb8,
    0x54, 0x75, 0x21, 0x61, 0xd2, 0x21, 0x34, 0x4e, 0xd0, 0xcf, 0xc0, 0xa9, 0x02, 0x03, 0x01, 0x00,
    0x01, 0x02, 0x82, 0x01, 0x00, 0x0c, 0xe6, 0x44, 0x9e, 0xc7, 0x29, 0x87, 0x81, 0xf4, 0x12, 0x03,
    0xa4, 0xc0, 0x27, 0x28, 0x0d, 0x82, 0xa3, 0x5d, 0x56, 0x48, 0x7a, 0xdf, 0xaf, 0xd4, 0x8d, 0x24,
    0x90, 0xc2, 0x50, 0xaa, 0x2c, 0x6f, 0xb6, 0x1e, 0x55, 0x86, 0x1d, 0x59, 0xab, 0xf1, 0x50, 0xad,
    0x82, 0xea, 0x6b, 0x88, 0xcb, 0x8d, 0x00, 0x83, 0xdf, 0x7f, 0xd3, 0x77, 0xfb, 0x76, 0xd5, 0x53,
    0x67, 0x94, 0x34, 0x0d, 0xdf, 0xad, 0x28, 0xc4, 0x22, 0x62, 0x1e, 0xae, 0xe4, 0x03, 0xd1, 0x54,
    0x8f, 0x2c, 0xc6, 0x61, 0x91, 0x8c, 0x40, 0x15, 0x30, 0x85, 0x12, 0x39, 0x5c, 0xa6, 0xde, 0xb8,
    0x3a, 0xff, 0xbc, 0x8a, 0x5a, 0x9e, 0x38, 0x7d, 0x08, 0x7d, 0xbc, 0x0e, 0x7e, 0x6e, 0x5a, 0x37,
    0x81, 0x41, 0xa7, 0xbd, 0x3e, 0x17, 0xca, 0x52, 0x8e, 0x5a, 0x7e, 0xbd, 0xb9, 0x9c, 0x2e, 0xe9,
    0x0a, 0x3b, 0x05, 0x82, 0x40, 0x39, 0x67, 0x0e, 0xca, 0xb8, 0xec, 0x7d, 0x8b, 0x2e, 0x19, 0x18,
    0x16, 0x9f, 0xbb, 0x2f, 0x20, 0xfc, 0x15, 0xc3, 0x2e, 0x8a, 0x1d, 0xb5, 0x1d, 0x86, 0x5e, 0x30,
    0xdf, 0x4e, 0xdc, 0x70, 0x2a, 0xc8, 0x8b, 0xd6, 0x35, 0xeb, 0xb6, 0x06, 0x7e, 0xb3, 0x55, 0x4f,
    0x2a, 0xac, 0x00, 0x66, 0x61, 0x6b, 0xed, 0x1a, 0xe1, 0xeb, 0x68, 0x45, 0xb0, 0x33, 0xf7, 0x8b,
    0x11, 0xf6, 0x56, 0xdf, 0xef, 0x0e, 0x27, 0x9a, 0xc4, 0xbc, 0x32, 0x9f, 0x7a, 0xa4, 0xba, 0xe2,
    0x04, 0x02, 0x16, 0x28, 0xc6, 0x39, 0x42, 0x9f, 0xf7, 0x08, 0x63, 0xcf, 0x0d, 0x5b, 0x2e, 0x17,
    0xda, 0x5d, 0x88, 0xb8, 0xa6, 0xea, 0xd5, 0x46, 0xc9, 0xa8, 0xed, 0xb0, 0x76, 0x1d, 0xb8, 0x9d,
    0xfe, 0x21, 0xea, 0xf9, 0xa4, 0x47, 0x07, 0x41, 0x69, 0x25, 0xa9, 0x74, 0x15, 0x2e, 0xea, 0x8d,
    0xdf, 0xe0, 0xf3, 0x58, 0x41, 0x02, 0x81, 0x81, 0x00, 0xf1, 0xe0, 0x00, 0xd6, 0xa9, 0x0f, 0x3a,
    0xf1, 0x64, 0x0a, 0x8e, 0x5b, 0x0a, 0xd9, 0x02, 0xe4, 0x11, 0xd3, 0x51, 0x0a, 0xe3, 0x31, 0xa5,
    0x17, 0x7f, 0xe6, 0x86, 0xd2, 0x5a, 0x64, 0x94, 0x63, 0x76, 0x4d, 0x38, 0xbb, 0x50, 0x22, 0x9f,
    0x3c, 0x89, 0x16, 0xbb, 0xdf, 0x46, 0x11, 0x98, 0x01, 0xbe, 0x7c, 0x56, 0x22, 0x45, 0xd8, 0x81,
    0xc1, 0xab, 0xd1, 0x41, 0x13, 0x3f, 0xea, 0x7d, 0xbe, 0x77, 0xdc, 0xd0, 0x30, 0x1b, 0x37, 0xa2,
    0x97, 0x95, 0x2c, 0x09, 0x55, 0x0c, 0x1c, 0x45, 0x8c, 0x9a, 0x4d, 0xf3, 0x22, 0x03, 0x14, 0xe5,
    0x2d, 0xc6, 0x3e, 0xa0, 0x69, 0xbf, 0xcb, 0xf0, 0x3a, 0x27, 0x8a, 0x6a, 0x5c, 0xdb, 0xae, 0xc2,
    0x75, 0x04, 0x09, 0xce, 0xc4, 0xd0, 0x27, 0xdb, 0x07, 0x23, 0x15, 0x33, 0x48, 0xd3, 0x7b, 0xa3,
    0x42, 0xf0, 0xfc, 0x26, 0x30, 0xf6, 0xd2, 0x9f, 0xe9, 0x02, 0x81, 0x81, 0x00, 0xea, 0x7b, 0xf9,
    0xd9, 0x85, 0x21, 0xe2, 0x56, 0x37, 0x60, 0x80, 0x56, 0x6b, 0x20, 0xb1, 0xc4, 0x8c, 0x4f, 0xc9,
    0xfd, 0x44, 0x67, 0xef, 0x13, 0xa6, 0x76, 0x71, 0x10, 0x54, 0xa1, 0xbf, 0x2e, 0xaf, 0x9b, 0x46,
    0xb6, 0x1b, 0xcc, 0xa7, 0x53, 0x8f, 0x04, 0x50, 0x08, 0x45, 0x0a, 0x6b, 0xca, 0x58, 0x0a, 0x22,
    0x62, 0x9c, 0x24, 0x98, 0x17, 0x56, 0xc8, 0x9b, 0xea, 0x4b, 0xce, 0xa4, 0xec, 0xc2, 0x44, 0xa9,
    0x98, 0x8a, 0xd1, 0xc3, 0x52, 0x15, 0x79, 0x65, 0x64, 0xcf, 0x44, 0xa6, 0x06, 0x93, 0xad, 0x09,
    0x32, 0x1d, 0xbd, 0x6c, 0xfa, 0x65, 0x42, 0x6a, 0xf6, 0x97, 0x39, 0x9e, 0xb0, 0x5f, 0x90, 0x6b,
    0xbe, 0x09, 0xba, 0xf7, 0x8b, 0xf4, 0x71, 0x1b, 0x2a, 0x79, 0x24, 0x4b, 0x00, 0xcc, 0x13, 0xde,
    0x65, 0x87, 0x28, 0x1e, 0x89, 0x36, 0xd9, 0xc7, 0x8d, 0x81, 0x9e, 0x62, 0xc1, 0x02, 0x81, 0x81,
    0x00, 0xed, 0x35, 0xc3, 0x7c, 0xc2, 0x86, 0x66, 0x47, 0x30, 0xd6, 0xcd, 0x6f, 0xea, 0x3e, 0x94,
    0x00, 0x3a, 0x9f, 0x24, 0xde, 0xe9, 0x9b, 0xd9, 0x8e, 0x27, 0x68, 0x5d, 0x16, 0xd5, 0x81, 0xc8,
    0xa9, 0x96, 0xee, 0xfa, 0xd1, 0x71, 0x30, 0xd3, 0x3c, 0x1a, 0x32, 0x4a, 0x84, 0x19, 0x02, 0xce,
    0x31, 0xff, 0xaf, 0x8f, 0x05, 0xc3, 0xbc, 0x26, 0xdd, 0x5a, 0x75, 0x39, 0x3d, 0xf8, 0xb4, 0x2f,
    0x27, 0xea, 0x03, 0x8b, 0xc5, 0x72, 0x1b, 0xe9, 0x00, 0x82, 0x52, 0x92, 0xc0, 0x6e, 0xc5, 0x17,
    0x4c, 0x62, 0x54, 0x4a, 0x3b, 0x34, 0x0c, 0x7d, 0x0a, 0x9c, 0x5e, 0xf5, 0x11, 0x61, 0x01, 0x50,
    0x12, 0xa8, 0x8e, 0xad, 0xeb, 0x6d, 0xa3, 0x81, 0xa0, 0x23, 0x1a, 0xbf, 0x46, 0xf3, 0xe1, 0xf2,
    0x83, 0x98, 0x5b, 0x85, 0x55, 0x49, 0xda, 0xfa, 0x6d, 0x7f, 0x4b, 0xba, 0xe4, 0xd0, 0x5c, 0x16,
    0x69, 0x02, 0x81, 0x80, 0x75, 0x46, 0xb0, 0x7d, 0xd4, 0x92, 0x4f, 0xeb, 0xa3, 0x22, 0xc6, 0xcd,
    0x72, 0x23, 0x16, 0x06, 0x21, 0xcf, 0x3e, 0x4d, 0x47, 0xcb, 0x5b, 0xcd, 0xce, 0x31, 0xea, 0xf6,
    0xa9, 0xfd, 0x83, 0xeb, 0x4b, 0xb5, 0x33, 0xb6, 0x9d, 0x4c, 0xcc, 0x5b, 0x84, 0x6a, 0x39, 0xc5,
    0x09, 0x12, 0xdf, 0x3a, 0x82, 0xb1, 0xfe, 0xe4, 0xa7, 0x07, 0xbe, 0x71, 0xdd, 0xdb, 0xd3, 0xef,
    0x69, 0x1e, 0xdf, 0x69, 0xf2, 0xf7, 0xf8, 0x82, 0xec, 0xdb, 0x60, 0xff, 0x4a, 0xf2, 0x3e, 0x7e,
    0x1f, 0x14, 0x4c, 0x9d, 0x79, 0x7a, 0xcf, 0xe0, 0x9a, 0xf3, 0x44, 0xf0, 0x2f, 0x78, 0xfa, 0x9a,
    0x7e, 0xa4, 0x38, 0xf4, 0x29, 0xb7, 0xc7, 0xcb, 0x72, 0x7e, 0x6a, 0x95, 0x3b, 0x1a, 0xde, 0xe5,
    0x6d, 0x55, 0x73, 0x95, 0xe0, 0x7c, 0x07, 0x7d, 0x6c, 0x0d, 0xea, 0xc7, 0xe2, 0x01, 0x26, 0x47,
    0x66, 0x0e, 0xdb, 0x81, 0x02, 0x81, 0x80, 0x24, 0x81, 0x64, 0xaf, 0xe2, 0x45, 0x10, 0x1d, 0x57,
    0x0b, 0x7c, 0x58, 0xa7, 0x75, 0x72, 0x30, 0x12, 0x7c, 0x5b, 0xa9, 0x29, 0x8f, 0x44, 0xa7, 0x96,
    0x62, 0x0c, 0xe1, 0x4e, 0xae, 0x3a, 0xcd, 0xac, 0xf4, 0xb9, 0xc0, 0x5e, 0xf7, 0x20, 0x4b, 0xb4,
    0x42, 0x29, 0x64, 0x29, 0xad, 0x56, 0xd4, 0x2f, 0x93, 0xf5, 0x3e, 0xb0, 0x4b, 0x91, 0xc0, 0x94,
    0xe0, 0x2d, 0x64, 0x6f, 0x85, 0x28, 0x73, 0x22, 0xbc, 0xb6, 0x7e, 0x4f, 0xd2, 0x0c, 0x61, 0xce,
    0xa9, 0xaf, 0x3d, 0x28, 0xc0, 0x69, 0xd1, 0x45, 0x8a, 0x41, 0x52, 0x7c, 0xcd, 0xb5, 0x02, 0x53,
    0x17, 0x64, 0x4b, 0xf9, 0xc3, 0xe6, 0xd9, 0xdb, 0xf4, 0x81, 0xa7, 0xa2, 0x2b, 0x56, 0xa8, 0x0f,
    0xf0, 0xa8, 0x35, 0xc4, 0x84, 0x47, 0xfe, 0x51, 0xae, 0x19, 0x38, 0x3e, 0x5f, 0x83, 0xd9, 0x8f,
    0xff, 0xb2, 0xfd, 0x62, 0x5d, 0xc7, 0x09,
];

fn fixed_keypair() -> pulse::blind_sig::KeyPair {
    let sk = blind_rsa_signatures::SecretKey::from_der(&TEST_KEY_DER).unwrap();
    let pk = sk.public_key().unwrap();
    pulse::blind_sig::KeyPair {
        pk: pulse::blind_sig::BrssPublicKey(pk.to_der().unwrap()),
        sk: pulse::blind_sig::BrssSecretKey(sk.to_der().unwrap()),
    }
}

#[test]
fn blind_sign_finalize_verify() {
    let kp = fixed_keypair();
    let msg = b"token payload bytes";
    let blinding = blind_sig::blind(&kp.pk, msg).unwrap();
    let bsig = blind_sig::blind_sign(&kp.sk, &blinding.blind_message).unwrap();
    let sig = blind_sig::finalize(&kp.pk, &bsig, &blinding, msg).unwrap();
    assert_eq!(blind_sig::verify(&kp.pk, &sig, blinding.msg_randomizer, msg), Ok(()));
    assert_eq!(
        blind_sig::verify(&kp.pk, &sig, blinding.msg_randomizer, b"other bytes"),
        Err(BlindSigError::VerificationFailed)
    );
    assert_eq!(
        blind_sig::verify(&kp.pk, &Signature(vec![0xDE; 256]), None, msg),
        Err(BlindSigError::VerificationFailed)
    );
    assert_eq!(
        blind_sig::verify(&kp.pk, &sig, Some(MessageRandomizer([0u8; 32])), msg),
        Err(BlindSigError::VerificationFailed)
    );
}

#[test]
fn issuer_signs_and_logs() {
    let kp = fixed_keypair();
    let mut issuer = TokenIssuer::new(kp.sk, KeyVersion(4));
    let blinding = blind_sig::blind(&kp.pk, b"msg").unwrap();
    let req = TokenRequest {
        blinded_token: BlindedToken(blinding.blind_message.0.clone()),
        question_batch_id: QuestionBatchId(77),
    };
    let resp = match issuer.sign_token(&EmployeeId("employee-1".to_string()), &req) {
        Ok(r) => r,
        Err(_) => panic!("signing must succeed"),
    };
    assert_eq!(resp.key_version, KeyVersion(4));
    let sig = blind_sig::finalize(
        &kp.pk,
        &blind_sig::BlindSignature(resp.blind_signature.0.clone()),
        &blinding,
        b"msg",
    )
    .unwrap();
    assert_eq!(blind_sig::verify(&kp.pk, &sig, blinding.msg_randomizer, b"msg"), Ok(()));
    let log = issuer.issuance_log();
    assert_eq!(log.len(), 1);
    assert_eq!(log[0].employee_id, EmployeeId("employee-1".to_string()));
    assert_eq!(log[0].question_batch_id, QuestionBatchId(77));
}

#[test]
fn blind_sig_error_messages() {
    assert_eq!(BlindSigError::Signing.message(), "blind signing failed");
    assert_eq!(BlindSigError::VerificationFailed.message(), "verification failed");
}

/// A PEM public key decodes to the DER that the key exports; other text
/// decodes to nothing.
#[test]
fn public_key_from_pem_matches_der() {
    let sk = blind_rsa_signatures::SecretKey::from_der(&TEST_KEY_DER).unwrap();
    let pem = sk.public_key().unwrap().to_pem().unwrap();
    let der = sk.public_key().unwrap().to_der().unwrap();
    let pk = blind_sig::public_key_from_pem(&pem).unwrap();
    assert_eq!(pk.0, der);
    assert!(blind_sig::public_key_from_pem("not a key").is_none());
}

use pulse::client::{ClientError, PulseClient};
use pulse::newtypes::TenantId;
use pulse::token::{AttestationClass, TokenPayload};

/// The client blinds with the connected key and finalizes into a ready
/// token whose signature verifies; unconnected, both refuse.
#[test]
fn client_blinds_and_finalizes() {
    let kp = fixed_keypair();
    let unconnected = PulseClient::new((), String::new(), String::new());
    assert!(matches!(unconnected.blind_token(b"t"), Err(ClientError::Transport(_))));

    let client = PulseClient::with_config((), String::new(), String::new(), kp.pk.clone(), TenantId(1), KeyVersion(1));
    let payload = TokenPayload {
        nonce: [4u8; 32],
        question_batch_id: QuestionBatchId(2),
        tenant_id: TenantId(1),
        expiry: u64::MAX,
        segment_vector: vec![],
        attestation_class: AttestationClass::Personal,
        key_version: 1,
    };
    let bytes = b"payload-bytes".to_vec();
    let blinding = client.blind_token(&bytes).unwrap();
    let bsig = blind_sig::blind_sign(&kp.sk, &blinding.blind_message).unwrap();
    let ready = client.finalize_token(payload.clone(), bytes.clone(), &blinding, &bsig, KeyVersion(1)).unwrap();
    assert_eq!(ready.payload, payload);
    assert_eq!(ready.token_bytes.0, bytes);
    assert_eq!(ready.msg_randomizer, blinding.msg_randomizer.map(|r| r.0));
    let sig = blind_sig::Signature(ready.signature.0.clone());
    assert_eq!(blind_sig::verify(&kp.pk, &sig, blinding.msg_randomizer, &bytes), Ok(()));

    // A signature over something else does not finalize.
    let other = blind_sig::blind(&kp.pk, b"other").unwrap();
    let wrong = blind_sig::blind_sign(&kp.sk, &other.blind_message).unwrap();
    assert_eq!(
        client.finalize_token(payload, bytes, &blinding, &wrong, KeyVersion(1)).err(),
        Some(ClientError::Transport("finalization failed".to_string()))
    );
}

use pulse::client::server_config_from_body;

#[test]
fn public_key_of_secret_key() {
    let kp = fixed_keypair();
    assert_eq!(blind_sig::public_key_of(&kp.sk).unwrap().0, kp.pk.0);
    assert!(blind_sig::public_key_of(&blind_sig::BrssSecretKey(vec![1, 2, 3])).is_none());
}

#[test]
fn server_config_is_read_from_body() {
    let sk = blind_rsa_signatures::SecretKey::from_der(&TEST_KEY_DER).unwrap();
    let pem = sk.public_key().unwrap().to_pem().unwrap();
    let der = sk.public_key().unwrap().to_der().unwrap();
    let body = format!(
        "{{\"tenant_id\":\"a1a2a3a4-b1b2-c1c2-d1d2-d3d4d5d6d7d8\",\"key_version\":7,\"public_key_pem\":{}}}",
        serde_json::to_string(&pem).unwrap()
    );
    let c = server_config_from_body(body.as_bytes()).unwrap();
    assert_eq!(c.tenant_id, TenantId(0xa1a2a3a4b1b2c1c2d1d2d3d4d5d6d7d8));
    assert_eq!(c.key_version, KeyVersion(7));
    assert_eq!(c.public_key.0, der);
    let missing = br#"{"tenant_id":"a1a2a3a4-b1b2-c1c2-d1d2-d3d4d5d6d7d8"}"#;
    assert_eq!(
        server_config_from_body(missing).err(),
        Some(ClientError::Serialization("missing key_version".to_string()))
    );
    let bad = br#"{"tenant_id":"nope","key_version":1,"public_key_pem":"x"}"#;
    match server_config_from_body(bad) {
        Err(ClientError::Serialization(m)) => assert!(m.starts_with("invalid tenant_id: ")),
        _ => panic!("expected an invalid tenant"),
    }
    let bad_pem = br#"{"tenant_id":"a1a2a3a4-b1b2-c1c2-d1d2-d3d4d5d6d7d8","key_version":1,"public_key_pem":"x"}"#;
    assert_eq!(
        server_config_from_body(bad_pem).err(),
        Some(ClientError::Serialization("invalid public key PEM".to_string()))
    );
}
