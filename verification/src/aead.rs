//! AES-256-GCM authenticated encryption of response blobs.
//!
//! A sealed box is the 12-byte nonce followed by the AES-256-GCM ciphertext
//! (which carries its 16-byte tag at the end).
use vstd::prelude::*;

use aes_gcm::aead::{Aead, KeyInit};

use crate::newtypes::random_bytes_32;

verus! {

/// Why an AEAD operation failed.
#[derive(Debug, Clone, Copy, PartialEq, Eq)]
pub enum AeadError {
    Encryption,
    Decryption,
    InvalidKeyLength,
}

/// Largest plaintext AES-GCM accepts, in bytes: 2^36 - 32 (`aes_gcm::P_MAX`).
pub const AES_GCM_MAX_PLAINTEXT: u64 = 68719476704u64;

/// Length of the nonce that prefixes a sealed box.
pub const NONCE_LEN: usize = 12;

/// Length of the authentication tag that ends an AES-GCM ciphertext.
pub const TAG_LEN: usize = 16;

/// What `aes_gcm::Aes256Gcm::encrypt` returns for a key, a nonce and a
/// plaintext (no associated data).
pub uninterp spec fn aes256gcm_seal(key: Seq<u8>, nonce: Seq<u8>, plaintext: Seq<u8>) -> Seq<u8>;

/// What `aes_gcm::Aes256Gcm::decrypt` returns for a key, a nonce and a
/// ciphertext (no associated data): `None` when authentication fails.
pub uninterp spec fn aes256gcm_open(key: Seq<u8>, nonce: Seq<u8>, ciphertext: Seq<u8>) -> Option<Seq<u8>>;

/// The view of an optional byte vector.
pub open spec fn opt_bytes(o: Option<Vec<u8>>) -> Option<Seq<u8>> {
    match o {
        Some(v) => Some(v@),
        None => None,
    }
}

/// A sealed box under `nonce`: the nonce followed by the ciphertext.
pub open spec fn sealed_box(key: Seq<u8>, nonce: Seq<u8>, plaintext: Seq<u8>) -> Seq<u8> {
    nonce + aes256gcm_seal(key, nonce, plaintext)
}

/// Opening a sealed box: split off the 12-byte nonce, then authenticate and
/// decrypt the rest. Too short a box does not open.
pub open spec fn sealed_box_open(key: Seq<u8>, data: Seq<u8>) -> Option<Seq<u8>> {
    if data.len() < NONCE_LEN {
        None
    } else {
        aes256gcm_open(key, data.subrange(0, NONCE_LEN as int), data.subrange(NONCE_LEN as int, data.len() as int))
    }
}

/// `aes_gcm::Aes256Gcm::new(key).encrypt(nonce, plaintext)`.
///
/// Claims, from the crate's source: encryption fails exactly when the
/// plaintext is longer than `P_MAX`; the ciphertext is the plaintext's length
/// plus the 16-byte tag; and decrypting it under the same key and nonce gives
/// the plaintext back (AEAD correctness).
#[verifier::external_body]
fn aes256gcm_encrypt(key: &[u8; 32], nonce: &[u8; 12], plaintext: &[u8]) -> (r: Option<Vec<u8>>)
    ensures
        r is Some <==> plaintext@.len() <= AES_GCM_MAX_PLAINTEXT,
        r matches Some(c) ==> {
            &&& c@ == aes256gcm_seal(key@, nonce@, plaintext@)
            &&& c@.len() == plaintext@.len() + TAG_LEN
            &&& aes256gcm_open(key@, nonce@, c@) == Some(plaintext@)
        },
{
    let cipher = aes_gcm::Aes256Gcm::new(&(*key).into());
    cipher.encrypt(&(*nonce).into(), plaintext).ok()
}

/// `aes_gcm::Aes256Gcm::new(key).decrypt(nonce, ciphertext)`.
///
/// Claims that the result is the crate's decryption of the ciphertext, `None`
/// when authentication fails.
#[verifier::external_body]
fn aes256gcm_decrypt(key: &[u8; 32], nonce: &[u8], ciphertext: &[u8]) -> (r: Option<Vec<u8>>)
    requires
        nonce@.len() == NONCE_LEN,
    ensures
        opt_bytes(r) == aes256gcm_open(key@, nonce@, ciphertext@),
{
    let cipher = aes_gcm::Aes256Gcm::new(&(*key).into());
    let n: [u8; 12] = nonce.try_into().unwrap();
    cipher.decrypt(&n.into(), ciphertext).ok()
}

/// `rand::random::<[u8; 12]>()`: 12 random bytes. Nothing is claimed of them.
#[verifier::external_body]
fn random_bytes_12() -> (r: [u8; 12]) {
    rand::random::<[u8; 12]>()
}

/// Encrypt `plaintext` under `key` with a fresh random nonce.
///
/// Returns the nonce (12 bytes) followed by the ciphertext, which decrypts
/// back to `plaintext`. Fails only for a plaintext longer than
/// `AES_GCM_MAX_PLAINTEXT`.
pub fn encrypt(key: &[u8; 32], plaintext: &[u8]) -> (r: Result<Vec<u8>, AeadError>)
    ensures
        r is Ok <==> plaintext@.len() <= AES_GCM_MAX_PLAINTEXT,
        r matches Err(e) ==> e == AeadError::Encryption,
        r matches Ok(out) ==> {
            &&& out@.len() == NONCE_LEN + plaintext@.len() + TAG_LEN
            &&& out@ == sealed_box(key@, out@.subrange(0, NONCE_LEN as int), plaintext@)
            &&& sealed_box_open(key@, out@) == Some(plaintext@)
        },
{
    let nonce_bytes = random_bytes_12();
    match aes256gcm_encrypt(key, &nonce_bytes, plaintext) {
        None => Err(AeadError::Encryption),
        Some(ciphertext) => {
            let mut output: Vec<u8> = Vec::new();
            let mut i: usize = 0;
            while i < NONCE_LEN
                invariant
                    i <= NONCE_LEN,
                    output@ == nonce_bytes@.subrange(0, i as int),
                decreases NONCE_LEN - i,
            {
                output.push(nonce_bytes[i]);
                i = i + 1;
            }
            let mut j: usize = 0;
            while j < ciphertext.len()
                invariant
                    j <= ciphertext@.len(),
                    output@ == nonce_bytes@ + ciphertext@.subrange(0, j as int),
                decreases ciphertext@.len() - j,
            {
                output.push(ciphertext[j]);
                j = j + 1;
            }
            proof {
                assert(ciphertext@.subrange(0, ciphertext@.len() as int) == ciphertext@);
                assert(output@.subrange(0, NONCE_LEN as int) == nonce_bytes@);
                assert(output@.subrange(NONCE_LEN as int, output@.len() as int) == ciphertext@);
            }
            Ok(output)
        },
    }
}

/// Decrypt a sealed box produced by [`encrypt`]: the first 12 bytes are the
/// nonce, the rest the ciphertext.
///
/// Fails with `Decryption` for a box shorter than the nonce and for a box
/// whose authentication fails.
pub fn decrypt(key: &[u8; 32], nonce_and_ciphertext: &[u8]) -> (r: Result<Vec<u8>, AeadError>)
    ensures
        r is Ok <==> sealed_box_open(key@, nonce_and_ciphertext@) is Some,
        r matches Ok(p) ==> sealed_box_open(key@, nonce_and_ciphertext@) == Some(p@),
        r matches Err(e) ==> e == AeadError::Decryption,
{
    let n: usize = nonce_and_ciphertext.len();
    if n < NONCE_LEN {
        return Err(AeadError::Decryption);
    }
    let mut nonce: Vec<u8> = Vec::new();
    let mut ciphertext: Vec<u8> = Vec::new();
    let mut i: usize = 0;
    while i < n
        invariant
            n == nonce_and_ciphertext@.len(),
            NONCE_LEN <= n,
            i <= n,
            i <= NONCE_LEN ==> nonce@ == nonce_and_ciphertext@.subrange(0, i as int),
            i <= NONCE_LEN ==> ciphertext@.len() == 0,
            i > NONCE_LEN ==> nonce@ == nonce_and_ciphertext@.subrange(0, NONCE_LEN as int),
            i > NONCE_LEN ==> ciphertext@ == nonce_and_ciphertext@.subrange(NONCE_LEN as int, i as int),
        decreases n - i,
    {
        if i < NONCE_LEN {
            nonce.push(nonce_and_ciphertext[i]);
        } else {
            ciphertext.push(nonce_and_ciphertext[i]);
        }
        i = i + 1;
    }
    proof {
        if n == NONCE_LEN {
            assert(nonce_and_ciphertext@.subrange(NONCE_LEN as int, n as int) =~= Seq::<u8>::empty());
        }
        assert(nonce@ == nonce_and_ciphertext@.subrange(0, NONCE_LEN as int));
        assert(ciphertext@ == nonce_and_ciphertext@.subrange(NONCE_LEN as int, n as int));
    }
    match aes256gcm_decrypt(key, nonce.as_slice(), ciphertext.as_slice()) {
        Some(p) => Ok(p),
        None => Err(AeadError::Decryption),
    }
}

/// A fresh random 256-bit encryption key.
pub fn generate_key() -> (r: [u8; 32]) {
    random_bytes_32()
}

} // verus!
