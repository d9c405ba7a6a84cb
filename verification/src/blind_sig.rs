//! RSA blind signatures (RFC 9474, RSABSSA-SHA384-PSS-Randomized) over the
//! `blind-rsa-signatures` crate.
//!
//! Keys are held as DER: a public key in SubjectPublicKeyInfo form, a secret
//! key in PKCS#8 form.
use vstd::prelude::*;

use blind_rsa_signatures as brsa;

verus! {

/// RSA public key (DER).
#[derive(Clone, PartialEq, Eq)]
pub struct BrssPublicKey(pub Vec<u8>);

/// RSA secret key (PKCS#8 DER).
#[derive(Clone)]
pub struct BrssSecretKey(pub Vec<u8>);

/// A freshly generated key pair.
pub struct KeyPair {
    pub pk: BrssPublicKey,
    pub sk: BrssSecretKey,
}

/// A blinded message, sent to the signer.
#[derive(Clone, PartialEq, Eq)]
pub struct BlindMessage(pub Vec<u8>);

/// A signature over a blinded message.
#[derive(Clone, PartialEq, Eq)]
pub struct BlindSignature(pub Vec<u8>);

/// An ordinary (unblinded) signature.
#[derive(Clone, PartialEq, Eq)]
pub struct Signature(pub Vec<u8>);

/// The random prefix mixed into the message before hashing.
#[derive(Clone, Copy, PartialEq, Eq)]
pub struct MessageRandomizer(pub [u8; 32]);

/// What blinding produces: the blinded message for the signer, and the
/// client-side secrets needed to finalize.
pub struct BlindingResult {
    pub blind_message: BlindMessage,
    pub secret: Vec<u8>,
    pub msg_randomizer: Option<MessageRandomizer>,
}

/// Why a blind-signature operation failed.
#[derive(Debug, Clone, Copy, PartialEq, Eq)]
pub enum BlindSigError {
    KeyGeneration,
    Blinding,
    Signing,
    Finalization,
    VerificationFailed,
}

impl BlindSigError {
    /// Human-readable description.
    pub fn message(&self) -> (r: String)
        ensures
            r@ == blind_sig_error_message(*self),
    {
        match self {
            BlindSigError::KeyGeneration => String::from_str("key generation failed"),
            BlindSigError::Blinding => String::from_str("blinding failed"),
            BlindSigError::Signing => String::from_str("blind signing failed"),
            BlindSigError::Finalization => String::from_str("finalization failed"),
            BlindSigError::VerificationFailed => String::from_str("verification failed"),
        }
    }
}

/// The description of each error.
pub open spec fn blind_sig_error_message(e: BlindSigError) -> Seq<char> {
    match e {
        BlindSigError::KeyGeneration => "key generation failed"@,
        BlindSigError::Blinding => "blinding failed"@,
        BlindSigError::Signing => "blind signing failed"@,
        BlindSigError::Finalization => "finalization failed"@,
        BlindSigError::VerificationFailed => "verification failed"@,
    }
}

/// The view of an optional randomizer.
pub open spec fn randomizer_view(r: Option<MessageRandomizer>) -> Option<Seq<u8>> {
    match r {
        Some(m) => Some(m.0@),
        None => None,
    }
}

/// Whether `PublicKey::from_der(pk)` followed by `verify(sig, randomizer, msg,
/// &Options::default())` succeeds.
pub uninterp spec fn signature_verifies(pk: Seq<u8>, sig: Seq<u8>, randomizer: Option<Seq<u8>>, msg: Seq<u8>) -> bool;

/// What `SecretKey::from_der(sk)` followed by `blind_sign(blind_msg)` returns.
pub uninterp spec fn blind_signature_of(sk: Seq<u8>, blind_msg: Seq<u8>) -> Option<Seq<u8>>;

/// What `PublicKey::from_pem(pem)` followed by `to_der()` gives: the DER of
/// the public key that the PEM text holds, if it holds one.
pub uninterp spec fn pem_public_key_der(pem: Seq<char>) -> Option<Seq<u8>>;

/// `PublicKey::from_pem(pem)` followed by `to_der()`.
///
/// Claims only that the result is the crate's decoding of the text: a
/// function of the text alone.
#[verifier::external_body]
fn rsa_public_der_from_pem(pem: &str) -> (r: Option<Vec<u8>>)
    ensures
        match r {
            Some(d) => pem_public_key_der(pem@) == Some(d@),
            None => pem_public_key_der(pem@) is None,
        },
{
    brsa::PublicKey::from_pem(pem).ok()?.to_der().ok()
}

/// What `SecretKey::from_der(sk)` followed by `public_key()` and `to_der()`
/// gives: the DER of the public half of the secret key.
pub uninterp spec fn secret_key_public_der(sk: Seq<u8>) -> Option<Seq<u8>>;

/// `SecretKey::from_der(sk)` followed by `public_key()` and `to_der()`.
///
/// Claims only that the result is the crate's computation on the bytes.
#[verifier::external_body]
fn rsa_public_der_of_secret(sk: &[u8]) -> (r: Option<Vec<u8>>)
    ensures
        opt_seq(r) == secret_key_public_der(sk@),
{
    brsa::SecretKey::from_der(sk).ok()?.public_key().ok()?.to_der().ok()
}

/// `KeyPair::generate(&mut DefaultRng, 2048)`, both keys exported as DER.
///
/// The keys are random. Claimed, from the crate's source: the public key is
/// the public half of the secret key (`generate` derives it with
/// `sk.public_key()`), so decoding the secret key's DER and deriving its
/// public key gives the same DER.
#[verifier::external_body]
fn rsa_generate_der() -> (r: Option<(Vec<u8>, Vec<u8>)>)
    ensures
        r matches Some((pk, sk)) ==> secret_key_public_der(sk@) == Some(pk@),
{
    let kp = brsa::KeyPair::generate(&mut brsa::DefaultRng, 2048).ok()?;
    Some((kp.pk.to_der().ok()?, kp.sk.to_der().ok()?))
}

/// Whether `blind_message` with `secret` and `randomizer` is a blinding of
/// `msg` for the key `pk`: whatever secret key has `pk` as its public half,
/// its blind signature of `blind_message` unblinds (with `secret` and
/// `randomizer`) into a signature over `msg` that `finalize` accepts.
pub open spec fn is_blinding_of(
    pk: Seq<u8>,
    msg: Seq<u8>,
    blind_message: Seq<u8>,
    secret: Seq<u8>,
    randomizer: Option<Seq<u8>>,
) -> bool {
    forall|sk: Seq<u8>| #[trigger]
        secret_key_public_der(sk) == Some(pk) ==> (blind_signature_of(sk, blind_message) matches Some(
            bs,
        ) ==> finalized_signature(pk, bs, secret, randomizer, msg) is Some)
}

/// `PublicKey::from_der(pk)` followed by `blind(&mut DefaultRng, msg, true,
/// &Options::default())`: blinded message, blinding secret, randomizer.
///
/// The values are random. Claimed, from the crate's source: a randomizer is
/// produced (the message is randomized), and the result is a blinding of
/// `msg` itself: the PSS encoding of the randomized `msg` times `r^e`, so
/// that the signer's `blind_msg^d`, unblinded with `r^-1`, is a valid
/// signature over `msg` (`finalize` then passes its `verify`).
#[verifier::external_body]
fn rsa_blind(pk: &[u8], msg: &[u8]) -> (r: Option<(Vec<u8>, Vec<u8>, [u8; 32])>)
    ensures
        r matches Some((m, secret, rnd)) ==> is_blinding_of(pk@, msg@, m@, secret@, Some(rnd@)),
{
    let key = brsa::PublicKey::from_der(pk).ok()?;
    let b = key.blind(&mut brsa::DefaultRng, msg, true, &brsa::Options::default()).ok()?;
    Some((b.blind_msg.0, b.secret.0, b.msg_randomizer?.0))
}

/// `SecretKey::from_der(sk)` followed by `blind_sign(&mut DefaultRng,
/// blind_msg, &Options::default())`.
///
/// Claims that the result is the crate's blind signature for the key and the
/// blinded message (RSA signing of the blinded value, which is one value
/// whatever the random blinding used inside the computation).
#[verifier::external_body]
fn rsa_blind_sign(sk: &[u8], blind_msg: &[u8]) -> (r: Option<Vec<u8>>)
    ensures
        match r {
            Some(s) => blind_signature_of(sk@, blind_msg@) == Some(s@),
            None => blind_signature_of(sk@, blind_msg@) is None,
        },
{
    let key = brsa::SecretKey::from_der(sk).ok()?;
    let sig = key.blind_sign(&mut brsa::DefaultRng, blind_msg, &brsa::Options::default()).ok()?;
    Some(sig.0)
}

/// What `PublicKey::from_der(pk)` followed by `finalize(blind_sig, secret,
/// randomizer, msg, &Options::default())` gives: the unblinded signature,
/// or `None` when the key does not parse or the result does not verify.
pub uninterp spec fn finalized_signature(
    pk: Seq<u8>,
    blind_sig: Seq<u8>,
    secret: Seq<u8>,
    randomizer: Option<Seq<u8>>,
    msg: Seq<u8>,
) -> Option<Seq<u8>>;

/// `PublicKey::from_der(pk)` followed by `finalize(blind_sig, secret,
/// randomizer, msg, &Options::default())`.
///
/// Claims, from the crate's source, that the result is the crate's
/// (deterministic) unblinding of the arguments, and that a signature is
/// returned only after it passed `verify` for the same key, randomizer and
/// message.
#[verifier::external_body]
fn rsa_finalize(pk: &[u8], blind_sig: &[u8], secret: &[u8], randomizer: Option<[u8; 32]>, msg: &[u8]) -> (r: Option<Vec<u8>>)
    ensures
        opt_seq(r) == finalized_signature(pk@, blind_sig@, secret@, match randomizer { Some(x) => Some(x@), None => None }, msg@),
        r matches Some(s) ==> signature_verifies(pk@, s@, match randomizer { Some(x) => Some(x@), None => None }, msg@),
{
    let key = brsa::PublicKey::from_der(pk).ok()?;
    let bs = brsa::BlindSignature(blind_sig.to_vec());
    let sec = brsa::Secret(secret.to_vec());
    let rnd = randomizer.map(brsa::MessageRandomizer);
    key.finalize(&bs, &sec, rnd, msg, &brsa::Options::default()).ok().map(|s| s.0)
}

/// `PublicKey::from_der(pk)` followed by `verify(sig, randomizer, msg,
/// &Options::default())`: whether the signature is valid.
#[verifier::external_body]
fn rsa_verify(pk: &[u8], sig: &[u8], randomizer: Option<[u8; 32]>, msg: &[u8]) -> (r: bool)
    ensures
        r == signature_verifies(pk@, sig@, match randomizer { Some(x) => Some(x@), None => None }, msg@),
{
    let Ok(key) = brsa::PublicKey::from_der(pk) else { return false };
    let rnd = randomizer.map(brsa::MessageRandomizer);
    key.verify(&brsa::Signature(sig.to_vec()), rnd, msg, &brsa::Options::default()).is_ok()
}

/// The public key of a secret key, `None` when the bytes hold no valid RSA
/// secret key.
pub fn public_key_of(sk: &BrssSecretKey) -> (r: Option<BrssPublicKey>)
    ensures
        r is Some <==> secret_key_public_der(sk.0@) is Some,
        r matches Some(k) ==> secret_key_public_der(sk.0@) == Some(k.0@),
{
    match rsa_public_der_of_secret(sk.0.as_slice()) {
        Some(d) => Some(BrssPublicKey(d)),
        None => None,
    }
}

/// Generate a fresh RSA-2048 key pair: the public key is the public half of
/// the secret key.
pub fn generate_keypair() -> (r: Result<KeyPair, BlindSigError>)
    ensures
        r matches Ok(kp) ==> secret_key_public_der(kp.sk.0@) == Some(kp.pk.0@),
        r matches Err(e) ==> e == BlindSigError::KeyGeneration,
{
    match rsa_generate_der() {
        Some((pk, sk)) => Ok(KeyPair { pk: BrssPublicKey(pk), sk: BrssSecretKey(sk) }),
        None => Err(BlindSigError::KeyGeneration),
    }
}

/// Blind `msg` for the signer whose public key is `pk`. The message is
/// randomized, so the result carries a randomizer.
pub fn blind(pk: &BrssPublicKey, msg: &[u8]) -> (r: Result<BlindingResult, BlindSigError>)
    ensures
        r matches Ok(b) ==> b.msg_randomizer is Some,
        r matches Ok(b) ==> is_blinding_of(
            pk.0@,
            msg@,
            b.blind_message.0@,
            b.secret@,
            randomizer_view(b.msg_randomizer),
        ),
        r matches Err(e) ==> e == BlindSigError::Blinding,
{
    match rsa_blind(pk.0.as_slice(), msg) {
        Some((m, secret, rnd)) => Ok(BlindingResult {
            blind_message: BlindMessage(m),
            secret,
            msg_randomizer: Some(MessageRandomizer(rnd)),
        }),
        None => Err(BlindSigError::Blinding),
    }
}

/// Sign a blinded message (the signer never sees the message itself).
pub fn blind_sign(sk: &BrssSecretKey, blind_msg: &BlindMessage) -> (r: Result<BlindSignature, BlindSigError>)
    ensures
        r is Ok <==> blind_signature_of(sk.0@, blind_msg.0@) is Some,
        r matches Ok(s) ==> blind_signature_of(sk.0@, blind_msg.0@) == Some(s.0@),
        r matches Err(e) ==> e == BlindSigError::Signing,
{
    match rsa_blind_sign(sk.0.as_slice(), blind_msg.0.as_slice()) {
        Some(s) => Ok(BlindSignature(s)),
        None => Err(BlindSigError::Signing),
    }
}

/// The view of an optional byte vector.
pub open spec fn opt_seq(o: Option<Vec<u8>>) -> Option<Seq<u8>> {
    match o {
        Some(v) => Some(v@),
        None => None,
    }
}

/// Unblind a blind signature into an ordinary signature over `msg`; the
/// result is checked to verify under `pk`.
pub fn finalize(pk: &BrssPublicKey, blind_sig: &BlindSignature, blinding: &BlindingResult, msg: &[u8]) -> (r: Result<Signature, BlindSigError>)
    ensures
        r is Ok <==> finalized_signature(pk.0@, blind_sig.0@, blinding.secret@, randomizer_view(blinding.msg_randomizer), msg@) is Some,
        r matches Ok(s) ==> finalized_signature(pk.0@, blind_sig.0@, blinding.secret@, randomizer_view(blinding.msg_randomizer), msg@) == Some(s.0@),
        r matches Ok(s) ==> signature_verifies(pk.0@, s.0@, randomizer_view(blinding.msg_randomizer), msg@),
        r matches Err(e) ==> e == BlindSigError::Finalization,
{
    let rnd = match blinding.msg_randomizer {
        Some(m) => Some(m.0),
        None => None,
    };
    match rsa_finalize(pk.0.as_slice(), blind_sig.0.as_slice(), blinding.secret.as_slice(), rnd, msg) {
        Some(s) => Ok(Signature(s)),
        None => Err(BlindSigError::Finalization),
    }
}

/// Check an ordinary signature over `msg` under `pk`.
pub fn verify(pk: &BrssPublicKey, sig: &Signature, msg_randomizer: Option<MessageRandomizer>, msg: &[u8]) -> (r: Result<(), BlindSigError>)
    ensures
        r is Ok <==> signature_verifies(pk.0@, sig.0@, randomizer_view(msg_randomizer), msg@),
        r matches Err(e) ==> e == BlindSigError::VerificationFailed,
{
    let rnd = match msg_randomizer {
        Some(m) => Some(m.0),
        None => None,
    };
    if rsa_verify(pk.0.as_slice(), sig.0.as_slice(), rnd, msg) {
        Ok(())
    } else {
        Err(BlindSigError::VerificationFailed)
    }
}

/// The public key that a PEM text holds (SubjectPublicKeyInfo or PKCS#1),
/// held as its DER; `None` when the text holds no RSA public key.
pub fn public_key_from_pem(pem: &str) -> (r: Option<BrssPublicKey>)
    ensures
        r is Some <==> pem_public_key_der(pem@) is Some,
        r matches Some(k) ==> pem_public_key_der(pem@) == Some(k.0@),
{
    match rsa_public_der_from_pem(pem) {
        Some(d) => Some(BrssPublicKey(d)),
        None => None,
    }
}

/// The blind-signature round trip: a message blinded for a public key,
/// blind-signed by any secret key whose public half is that key, unblinds
/// (`finalize` succeeds) into a signature over exactly that message.
pub proof fn blinded_messages_finalize(
    pk: BrssPublicKey,
    sk: BrssSecretKey,
    msg: Seq<u8>,
    b: BlindingResult,
    blind_sig: Seq<u8>,
)
    requires
        is_blinding_of(pk.0@, msg, b.blind_message.0@, b.secret@, randomizer_view(b.msg_randomizer)),
        secret_key_public_der(sk.0@) == Some(pk.0@),
        blind_signature_of(sk.0@, b.blind_message.0@) == Some(blind_sig),
    ensures
        finalized_signature(pk.0@, blind_sig, b.secret@, randomizer_view(b.msg_randomizer), msg) is Some,
{
}

} // verus!
