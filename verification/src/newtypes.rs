//! Identifier and byte-string newtypes shared by both trust zones.
//!
//! UUIDs are held as their 128-bit value (big-endian byte order, as
//! `uuid::Uuid::as_u128` gives it). Cryptographic byte strings have a
//! redacted textual form that never depends on their contents.
use vstd::prelude::*;

verus! {

/// Marker trait for types whose textual forms are redacted so that sensitive
/// material (cryptographic values, linkable identifiers) never reaches a log.
/// The inner value stays reachable through `.0` for storage and wire use.
pub trait Sensitive {}

// ---------------------------------------------------------------------------
// UUID text
// ---------------------------------------------------------------------------

/// Lower-case hexadecimal digit of a nibble.
pub open spec fn hex_digit(n: u128) -> char {
    if n < 10 {
        (n + 48) as char
    } else {
        (n + 87) as char
    }
}

/// The 32 hexadecimal digits of a 128-bit value, most significant first.
pub open spec fn hex_digits_128(v: u128) -> Seq<char> {
    Seq::new(32, |i: int| hex_digit((v >> ((31 - i) * 4) as u128) & 0xfu128))
}

/// The hyphenated (8-4-4-4-12) lower-case text of a UUID with value `v`.
pub open spec fn uuid_text(v: u128) -> Seq<char> {
    let d = hex_digits_128(v);
    d.subrange(0, 8) + seq!['-'] + d.subrange(8, 12) + seq!['-'] + d.subrange(12, 16)
        + seq!['-'] + d.subrange(16, 20) + seq!['-'] + d.subrange(20, 32)
}

/// A version-4 (random) UUID value: version nibble 4, RFC 4122 variant bits `10`.
pub open spec fn is_v4_uuid(v: u128) -> bool {
    v & 0xF000C000000000000000u128 == 0x40008000000000000000u128
}

/// `uuid::Uuid::new_v4` followed by `as_u128`: a fresh random UUID.
///
/// The claim, from the crate's source, is only that the version and variant
/// bits are those of a version-4 UUID; the other 122 bits are random.
#[verifier::external_body]
fn random_uuid_v4() -> (r: u128)
    ensures
        is_v4_uuid(r),
{
    uuid::Uuid::new_v4().as_u128()
}

/// `uuid::Uuid::from_u128(v).hyphenated().to_string()`: the canonical text of a UUID.
///
/// The claim is that the text is the 36-character hyphenated lower-case
/// hexadecimal form of the value's big-endian bytes.
#[verifier::external_body]
fn uuid_hyphenated(v: u128) -> (r: String)
    ensures
        r@ == uuid_text(v),
{
    uuid::Uuid::from_u128(v).hyphenated().to_string()
}

/// `rand::random::<[u8; 32]>()`: 32 random bytes. Nothing is claimed of them.
#[verifier::external_body]
pub(crate) fn random_bytes_32() -> (r: [u8; 32]) {
    rand::random::<[u8; 32]>()
}

/// A fresh random session token: the text of a new version-4 UUID.
pub fn new_session_token() -> (r: String)
    ensures
        exists|v: u128| is_v4_uuid(v) && r@ == uuid_text(v),
{
    let v = random_uuid_v4();
    uuid_hyphenated(v)
}

// ---------------------------------------------------------------------------
// Identifiers
// ---------------------------------------------------------------------------

/// Identifies a question batch (the 128-bit value of a UUID).
#[derive(Debug, Clone, Copy, PartialEq, Eq, Hash)]
pub struct QuestionBatchId(pub u128);

impl QuestionBatchId {
    /// A fresh random (version-4) batch identifier.
    pub fn new() -> (r: Self)
        ensures
            is_v4_uuid(r.0),
    {
        QuestionBatchId(random_uuid_v4())
    }

    /// The batch identifier with the given UUID value.
    pub fn from_uuid(id: u128) -> (r: Self)
        ensures
            r.0 == id,
    {
        QuestionBatchId(id)
    }

    /// The hyphenated UUID text of this identifier.
    pub fn to_string(&self) -> (r: String)
        ensures
            r@ == uuid_text(self.0),
    {
        uuid_hyphenated(self.0)
    }
}

impl Default for QuestionBatchId {
    fn default() -> (r: Self)
        ensures
            is_v4_uuid(r.0),
    {
        Self::new()
    }
}

/// Identifies a tenant (the 128-bit value of a UUID).
#[derive(Debug, Clone, Copy, PartialEq, Eq, Hash)]
pub struct TenantId(pub u128);

impl TenantId {
    /// A fresh random (version-4) tenant identifier.
    pub fn new() -> (r: Self)
        ensures
            is_v4_uuid(r.0),
    {
        TenantId(random_uuid_v4())
    }

    /// The tenant identifier with the given UUID value.
    pub fn from_uuid(id: u128) -> (r: Self)
        ensures
            r.0 == id,
    {
        TenantId(id)
    }

    /// The hyphenated UUID text of this identifier.
    pub fn to_string(&self) -> (r: String)
        ensures
            r@ == uuid_text(self.0),
    {
        uuid_hyphenated(self.0)
    }
}

impl Default for TenantId {
    fn default() -> (r: Self)
        ensures
            is_v4_uuid(r.0),
    {
        Self::new()
    }
}

/// Signing key version number.
#[derive(Debug, Clone, Copy, PartialEq, Eq, Hash)]
pub struct KeyVersion(pub u32);

/// Unix epoch timestamp (seconds).
#[derive(Debug, Clone, Copy, PartialEq, Eq, PartialOrd, Ord, Hash)]
pub struct UnixTimestamp(pub u64);

/// `std::time::SystemTime::now()` followed by `duration_since(UNIX_EPOCH)` and
/// `as_secs()`: whole seconds since the Unix epoch, `None` when the system
/// clock reads earlier than the epoch. Nothing is claimed of the value: it is
/// the machine's clock.
#[verifier::external_body]
fn system_clock_unix_secs() -> (r: Option<u64>) {
    match std::time::SystemTime::now().duration_since(std::time::UNIX_EPOCH) {
        Ok(d) => Some(d.as_secs()),
        Err(_) => None,
    }
}

impl UnixTimestamp {
    /// The current time in whole seconds since the Unix epoch.
    ///
    /// A system clock that reads earlier than the epoch gives the epoch itself.
    pub fn now() -> (r: Self) {
        match system_clock_unix_secs() {
            Some(secs) => UnixTimestamp(secs),
            None => UnixTimestamp(0),
        }
    }
}

/// 32-byte random nonce for token uniqueness.
#[derive(Debug, Clone, PartialEq, Eq)]
pub struct Nonce(pub [u8; 32]);

impl Nonce {
    /// A fresh random nonce.
    pub fn random() -> (r: Self) {
        Nonce(random_bytes_32())
    }
}

// ---------------------------------------------------------------------------
// Sensitive byte strings
// ---------------------------------------------------------------------------

/// Blinded token payload (opaque to the Token Issuer).
///
/// Its textual forms are redacted: it is cryptographic material that could
/// link identity to signal if logged.
#[derive(Clone, PartialEq, Eq)]
pub struct BlindedToken(pub Vec<u8>);

impl Sensitive for BlindedToken {}

impl BlindedToken {
    /// Debug form: `BlindedToken("[REDACTED]")`, whatever the bytes.
    pub fn debug_string(&self) -> (r: String)
        ensures
            r@ == "BlindedToken(\"[REDACTED]\")"@,
    {
        String::from_str("BlindedToken(\"[REDACTED]\")")
    }

    /// Display form: `[REDACTED:BlindedToken]`, whatever the bytes.
    pub fn to_string(&self) -> (r: String)
        ensures
            r@ == "[REDACTED:BlindedToken]"@,
    {
        String::from_str("[REDACTED:BlindedToken]")
    }
}

/// Blind signature over a blinded token. Textual forms are redacted.
#[derive(Clone, PartialEq, Eq)]
pub struct BlindSig(pub Vec<u8>);

impl Sensitive for BlindSig {}

impl BlindSig {
    /// Debug form: `BlindSig("[REDACTED]")`, whatever the bytes.
    pub fn debug_string(&self) -> (r: String)
        ensures
            r@ == "BlindSig(\"[REDACTED]\")"@,
    {
        String::from_str("BlindSig(\"[REDACTED]\")")
    }

    /// Display form: `[REDACTED:BlindSig]`, whatever the bytes.
    pub fn to_string(&self) -> (r: String)
        ensures
            r@ == "[REDACTED:BlindSig]"@,
    {
        String::from_str("[REDACTED:BlindSig]")
    }
}

/// Serialized `TokenPayload` bytes. Textual forms are redacted.
#[derive(Clone, PartialEq, Eq)]
pub struct TokenBytes(pub Vec<u8>);

impl Sensitive for TokenBytes {}

impl TokenBytes {
    /// Debug form: `TokenBytes("[REDACTED]")`, whatever the bytes.
    pub fn debug_string(&self) -> (r: String)
        ensures
            r@ == "TokenBytes(\"[REDACTED]\")"@,
    {
        String::from_str("TokenBytes(\"[REDACTED]\")")
    }

    /// Display form: `[REDACTED:TokenBytes]`, whatever the bytes.
    pub fn to_string(&self) -> (r: String)
        ensures
            r@ == "[REDACTED:TokenBytes]"@,
    {
        String::from_str("[REDACTED:TokenBytes]")
    }
}

/// Unblinded signature bytes (verifiable by the Response Collector).
/// Textual forms are redacted.
#[derive(Clone, PartialEq, Eq)]
pub struct SignatureBytes(pub Vec<u8>);

impl Sensitive for SignatureBytes {}

impl SignatureBytes {
    /// Debug form: `SignatureBytes("[REDACTED]")`, whatever the bytes.
    pub fn debug_string(&self) -> (r: String)
        ensures
            r@ == "SignatureBytes(\"[REDACTED]\")"@,
    {
        String::from_str("SignatureBytes(\"[REDACTED]\")")
    }

    /// Display form: `[REDACTED:SignatureBytes]`, whatever the bytes.
    pub fn to_string(&self) -> (r: String)
        ensures
            r@ == "[REDACTED:SignatureBytes]"@,
    {
        String::from_str("[REDACTED:SignatureBytes]")
    }
}

/// Encrypted response blob (AES-256-GCM ciphertext). Textual forms are redacted.
#[derive(Clone, PartialEq, Eq)]
pub struct EncryptedBlob(pub Vec<u8>);

impl Sensitive for EncryptedBlob {}

impl EncryptedBlob {
    /// Debug form: `EncryptedBlob("[REDACTED]")`, whatever the bytes.
    pub fn debug_string(&self) -> (r: String)
        ensures
            r@ == "EncryptedBlob(\"[REDACTED]\")"@,
    {
        String::from_str("EncryptedBlob(\"[REDACTED]\")")
    }

    /// Display form: `[REDACTED:EncryptedBlob]`, whatever the bytes.
    pub fn to_string(&self) -> (r: String)
        ensures
            r@ == "[REDACTED:EncryptedBlob]"@,
    {
        String::from_str("[REDACTED:EncryptedBlob]")
    }
}

/// Coarsened organization segment label (e.g., "engineering", "backend").
#[derive(Debug, Clone, PartialEq, Eq, Hash)]
pub struct SegmentLabel(pub String);

impl SegmentLabel {
    /// The label with the given text.
    pub fn from_text(s: &str) -> (r: Self)
        ensures
            r.0@ == s@,
    {
        SegmentLabel(String::from_str(s))
    }

    /// The label with the given text.
    pub fn from_string(s: String) -> (r: Self)
        ensures
            r.0 == s,
    {
        SegmentLabel(s)
    }
}

/// Question text delivered to the client.
#[derive(Debug, Clone, PartialEq, Eq)]
pub struct QuestionText(pub String);

impl QuestionText {
    /// The question text with the given content.
    pub fn from_text(s: &str) -> (r: Self)
        ensures
            r.0@ == s@,
    {
        QuestionText(String::from_str(s))
    }
}

} // verus!
