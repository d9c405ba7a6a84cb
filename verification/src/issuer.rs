//! The Token Issuer: signs blinded tokens for authenticated employees.
//!
//! It lives in the Identity zone: it knows who asked for a token, but sees
//! only the blinded token, never the token itself.
use vstd::prelude::*;

use crate::blind_sig::{self, blind_signature_of, BlindMessage, BlindSigError, BlindSignature, BrssSecretKey};
use crate::messages::{TokenDeniedReason, TokenRequest, TokenResponse};
use crate::newtypes::{BlindSig, KeyVersion, QuestionBatchId, UnixTimestamp};

verus! {

/// Identity-zone employee identifier.
#[derive(Debug, Clone, PartialEq, Eq, Hash)]
pub struct EmployeeId(pub String);

/// Record of a token issuance, kept in the Identity zone: who got a token for
/// which batch and when. It has no field for the token or its blinded form.
pub struct IssuanceRecord {
    pub employee_id: EmployeeId,
    pub question_batch_id: QuestionBatchId,
    pub issued_at: UnixTimestamp,
}

/// The contents of an issuance record, as plain values.
pub struct IssuanceRecordView {
    pub employee_id: Seq<char>,
    pub question_batch_id: u128,
    pub issued_at: u64,
}

impl View for IssuanceRecord {
    type V = IssuanceRecordView;

    open spec fn view(&self) -> IssuanceRecordView {
        IssuanceRecordView {
            employee_id: self.employee_id.0@,
            question_batch_id: self.question_batch_id.0,
            issued_at: self.issued_at.0,
        }
    }
}

impl IssuanceRecord {
    /// A copy of this record.
    pub fn duplicate(&self) -> (r: Self)
        ensures
            r@ == self@,
    {
        IssuanceRecord {
            employee_id: EmployeeId(self.employee_id.0.clone()),
            question_batch_id: QuestionBatchId(self.question_batch_id.0),
            issued_at: UnixTimestamp(self.issued_at.0),
        }
    }
}

/// The views of a sequence of issuance records.
pub open spec fn record_views(s: Seq<IssuanceRecord>) -> Seq<IssuanceRecordView> {
    s.map_values(|r: IssuanceRecord| r@)
}

/// Why the issuer refused a request.
#[derive(Debug, Clone, Copy, PartialEq, Eq)]
pub enum IssuerError {
    Denied(TokenDeniedReason),
    SigningFailed(BlindSigError),
}

/// Token Issuer: holds the signing key and the identity-aware issuance log.
pub struct TokenIssuer {
    /// The signing secret key.
    secret_key: BrssSecretKey,
    /// Current key version.
    key_version: KeyVersion,
    /// Issuance log: which employee got a token for which batch, and when.
    issuance_log: Vec<IssuanceRecord>,
}

impl TokenIssuer {
    /// The signing key.
    pub closed spec fn key(&self) -> Seq<u8> {
        self.secret_key.0@
    }

    /// The key version announced with each signature.
    pub closed spec fn version(&self) -> u32 {
        self.key_version.0
    }

    /// The issuance log, oldest first.
    pub closed spec fn log(&self) -> Seq<IssuanceRecordView> {
        record_views(self.issuance_log@)
    }

    /// An issuer with the given key and version and an empty log.
    pub fn new(secret_key: BrssSecretKey, key_version: KeyVersion) -> (r: Self)
        ensures
            r.key() == secret_key.0@,
            r.version() == key_version.0,
            r.log() == Seq::<IssuanceRecordView>::empty(),
    {
        let r = TokenIssuer { secret_key, key_version, issuance_log: Vec::new() };
        assert(record_views(r.issuance_log@) =~= Seq::<IssuanceRecordView>::empty());
        r
    }

    /// Complete a signing request whose blind signature came out as `signed`,
    /// at time `now`: a signature is returned with the issuer's key version
    /// and the issuance is logged; a signing failure is reported and nothing
    /// is logged.
    pub fn record_issuance(
        &mut self,
        employee_id: &EmployeeId,
        request: &TokenRequest,
        signed: Result<BlindSignature, BlindSigError>,
        now: UnixTimestamp,
    ) -> (r: Result<TokenResponse, IssuerError>)
        ensures
            final(self).key() == old(self).key(),
            final(self).version() == old(self).version(),
            match signed {
                Ok(s) => {
                    &&& r matches Ok(resp) && resp.blind_signature.0@ == s.0@ && resp.key_version.0 == old(self).version()
                    &&& final(self).log() == old(self).log().push(IssuanceRecordView {
                        employee_id: employee_id.0@,
                        question_batch_id: request.question_batch_id.0,
                        issued_at: now.0,
                    })
                },
                Err(e) => r == Err::<TokenResponse, IssuerError>(IssuerError::SigningFailed(e)) && final(self).log() == old(self).log(),
            },
    {
        match signed {
            Err(e) => Err(IssuerError::SigningFailed(e)),
            Ok(blind_sig) => {
                let rec = IssuanceRecord {
                    employee_id: EmployeeId(employee_id.0.clone()),
                    question_batch_id: QuestionBatchId(request.question_batch_id.0),
                    issued_at: UnixTimestamp(now.0),
                };
                let ghost before = self.issuance_log@;
                self.issuance_log.push(rec);
                assert(record_views(self.issuance_log@) =~= record_views(before).push(rec@));
                Ok(TokenResponse {
                    blind_signature: BlindSig(blind_sig.0),
                    key_version: KeyVersion(self.key_version.0),
                })
            },
        }
    }

    /// Sign a blinded token for an authenticated employee.
    ///
    /// `employee_id` comes from the authenticated session; the blinded token
    /// is opaque to the issuer. Every request is accepted: the signature is
    /// the blind signature of the blinded token under the issuer's key, and
    /// the issuance is logged with the employee, the batch and the current
    /// time. A signing failure is reported as `SigningFailed` and not logged.
    pub fn sign_token(&mut self, employee_id: &EmployeeId, request: &TokenRequest) -> (r: Result<TokenResponse, IssuerError>)
        ensures
            final(self).key() == old(self).key(),
            final(self).version() == old(self).version(),
            r is Ok <==> blind_signature_of(old(self).key(), request.blinded_token.0@) is Some,
            r matches Ok(resp) ==> {
                &&& blind_signature_of(old(self).key(), request.blinded_token.0@) == Some(resp.blind_signature.0@)
                &&& resp.key_version.0 == old(self).version()
                &&& final(self).log().len() == old(self).log().len() + 1
                &&& final(self).log().drop_last() == old(self).log()
                &&& final(self).log().last().employee_id == employee_id.0@
                &&& final(self).log().last().question_batch_id == request.question_batch_id.0
            },
            r matches Err(e) ==> e == IssuerError::SigningFailed(BlindSigError::Signing) && final(self).log() == old(self).log(),
    {
        let blind_msg = BlindMessage(request.blinded_token.0.clone());
        assert(blind_msg.0@ =~= request.blinded_token.0@);
        let signed = blind_sig::blind_sign(&self.secret_key, &blind_msg);
        let now = UnixTimestamp::now();
        let r = self.record_issuance(employee_id, request, signed, now);
        proof {
            if r is Ok {
                assert(final(self).log().drop_last() =~= old(self).log());
            }
        }
        r
    }

    /// A copy of the issuance log (for auditing and testing).
    pub fn issuance_log(&self) -> (r: Vec<IssuanceRecord>)
        ensures
            record_views(r@) == self.log(),
    {
        let mut out: Vec<IssuanceRecord> = Vec::new();
        let mut i: usize = 0;
        while i < self.issuance_log.len()
            invariant
                i <= self.issuance_log@.len(),
                record_views(out@) =~= record_views(self.issuance_log@.take(i as int)),
            decreases self.issuance_log@.len() - i,
        {
            let ghost before = out@;
            let d = self.issuance_log[i].duplicate();
            out.push(d);
            assert(record_views(out@) =~= record_views(before).push(d@));
            assert(self.issuance_log@.take(i + 1) =~= self.issuance_log@.take(i as int).push(self.issuance_log@[i as int]));
            assert(record_views(self.issuance_log@.take(i + 1)) =~= record_views(self.issuance_log@.take(i as int)).push(self.issuance_log@[i as int]@));
            i = i + 1;
        }
        assert(self.issuance_log@.take(i as int) =~= self.issuance_log@);
        out
    }
}

} // verus!
