//! The Response Collector: validates anonymous responses and stores them.
//!
//! It lives in the Signal zone and never knows who submitted a response. It
//! checks the token's scope and expiry, verifies the blind signature, checks
//! the spent-token ledger, and stores the encrypted blob.
use vstd::prelude::*;

use crate::blind_sig::{self, randomizer_view, signature_verifies, BrssPublicKey, MessageRandomizer, Signature};
use crate::ledger::{sha256_digest, SpendResult, SpentTokenLedger, TokenHash};
use crate::messages::{RejectReason, ResponseSubmit};
use crate::newtypes::{EncryptedBlob, QuestionBatchId, UnixTimestamp};
use crate::store::{ResponseStore, StoredResponse, StoredResponseView};
use crate::token::TokenPayload;

verus! {

/// Why the collector refused a submission.
#[derive(Debug, Clone, Copy, PartialEq, Eq)]
pub enum CollectorError {
    Rejected(RejectReason),
}

/// Whether the parsed token passes the scope and expiry checks that come
/// before signature verification.
pub open spec fn token_fields_pass(submit: ResponseSubmit, token: TokenPayload, now: u64) -> bool {
    &&& token.question_batch_id.0 == submit.question_batch_id.0
    &&& token.tenant_id.0 == submit.tenant_id.0
    &&& now < token.expiry
}

/// The first check that a submission fails, in the order the collector
/// applies them: a payload that does not parse, a batch or tenant that differs
/// from the submission's, an expired token, a signature that does not verify,
/// a token already spent. `None` when every check passes.
pub open spec fn rejection(
    submit: ResponseSubmit,
    token: Option<TokenPayload>,
    now: u64,
    signature_ok: bool,
    spent: Set<Seq<u8>>,
) -> Option<RejectReason> {
    match token {
        None => Some(RejectReason::Malformed),
        Some(t) => if t.question_batch_id.0 != submit.question_batch_id.0 {
            Some(RejectReason::BatchMismatch)
        } else if t.tenant_id.0 != submit.tenant_id.0 {
            Some(RejectReason::TenantMismatch)
        } else if now >= t.expiry {
            Some(RejectReason::TokenExpired)
        } else if !signature_ok {
            Some(RejectReason::InvalidSignature)
        } else if spent.contains(sha256_digest(submit.token.0@)) {
            Some(RejectReason::TokenAlreadySpent)
        } else {
            None
        },
    }
}

/// The result the collector gives for a rejection, or for none.
pub open spec fn outcome(reason: Option<RejectReason>) -> Result<(), CollectorError> {
    match reason {
        Some(r) => Err(CollectorError::Rejected(r)),
        None => Ok(()),
    }
}

/// Whether the ledger is consulted (and the token recorded as spent): every
/// check up to the signature passed.
pub open spec fn reaches_ledger(reason: Option<RejectReason>) -> bool {
    reason is None || reason == Some(RejectReason::TokenAlreadySpent)
}

/// The stored form of an accepted submission received at `now`.
pub open spec fn stored_view(submit: ResponseSubmit, now: u64) -> StoredResponseView {
    StoredResponseView {
        encrypted_blob: submit.response_blob.0@,
        question_batch_id: submit.question_batch_id.0,
        received_at: now,
    }
}

/// Whether the submission's signature verifies over its token bytes.
pub open spec fn submission_signature_ok(pk: BrssPublicKey, submit: ResponseSubmit) -> bool {
    signature_verifies(pk.0@, submit.signature.0@, submit.msg_randomizer_view(), submit.token.0@)
}

impl ResponseSubmit {
    /// The view of the submission's message randomizer.
    pub open spec fn msg_randomizer_view(&self) -> Option<Seq<u8>> {
        match self.msg_randomizer {
            Some(m) => Some(m@),
            None => None,
        }
    }
}

/// Response Collector, generic over its spent-token ledger and its store.
pub struct ResponseCollector<L: SpentTokenLedger, S: ResponseStore> {
    /// The Token Issuer's public key (the only artifact shared from the Identity zone).
    pub_key: BrssPublicKey,
    /// Append-only spent-token ledger.
    ledger: L,
    /// Encrypted response storage.
    store: S,
}

impl<L: SpentTokenLedger, S: ResponseStore> ResponseCollector<L, S> {
    /// The verification key.
    pub closed spec fn key(&self) -> BrssPublicKey {
        self.pub_key
    }

    /// The hashes of the tokens spent so far.
    pub closed spec fn spent(&self) -> Set<Seq<u8>> {
        self.ledger.spent()
    }

    /// The responses stored so far.
    pub closed spec fn stored(&self) -> Seq<StoredResponseView> {
        self.store.responses()
    }

    /// A collector over the given key, ledger and store.
    pub fn new(pub_key: BrssPublicKey, ledger: L, store: S) -> (r: Self)
        ensures
            r.key() == pub_key,
            r.spent() == ledger.spent(),
            r.stored() == store.responses(),
    {
        ResponseCollector { pub_key, ledger, store }
    }

    /// The public verification key.
    pub fn public_key(&self) -> (r: &BrssPublicKey)
        ensures
            *r == self.key(),
    {
        &self.pub_key
    }

    /// The response store.
    pub fn store(&self) -> (r: &S)
        ensures
            r.responses() == self.stored(),
    {
        &self.store
    }

    /// Decide a submission, given its parsed token payload (`None` when the
    /// token bytes do not parse), the time of receipt and whether its
    /// signature verifies.
    ///
    /// The result is the first failing check (see [`rejection`]). When the
    /// checks up to the signature pass, the token's hash is recorded as spent;
    /// an accepted submission appends its blob, batch and receipt time to the
    /// store; nothing else changes.
    pub fn decide(
        &mut self,
        submit: &ResponseSubmit,
        token: Option<TokenPayload>,
        now: UnixTimestamp,
        signature_ok: bool,
    ) -> (r: Result<(), CollectorError>)
        ensures
            r == outcome(rejection(*submit, token, now.0, signature_ok, old(self).spent())),
            final(self).key() == old(self).key(),
            final(self).spent() == if reaches_ledger(rejection(*submit, token, now.0, signature_ok, old(self).spent())) {
                old(self).spent().insert(sha256_digest(submit.token.0@))
            } else {
                old(self).spent()
            },
            final(self).stored() == if r is Ok {
                old(self).stored().push(stored_view(*submit, now.0))
            } else {
                old(self).stored()
            },
    {
        let t = match token {
            None => return Err(CollectorError::Rejected(RejectReason::Malformed)),
            Some(t) => t,
        };
        if t.question_batch_id.0 != submit.question_batch_id.0 {
            return Err(CollectorError::Rejected(RejectReason::BatchMismatch));
        }
        if t.tenant_id.0 != submit.tenant_id.0 {
            return Err(CollectorError::Rejected(RejectReason::TenantMismatch));
        }
        if t.is_expired(now.0) {
            return Err(CollectorError::Rejected(RejectReason::TokenExpired));
        }
        if !signature_ok {
            return Err(CollectorError::Rejected(RejectReason::InvalidSignature));
        }
        let token_hash = TokenHash::from_token_bytes(submit.token.0.as_slice());
        match self.ledger.check_and_spend(token_hash) {
            SpendResult::Accepted => {},
            SpendResult::AlreadySpent => {
                return Err(CollectorError::Rejected(RejectReason::TokenAlreadySpent));
            },
        }
        let blob = submit.response_blob.0.clone();
        assert(blob@ =~= submit.response_blob.0@);
        self.store.store(StoredResponse {
            encrypted_blob: EncryptedBlob(blob),
            question_batch_id: QuestionBatchId(submit.question_batch_id.0),
            received_at: UnixTimestamp(now.0),
        });
        Ok(())
    }

    /// Process a submission received at `now`, given its parsed token payload
    /// (`None` when the token bytes do not parse): the signature is verified
    /// with the collector's key over the submitted token bytes, once the scope
    /// and expiry checks have passed.
    pub fn accept_at(&mut self, submit: &ResponseSubmit, token: Option<TokenPayload>, now: UnixTimestamp) -> (r: Result<(), CollectorError>)
        ensures
            r == outcome(rejection(*submit, token, now.0, submission_signature_ok(old(self).key(), *submit), old(self).spent())),
            final(self).key() == old(self).key(),
            final(self).spent() == if reaches_ledger(rejection(*submit, token, now.0, submission_signature_ok(old(self).key(), *submit), old(self).spent())) {
                old(self).spent().insert(sha256_digest(submit.token.0@))
            } else {
                old(self).spent()
            },
            final(self).stored() == if r is Ok {
                old(self).stored().push(stored_view(*submit, now.0))
            } else {
                old(self).stored()
            },
    {
        let precheck = match &token {
            Some(t) => t.question_batch_id.0 == submit.question_batch_id.0 && t.tenant_id.0 == submit.tenant_id.0 && !t.is_expired(now.0),
            None => false,
        };
        let signature_ok = if precheck {
            let sig = Signature(submit.signature.0.clone());
            let rnd = match submit.msg_randomizer {
                Some(m) => Some(MessageRandomizer(m)),
                None => None,
            };
            proof {
                assert(sig.0@ =~= submit.signature.0@);
            }
            blind_sig::verify(&self.pub_key, &sig, rnd, submit.token.0.as_slice()).is_ok()
        } else {
            false
        };
        assert(rejection(*submit, token, now.0, signature_ok, self.spent())
            == rejection(*submit, token, now.0, submission_signature_ok(self.key(), *submit), self.spent()));
        self.decide(submit, token, now, signature_ok)
    }

    /// Process an anonymous submission now, given its parsed token payload
    /// (`None` when the token bytes do not parse). As [`Self::accept_at`],
    /// with the time of receipt read from the system clock.
    pub fn accept(&mut self, submit: &ResponseSubmit, token: Option<TokenPayload>) -> (r: Result<(), CollectorError>)
        ensures
            exists|now: u64| {
                &&& r == outcome(rejection(*submit, token, now, submission_signature_ok(old(self).key(), *submit), old(self).spent()))
                &&& final(self).spent() == if reaches_ledger(rejection(*submit, token, now, submission_signature_ok(old(self).key(), *submit), old(self).spent())) {
                    old(self).spent().insert(sha256_digest(submit.token.0@))
                } else {
                    old(self).spent()
                }
                &&& final(self).stored() == if r is Ok {
                    old(self).stored().push(stored_view(*submit, now))
                } else {
                    old(self).stored()
                }
            },
            final(self).key() == old(self).key(),
    {
        let now = UnixTimestamp::now();
        self.accept_at(submit, token, now)
    }
}

/// Verified anonymity's core promise: a submission is accepted only if its
/// token is in scope (batch and tenant), unexpired, carries a valid signature
/// and was never spent; and once accepted, its token is spent, so every later
/// submission of the same token bytes is rejected, whatever else it carries.
pub proof fn accepted_responses_are_verified_and_unique(
    submit: ResponseSubmit,
    token: Option<TokenPayload>,
    now: u64,
    signature_ok: bool,
    spent: Set<Seq<u8>>,
    later: ResponseSubmit,
    later_token: Option<TokenPayload>,
    later_now: u64,
    later_signature_ok: bool,
    later_spent: Set<Seq<u8>>,
)
    requires
        rejection(submit, token, now, signature_ok, spent) is None,
        later.token.0@ == submit.token.0@,
        later_spent.contains(sha256_digest(submit.token.0@)),
    ensures
        token matches Some(t) && token_fields_pass(submit, t, now),
        signature_ok,
        !spent.contains(sha256_digest(submit.token.0@)),
        spent.insert(sha256_digest(submit.token.0@)).contains(sha256_digest(submit.token.0@)),
        rejection(later, later_token, later_now, later_signature_ok, later_spent) is Some,
{
}

/// The protocol's completeness: a submission whose signature verifies over
/// its token bytes under the collector's key (as every signature that
/// `blind_sig::finalize` returns does), whose parsed token names the
/// submission's batch and tenant and has not expired, and whose token was
/// never spent, is accepted; and the same token bytes are refused the
/// second time, as already spent.
pub proof fn finalized_tokens_are_accepted_once(
    pk: BrssPublicKey,
    submit: ResponseSubmit,
    token: TokenPayload,
    now: u64,
    spent: Set<Seq<u8>>,
    later: ResponseSubmit,
    later_token: TokenPayload,
    later_now: u64,
)
    requires
        signature_verifies(pk.0@, submit.signature.0@, submit.msg_randomizer_view(), submit.token.0@),
        token_fields_pass(submit, token, now),
        !spent.contains(sha256_digest(submit.token.0@)),
        later == submit,
        token_fields_pass(later, later_token, later_now),
    ensures
        rejection(submit, Some(token), now, submission_signature_ok(pk, submit), spent) is None,
        rejection(
            later,
            Some(later_token),
            later_now,
            submission_signature_ok(pk, later),
            spent.insert(sha256_digest(submit.token.0@)),
        ) == Some(RejectReason::TokenAlreadySpent),
{
}

/// Expiry is checked at the time of decision: a submission in scope whose
/// token's expiry is not after that time is refused as expired, whatever its
/// signature and the ledger say, so the token is not spent and nothing is
/// stored; a token whose expiry is after that time passes the expiry check.
pub proof fn expired_tokens_are_refused(
    submit: ResponseSubmit,
    token: TokenPayload,
    now: u64,
    signature_ok: bool,
    spent: Set<Seq<u8>>,
)
    requires
        token.question_batch_id.0 == submit.question_batch_id.0,
        token.tenant_id.0 == submit.tenant_id.0,
    ensures
        token.expiry <= now ==> {
            &&& rejection(submit, Some(token), now, signature_ok, spent) == Some(RejectReason::TokenExpired)
            &&& outcome(rejection(submit, Some(token), now, signature_ok, spent)) is Err
            &&& !reaches_ledger(rejection(submit, Some(token), now, signature_ok, spent))
        },
        now < token.expiry ==> rejection(submit, Some(token), now, signature_ok, spent) != Some(
            RejectReason::TokenExpired,
        ),
{
}

} // verus!
