//! Append-only spent-token ledger: each token is accepted at most once.
use vstd::prelude::*;

use std::collections::HashMap;

use sha2::Digest;

verus! {

broadcast use vstd::std_specs::hash::group_hash_axioms;

/// What `sha2::Sha256::digest` returns for a byte string.
pub uninterp spec fn sha256_digest(data: Seq<u8>) -> Seq<u8>;

/// `sha2::Sha256::digest(data)`, converted to an array.
///
/// Claims that the 32 bytes are the crate's SHA-256 digest of `data`.
#[verifier::external_body]
fn sha256(data: &[u8]) -> (r: [u8; 32])
    ensures
        r@ == sha256_digest(data@),
{
    sha2::Sha256::digest(data).into()
}

/// Hash of a spent token: the only thing the ledger stores.
#[derive(Debug, Clone, PartialEq, Eq, Hash)]
pub struct TokenHash(pub [u8; 32]);

impl TokenHash {
    /// The SHA-256 hash of a serialized token payload.
    pub fn from_token_bytes(token_bytes: &[u8]) -> (r: Self)
        ensures
            r.0@ == sha256_digest(token_bytes@),
    {
        TokenHash(sha256(token_bytes))
    }
}

/// Result of attempting to spend a token.
#[derive(Debug, Clone, Copy, PartialEq, Eq)]
pub enum SpendResult {
    /// Token was accepted and recorded as spent.
    Accepted,
    /// Token was already spent (duplicate submission).
    AlreadySpent,
}

/// Append-only spent-token ledger: tracks which tokens have been used, to
/// prevent replay and duplicate submission.
pub trait SpentTokenLedger {
    /// The hashes recorded as spent.
    spec fn spent(&self) -> Set<Seq<u8>>;

    /// Check whether a token hash is already spent and, if not, record it:
    /// `Accepted` exactly when the hash was not spent before; afterwards it is.
    fn check_and_spend(&mut self, hash: TokenHash) -> (r: SpendResult)
        ensures
            (r == SpendResult::Accepted) <==> !old(self).spent().contains(hash.0@),
            final(self).spent() == old(self).spent().insert(hash.0@),
    ;
}

/// The set of hashes held in a sequence of ledger entries.
pub open spec fn hash_set(entries: Seq<TokenHash>) -> Set<Seq<u8>> {
    Set::new(|h: Seq<u8>| exists|i: int| 0 <= i < entries.len() && entries[i].0@ == h)
}

/// The first `n` bytes of `h` as a big-endian number, cut to 128 bits.
pub open spec fn prefix_value(h: Seq<u8>, n: nat) -> u128
    decreases n,
{
    if n == 0 {
        0
    } else {
        (prefix_value(h, (n - 1) as nat) << 8u128) | (h[n - 1] as u128)
    }
}

/// The bucket of a hash: its first 16 bytes as a big-endian number.
pub open spec fn bucket_key(h: Seq<u8>) -> u128 {
    prefix_value(h, 16)
}

/// In-memory spent-token ledger: a hash map keyed by the first 16 bytes of
/// each hash, holding the full hashes that share that prefix.
pub struct InMemoryLedger {
    buckets: HashMap<u128, Vec<TokenHash>>,
}

/// The set of hashes held in the buckets.
pub open spec fn bucket_set(buckets: Map<u128, Vec<TokenHash>>) -> Set<Seq<u8>> {
    Set::new(
        |h: Seq<u8>|
            buckets.contains_key(bucket_key(h)) && hash_set(buckets[bucket_key(h)]@).contains(h),
    )
}

/// Byte-wise equality of two hashes.
fn same_hash(a: &[u8; 32], b: &[u8; 32]) -> (r: bool)
    ensures
        r == (a@ == b@),
{
    let mut i: usize = 0;
    while i < 32
        invariant
            i <= 32,
            a@.len() == 32,
            b@.len() == 32,
            forall|k: int| 0 <= k < i ==> a@[k] == b@[k],
        decreases 32 - i,
    {
        if a[i] != b[i] {
            return false;
        }
        i = i + 1;
    }
    assert(a@ =~= b@);
    true
}

/// The bucket key of a hash.
fn bucket_key_of(h: &[u8; 32]) -> (r: u128)
    ensures
        r == bucket_key(h@),
{
    let mut acc: u128 = 0;
    let mut i: usize = 0;
    while i < 16
        invariant
            i <= 16,
            h@.len() == 32,
            acc == prefix_value(h@, i as nat),
        decreases 16 - i,
    {
        acc = (acc << 8u128) | (h[i] as u128);
        i = i + 1;
    }
    acc
}

/// Whether a bucket holds `hash`.
fn bucket_contains(bucket: &Vec<TokenHash>, hash: &TokenHash) -> (r: bool)
    ensures
        r == hash_set(bucket@).contains(hash.0@),
{
    let mut i: usize = 0;
    while i < bucket.len()
        invariant
            i <= bucket@.len(),
            forall|k: int| 0 <= k < i ==> bucket@[k].0@ != hash.0@,
        decreases bucket@.len() - i,
    {
        if same_hash(&bucket[i].0, &hash.0) {
            return true;
        }
        i = i + 1;
    }
    false
}

proof fn lemma_hash_set_push(entries: Seq<TokenHash>, hash: TokenHash)
    ensures
        hash_set(entries.push(hash)) == hash_set(entries).insert(hash.0@),
{
    let pushed = entries.push(hash);
    assert forall|h: Seq<u8>| #[trigger] hash_set(pushed).contains(h) == hash_set(entries).insert(
        hash.0@,
    ).contains(h) by {
        if hash_set(entries).contains(h) {
            let i = choose|i: int| 0 <= i < entries.len() && entries[i].0@ == h;
            assert(pushed[i] == entries[i]);
        }
        if h == hash.0@ {
            assert(pushed[entries.len() as int] == hash);
        }
        if hash_set(pushed).contains(h) {
            let i = choose|i: int| 0 <= i < pushed.len() && pushed[i].0@ == h;
            if i < entries.len() {
                assert(entries[i] == pushed[i]);
            }
        }
    }
    assert(hash_set(pushed) =~= hash_set(entries).insert(hash.0@));
}

impl InMemoryLedger {
    /// An empty ledger.
    pub fn new() -> (r: Self)
        ensures
            r.spent() == Set::<Seq<u8>>::empty(),
    {
        let r = InMemoryLedger { buckets: HashMap::new() };
        assert(bucket_set(r.buckets@) =~= Set::<Seq<u8>>::empty());
        r
    }

    /// Whether `hash` is recorded as spent.
    pub fn contains(&self, hash: &TokenHash) -> (r: bool)
        ensures
            r == self.spent().contains(hash.0@),
    {
        let k = bucket_key_of(&hash.0);
        match self.buckets.get(&k) {
            Some(bucket) => bucket_contains(bucket, hash),
            None => false,
        }
    }
}

impl Default for InMemoryLedger {
    fn default() -> (r: Self)
        ensures
            r.spent() == Set::<Seq<u8>>::empty(),
    {
        Self::new()
    }
}

impl SpentTokenLedger for InMemoryLedger {
    closed spec fn spent(&self) -> Set<Seq<u8>> {
        bucket_set(self.buckets@)
    }

    fn check_and_spend(&mut self, hash: TokenHash) -> (r: SpendResult) {
        let k = bucket_key_of(&hash.0);
        let ghost before = self.buckets@;
        let (bucket, seen) = match self.buckets.remove(&k) {
            Some(b) => {
                let seen = bucket_contains(&b, &hash);
                (b, seen)
            },
            None => (Vec::new(), false),
        };
        proof {
            assert(self.buckets@ == before.remove(k));
            assert(before.contains_key(k) ==> bucket@ == before[k]@);
            assert(!before.contains_key(k) ==> bucket@ == Seq::<TokenHash>::empty());
            assert(hash_set(Seq::<TokenHash>::empty()) =~= Set::<Seq<u8>>::empty());
            assert(seen == bucket_set(before).contains(hash.0@));
        }
        if seen {
            self.buckets.insert(k, bucket);
            proof {
                assert(self.buckets@ =~= before);
                assert(bucket_set(before).insert(hash.0@) =~= bucket_set(before));
            }
            SpendResult::AlreadySpent
        } else {
            let mut bucket = bucket;
            let ghost old_bucket = bucket@;
            bucket.push(hash);
            proof {
                lemma_hash_set_push(old_bucket, hash);
            }
            self.buckets.insert(k, bucket);
            proof {
                assert(self.buckets@ == before.insert(k, bucket));
                assert forall|h: Seq<u8>| #[trigger] bucket_set(self.buckets@).contains(h)
                    == bucket_set(before).insert(hash.0@).contains(h) by {
                    if bucket_key(h) != k {
                        assert(self.buckets@.contains_key(bucket_key(h)) == before.contains_key(bucket_key(h)));
                    }
                }
                assert(bucket_set(self.buckets@) =~= bucket_set(before).insert(hash.0@));
            }
            SpendResult::Accepted
        }
    }
}

/// The spent set after spending each hash of `hashes` in turn.
pub open spec fn spent_after(initial: Set<Seq<u8>>, hashes: Seq<Seq<u8>>) -> Set<Seq<u8>>
    decreases hashes.len(),
{
    if hashes.len() == 0 {
        initial
    } else {
        spent_after(initial, hashes.drop_last()).insert(hashes.last())
    }
}

/// Whether the `i`-th of a sequence of spends is accepted.
pub open spec fn accepted_at(initial: Set<Seq<u8>>, hashes: Seq<Seq<u8>>, i: int) -> bool {
    !spent_after(initial, hashes.take(i)).contains(hashes[i])
}

proof fn lemma_spent_after_contains(initial: Set<Seq<u8>>, hashes: Seq<Seq<u8>>, h: Seq<u8>)
    ensures
        spent_after(initial, hashes).contains(h) <==> (initial.contains(h) || hashes.contains(h)),
    decreases hashes.len(),
{
    if hashes.len() > 0 {
        lemma_spent_after_contains(initial, hashes.drop_last(), h);
        if hashes.drop_last().contains(h) {
            let k = choose|k: int| 0 <= k < hashes.drop_last().len() && hashes.drop_last()[k] == h;
            assert(hashes[k] == h);
        }
        if hashes.contains(h) && h != hashes.last() {
            let k = choose|k: int| 0 <= k < hashes.len() && hashes[k] == h;
            assert(hashes.drop_last()[k] == h);
        }
    }
}

/// Replay prevention over any sequence of spends: a spend is accepted exactly
/// when its hash was neither spent initially nor spent earlier in the
/// sequence, so each token hash is accepted at most once.
pub proof fn each_token_accepted_at_most_once(
    initial: Set<Seq<u8>>,
    hashes: Seq<Seq<u8>>,
    i: int,
    j: int,
)
    requires
        0 <= i < hashes.len(),
        0 <= j < hashes.len(),
    ensures
        accepted_at(initial, hashes, i) <==> (!initial.contains(hashes[i]) && forall|k: int|
            0 <= k < i ==> hashes[k] != hashes[i]),
        i < j && hashes[i] == hashes[j] ==> !accepted_at(initial, hashes, j),
{
    lemma_spent_after_contains(initial, hashes.take(i), hashes[i]);
    lemma_spent_after_contains(initial, hashes.take(j), hashes[j]);
    if hashes.take(i).contains(hashes[i]) {
        let k = choose|k: int| 0 <= k < hashes.take(i).len() && hashes.take(i)[k] == hashes[i];
        assert(hashes[k] == hashes[i]);
    }
    assert forall|k: int| 0 <= k < i && hashes[k] == hashes[i] implies hashes.take(i).contains(hashes[i]) by {
        assert(hashes.take(i)[k] == hashes[i]);
    }
    if i < j && hashes[i] == hashes[j] {
        assert(hashes.take(j)[i] == hashes[j]);
    }
}

} // verus!
