//! The signing-key cache: an immutable snapshot of the identity provider's
//! published keys, replaced wholesale on expiry of a fixed time-to-live,
//! and key lookup by key id within a snapshot.
//!
//! Fetching the key set is a network round trip and stays outside this
//! crate; the decisions — whether a snapshot is still fresh, and which key
//! of a snapshot serves a token — are verified here.

use vstd::prelude::*;

use crate::gql::auth::AuthError;

verus! {

#[verifier::external_type_specification]
#[verifier::external_body]
pub struct ExDecodingKey(jsonwebtoken::DecodingKey);

#[verifier::external_type_specification]
#[verifier::external_body]
pub struct ExAlgorithm(jsonwebtoken::Algorithm);

#[verifier::external_type_specification]
#[verifier::external_body]
pub struct ExJwk(jsonwebtoken::jwk::Jwk);

/// One usable signing key: the case-sensitive key id it is published under
/// and the decoding key built from it.
pub struct SigningKey {
    pub kid: String,
    pub key: jsonwebtoken::DecodingKey,
}

/// An immutable snapshot of the provider's published signing keys.
pub struct KeySet {
    pub keys: Vec<SigningKey>,
}

/// The key id under which a JWK yields a usable entry, if it yields one: a
/// function of the JWK alone, determined by its key id and by whether a
/// decoding key can be built from its parameters.
pub uninterp spec fn usable_kid_of(jwk: jsonwebtoken::jwk::Jwk) -> Option<Seq<char>>;

/// Relies on jsonwebtoken::DecodingKey::from_jwk and on the key id of the
/// JWK's common parameters: a JWK without a key id, or one from which no
/// decoding key can be built, yields no entry; one that yields an entry
/// pairs its key id with the decoding key built from it.
#[verifier::external_body]
fn signing_key_entry(jwk: &jsonwebtoken::jwk::Jwk) -> (r: Option<SigningKey>)
    ensures
        (r is Some) == (usable_kid_of(*jwk) is Some),
        r matches Some(k) ==> usable_kid_of(*jwk) == Some(k.kid@),
{
    let kid = jwk.common.key_id.clone()?;
    let key = jsonwebtoken::DecodingKey::from_jwk(jwk).ok()?;
    Some(SigningKey { kid, key })
}

/// The key ids of the entries in a sequence of signing keys, in order.
pub open spec fn kid_views(keys: Seq<SigningKey>) -> Seq<Seq<char>> {
    keys.map_values(|k: SigningKey| k.kid@)
}

/// The key ids of the usable entries of a fetched key set, in order: one
/// per JWK that yields an entry, skipping the rest.
pub open spec fn usable_kids(jwks: Seq<jsonwebtoken::jwk::Jwk>) -> Seq<Seq<char>>
    decreases jwks.len(),
{
    if jwks.len() == 0 {
        Seq::empty()
    } else {
        let rest = usable_kids(jwks.drop_last());
        match usable_kid_of(jwks.last()) {
            Some(kid) => rest.push(kid),
            None => rest,
        }
    }
}

proof fn lemma_kid_views_push(keys: Seq<SigningKey>, k: SigningKey)
    ensures
        kid_views(keys.push(k)) =~= kid_views(keys).push(k.kid@),
{
    assert forall|j: int| 0 <= j < keys.len() + 1 implies kid_views(keys.push(k))[j] == kid_views(
        keys,
    ).push(k.kid@)[j] by {
        if j < keys.len() {
            assert(keys.push(k)[j] == keys[j]);
        } else {
            assert(keys.push(k)[j] == k);
        }
    }
}

impl KeySet {
    /// The key ids of the snapshot, in order.
    pub open spec fn kids(&self) -> Seq<Seq<char>> {
        kid_views(self.keys@)
    }

    /// Build a snapshot from the JWKs of a fetched key set: one entry, in
    /// order, for every JWK that carries a key id and yields a usable
    /// decoding key, and none for the rest.
    pub fn from_jwks(jwks: &Vec<jsonwebtoken::jwk::Jwk>) -> (r: KeySet)
        ensures
            r.kids() == usable_kids(jwks@),
    {
        let mut keys: Vec<SigningKey> = Vec::new();
        let mut i: usize = 0;
        while i < jwks.len()
            invariant
                0 <= i <= jwks@.len(),
                kid_views(keys@) == usable_kids(jwks@.take(i as int)),
            decreases jwks@.len() - i,
        {
            proof {
                assert(jwks@.take(i as int + 1).drop_last() =~= jwks@.take(i as int));
                assert(jwks@.take(i as int + 1).last() == jwks@[i as int]);
            }
            let ghost before = keys@;
            match signing_key_entry(&jwks[i]) {
                Some(entry) => {
                    let ghost kid = entry.kid@;
                    keys.push(entry);
                    proof {
                        lemma_kid_views_push(before, keys@.last());
                        assert(kid_views(keys@) =~= usable_kids(jwks@.take(i as int + 1)));
                    }
                },
                None => {
                    proof {
                        assert(kid_views(keys@) =~= usable_kids(jwks@.take(i as int + 1)));
                    }
                },
            }
            i += 1;
        }
        proof {
            assert(jwks@.take(jwks@.len() as int) =~= jwks@);
        }
        KeySet { keys }
    }

    /// Look up the first key published under the given key id, if any.
    pub fn find_key(&self, kid: &str) -> (r: Option<&jsonwebtoken::DecodingKey>)
        ensures
            r is Some <==> self.kids().contains(kid@),
            r matches Some(k) ==> exists|i: int|
                {
                    &&& 0 <= i < self.keys@.len()
                    &&& #[trigger] self.keys@[i].kid@ == kid@
                    &&& *k == self.keys@[i].key
                    &&& forall|j: int| 0 <= j < i ==> self.keys@[j].kid@ != kid@
                },
    {
        let target = kid.to_owned();
        let mut i: usize = 0;
        while i < self.keys.len()
            invariant
                0 <= i <= self.keys@.len(),
                target@ == kid@,
                forall|j: int| 0 <= j < i ==> self.keys@[j].kid@ != kid@,
            decreases self.keys@.len() - i,
        {
            if self.keys[i].kid == target {
                assert(self.kids()[i as int] == kid@);
                return Some(&self.keys[i].key);
            }
            i += 1;
        }
        assert(forall|j: int| 0 <= j < self.kids().len() ==> self.kids()[j] != kid@);
        None
    }
}

/// A snapshot together with the time it was fetched, in seconds since the
/// Unix epoch.
pub struct CachedKeySet {
    pub keys: KeySet,
    pub fetched_at: u64,
}

/// How long a fetched key set stays fresh, in seconds.
pub const KEY_SET_TTL_SECONDS: u64 = 3600;

/// Whether a snapshot fetched at `fetched_at` is still fresh at `now`: its
/// age is below the time-to-live.
pub open spec fn fresh_at(fetched_at: u64, now: u64) -> bool {
    now - fetched_at < KEY_SET_TTL_SECONDS
}

/// A snapshot fetched at some time is still reused one second before its
/// time-to-live elapses and is no longer fresh one second after, so a
/// lookup at the former reuses the cached set and one at the latter
/// triggers a new fetch.
pub proof fn ttl_boundary(fetched_at: u64)
    requires
        fetched_at + 3601 <= u64::MAX,
    ensures
        fresh_at(fetched_at, (fetched_at + 3599) as u64),
        !fresh_at(fetched_at, (fetched_at + 3601) as u64),
{
}

/// The key cache: at most one snapshot, replaced wholesale. A failed fetch
/// installs nothing, so the cache is never poisoned and the next lookup
/// retries. The surrounding program serializes fetches so that at most one
/// is in flight per cache.
pub struct KeyCache {
    entry: Option<CachedKeySet>,
}

impl KeyCache {
    /// The cached snapshot, if one was installed.
    pub closed spec fn snapshot(&self) -> Option<CachedKeySet> {
        self.entry
    }

    /// An empty cache: the first lookup will fetch.
    pub fn new() -> (r: KeyCache)
        ensures
            r.snapshot() is None,
    {
        KeyCache { entry: None }
    }

    /// Whether the cache holds a snapshot that is still fresh at `now`.
    pub fn is_fresh(&self, now: u64) -> (r: bool)
        ensures
            r == (self.snapshot() matches Some(c) && fresh_at(c.fetched_at, now)),
    {
        match &self.entry {
            None => false,
            Some(c) => {
                if now >= c.fetched_at {
                    now - c.fetched_at < KEY_SET_TTL_SECONDS
                } else {
                    true
                }
            },
        }
    }

    /// Replace the snapshot wholesale with a set fetched at `now`.
    pub fn install(&mut self, keys: KeySet, now: u64)
        ensures
            final(self).snapshot() == Some(CachedKeySet { keys, fetched_at: now }),
    {
        self.entry = Some(CachedKeySet { keys, fetched_at: now });
    }

    /// Look up the signing key for a key id in the cached snapshot: the key
    /// of the first entry published under the id. Fails with "no usable
    /// signing key" when no snapshot is installed or no key of the snapshot
    /// is published under the id.
    pub fn get_signing_key(&self, kid: &str) -> (r: Result<&jsonwebtoken::DecodingKey, AuthError>)
        ensures
            r is Ok <==> (self.snapshot() matches Some(c) && c.keys.kids().contains(kid@)),
            r matches Ok(k) ==> (self.snapshot() matches Some(c) && exists|i: int|
                {
                    &&& 0 <= i < c.keys.keys@.len()
                    &&& #[trigger] c.keys.keys@[i].kid@ == kid@
                    &&& *k == c.keys.keys@[i].key
                    &&& forall|j: int| 0 <= j < i ==> c.keys.keys@[j].kid@ != kid@
                }),
            r is Err ==> r matches Err(AuthError::MissingJwkInOidc),
    {
        match &self.entry {
            None => Err(AuthError::MissingJwkInOidc),
            Some(c) => match c.keys.find_key(kid) {
                Some(key) => Ok(key),
                None => Err(AuthError::MissingJwkInOidc),
            },
        }
    }
}

} // verus!
