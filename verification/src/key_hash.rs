//! The key-hash engine: a fixed 16-byte identity for a key value, computed
//! by one of two algorithms chosen per type, never per value.
//!
//! When the key type's bound is finite and at most 16 bytes, and the type
//! does not force the digest, the hash is the big-endian CDR encoding of the
//! key, zero-padded on the right to 16 bytes (the *direct* algorithm, which
//! is invertible). Otherwise it is the MD5 digest of the little-endian CDR
//! encoding (the *digest* algorithm, which is not).

use crate::cdr_bounds::{CdrBounds, CdrSize, SizeBound};
use crate::codec::{md5_digest, md5_of};
use crate::topicable::Topicable;
use crate::wire::zero_pad16;
use vstd::prelude::*;

verus! {

/// A fixed 16-byte value identifying a key value on the wire. Both hash
/// algorithms share this output space.
#[derive(Clone, Debug, PartialEq, Eq, Hash)]
pub struct KeyHash(Vec<u8>);

impl View for KeyHash {
    type V = Seq<u8>;

    closed spec fn view(&self) -> Seq<u8> {
        self.0@
    }
}

/// The failure reconstructing a key from a key-hash can report.
#[derive(Clone, Copy, Debug, PartialEq, Eq, Structural)]
pub enum KeyFromHashError {
    /// The key type hashes by digest, and a digest cannot be inverted.
    NotInvertible,
    /// The hash bytes do not decode as a key value.
    Malformed,
}

/// Which algorithm the key-hash of `T` uses: a pure function of the key
/// type's bound and the force-digest flag — the key value plays no part.
pub open spec fn uses_direct_keyhash<T: Topicable>(force_digest: bool) -> bool {
    !force_digest && match <T::Key as CdrBounds>::spec_max_size() {
        SizeBound::Fin(n) => n <= 16,
        SizeBound::Inf => false,
    }
}

/// The key-hash of a key value, as a mathematical function of the key and
/// the flag.
pub open spec fn spec_key_hash<T: Topicable>(key: T::Key, force_digest: bool) -> Seq<u8> {
    if uses_direct_keyhash::<T>(force_digest) {
        zero_pad16(T::key_encoding_be(&key))
    } else {
        md5_of(T::key_encoding_le(&key))
    }
}

impl KeyHash {
    /// The hash bytes.
    pub fn as_bytes(&self) -> (r: &[u8])
        ensures
            r@ == self@,
    {
        self.0.as_slice()
    }

    /// Compute the key-hash of `key`. The choice between the direct and the
    /// digest algorithm reads only the key type's bounds and the flag, so
    /// every value of one key type is hashed the same way.
    pub fn from_key<T: Topicable>(key: &T::Key, force_md5: bool) -> (r: Option<KeyHash>)
        requires
            T::key_encodable(key),
        ensures
            r matches Some(h) && h@ == spec_key_hash::<T>(*key, force_md5) && h@.len() == 16,
    {
        proof {
            <T::Key as CdrBounds>::lemma_bounds_wf();
            T::lemma_encoding_matches_bounds(*key);
        }
        let bounds = <T::Key as CdrBounds>::max_serialized_cdr_size();
        if !force_md5 && bounds.le(&CdrSize::Bounded(16)) {
            let mut serialized = T::encode_key_be(key);
            let ghost encoding = serialized@;
            while serialized.len() < 16
                invariant
                    encoding.len() <= 16,
                    encoding.len() <= serialized@.len() <= 16,
                    serialized@.subrange(0, encoding.len() as int) == encoding,
                    forall|i: int| encoding.len() <= i < serialized@.len() ==> serialized@[i] == 0u8,
                decreases 16 - serialized.len(),
            {
                serialized.push(0u8);
            }
            proof {
                assert(serialized@ =~= zero_pad16(encoding));
            }
            Some(KeyHash(serialized))
        } else {
            let serialized = T::encode_key_le(key);
            let digest = md5_digest(serialized.as_slice());
            Some(KeyHash(digest))
        }
    }

    /// Compute the key-hash of an arbitrary key value, first checking that
    /// its encoding fits the wire format; a key that does not fit yields
    /// nothing rather than a hash.
    pub fn try_from_key<T: Topicable>(key: &T::Key, force_md5: bool) -> (r: Option<KeyHash>)
        ensures
            T::key_encodable(key) ==> (r matches Some(h) && h@ == spec_key_hash::<T>(
                *key,
                force_md5,
            ) && h@.len() == 16),
            !T::key_encodable(key) ==> r is None,
    {
        if T::check_encodable(key) {
            KeyHash::from_key::<T>(key, force_md5)
        } else {
            None
        }
    }

    /// Reconstruct the key a hash was computed from. This is possible
    /// exactly for the direct algorithm: a digest-mode hash is rejected with
    /// a typed failure, as an expected outcome rather than a fault.
    pub fn to_key<T: Topicable>(&self, force_md5: bool) -> (r: Result<T::Key, KeyFromHashError>)
        ensures
            !uses_direct_keyhash::<T>(force_md5) ==> r == Result::<
                T::Key,
                KeyFromHashError,
            >::Err(KeyFromHashError::NotInvertible),
            uses_direct_keyhash::<T>(force_md5) ==> r == match T::spec_decode_key_be(self@) {
                Some(k) => Result::<T::Key, KeyFromHashError>::Ok(k),
                None => Result::<T::Key, KeyFromHashError>::Err(KeyFromHashError::Malformed),
            },
    {
        let bounds = <T::Key as CdrBounds>::max_serialized_cdr_size();
        if !force_md5 && bounds.le(&CdrSize::Bounded(16)) {
            match T::decode_key_be(self.0.as_slice()) {
                Some(key) => Ok(key),
                None => Err(KeyFromHashError::Malformed),
            }
        } else {
            Err(KeyFromHashError::NotInvertible)
        }
    }
}

/// Key-hash determinism: the hash is a function of the key value and the
/// flag alone, so two computations over the same key agree bit for bit.
pub proof fn lemma_key_hash_deterministic<T: Topicable>(
    h1: Seq<u8>,
    h2: Seq<u8>,
    key: T::Key,
    force_digest: bool,
)
    requires
        h1 == spec_key_hash::<T>(key, force_digest),
        h2 == spec_key_hash::<T>(key, force_digest),
    ensures
        h1 == h2,
{
}

/// Algorithm selection is type-level: for a fixed key type and flag, every
/// key value goes down the same branch — direct for all, or digest for all.
pub proof fn lemma_keyhash_algorithm_type_level<T: Topicable>(
    k1: T::Key,
    k2: T::Key,
    force_digest: bool,
)
    ensures
        uses_direct_keyhash::<T>(force_digest) ==> spec_key_hash::<T>(k1, force_digest)
            == zero_pad16(T::key_encoding_be(&k1)) && spec_key_hash::<T>(k2, force_digest)
            == zero_pad16(T::key_encoding_be(&k2)),
        !uses_direct_keyhash::<T>(force_digest) ==> spec_key_hash::<T>(k1, force_digest) == md5_of(
            T::key_encoding_le(&k1),
        ) && spec_key_hash::<T>(k2, force_digest) == md5_of(T::key_encoding_le(&k2)),
{
}

/// Direct-mode invertibility: decoding the bytes of a direct-mode key-hash
/// reproduces the key it was computed from, exactly.
pub proof fn lemma_direct_hash_invertible<T: Topicable>(key: T::Key, force_digest: bool)
    requires
        T::key_encodable(&key),
        uses_direct_keyhash::<T>(force_digest),
    ensures
        T::spec_decode_key_be(spec_key_hash::<T>(key, force_digest)) == Some(key),
{
    <T::Key as CdrBounds>::lemma_bounds_wf();
    T::lemma_encoding_matches_bounds(key);
    let encoding = T::key_encoding_be(&key);
    let zeros = Seq::new((16 - encoding.len()) as nat, |i: int| 0u8);
    T::lemma_decode_inverts_encode(key, zeros);
    assert(zero_pad16(encoding) =~= encoding + zeros);
}


} // verus!
