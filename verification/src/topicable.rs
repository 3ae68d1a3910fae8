//! The capability a data type needs to travel through the middleware: a key
//! projection (a distinguished subset of its fields), a lift back from a key
//! to a full sample, and the CDR encodings of key values.
//!
//! In the absence of a derive step, a type opts in by implementing this
//! trait by hand; the proof obligations at the bottom keep every
//! implementation consistent with the bounds calculator and with itself.

use crate::cdr_bounds::{CdrBounds, SizeBound};
use vstd::prelude::*;

verus! {

pub trait Topicable: Sized {
    /// The key projection type: exactly the key fields, in declaration
    /// order. An unkeyed type uses the unit type here.
    type Key: CdrBounds;

    /// The key projection of a sample, as a mathematical value.
    spec fn spec_key(&self) -> Self::Key;

    /// What lifting a key back to a full sample produces: the key fields
    /// carry over and every other field takes its default value. The lift is
    /// lossy by design; this predicate is all that is promised of it.
    spec fn is_lift(t: &Self, key: &Self::Key) -> bool;

    /// The big-endian CDR encoding of a key value.
    spec fn key_encoding_be(key: &Self::Key) -> Seq<u8>;

    /// The little-endian CDR encoding of a key value.
    spec fn key_encoding_le(key: &Self::Key) -> Seq<u8>;

    /// What decoding a big-endian key encoding yields, or `None` where the
    /// bytes cannot be read back (too short, or the key type is not
    /// invertible at all).
    spec fn spec_decode_key_be(bytes: Seq<u8>) -> Option<Self::Key>;

    /// The keys whose encoding the wire format can carry. This is a machine
    /// limit only: a text key must fit the 32-bit length prefix; fixed-width
    /// keys are always encodable.
    spec fn key_encodable(key: &Self::Key) -> bool;

    /// Whether the key-hash must use the digest algorithm even when the
    /// direct encoding would fit. A property of the type, never of a value.
    spec fn spec_force_digest() -> bool;

    fn force_digest() -> (b: bool)
        ensures
            b == Self::spec_force_digest(),
    ;

    /// The name under which this type travels on the wire.
    spec fn spec_wire_name() -> Seq<char>;

    fn wire_name() -> (r: String)
        ensures
            r@ == Self::spec_wire_name(),
    ;

    /// Copy the key fields out of a sample.
    fn as_key(&self) -> (k: Self::Key)
        ensures
            k == self.spec_key(),
    ;

    /// Build a full sample from a key, defaulting every non-key field.
    fn from_key(key: &Self::Key) -> (t: Self)
        ensures
            Self::is_lift(&t, key),
    ;

    /// Decide whether a key's encoding fits the wire format, so that a
    /// caller holding an arbitrary key can establish `key_encodable` before
    /// asking for an encoding.
    fn check_encodable(key: &Self::Key) -> (b: bool)
        ensures
            b == Self::key_encodable(key),
    ;

    fn encode_key_be(key: &Self::Key) -> (r: Vec<u8>)
        requires
            Self::key_encodable(key),
        ensures
            r@ == Self::key_encoding_be(key),
    ;

    fn encode_key_le(key: &Self::Key) -> (r: Vec<u8>)
        requires
            Self::key_encodable(key),
        ensures
            r@ == Self::key_encoding_le(key),
    ;

    fn decode_key_be(bytes: &[u8]) -> (r: Option<Self::Key>)
        ensures
            r == Self::spec_decode_key_be(bytes@),
    ;

    /// Law: projecting a lifted sample reproduces the key it was lifted
    /// from.
    proof fn lemma_lift_projects(t: Self, key: Self::Key)
        requires
            Self::is_lift(&t, &key),
        ensures
            t.spec_key() == key,
    ;

    /// Law: the encoder and the bounds calculator agree — a key of a type
    /// with a finite bound encodes to exactly that many bytes, in either
    /// byte order.
    proof fn lemma_encoding_matches_bounds(key: Self::Key)
        requires
            Self::key_encodable(&key),
        ensures
            Self::Key::spec_max_size() matches SizeBound::Fin(n) ==> Self::key_encoding_be(
                &key,
            ).len() == n && Self::key_encoding_le(&key).len() == n,
    ;

    /// Law: for a key type with a finite bound, decoding inverts the
    /// big-endian encoding, whatever bytes trail it.
    proof fn lemma_decode_inverts_encode(key: Self::Key, extra: Seq<u8>)
        requires
            Self::key_encodable(&key),
            Self::Key::spec_max_size() is Fin,
        ensures
            Self::spec_decode_key_be(Self::key_encoding_be(&key) + extra) == Some(key),
    ;
}

/// Key/projection round trip: the key is a fixed point of the lift-project
/// cycle. For any sample `t`, lifting `t`'s key and projecting again yields
/// `t`'s key unchanged.
pub proof fn lemma_key_round_trip<T: Topicable>(t: T, lifted: T)
    requires
        T::is_lift(&lifted, &t.spec_key()),
    ensures
        lifted.spec_key() == t.spec_key(),
{
    T::lemma_lift_projects(lifted, t.spec_key());
}

} // verus!
