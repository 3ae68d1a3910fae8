use cyclonedds::cdr_bounds::{CdrBounds, CdrSize};
use cyclonedds::key_hash::{KeyFromHashError, KeyHash};
use cyclonedds::sample::{Info, SampleOrKey, SampleOrKeyInner};
use cyclonedds::topics::{Data, MessageData, UnkeyedData};
use cyclonedds::Topicable;
use cyclonedds::{State, Time};
use md5::{Digest, Md5};

fn info_zero() -> Info {
    Info {
        state: State::empty(),
        source_timestamp: Time::from_nanos(0),
        instance_handle: cyclonedds::entity::InstanceHandle::from_raw(0),
        publication_handle: cyclonedds::entity::InstanceHandle::from_raw(0),
        disposed_generation_count: 0,
        no_writers_generation_count: 0,
        sample_rank: 0,
        generation_rank: 0,
        absolute_generation_rank: 0,
    }
}

#[test]
fn test_key_projection_round_trip() {
    let t = Data {
        x: 7,
        y: -3,
        message: "hello".to_string(),
    };
    let k = t.as_key();
    assert_eq!(k, (7, -3));
    let lifted = Data::from_key(&k);
    assert_eq!(lifted.x, 7);
    assert_eq!(lifted.y, -3);
    assert_eq!(lifted.message, "");
    // The key is a fixed point of the lift-project cycle.
    assert_eq!(lifted.as_key(), k);

    let m = MessageData {
        x: 9,
        y: 1,
        message: "identity".to_string(),
    };
    let mk = m.as_key();
    assert_eq!(mk, "identity");
    let mlifted = MessageData::from_key(&mk);
    assert_eq!(mlifted.message, "identity");
    assert_eq!(mlifted.x, 0);
    assert_eq!(mlifted.y, 0);
    assert_eq!(mlifted.as_key(), mk);
}

#[test]
fn test_direct_hash_scenario() {
    // Key fields {x, y} of {x: u32, y: i32, message: String}: the key type
    // is bounded at 8 bytes with alignment 4, so the hash is the direct
    // big-endian encoding, zero-padded to 16 bytes.
    assert_eq!(
        <<Data as Topicable>::Key as CdrBounds>::max_serialized_cdr_size(),
        CdrSize::Bounded(8)
    );
    assert_eq!(<<Data as Topicable>::Key as CdrBounds>::alignment(), 4);

    let key: (u32, i32) = (12, 35);
    let hash = KeyHash::from_key::<Data>(&key, false).unwrap();
    assert_eq!(
        hash.as_bytes(),
        &[0, 0, 0, 12, 0, 0, 0, 35, 0, 0, 0, 0, 0, 0, 0, 0]
    );

    // The first 8 bytes decode back to the key exactly.
    let back: (u32, i32) = hash.to_key::<Data>(false).unwrap();
    assert_eq!(back, key);
}

#[test]
fn test_direct_hash_negative_component() {
    let key: (u32, i32) = (0xDEAD_BEEF, -2);
    let hash = KeyHash::from_key::<Data>(&key, false).unwrap();
    assert_eq!(
        hash.as_bytes(),
        &[0xDE, 0xAD, 0xBE, 0xEF, 0xFF, 0xFF, 0xFF, 0xFE, 0, 0, 0, 0, 0, 0, 0, 0]
    );
    assert_eq!(hash.to_key::<Data>(false).unwrap(), key);
}

#[test]
fn test_force_digest_changes_algorithm() {
    // With the force flag the same bounded key is hashed by digest instead.
    let key: (u32, i32) = (12, 35);
    let forced = KeyHash::from_key::<Data>(&key, true).unwrap();
    let le_encoding: Vec<u8> = vec![12, 0, 0, 0, 35, 0, 0, 0];
    let expected = Md5::digest(&le_encoding);
    assert_eq!(forced.as_bytes(), expected.as_slice());
    // A digest-mode hash cannot be inverted.
    assert_eq!(
        forced.to_key::<Data>(true),
        Err(KeyFromHashError::NotInvertible)
    );
}

#[test]
fn test_hash_deterministic() {
    let key: (u32, i32) = (1001, -42);
    let h1 = KeyHash::from_key::<Data>(&key, false).unwrap();
    let h2 = KeyHash::from_key::<Data>(&key, false).unwrap();
    assert_eq!(h1.as_bytes(), h2.as_bytes());

    let text_key = "the same key".to_string();
    let d1 = KeyHash::from_key::<MessageData>(&text_key, false).unwrap();
    let d2 = KeyHash::from_key::<MessageData>(&text_key, false).unwrap();
    assert_eq!(d1.as_bytes(), d2.as_bytes());
}

#[test]
fn test_algorithm_is_type_level() {
    // Every value of the bounded key type takes the direct branch: the
    // encoding is visible verbatim in the hash, whatever the value.
    for (x, y) in [(0u32, 0i32), (1, -1), (u32::MAX, i32::MIN)] {
        let hash = KeyHash::from_key::<Data>(&(x, y), false).unwrap();
        let mut expected = Vec::new();
        expected.extend_from_slice(&x.to_be_bytes());
        expected.extend_from_slice(&y.to_be_bytes());
        expected.resize(16, 0);
        assert_eq!(hash.as_bytes(), expected.as_slice());
    }
}

#[test]
fn test_unbounded_key_scenario() {
    // Key field {message}: the key type is unbounded, so the digest
    // algorithm is used however short the actual string is, and the hash is
    // not invertible.
    assert_eq!(
        <<MessageData as Topicable>::Key as CdrBounds>::max_serialized_cdr_size(),
        CdrSize::Unbounded
    );

    let key = "hi".to_string();
    let hash = KeyHash::from_key::<MessageData>(&key, false).unwrap();
    // Little-endian CDR text: length including terminator, bytes, NUL.
    let le_encoding: Vec<u8> = vec![3, 0, 0, 0, b'h', b'i', 0];
    let expected = Md5::digest(&le_encoding);
    assert_eq!(hash.as_bytes(), expected.as_slice());

    assert_eq!(
        hash.to_key::<MessageData>(false),
        Err(KeyFromHashError::NotInvertible)
    );
}

#[test]
fn test_unkeyed_scenario() {
    // Zero key fields: the key type is unit, every value projects to the
    // same trivial key, and lifting yields the all-default sample.
    let a = UnkeyedData {
        x: 1,
        y: 2,
        message: "one".to_string(),
    };
    let b = UnkeyedData {
        x: 3,
        y: 4,
        message: "two".to_string(),
    };
    assert_eq!(a.as_key(), b.as_key());
    let lifted = UnkeyedData::from_key(&a.as_key());
    assert_eq!(lifted, UnkeyedData::default());

    // The unit key is bounded at zero bytes, so its hash is all padding.
    let hash = KeyHash::from_key::<UnkeyedData>(&(), false).unwrap();
    assert_eq!(hash.as_bytes(), &[0u8; 16]);
}

#[test]
fn test_duality_memoizes_key() {
    let data = Data {
        x: 5,
        y: -6,
        message: "payload".to_string(),
    };
    let mut duality = SampleOrKeyInner::<Data>::new_sample(data);
    let first = *duality.key();
    let second = *duality.key();
    assert_eq!(first, (5, -6));
    assert_eq!(second, first);
}

#[test]
fn test_duality_materializes_sample_from_key() {
    let mut duality = SampleOrKeyInner::<Data>::new_key((8, 9));
    {
        let sample = duality.sample();
        assert_eq!(sample.x, 8);
        assert_eq!(sample.y, 9);
        // Non-key fields are defaulted: the reconstruction is lossy.
        assert_eq!(sample.message, "");
    }
    // Projecting the materialized sample reproduces the key.
    assert_eq!(*duality.key(), (8, 9));
}

#[test]
fn test_sample_ref() {
    let info = info_zero();
    let data = Data {
        x: 10,
        y: 11,
        message: "sample".to_string(),
    };
    let sample = SampleOrKey::new_sample(data.clone(), info);

    assert_eq!(sample.info(), &info);
    assert!(sample.is_sample());
    assert!(!sample.is_key());
    assert_eq!(sample.sample(), Some(&data));
    assert_eq!(sample.key(), None);
    assert!(sample.is_sample_and(|s: &Data| s.x == 10));
    assert!(!sample.is_key_and(|_k: &(u32, i32)| true));
    assert_eq!(sample.into_sample().unwrap(), data);
}

#[test]
fn test_key_wrapper_accessors() {
    let info = info_zero();
    let wrapped = SampleOrKey::<Data>::new_key((21, -7), info);
    assert!(wrapped.is_key());
    assert!(!wrapped.is_sample());
    assert_eq!(wrapped.sample(), None);
    assert_eq!(wrapped.key(), Some(&(21, -7)));
    assert!(wrapped.is_key_and(|k: &(u32, i32)| k.1 == -7));
    assert!(!wrapped.is_sample_and(|_s: &Data| true));
    assert_eq!(wrapped.into_key(), Some((21, -7)));
}

#[test]
fn test_wire_names() {
    assert_eq!(<Data as Topicable>::wire_name(), "Data");
    assert_eq!(<MessageData as Topicable>::wire_name(), "MessageData");
    assert_eq!(<UnkeyedData as Topicable>::wire_name(), "UnkeyedData");
}

#[test]
fn test_try_from_key_checks_encodability() {
    // An ordinary text key fits the wire format, so the checked entry point
    // agrees with the direct one.
    let key = "fits".to_string();
    let checked = KeyHash::try_from_key::<MessageData>(&key, false).unwrap();
    let direct = KeyHash::from_key::<MessageData>(&key, false).unwrap();
    assert_eq!(checked.as_bytes(), direct.as_bytes());

    let pair_key: (u32, i32) = (3, 4);
    let checked = KeyHash::try_from_key::<Data>(&pair_key, false).unwrap();
    let direct = KeyHash::from_key::<Data>(&pair_key, false).unwrap();
    assert_eq!(checked.as_bytes(), direct.as_bytes());
}
