//! Example topic data types, with their hand-written key projections.
//!
//! `Data` is keyed by its two integer fields, `MessageData` by its text
//! field, and `UnkeyedData` by nothing at all; together they exercise the
//! three shapes a key projection can take (bounded, unbounded, empty).

use crate::codec::{
    cdr_decode_u32_i32_be, cdr_encode_str_le, cdr_encode_u32_i32_be, cdr_encode_u32_i32_le,
};
use crate::topicable::Topicable;
use crate::wire::{
    cdr_text_le, i32_be_bytes, i32_from_be_bytes, i32_le_bytes, lemma_i32_be_round_trip,
    lemma_u32_be_round_trip, u32_be_bytes, u32_from_be_bytes, u32_le_bytes,
};
use vstd::prelude::*;
use vstd::string::StringSliceAdditionalSpecFns;
use vstd::utf8::encode_utf8;

verus! {

/// An aggregate whose identity is the pair of integer fields `x` and `y`.
#[derive(Clone, Debug, PartialEq, Eq)]
pub struct Data {
    pub x: u32,
    pub y: i32,
    pub message: String,
}

impl Default for Data {
    fn default() -> (d: Self)
        ensures
            d.x == 0 && d.y == 0 && d.message@ == Seq::<char>::empty(),
    {
        Data { x: 0, y: 0, message: String::new() }
    }
}

impl Topicable for Data {
    type Key = (u32, i32);

    open spec fn spec_key(&self) -> (u32, i32) {
        (self.x, self.y)
    }

    open spec fn is_lift(t: &Self, key: &(u32, i32)) -> bool {
        t.x == key.0 && t.y == key.1 && t.message@ == Seq::<char>::empty()
    }

    open spec fn key_encoding_be(key: &(u32, i32)) -> Seq<u8> {
        u32_be_bytes(key.0) + i32_be_bytes(key.1)
    }

    open spec fn key_encoding_le(key: &(u32, i32)) -> Seq<u8> {
        u32_le_bytes(key.0) + i32_le_bytes(key.1)
    }

    open spec fn spec_decode_key_be(bytes: Seq<u8>) -> Option<(u32, i32)> {
        if bytes.len() >= 8 {
            Some((u32_from_be_bytes(bytes.subrange(0, 4)), i32_from_be_bytes(bytes.subrange(4, 8))))
        } else {
            None
        }
    }

    open spec fn key_encodable(key: &(u32, i32)) -> bool {
        true
    }

    open spec fn spec_force_digest() -> bool {
        false
    }

    fn force_digest() -> (b: bool) {
        false
    }

    open spec fn spec_wire_name() -> Seq<char> {
        "Data"@
    }

    fn wire_name() -> (r: String) {
        "Data".to_owned()
    }

    fn as_key(&self) -> (k: (u32, i32)) {
        (self.x, self.y)
    }

    fn from_key(key: &(u32, i32)) -> (t: Self) {
        Data { x: key.0, y: key.1, message: String::new() }
    }

    fn check_encodable(key: &(u32, i32)) -> (b: bool) {
        true
    }

    fn encode_key_be(key: &(u32, i32)) -> (r: Vec<u8>) {
        cdr_encode_u32_i32_be(key.0, key.1)
    }

    fn encode_key_le(key: &(u32, i32)) -> (r: Vec<u8>) {
        cdr_encode_u32_i32_le(key.0, key.1)
    }

    fn decode_key_be(bytes: &[u8]) -> (r: Option<(u32, i32)>) {
        cdr_decode_u32_i32_be(bytes)
    }

    proof fn lemma_lift_projects(t: Self, key: (u32, i32)) {
    }

    proof fn lemma_encoding_matches_bounds(key: (u32, i32)) {
    }

    proof fn lemma_decode_inverts_encode(key: (u32, i32), extra: Seq<u8>) {
        let enc = Self::key_encoding_be(&key);
        assert((enc + extra).subrange(0, 4) =~= u32_be_bytes(key.0));
        assert((enc + extra).subrange(4, 8) =~= i32_be_bytes(key.1));
        lemma_u32_be_round_trip(key.0);
        lemma_i32_be_round_trip(key.1);
    }
}

/// The same aggregate shape keyed by its text field alone. Text has no
/// static size bound, so this type's key-hash always takes the digest path.
#[derive(Clone, Debug, PartialEq, Eq)]
pub struct MessageData {
    pub x: u32,
    pub y: i32,
    pub message: String,
}

impl Default for MessageData {
    fn default() -> (d: Self)
        ensures
            d.x == 0 && d.y == 0 && d.message@ == Seq::<char>::empty(),
    {
        MessageData { x: 0, y: 0, message: String::new() }
    }
}

impl Topicable for MessageData {
    type Key = String;

    open spec fn spec_key(&self) -> String {
        self.message
    }

    open spec fn is_lift(t: &Self, key: &String) -> bool {
        t.x == 0 && t.y == 0 && t.message == *key
    }

    open spec fn key_encoding_be(key: &String) -> Seq<u8> {
        Seq::empty()
    }

    open spec fn key_encoding_le(key: &String) -> Seq<u8> {
        cdr_text_le(encode_utf8(key@))
    }

    open spec fn spec_decode_key_be(bytes: Seq<u8>) -> Option<String> {
        None
    }

    open spec fn key_encodable(key: &String) -> bool {
        encode_utf8(key@).len() + 1 <= u32::MAX
    }

    open spec fn spec_force_digest() -> bool {
        false
    }

    fn force_digest() -> (b: bool) {
        false
    }

    open spec fn spec_wire_name() -> Seq<char> {
        "MessageData"@
    }

    fn wire_name() -> (r: String) {
        "MessageData".to_owned()
    }

    fn as_key(&self) -> (k: String) {
        self.message.clone()
    }

    fn from_key(key: &String) -> (t: Self) {
        MessageData { x: 0, y: 0, message: key.clone() }
    }

    fn check_encodable(key: &String) -> (b: bool) {
        let bytes = key.as_str().as_bytes();
        proof {
            vstd::slice::axiom_spec_len::<u8>(bytes);
        }
        bytes.len() < u32::MAX as usize
    }

    fn encode_key_be(key: &String) -> (r: Vec<u8>) {
        Vec::new()
    }

    fn encode_key_le(key: &String) -> (r: Vec<u8>) {
        cdr_encode_str_le(key.as_str())
    }

    fn decode_key_be(bytes: &[u8]) -> (r: Option<String>) {
        None
    }

    proof fn lemma_lift_projects(t: Self, key: String) {
    }

    proof fn lemma_encoding_matches_bounds(key: String) {
    }

    proof fn lemma_decode_inverts_encode(key: String, extra: Seq<u8>) {
    }
}

/// An aggregate with no key fields: every value shares the one trivial key,
/// and lifting that key yields the all-default sample.
#[derive(Clone, Debug, PartialEq, Eq)]
pub struct UnkeyedData {
    pub x: u32,
    pub y: i32,
    pub message: String,
}

impl Default for UnkeyedData {
    fn default() -> (d: Self)
        ensures
            d.x == 0 && d.y == 0 && d.message@ == Seq::<char>::empty(),
    {
        UnkeyedData { x: 0, y: 0, message: String::new() }
    }
}

impl Topicable for UnkeyedData {
    type Key = ();

    open spec fn spec_key(&self) -> () {
        ()
    }

    open spec fn is_lift(t: &Self, key: &()) -> bool {
        t.x == 0 && t.y == 0 && t.message@ == Seq::<char>::empty()
    }

    open spec fn key_encoding_be(key: &()) -> Seq<u8> {
        Seq::empty()
    }

    open spec fn key_encoding_le(key: &()) -> Seq<u8> {
        Seq::empty()
    }

    open spec fn spec_decode_key_be(bytes: Seq<u8>) -> Option<()> {
        Some(())
    }

    open spec fn key_encodable(key: &()) -> bool {
        true
    }

    open spec fn spec_force_digest() -> bool {
        false
    }

    fn force_digest() -> (b: bool) {
        false
    }

    open spec fn spec_wire_name() -> Seq<char> {
        "UnkeyedData"@
    }

    fn wire_name() -> (r: String) {
        "UnkeyedData".to_owned()
    }

    fn as_key(&self) -> (k: ()) {
        ()
    }

    fn from_key(key: &()) -> (t: Self) {
        UnkeyedData { x: 0, y: 0, message: String::new() }
    }

    fn check_encodable(key: &()) -> (b: bool) {
        true
    }

    // The unit key carries no information, so its encoding is the empty byte
    // string; no call into the external encoder is needed to produce it.
    fn encode_key_be(key: &()) -> (r: Vec<u8>) {
        Vec::new()
    }

    fn encode_key_le(key: &()) -> (r: Vec<u8>) {
        Vec::new()
    }

    fn decode_key_be(bytes: &[u8]) -> (r: Option<()>) {
        Some(())
    }

    proof fn lemma_lift_projects(t: Self, key: ()) {
    }

    proof fn lemma_encoding_matches_bounds(key: ()) {
    }

    proof fn lemma_decode_inverts_encode(key: (), extra: Seq<u8>) {
        assert(Self::key_encoding_be(&key) + extra =~= extra);
    }
}

} // verus!
