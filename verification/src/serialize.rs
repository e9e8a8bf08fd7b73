//! Serialization strategies: how typed keys and values become bytes and back.
//!
//! A strategy is a type without state. It names a serializer and a
//! deserializer for the key and for the value of a collection; the
//! deserializer decides whether stored bytes come back decoded or as a
//! [`Lazy`] handle that is decoded on demand.

use vstd::prelude::*;
use vstd::bytes::*;
use vstd::utf8::*;
use vstd::slice::slice_to_vec;
use std::marker::PhantomData;

verus! {

/// Calls `bincode::serialize` on a `u64`.
///
/// Trusted: with bincode's default options for this function (fixed-width
/// integers, little endian, no size limit) the result is the eight bytes of
/// the value, least significant first, and the call cannot fail.
#[verifier::external_body]
fn bincode_serialize_u64(value: u64) -> (bytes: Vec<u8>)
    ensures
        bytes@ == spec_u64_to_le_bytes(value),
{
    bincode::serialize(&value).expect("serialization failed, did the type serialized change?")
}

/// Calls `bincode::deserialize::<u64>`.
///
/// Trusted: the call reads eight bytes, least significant first, ignores
/// whatever follows them, and fails exactly when fewer than eight bytes are
/// given.
#[verifier::external_body]
fn bincode_deserialize_u64(bytes: &[u8]) -> (value: Option<u64>)
    ensures
        value == decoding_u64(bytes@),
{
    bincode::deserialize::<u64>(bytes).ok()
}

/// Calls `bincode::serialize` on a `u32`.
///
/// Trusted: the result is the four bytes of the value, least significant
/// first, and the call cannot fail.
#[verifier::external_body]
fn bincode_serialize_u32(value: u32) -> (bytes: Vec<u8>)
    ensures
        bytes@ == spec_u32_to_le_bytes(value),
{
    bincode::serialize(&value).expect("serialization failed, did the type serialized change?")
}

/// Calls `bincode::deserialize::<u32>`.
///
/// Trusted: the call reads four bytes, least significant first, ignores
/// whatever follows them, and fails exactly when fewer than four bytes are
/// given.
#[verifier::external_body]
fn bincode_deserialize_u32(bytes: &[u8]) -> (value: Option<u32>)
    ensures
        value == decoding_u32(bytes@),
{
    bincode::deserialize::<u32>(bytes).ok()
}

/// Calls `bincode::serialize` on a `u16`.
///
/// Trusted: the result is the two bytes of the value, least significant
/// first, and the call cannot fail.
#[verifier::external_body]
fn bincode_serialize_u16(value: u16) -> (bytes: Vec<u8>)
    ensures
        bytes@ == spec_u16_to_le_bytes(value),
{
    bincode::serialize(&value).expect("serialization failed, did the type serialized change?")
}

/// Calls `bincode::deserialize::<u16>`.
///
/// Trusted: the call reads two bytes, least significant first, ignores
/// whatever follows them, and fails exactly when fewer than two bytes are
/// given.
#[verifier::external_body]
fn bincode_deserialize_u16(bytes: &[u8]) -> (value: Option<u16>)
    ensures
        value == decoding_u16(bytes@),
{
    bincode::deserialize::<u16>(bytes).ok()
}

/// Calls `bincode::serialize` on a `u8`.
///
/// Trusted: the result is the value as one byte, and the call cannot fail.
#[verifier::external_body]
fn bincode_serialize_u8(value: u8) -> (bytes: Vec<u8>)
    ensures
        bytes@ == seq![value],
{
    bincode::serialize(&value).expect("serialization failed, did the type serialized change?")
}

/// Calls `bincode::deserialize::<u8>`.
///
/// Trusted: the call reads one byte, ignores whatever follows it, and fails
/// exactly when no byte is given.
#[verifier::external_body]
fn bincode_deserialize_u8(bytes: &[u8]) -> (value: Option<u8>)
    ensures
        value == decoding_u8(bytes@),
{
    bincode::deserialize::<u8>(bytes).ok()
}

/// What decoding a `u16` from `bytes` gives: the first two bytes read as a
/// little-endian integer, or nothing where there are fewer.
pub open spec fn decoding_u16(bytes: Seq<u8>) -> Option<u16> {
    if bytes.len() >= 2 {
        Some(spec_u16_from_le_bytes(bytes.subrange(0, 2)))
    } else {
        None
    }
}

/// What decoding a `u8` from `bytes` gives: the first byte, or nothing where
/// there is none.
pub open spec fn decoding_u8(bytes: Seq<u8>) -> Option<u8> {
    if bytes.len() >= 1 {
        Some(bytes[0])
    } else {
        None
    }
}

/// Calls `bincode::serialize` on a `String`.
///
/// Trusted: the result is the number of bytes of the string's UTF-8 form,
/// as eight bytes, least significant first, followed by those bytes, and
/// the call cannot fail.
#[verifier::external_body]
fn bincode_serialize_string(value: &String) -> (bytes: Vec<u8>)
    ensures
        bytes@ == string_encoding(value@),
{
    bincode::serialize(value).expect("serialization failed, did the type serialized change?")
}

/// Calls `bincode::deserialize::<String>`.
///
/// Trusted: the call reads a length of eight bytes, least significant
/// first, then that many bytes, which must be valid UTF-8, and ignores
/// whatever follows them. It fails exactly when the bytes given are too few
/// or the bytes of the string are not valid UTF-8.
#[verifier::external_body]
fn bincode_deserialize_string(bytes: &[u8]) -> (value: Option<String>)
    ensures
        value is Some <==> string_decodable(bytes@),
        value matches Some(s) ==> s@ == decode_utf8(string_body(bytes@)),
{
    bincode::deserialize::<String>(bytes).ok()
}

/// Calls `bincode::serialize` on a `str`.
///
/// Trusted: the result is that of the call on a `String` with the same
/// characters, and the call cannot fail.
#[verifier::external_body]
fn bincode_serialize_str(value: &str) -> (bytes: Vec<u8>)
    ensures
        bytes@ == string_encoding(value@),
{
    bincode::serialize(value).expect("serialization failed, did the type serialized change?")
}

/// The bytes that a string of characters `chars` is stored as.
pub open spec fn string_encoding(chars: Seq<char>) -> Seq<u8> {
    spec_u64_to_le_bytes(encode_utf8(chars).len() as u64) + encode_utf8(chars)
}

/// The length that the first eight of `bytes` announce.
pub open spec fn string_length(bytes: Seq<u8>) -> int {
    spec_u64_from_le_bytes(bytes.subrange(0, 8)) as int
}

/// The bytes of the string that `bytes` hold, after the length.
pub open spec fn string_body(bytes: Seq<u8>) -> Seq<u8> {
    bytes.subrange(8, 8 + string_length(bytes))
}

/// Whether `bytes` hold a string: a length, and at least that many bytes
/// after it, which are valid UTF-8.
pub open spec fn string_decodable(bytes: Seq<u8>) -> bool {
    &&& bytes.len() >= 8
    &&& 8 + string_length(bytes) <= bytes.len()
    &&& valid_utf8(string_body(bytes))
}

/// What decoding a `u64` from `bytes` gives: the first eight bytes read as a
/// little-endian integer, or nothing where there are fewer.
pub open spec fn decoding_u64(bytes: Seq<u8>) -> Option<u64> {
    if bytes.len() >= 8 {
        Some(spec_u64_from_le_bytes(bytes.subrange(0, 8)))
    } else {
        None
    }
}

/// What decoding a `u32` from `bytes` gives: the first four bytes read as a
/// little-endian integer, or nothing where there are fewer.
pub open spec fn decoding_u32(bytes: Seq<u8>) -> Option<u32> {
    if bytes.len() >= 4 {
        Some(spec_u32_from_le_bytes(bytes.subrange(0, 4)))
    } else {
        None
    }
}

/// A type that can be a key or a value of a collection: it has a byte
/// encoding, and decoding that encoding gives the value back.
pub trait KV: Sized {
    /// The bytes that stand for `self` in the store.
    spec fn encoding(&self) -> Seq<u8>;

    /// Whether `bytes` hold a value of this type.
    spec fn decodable(bytes: Seq<u8>) -> bool;

    /// Whether `value` is what `bytes` hold.
    spec fn decodes_to(bytes: Seq<u8>, value: Self) -> bool;

    /// Whether the format can hold `self`. Every integer can be held, and
    /// every string whose length in bytes fits the length prefix of 64 bits,
    /// which is every string that fits in memory.
    spec fn storable(&self) -> bool;

    /// Encodes `self`.
    fn to_bytes(&self) -> (bytes: Vec<u8>)
        ensures
            bytes@ == self.encoding(),
            self.storable(),
    ;

    /// Decodes `bytes`, or reports that they do not hold a value of this type.
    fn from_bytes(bytes: &[u8]) -> (value: Option<Self>)
        ensures
            value is Some <==> Self::decodable(bytes@),
            value matches Some(v) ==> Self::decodes_to(bytes@, v),
    ;

    /// Whether `other` is the same value as `self`: equal, for an integer;
    /// of the same characters, for a string.
    spec fn same(&self, other: Self) -> bool;

    /// Decoding an encoding gives the encoded value, and no other.
    proof fn round_trip(&self)
        requires
            self.storable(),
        ensures
            Self::decodable(self.encoding()),
            Self::decodes_to(self.encoding(), *self),
            forall|other: Self| #[trigger]
                Self::decodes_to(self.encoding(), other) ==> self.same(other),
    ;
}

impl KV for u64 {
    open spec fn encoding(&self) -> Seq<u8> {
        spec_u64_to_le_bytes(*self)
    }

    open spec fn decodable(bytes: Seq<u8>) -> bool {
        decoding_u64(bytes) is Some
    }

    open spec fn decodes_to(bytes: Seq<u8>, value: u64) -> bool {
        decoding_u64(bytes) == Some(value)
    }

    open spec fn storable(&self) -> bool {
        true
    }

    open spec fn same(&self, other: u64) -> bool {
        *self == other
    }

    fn to_bytes(&self) -> (bytes: Vec<u8>) {
        bincode_serialize_u64(*self)
    }

    fn from_bytes(bytes: &[u8]) -> (value: Option<u64>) {
        bincode_deserialize_u64(bytes)
    }

    proof fn round_trip(&self) {
        lemma_auto_spec_u64_to_from_le_bytes();
        assert(self.encoding().subrange(0, 8) =~= self.encoding());
    }
}

impl KV for u32 {
    open spec fn encoding(&self) -> Seq<u8> {
        spec_u32_to_le_bytes(*self)
    }

    open spec fn decodable(bytes: Seq<u8>) -> bool {
        decoding_u32(bytes) is Some
    }

    open spec fn decodes_to(bytes: Seq<u8>, value: u32) -> bool {
        decoding_u32(bytes) == Some(value)
    }

    open spec fn storable(&self) -> bool {
        true
    }

    open spec fn same(&self, other: u32) -> bool {
        *self == other
    }

    fn to_bytes(&self) -> (bytes: Vec<u8>) {
        bincode_serialize_u32(*self)
    }

    fn from_bytes(bytes: &[u8]) -> (value: Option<u32>) {
        bincode_deserialize_u32(bytes)
    }

    proof fn round_trip(&self) {
        lemma_auto_spec_u32_to_from_le_bytes();
        assert(self.encoding().subrange(0, 4) =~= self.encoding());
    }
}

impl KV for u16 {
    open spec fn encoding(&self) -> Seq<u8> {
        spec_u16_to_le_bytes(*self)
    }

    open spec fn decodable(bytes: Seq<u8>) -> bool {
        decoding_u16(bytes) is Some
    }

    open spec fn decodes_to(bytes: Seq<u8>, value: u16) -> bool {
        decoding_u16(bytes) == Some(value)
    }

    open spec fn storable(&self) -> bool {
        true
    }

    open spec fn same(&self, other: u16) -> bool {
        *self == other
    }

    fn to_bytes(&self) -> (bytes: Vec<u8>) {
        bincode_serialize_u16(*self)
    }

    fn from_bytes(bytes: &[u8]) -> (value: Option<u16>) {
        bincode_deserialize_u16(bytes)
    }

    proof fn round_trip(&self) {
        lemma_auto_spec_u16_to_from_le_bytes();
        assert(self.encoding().subrange(0, 2) =~= self.encoding());
    }
}

impl KV for u8 {
    open spec fn encoding(&self) -> Seq<u8> {
        seq![*self]
    }

    open spec fn decodable(bytes: Seq<u8>) -> bool {
        decoding_u8(bytes) is Some
    }

    open spec fn decodes_to(bytes: Seq<u8>, value: u8) -> bool {
        decoding_u8(bytes) == Some(value)
    }

    open spec fn storable(&self) -> bool {
        true
    }

    open spec fn same(&self, other: u8) -> bool {
        *self == other
    }

    fn to_bytes(&self) -> (bytes: Vec<u8>) {
        bincode_serialize_u8(*self)
    }

    fn from_bytes(bytes: &[u8]) -> (value: Option<u8>) {
        bincode_deserialize_u8(bytes)
    }

    proof fn round_trip(&self) {
    }
}

/// A signed integer is stored as the unsigned integer with the same bits.
impl KV for i8 {
    open spec fn encoding(&self) -> Seq<u8> {
        (*self as u8).encoding()
    }

    open spec fn decodable(bytes: Seq<u8>) -> bool {
        u8::decodable(bytes)
    }

    open spec fn decodes_to(bytes: Seq<u8>, value: i8) -> bool {
        u8::decodes_to(bytes, value as u8)
    }

    open spec fn storable(&self) -> bool {
        true
    }

    open spec fn same(&self, other: i8) -> bool {
        *self == other
    }

    fn to_bytes(&self) -> (bytes: Vec<u8>) {
        let bits = #[verifier::truncate] (*self as u8);
        bits.to_bytes()
    }

    fn from_bytes(bytes: &[u8]) -> (value: Option<i8>) {
        match u8::from_bytes(bytes) {
            Some(bits) => {
                assert(((bits as i8) as u8) == bits) by (bit_vector);
                Some(#[verifier::truncate] (bits as i8))
            },
            None => None,
        }
    }

    proof fn round_trip(&self) {
        let bits = *self as u8;
        bits.round_trip();
        assert forall|other: i8| #[trigger] Self::decodes_to(self.encoding(), other) implies *self
            == other by {
            let a = *self;
            assert((a as u8) == (other as u8) ==> a == other) by (bit_vector);
        }
    }
}

/// A signed integer is stored as the unsigned integer with the same bits.
impl KV for i16 {
    open spec fn encoding(&self) -> Seq<u8> {
        (*self as u16).encoding()
    }

    open spec fn decodable(bytes: Seq<u8>) -> bool {
        u16::decodable(bytes)
    }

    open spec fn decodes_to(bytes: Seq<u8>, value: i16) -> bool {
        u16::decodes_to(bytes, value as u16)
    }

    open spec fn storable(&self) -> bool {
        true
    }

    open spec fn same(&self, other: i16) -> bool {
        *self == other
    }

    fn to_bytes(&self) -> (bytes: Vec<u8>) {
        let bits = #[verifier::truncate] (*self as u16);
        bits.to_bytes()
    }

    fn from_bytes(bytes: &[u8]) -> (value: Option<i16>) {
        match u16::from_bytes(bytes) {
            Some(bits) => {
                assert(((bits as i16) as u16) == bits) by (bit_vector);
                Some(#[verifier::truncate] (bits as i16))
            },
            None => None,
        }
    }

    proof fn round_trip(&self) {
        let bits = *self as u16;
        bits.round_trip();
        assert forall|other: i16| #[trigger] Self::decodes_to(self.encoding(), other) implies *self
            == other by {
            let a = *self;
            assert((a as u16) == (other as u16) ==> a == other) by (bit_vector);
        }
    }
}

/// A signed integer is stored as the unsigned integer with the same bits.
impl KV for i32 {
    open spec fn encoding(&self) -> Seq<u8> {
        (*self as u32).encoding()
    }

    open spec fn decodable(bytes: Seq<u8>) -> bool {
        u32::decodable(bytes)
    }

    open spec fn decodes_to(bytes: Seq<u8>, value: i32) -> bool {
        u32::decodes_to(bytes, value as u32)
    }

    open spec fn storable(&self) -> bool {
        true
    }

    open spec fn same(&self, other: i32) -> bool {
        *self == other
    }

    fn to_bytes(&self) -> (bytes: Vec<u8>) {
        let bits = #[verifier::truncate] (*self as u32);
        bits.to_bytes()
    }

    fn from_bytes(bytes: &[u8]) -> (value: Option<i32>) {
        match u32::from_bytes(bytes) {
            Some(bits) => {
                assert(((bits as i32) as u32) == bits) by (bit_vector);
                Some(#[verifier::truncate] (bits as i32))
            },
            None => None,
        }
    }

    proof fn round_trip(&self) {
        let bits = *self as u32;
        bits.round_trip();
        assert forall|other: i32| #[trigger] Self::decodes_to(self.encoding(), other) implies *self
            == other by {
            let a = *self;
            assert((a as u32) == (other as u32) ==> a == other) by (bit_vector);
        }
    }
}

/// A signed integer is stored as the unsigned integer with the same bits.
impl KV for i64 {
    open spec fn encoding(&self) -> Seq<u8> {
        (*self as u64).encoding()
    }

    open spec fn decodable(bytes: Seq<u8>) -> bool {
        u64::decodable(bytes)
    }

    open spec fn decodes_to(bytes: Seq<u8>, value: i64) -> bool {
        u64::decodes_to(bytes, value as u64)
    }

    open spec fn storable(&self) -> bool {
        true
    }

    open spec fn same(&self, other: i64) -> bool {
        *self == other
    }

    fn to_bytes(&self) -> (bytes: Vec<u8>) {
        let bits = #[verifier::truncate] (*self as u64);
        bits.to_bytes()
    }

    fn from_bytes(bytes: &[u8]) -> (value: Option<i64>) {
        match u64::from_bytes(bytes) {
            Some(bits) => {
                assert(((bits as i64) as u64) == bits) by (bit_vector);
                Some(#[verifier::truncate] (bits as i64))
            },
            None => None,
        }
    }

    proof fn round_trip(&self) {
        let bits = *self as u64;
        bits.round_trip();
        assert forall|other: i64| #[trigger] Self::decodes_to(self.encoding(), other) implies *self
            == other by {
            let a = *self;
            assert((a as u64) == (other as u64) ==> a == other) by (bit_vector);
        }
    }
}

/// A string is stored as the length of its UTF-8 bytes, in eight bytes, and
/// then those bytes.
impl KV for String {
    open spec fn encoding(&self) -> Seq<u8> {
        string_encoding(self@)
    }

    open spec fn decodable(bytes: Seq<u8>) -> bool {
        string_decodable(bytes)
    }

    open spec fn decodes_to(bytes: Seq<u8>, value: String) -> bool {
        string_decodable(bytes) && value@ == decode_utf8(string_body(bytes))
    }

    open spec fn storable(&self) -> bool {
        encode_utf8(self@).len() <= u64::MAX
    }

    open spec fn same(&self, other: String) -> bool {
        self@ == other@
    }

    fn to_bytes(&self) -> (bytes: Vec<u8>) {
        let bytes = bincode_serialize_string(self);
        let written: usize = bytes.len();
        proof {
            lemma_auto_spec_u64_to_from_le_bytes();
            assert(bytes@.len() == written);
            assert(bytes@.len() == 8 + encode_utf8(self@).len());
        }
        bytes
    }

    fn from_bytes(bytes: &[u8]) -> (value: Option<String>) {
        bincode_deserialize_string(bytes)
    }

    proof fn round_trip(&self) {
        let body = encode_utf8(self@);
        let prefix = spec_u64_to_le_bytes(body.len() as u64);
        let bytes = self.encoding();
        lemma_auto_spec_u64_to_from_le_bytes();
        encode_utf8_valid_utf8(self@);
        encode_utf8_decode_utf8(self@);
        assert(bytes.subrange(0, 8) =~= prefix);
        assert(string_length(bytes) == body.len());
        assert(string_body(bytes) =~= body);
    }
}

/// Serializes any supported value with bincode.
pub fn serialize<T: KV>(value: &T) -> (bytes: Vec<u8>)
    ensures
        bytes@ == value.encoding(),
        value.storable(),
{
    value.to_bytes()
}

/// Deserializes bytes that hold a value of type `T`.
pub fn deserialize<T: KV>(bytes: &[u8]) -> (value: T)
    requires
        T::decodable(bytes@),
    ensures
        T::decodes_to(bytes@, value),
{
    let decoded = T::from_bytes(bytes);
    decoded.unwrap()
}

/// Deserializes `bytes` where they hold a value of type `T`, and reports
/// where they do not.
pub fn try_deserialize<T: KV>(bytes: &[u8]) -> (value: Option<T>)
    ensures
        value is Some <==> T::decodable(bytes@),
        value matches Some(v) ==> T::decodes_to(bytes@, v),
{
    T::from_bytes(bytes)
}

/// Turns values of type `T` into bytes.
pub trait Serializer<T: ?Sized> {
    /// The bytes that `value` is stored as.
    spec fn encoding(value: &T) -> Seq<u8>;

    fn serialize(value: &T) -> (bytes: Vec<u8>)
        ensures
            bytes@ == Self::encoding(value),
    ;
}

/// Turns stored bytes into what a collection hands out for a `T`: the
/// decoded value, or a handle on the bytes.
pub trait Deserializer<T> {
    /// What the collection hands out.
    type Target;

    /// Whether `bytes` can be handed out by this deserializer.
    spec fn accepts(bytes: Seq<u8>) -> bool;

    /// Whether `target` is what `bytes` are handed out as.
    spec fn denotes(bytes: Seq<u8>, target: Self::Target) -> bool;

    /// Hands out `bytes`, or nothing where they are not accepted: such bytes
    /// were stored by an incompatible type.
    fn deserialize(bytes: Vec<u8>) -> (target: Option<Self::Target>)
        ensures
            target is Some <==> Self::accepts(bytes@),
            target matches Some(t) ==> Self::denotes(bytes@, t),
    ;
}

/// A serialization strategy for a collection with keys `K` and values `V`.
pub trait SerDe<K, V> {
    /// Key serializer.
    type SK: Serializer<K>;

    /// Value serializer.
    type SV: Serializer<V>;

    /// Key deserializer.
    type DK: Deserializer<K>;

    /// Value deserializer.
    type DV: Deserializer<V>;
}

/// What a collection with strategy `SD` hands out as a key.
pub type Key<K, V, SD> = <<SD as SerDe<K, V>>::DK as Deserializer<K>>::Target;

/// What a collection with strategy `SD` hands out as a value.
pub type Value<K, V, SD> = <<SD as SerDe<K, V>>::DV as Deserializer<V>>::Target;

/// Strategy: keys and values are decoded as soon as they are read.
#[derive(Debug)]
pub struct BincodeSerDe;

/// Strategy: keys and values are both handed out as [`Lazy`] handles.
#[derive(Debug)]
pub struct BincodeSerDeLazy;

/// Strategy: keys are handed out as [`Lazy`] handles, values decoded.
#[derive(Debug)]
pub struct BincodeSerDeLazyK;

/// Strategy: keys are decoded, values handed out as [`Lazy`] handles.
#[derive(Debug)]
pub struct BincodeSerDeLazyV;

/// Serializer using bincode.
#[derive(Debug)]
pub struct BincodeSerializer;

/// Deserializer using bincode that decodes at once.
#[derive(Debug)]
pub struct BincodeDeserializer;

/// Deserializer that keeps the bytes and decodes on demand.
#[derive(Debug)]
pub struct BincodeDeserializerLazy;

/// The types that the bincode strategies work on.
pub trait BincodeSerDeBounds: KV {}

impl<T: KV> BincodeSerDeBounds for T {}

impl<K: KV, V: KV> SerDe<K, V> for BincodeSerDe {
    type SK = BincodeSerializer;
    type SV = BincodeSerializer;
    type DK = BincodeDeserializer;
    type DV = BincodeDeserializer;
}

impl<K: KV, V: KV> SerDe<K, V> for BincodeSerDeLazy {
    type SK = BincodeSerializer;
    type SV = BincodeSerializer;
    type DK = BincodeDeserializerLazy;
    type DV = BincodeDeserializerLazy;
}

impl<K: KV, V: KV> SerDe<K, V> for BincodeSerDeLazyK {
    type SK = BincodeSerializer;
    type SV = BincodeSerializer;
    type DK = BincodeDeserializerLazy;
    type DV = BincodeDeserializer;
}

impl<K: KV, V: KV> SerDe<K, V> for BincodeSerDeLazyV {
    type SK = BincodeSerializer;
    type SV = BincodeSerializer;
    type DK = BincodeDeserializer;
    type DV = BincodeDeserializerLazy;
}

impl<T: KV> Serializer<T> for BincodeSerializer {
    open spec fn encoding(value: &T) -> Seq<u8> {
        value.encoding()
    }

    fn serialize(value: &T) -> (bytes: Vec<u8>) {
        value.to_bytes()
    }
}

/// A string slice is stored as the `String` with the same characters.
impl Serializer<str> for BincodeSerializer {
    open spec fn encoding(value: &str) -> Seq<u8> {
        string_encoding(value@)
    }

    fn serialize(value: &str) -> (bytes: Vec<u8>) {
        bincode_serialize_str(value)
    }
}

impl<T: KV> Deserializer<T> for BincodeDeserializer {
    type Target = T;

    open spec fn accepts(bytes: Seq<u8>) -> bool {
        T::decodable(bytes)
    }

    open spec fn denotes(bytes: Seq<u8>, target: T) -> bool {
        T::decodes_to(bytes, target)
    }

    fn deserialize(bytes: Vec<u8>) -> (target: Option<T>) {
        T::from_bytes(bytes.as_slice())
    }
}

impl<T: KV> Deserializer<T> for BincodeDeserializerLazy {
    type Target = Lazy<T>;

    open spec fn accepts(bytes: Seq<u8>) -> bool {
        true
    }

    open spec fn denotes(bytes: Seq<u8>, target: Lazy<T>) -> bool {
        target@ == bytes
    }

    fn deserialize(bytes: Vec<u8>) -> (target: Option<Lazy<T>>) {
        Some(Lazy::new(bytes))
    }
}

/// Stored bytes together with the type they are to be decoded as. Nothing
/// is decoded until [`Lazy::deserialize`] is called, and every call decodes
/// from the same bytes.
pub struct Lazy<T> {
    v: Vec<u8>,
    _t: PhantomData<T>,
}

impl<T> View for Lazy<T> {
    type V = Seq<u8>;

    /// The bytes held.
    closed spec fn view(&self) -> Seq<u8> {
        self.v@
    }
}

impl<T> Lazy<T> {
    /// Wraps stored bytes.
    pub fn new(v: Vec<u8>) -> (lazy: Self)
        ensures
            lazy@ == v@,
    {
        Self { v, _t: PhantomData }
    }

    /// The bytes held.
    pub fn as_bytes(&self) -> (bytes: &[u8])
        ensures
            bytes@ == self@,
    {
        self.v.as_slice()
    }
}

/// A lazy handle is stored as the bytes it holds.
impl<T> Serializer<Lazy<T>> for BincodeSerDeLazy {
    open spec fn encoding(value: &Lazy<T>) -> Seq<u8> {
        value@
    }

    fn serialize(value: &Lazy<T>) -> (bytes: Vec<u8>) {
        slice_to_vec(value.as_bytes())
    }
}

/// A lazy handle is stored as the bytes it holds.
impl<T> Serializer<Lazy<T>> for BincodeSerDeLazyK {
    open spec fn encoding(value: &Lazy<T>) -> Seq<u8> {
        value@
    }

    fn serialize(value: &Lazy<T>) -> (bytes: Vec<u8>) {
        slice_to_vec(value.as_bytes())
    }
}

/// A lazy handle is stored as the bytes it holds.
impl<T> Serializer<Lazy<T>> for BincodeSerDeLazyV {
    open spec fn encoding(value: &Lazy<T>) -> Seq<u8> {
        value@
    }

    fn serialize(value: &Lazy<T>) -> (bytes: Vec<u8>) {
        slice_to_vec(value.as_bytes())
    }
}

impl<T: KV> Lazy<T> {
    /// Whether the bytes held hold a `T`.
    pub open spec fn decodable(&self) -> bool {
        T::decodable(self@)
    }

    /// Decodes the bytes held.
    pub fn deserialize(&self) -> (value: T)
        requires
            self.decodable(),
        ensures
            T::decodes_to(self@, value),
    {
        deserialize(self.v.as_slice())
    }

    /// Decodes the bytes held where they hold a `T`, and reports where they
    /// do not.
    pub fn try_deserialize(&self) -> (value: Option<T>)
        ensures
            value is Some <==> self.decodable(),
            value matches Some(v) ==> T::decodes_to(self@, v),
    {
        try_deserialize(self.v.as_slice())
    }
}

/// Decoding the encoding of a value gives the value, and no other.
pub proof fn lemma_decode_encode<T: KV>(x: T)
    requires
        x.storable(),
    ensures
        T::decodable(x.encoding()),
        T::decodes_to(x.encoding(), x),
        forall|y: T| #[trigger] T::decodes_to(x.encoding(), y) ==> x.same(y),
{
    x.round_trip();
}

/// What the bincode serializer writes for a value, the eager deserializer
/// accepts and hands out as that value, and as no other.
pub proof fn lemma_eager_round_trip<T: KV>(x: T)
    requires
        x.storable(),
    ensures
        <BincodeDeserializer as Deserializer<T>>::accepts(
            <BincodeSerializer as Serializer<T>>::encoding(&x),
        ),
        <BincodeDeserializer as Deserializer<T>>::denotes(
            <BincodeSerializer as Serializer<T>>::encoding(&x),
            x,
        ),
        forall|target: T| #[trigger]
            <BincodeDeserializer as Deserializer<T>>::denotes(
                <BincodeSerializer as Serializer<T>>::encoding(&x),
                target,
            ) ==> x.same(target),
{
    x.round_trip();
}

/// What the bincode serializer writes for a value, the lazy deserializer
/// accepts, and the handle it hands out decodes to that value, and to no
/// other.
pub proof fn lemma_lazy_round_trip<T: KV>(x: T, handle: Lazy<T>)
    requires
        x.storable(),
        <BincodeDeserializerLazy as Deserializer<T>>::denotes(
            <BincodeSerializer as Serializer<T>>::encoding(&x),
            handle,
        ),
    ensures
        <BincodeDeserializerLazy as Deserializer<T>>::accepts(
            <BincodeSerializer as Serializer<T>>::encoding(&x),
        ),
        handle.decodable(),
        T::decodes_to(handle@, x),
        forall|v: T| #[trigger] T::decodes_to(handle@, v) ==> x.same(v),
{
    x.round_trip();
}

/// The lazy deserializer accepts any bytes, and the handle it hands out
/// for them holds exactly those bytes: stored back, it is the bytes again.
pub proof fn lemma_lazy_keeps_bytes<T: KV>(bytes: Seq<u8>, handle: Lazy<T>)
    requires
        <BincodeDeserializerLazy as Deserializer<T>>::denotes(bytes, handle),
    ensures
        <BincodeDeserializerLazy as Deserializer<T>>::accepts(bytes),
        handle@ == bytes,
        <BincodeSerDeLazy as Serializer<Lazy<T>>>::encoding(&handle) == bytes,
        <BincodeSerDeLazyK as Serializer<Lazy<T>>>::encoding(&handle) == bytes,
        <BincodeSerDeLazyV as Serializer<Lazy<T>>>::encoding(&handle) == bytes,
{
}

/// Bytes hold at most one integer: what decodes from them is a function of
/// the bytes.
pub proof fn lemma_integer_decoding_is_a_function(bytes: Seq<u8>, a: u64, b: u64)
    requires
        u64::decodes_to(bytes, a),
        u64::decodes_to(bytes, b),
    ensures
        a == b,
{
}

} // verus!
