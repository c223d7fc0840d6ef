//! Identifiers of stored documents: twelve bytes, written as twenty-four
//! hexadecimal digits.

use vstd::prelude::*;

verus! {

/// Whether `c` is one of `0`-`9`, `a`-`f`, `A`-`F`.
pub open spec fn is_hex_digit(c: char) -> bool {
    ('0' <= c && c <= '9') || ('a' <= c && c <= 'f') || ('A' <= c && c <= 'F')
}

/// The number, from 0 to 15, that the hexadecimal digit `c` stands for.
pub open spec fn hex_value(c: char) -> int {
    if '0' <= c && c <= '9' {
        c as u32 - 48
    } else if 'a' <= c && c <= 'f' {
        c as u32 - 87
    } else {
        c as u32 - 55
    }
}

/// The lower-case hexadecimal digit for `v`, where `0 <= v < 16`.
pub open spec fn hex_digit(v: int) -> char {
    seq!['0', '1', '2', '3', '4', '5', '6', '7', '8', '9', 'a', 'b', 'c', 'd', 'e', 'f'][v]
}

/// Whether `text` is the text form of some identifier: twenty-four
/// hexadecimal digits, in either case.
pub open spec fn is_object_id_text(text: Seq<char>) -> bool {
    &&& text.len() == 24
    &&& forall|i: int| 0 <= i < text.len() ==> is_hex_digit(#[trigger] text[i])
}

/// The bytes that a text of hexadecimal digits stands for: each pair of
/// digits gives one byte, the first digit its upper half.
pub open spec fn decode_hex(text: Seq<char>) -> Seq<u8> {
    Seq::new(
        text.len() / 2,
        |i: int| (16 * hex_value(text[2 * i]) + hex_value(text[2 * i + 1])) as u8,
    )
}

/// The lower-case hexadecimal text of `bytes`, two digits for each byte.
pub open spec fn encode_hex(bytes: Seq<u8>) -> Seq<char> {
    Seq::new(
        2 * bytes.len(),
        |i: int|
            if i % 2 == 0 {
                hex_digit(bytes[i / 2] as int / 16)
            } else {
                hex_digit(bytes[i / 2] as int % 16)
            },
    )
}

/// The identifier of a stored document.
#[derive(Clone, Copy, Debug, PartialEq, Eq)]
pub struct ObjectId {
    pub bytes: [u8; 12],
}

impl View for ObjectId {
    type V = Seq<u8>;

    open spec fn view(&self) -> Seq<u8> {
        self.bytes@
    }
}

/// Why the outside parser refused a text. The library reads nothing of it.
#[verifier::external_type_specification]
#[verifier::external_body]
pub struct ExObjectIdError(bson::oid::Error);

/// `bson::oid::ObjectId::parse_str`, followed by `ObjectId::bytes` on
/// success. Trusted: the call succeeds exactly on twenty-four hexadecimal
/// digits of either case, and then gives the twelve bytes that the pairs of
/// digits stand for, the first digit of a pair being the upper half.
#[verifier::external_body]
fn parse_hex_bytes(text: &str) -> (r: Result<[u8; 12], bson::oid::Error>)
    ensures
        r.is_ok() == is_object_id_text(text@),
        r matches Ok(bytes) ==> bytes@ == decode_hex(text@),
{
    match bson::oid::ObjectId::parse_str(text) {
        Ok(id) => Ok(id.bytes()),
        Err(e) => Err(e),
    }
}

/// `bson::oid::ObjectId::from_bytes`, followed by `ObjectId::to_hex`.
/// Trusted: the text holds two lower-case hexadecimal digits for each byte,
/// in order, the upper half of a byte first.
#[verifier::external_body]
fn hex_of_bytes(bytes: [u8; 12]) -> (r: String)
    ensures
        r@ == encode_hex(bytes@),
{
    bson::oid::ObjectId::from_bytes(bytes).to_hex()
}

/// `bson::oid::ObjectId::new`, followed by `ObjectId::bytes`. The bytes come
/// from the clock, a per-process random value and a counter, so nothing is
/// claimed of them. The outside function expects a system clock between the
/// years 1970 and 2106.
#[verifier::external_body]
fn fresh_bytes() -> (r: [u8; 12]) {
    bson::oid::ObjectId::new().bytes()
}

impl ObjectId {
    /// The identifier made of `bytes`.
    pub fn from_bytes(bytes: [u8; 12]) -> (id: ObjectId)
        ensures
            id.bytes == bytes,
    {
        ObjectId { bytes }
    }

    /// The twelve bytes of the identifier.
    pub fn bytes(&self) -> (bytes: [u8; 12])
        ensures
            bytes == self.bytes,
    {
        self.bytes
    }

    /// Reads an identifier from its text form. `None` exactly when `text` is
    /// not twenty-four hexadecimal digits.
    pub fn parse_str(text: &str) -> (r: Option<ObjectId>)
        ensures
            r.is_some() == is_object_id_text(text@),
            r matches Some(id) ==> id@ == decode_hex(text@),
    {
        match parse_hex_bytes(text) {
            Ok(bytes) => Some(ObjectId { bytes }),
            Err(_) => None,
        }
    }

    /// The text form of the identifier: twenty-four lower-case hexadecimal
    /// digits, which `parse_str` reads back as this identifier.
    pub fn to_hex(&self) -> (text: String)
        ensures
            text@ == encode_hex(self@),
            is_object_id_text(text@),
            decode_hex(text@) == self@,
    {
        proof {
            lemma_hex_round_trip(self@);
        }
        hex_of_bytes(self.bytes)
    }

    /// A new identifier, different on each call as far as the clock, the
    /// process and a counter can make it so.
    pub fn generate() -> ObjectId {
        ObjectId { bytes: fresh_bytes() }
    }
}

/// Writing bytes as hexadecimal text gives an identifier's text form, and
/// reading that text gives the bytes back.
pub proof fn lemma_hex_round_trip(bytes: Seq<u8>)
    requires
        bytes.len() == 12,
    ensures
        is_object_id_text(encode_hex(bytes)),
        decode_hex(encode_hex(bytes)) == bytes,
{
    let text = encode_hex(bytes);
    assert forall|i: int| 0 <= i < text.len() implies is_hex_digit(#[trigger] text[i]) by {
        let b = bytes[i / 2] as int;
        lemma_hex_digit_value(b / 16);
        lemma_hex_digit_value(b % 16);
    }
    assert forall|k: int| 0 <= k < 12 implies decode_hex(text)[k] == bytes[k] by {
        let b = bytes[k] as int;
        lemma_hex_digit_value(b / 16);
        lemma_hex_digit_value(b % 16);
        assert((2 * k) % 2 == 0 && (2 * k) / 2 == k);
        assert((2 * k + 1) % 2 == 1 && (2 * k + 1) / 2 == k);
        assert(text[2 * k] == hex_digit(b / 16));
        assert(text[2 * k + 1] == hex_digit(b % 16));
    }
    assert(decode_hex(text) =~= bytes);
}

/// Two identifiers with the same text form are the same identifier.
pub proof fn lemma_hex_text_unique(first: Seq<u8>, second: Seq<u8>)
    requires
        first.len() == 12,
        second.len() == 12,
        encode_hex(first) == encode_hex(second),
    ensures
        first == second,
{
    lemma_hex_round_trip(first);
    lemma_hex_round_trip(second);
}

/// The lower-case digit for `v` is a hexadecimal digit whose value is `v`.
pub proof fn lemma_hex_digit_value(v: int)
    requires
        0 <= v < 16,
    ensures
        is_hex_digit(hex_digit(v)),
        hex_value(hex_digit(v)) == v,
{
}

} // verus!
