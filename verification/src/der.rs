//! The DER encoding of the few ASN.1 values a time-stamp request is made of.
//!
//! The octets themselves come from the `bcder` and `x509-certificate` crates.
//! The spec functions here say what those octets are, so that what is built
//! from them can be reasoned about.

use bcder::encode::{PrimitiveContent, Values};
use vstd::prelude::*;

verus! {

/// Tag of a BOOLEAN.
pub const TAG_BOOLEAN: u8 = 0x01;

/// Tag of an INTEGER.
pub const TAG_INTEGER: u8 = 0x02;

/// Tag of an OCTET STRING.
pub const TAG_OCTET_STRING: u8 = 0x04;

/// Tag of a NULL.
pub const TAG_NULL: u8 = 0x05;

/// Tag of an OBJECT IDENTIFIER.
pub const TAG_OID: u8 = 0x06;

/// Tag of a SEQUENCE, constructed.
pub const TAG_SEQUENCE: u8 = 0x30;

/// Tag of a constructed value with the context-specific number 0.
pub const TAG_CONTEXT_0: u8 = 0xA0;

/// The longest content that the encoder frames on every machine: beyond
/// three length octets a 32-bit build of it gives up.
pub const MAX_CONTENT: usize = 0xFF_FFFF;

/// The base-256 digits of `n`, most significant first, without leading
/// zeros: none at all for zero.
pub open spec fn be_digits(n: nat) -> Seq<u8>
    decreases n,
{
    if n == 0 {
        Seq::empty()
    } else {
        be_digits(n / 256).push((n % 256) as u8)
    }
}

/// The number that base-256 digits stand for, most significant first.
pub open spec fn be_value(digits: Seq<u8>) -> nat
    decreases digits.len(),
{
    if digits.len() == 0 {
        0
    } else {
        be_value(digits.drop_last()) * 256 + digits.last() as nat
    }
}

/// The length octets for a content of `n` octets, in the definite form and
/// as short as possible: one octet below 128, else the count of digits with
/// the top bit set, then the digits.
pub open spec fn length_octets(n: nat) -> Seq<u8> {
    if n < 0x80 {
        seq![n as u8]
    } else {
        seq![(0x80 + be_digits(n).len()) as u8] + be_digits(n)
    }
}

/// The identifier and length octets that stand before a content of `n` octets.
pub open spec fn header(tag: u8, n: nat) -> Seq<u8> {
    seq![tag] + length_octets(n)
}

/// A whole value: identifier octet, length octets, content.
pub open spec fn tlv(tag: u8, content: Seq<u8>) -> Seq<u8> {
    header(tag, content.len()) + content
}

/// The content octets of a non-negative INTEGER: its digits, with a zero
/// octet in front where the first digit has its top bit set, and a single
/// zero octet for zero.
pub open spec fn uint_content(n: nat) -> Seq<u8> {
    if n == 0 {
        seq![0u8]
    } else if be_digits(n)[0] >= 0x80 {
        seq![0u8] + be_digits(n)
    } else {
        be_digits(n)
    }
}

/// A non-negative INTEGER as a whole value.
pub open spec fn integer_der(n: nat) -> Seq<u8> {
    tlv(TAG_INTEGER, uint_content(n))
}

/// A BOOLEAN as a whole value: all bits set for true, none for false.
pub open spec fn boolean_der(b: bool) -> Seq<u8> {
    tlv(TAG_BOOLEAN, seq![if b { 0xffu8 } else { 0u8 }])
}

/// An AlgorithmIdentifier as a whole value: the object identifier, then a
/// NULL in the place of the parameters.
pub open spec fn algorithm_identifier_der(oid: Seq<u8>) -> Seq<u8> {
    tlv(TAG_SEQUENCE, tlv(TAG_OID, oid) + tlv(TAG_NULL, Seq::empty()))
}

/// 256 to the power of `k`.
pub open spec fn pow256(k: nat) -> nat
    decreases k,
{
    if k == 0 {
        1
    } else {
        256 * pow256((k - 1) as nat)
    }
}

/// A larger exponent gives no smaller power.
pub proof fn lemma_pow256_monotonic(a: nat, b: nat)
    requires
        a <= b,
    ensures
        pow256(a) <= pow256(b),
        pow256(a) >= 1,
    decreases b,
{
    if a < b {
        lemma_pow256_monotonic(a, (b - 1) as nat);
    } else if a > 0 {
        lemma_pow256_monotonic((a - 1) as nat, (a - 1) as nat);
    }
}

/// The digits of a number give the number back.
pub proof fn lemma_be_value_of_digits(n: nat)
    ensures
        be_value(be_digits(n)) == n,
    decreases n,
{
    if n != 0 {
        lemma_be_value_of_digits(n / 256);
        let high = be_digits(n / 256);
        let low = (n % 256) as u8;
        assert(high.push(low).drop_last() == high);
        assert(high.push(low).last() == low);
    }
}

/// A positive number has digits, and the first of them is not zero.
pub proof fn lemma_be_digits_leading(n: nat)
    requires
        n > 0,
    ensures
        be_digits(n).len() > 0,
        be_digits(n)[0] != 0,
    decreases n,
{
    if n < 256 {
        assert(n / 256 == 0);
        assert(be_digits(n / 256) == Seq::<u8>::empty());
        assert(be_digits(n) == Seq::<u8>::empty().push((n % 256) as u8));
    } else {
        lemma_be_digits_leading(n / 256);
    }
}

/// A number below 256 to the power of `k` has at most `k` digits.
pub proof fn lemma_be_digits_len(n: nat, k: nat)
    requires
        n < pow256(k),
    ensures
        be_digits(n).len() <= k,
    decreases n,
{
    if n != 0 {
        assert(k > 0);
        assert(n / 256 < pow256((k - 1) as nat));
        lemma_be_digits_len(n / 256, (k - 1) as nat);
    }
}

/// A zero octet in front of digits does not change their value.
pub proof fn lemma_be_value_leading_zero(digits: Seq<u8>)
    ensures
        be_value(seq![0u8] + digits) == be_value(digits),
    decreases digits.len(),
{
    let padded = seq![0u8] + digits;
    if digits.len() == 0 {
        assert(padded.drop_last().len() == 0);
        assert(be_value(padded.drop_last()) == 0);
        assert(padded.last() == 0);
        assert(be_value(padded) == be_value(padded.drop_last()) * 256 + padded.last() as nat);
    } else {
        lemma_be_value_leading_zero(digits.drop_last());
        assert(padded.drop_last() == seq![0u8] + digits.drop_last());
        assert(padded.last() == digits.last());
        assert(be_value(padded) == be_value(padded.drop_last()) * 256 + padded.last() as nat);
    }
}

/// How long a whole value is: one identifier octet, at most four length
/// octets while the content stays under 16 MiB, and the content.
pub proof fn lemma_tlv_len(tag: u8, content: Seq<u8>)
    requires
        content.len() <= MAX_CONTENT,
    ensures
        tlv(tag, content).len() == 1 + length_octets(content.len()).len() + content.len(),
        1 <= length_octets(content.len()).len() <= 4,
        content.len() < 0x80 ==> length_octets(content.len()).len() == 1,
{
    let n = content.len();
    if n >= 0x80 {
        reveal_with_fuel(pow256, 4);
        lemma_be_digits_len(n, 3);
    }
}

/// How long the content of a 64-bit INTEGER is: one to nine octets.
pub proof fn lemma_uint_content_len(n: nat)
    requires
        n <= u64::MAX,
    ensures
        1 <= uint_content(n).len() <= 9,
        integer_der(n).len() == 2 + uint_content(n).len(),
{
    reveal_with_fuel(pow256, 9);
    lemma_be_digits_len(n, 8);
    if n > 0 {
        lemma_be_digits_leading(n);
    }
}

/// One value read off the front of some octets: its identifier octet, its
/// content, and the octets that follow it.
pub struct Tlv {
    pub tag: u8,
    pub content: Seq<u8>,
    pub rest: Seq<u8>,
}

/// Reads the length octets at the front of `s`: the length they give and how
/// many octets they take. Only the definite form is read, with at most four
/// digits, and only where it is as short as possible.
pub open spec fn read_length(s: Seq<u8>) -> Option<(nat, nat)> {
    if s.len() == 0 {
        None
    } else if s[0] < 0x80 {
        Some((s[0] as nat, 1nat))
    } else {
        let count = (s[0] - 0x80) as nat;
        if count == 0 || count > 4 || s.len() < 1 + count {
            None
        } else {
            let digits = s.subrange(1, 1 + count as int);
            if digits[0] == 0 || be_value(digits) < 0x80 {
                None
            } else {
                Some((be_value(digits), 1 + count))
            }
        }
    }
}

/// Reads one value off the front of `s`. The identifier is a single octet;
/// the content must be there in full.
pub open spec fn read_tlv(s: Seq<u8>) -> Option<Tlv> {
    if s.len() == 0 || s[0] % 32 == 31 {
        None
    } else {
        match read_length(s.skip(1)) {
            None => None,
            Some((n, used)) => {
                if s.len() < 1 + used + n {
                    None
                } else {
                    Some(
                        Tlv {
                            tag: s[0],
                            content: s.subrange(1 + used as int, 1 + used as int + n as int),
                            rest: s.skip(1 + used as int + n as int),
                        },
                    )
                }
            },
        }
    }
}

/// Whether content octets are an INTEGER in its shortest form: at least one
/// octet, and no first octet that only repeats the sign of the second.
pub open spec fn integer_is_minimal(content: Seq<u8>) -> bool {
    &&& content.len() >= 1
    &&& content.len() >= 2 ==> !(content[0] == 0 && content[1] < 0x80)
    &&& content.len() >= 2 ==> !(content[0] == 0xff && content[1] >= 0x80)
}

/// The number that INTEGER content octets stand for, in two's complement.
pub open spec fn integer_value(content: Seq<u8>) -> int {
    if content.len() > 0 && content[0] >= 0x80 {
        be_value(content) - pow256(content.len())
    } else {
        be_value(content) as int
    }
}

/// Length octets read back give the length they were written for.
pub proof fn lemma_read_length(n: nat, rest: Seq<u8>)
    requires
        n < 0x1_0000_0000,
    ensures
        read_length(length_octets(n) + rest) == Some((n, length_octets(n).len())),
{
    let s = length_octets(n) + rest;
    if n >= 0x80 {
        reveal_with_fuel(pow256, 5);
        lemma_be_digits_len(n, 4);
        lemma_be_digits_leading(n);
        lemma_be_value_of_digits(n);
        let count = be_digits(n).len();
        assert(s[0] == 0x80 + count);
        assert(s.subrange(1, 1 + count as int) == be_digits(n));
    }
}

/// A whole value read back gives its identifier, its content and what
/// followed it.
pub proof fn lemma_read_tlv(tag: u8, content: Seq<u8>, rest: Seq<u8>)
    requires
        tag % 32 != 31,
        content.len() < 0x1_0000_0000,
    ensures
        read_tlv(tlv(tag, content) + rest) == Some(Tlv { tag, content, rest }),
{
    let n = content.len();
    let s = tlv(tag, content) + rest;
    let used = length_octets(n).len();
    lemma_read_length(n, content + rest);
    assert(s.skip(1) == length_octets(n) + (content + rest));
    assert(s.subrange(1 + used as int, 1 + used as int + n as int) == content);
    assert(s.skip(1 + used as int + n as int) == rest);
}

/// The content written for a non-negative INTEGER is in its shortest form
/// and reads back as the number.
pub proof fn lemma_integer_round_trip(n: nat)
    ensures
        integer_is_minimal(uint_content(n)),
        integer_value(uint_content(n)) == n,
{
    if n == 0 {
        assert(seq![0u8].drop_last() == Seq::<u8>::empty());
        assert(be_value(seq![0u8]) == be_value(Seq::<u8>::empty()) * 256 + 0);
    } else {
        lemma_be_digits_leading(n);
        lemma_be_value_of_digits(n);
        if be_digits(n)[0] >= 0x80 {
            lemma_be_value_leading_zero(be_digits(n));
        }
    }
}

/// `bcder::Integer::from(u64)`, written in DER through `encode` and
/// `write_encoded`. Believed of it: what is written is the INTEGER tag, the
/// length, and the number's big-endian digits without leading zero octets,
/// but with one zero octet in front where the top bit would else read as a
/// sign. The encoder fails only where its target does, and the target is a
/// new vector, which only grows: so the octets are always there.
#[verifier::external_body]
pub(crate) fn encode_integer(value: u64) -> (out: Option<Vec<u8>>)
    ensures
        out is Some,
        out->0@ == integer_der(value as nat),
{
    let mut target: Vec<u8> = Vec::new();
    let number = bcder::Integer::from(value);
    match (&number).encode().write_encoded(bcder::Mode::Der, &mut target) {
        Ok(()) => Some(target),
        Err(_) => None,
    }
}

/// `bool::encode` of `bcder::encode::PrimitiveContent`, written in DER.
/// Believed of it: what is written is the BOOLEAN tag, the length one, and
/// one octet, `0xff` for true and zero for false. The encoder fails only
/// where its target does, and the target is a new vector, which only grows:
/// so the octets are always there.
#[verifier::external_body]
pub(crate) fn encode_boolean(value: bool) -> (out: Option<Vec<u8>>)
    ensures
        out is Some,
        out->0@ == boolean_der(value),
{
    let mut target: Vec<u8> = Vec::new();
    match value.encode().write_encoded(bcder::Mode::Der, &mut target) {
        Ok(()) => Some(target),
        Err(_) => None,
    }
}

/// `bcder::OctetString::new` on a copy of the bytes, written in DER through
/// `encode`. Believed of it: what is written is the OCTET STRING tag, the
/// length, and the bytes as they are. The length octets of more than 16 MiB
/// make a 32-bit build of the encoder panic, so those are not handed to it.
/// The encoder fails only where its target does, and the target is a new
/// vector, which only grows: so the octets are always there.
#[verifier::external_body]
pub(crate) fn encode_octet_string(data: &[u8]) -> (out: Option<Vec<u8>>)
    requires
        data@.len() <= MAX_CONTENT,
    ensures
        out is Some,
        out->0@ == tlv(TAG_OCTET_STRING, data@),
{
    let mut target: Vec<u8> = Vec::new();
    let string = bcder::OctetString::new(bytes::Bytes::copy_from_slice(data));
    match string.encode().write_encoded(bcder::Mode::Der, &mut target) {
        Ok(()) => Some(target),
        Err(_) => None,
    }
}

/// `bcder::encode::write_header` for a SEQUENCE. Believed of it: what is
/// written is the constructed SEQUENCE tag and the definite length octets
/// for `content_len`. The length octets of more than 16 MiB make a 32-bit
/// build of the encoder panic, so those are not handed to it. The encoder
/// fails only where its target does, and the target is a new vector, which
/// only grows: so the octets are always there.
#[verifier::external_body]
pub(crate) fn encode_sequence_header(content_len: usize) -> (out: Option<Vec<u8>>)
    requires
        content_len <= MAX_CONTENT,
    ensures
        out is Some,
        out->0@ == header(TAG_SEQUENCE, content_len as nat),
{
    let mut target: Vec<u8> = Vec::new();
    match bcder::encode::write_header(&mut target, bcder::Tag::SEQUENCE, true, content_len) {
        Ok(()) => Some(target),
        Err(_) => None,
    }
}

/// Frames `content` as a SEQUENCE: the header the encoder wrote for its
/// length, then the content. Nothing where there is no header.
pub fn wrap_sequence(header_octets: Option<Vec<u8>>, content: Vec<u8>) -> (out: Option<Vec<u8>>)
    ensures
        out is Some <==> header_octets is Some,
        out matches Some(bytes) ==> bytes@ == header_octets->0@ + content@,
{
    match header_octets {
        Some(head) => {
            let mut bytes: Vec<u8> = head;
            let mut tail: Vec<u8> = content;
            bytes.append(&mut tail);
            Some(bytes)
        },
        None => None,
    }
}

/// Frames `content` as a SEQUENCE: identifier octet, length octets, content.
pub fn encode_sequence(content: Vec<u8>) -> (out: Option<Vec<u8>>)
    requires
        content@.len() <= MAX_CONTENT,
    ensures
        out matches Some(bytes) && bytes@ == tlv(TAG_SEQUENCE, content@),
{
    let head = encode_sequence_header(content.len());
    wrap_sequence(head, content)
}

} // verus!
