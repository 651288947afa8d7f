//! The RFC 3161 time-stamp request: what it holds, how it is laid out in
//! DER, and how a decoder reads it back.

use crate::algorithm::{
    digest_len, digest_of, digest_oid, get_digest_algorithm, DigestAlgorithm, SigningAlgorithm,
};
use crate::der::{
    algorithm_identifier_der, boolean_der, encode_boolean, encode_integer, encode_octet_string,
    encode_sequence, integer_der, integer_is_minimal, integer_value, lemma_integer_round_trip,
    lemma_pow256_monotonic, lemma_read_tlv, lemma_tlv_len, lemma_uint_content_len, pow256,
    read_tlv, tlv, uint_content, TAG_BOOLEAN, TAG_CONTEXT_0, TAG_INTEGER, TAG_NULL,
    TAG_OCTET_STRING, TAG_OID, TAG_SEQUENCE,
};
use crate::error::Error;
use bcder::encode::Values;
use vstd::prelude::*;

verus! {

/// The longest hashed message that a request is encoded for: what the
/// encoder frames on every machine, less the room for the other fields.
pub const MAX_HASHED_MESSAGE: usize = 0xFF_FFBF;

/// A time-stamp request. The policy and the extensions of RFC 3161 are never
/// asked for, so they have no field here.
#[derive(Debug, Clone, PartialEq, Eq)]
pub struct TimeStampReq {
    /// The version of the request format.
    pub version: u64,
    /// The hash function that made `hashed_message`.
    pub hash_algorithm: DigestAlgorithm,
    /// The digest to be time-stamped.
    pub hashed_message: Vec<u8>,
    /// A number that ties the response to this request.
    pub nonce: Option<u64>,
    /// Whether the responder is asked to send its certificate along.
    pub cert_req: Option<bool>,
}

/// The mathematical value of a [`TimeStampReq`].
pub struct TimeStampReqView {
    pub version: nat,
    pub hash_algorithm: DigestAlgorithm,
    pub hashed_message: Seq<u8>,
    pub nonce: Option<nat>,
    pub cert_req: Option<bool>,
}

impl View for TimeStampReq {
    type V = TimeStampReqView;

    open spec fn view(&self) -> TimeStampReqView {
        TimeStampReqView {
            version: self.version as nat,
            hash_algorithm: self.hash_algorithm,
            hashed_message: self.hashed_message@,
            nonce: match self.nonce {
                Some(n) => Some(n as nat),
                None => None,
            },
            cert_req: self.cert_req,
        }
    }
}

/// The number that bytes stand for when the first is the least significant.
pub open spec fn le_value(bytes: Seq<u8>) -> nat
    decreases bytes.len(),
{
    if bytes.len() == 0 {
        0
    } else {
        bytes[0] as nat + 256 * le_value(bytes.skip(1))
    }
}

/// The request for a digest and eight random bytes: version 1, the digest
/// under the hash function of the signature algorithm, the random bytes read
/// as a little-endian number for the nonce, and the certificate asked for.
pub open spec fn request_for(alg: SigningAlgorithm, digest: Seq<u8>, random: Seq<u8>)
    -> TimeStampReqView {
    TimeStampReqView {
        version: 1,
        hash_algorithm: digest_of(alg),
        hashed_message: digest,
        nonce: Some(le_value(random)),
        cert_req: Some(true),
    }
}

/// A MessageImprint as a whole value: the hash function's identifier, then
/// the digest as an OCTET STRING.
pub open spec fn message_imprint_der(digest: DigestAlgorithm, hashed: Seq<u8>) -> Seq<u8> {
    tlv(
        TAG_SEQUENCE,
        algorithm_identifier_der(digest_oid(digest)) + tlv(TAG_OCTET_STRING, hashed),
    )
}

/// An INTEGER that may be left out.
pub open spec fn optional_integer_der(n: Option<nat>) -> Seq<u8> {
    match n {
        Some(n) => integer_der(n),
        None => Seq::empty(),
    }
}

/// A BOOLEAN that may be left out.
pub open spec fn optional_boolean_der(b: Option<bool>) -> Seq<u8> {
    match b {
        Some(b) => boolean_der(b),
        None => Seq::empty(),
    }
}

/// The fields of a request one after the other: version, message imprint,
/// nonce, certificate request.
pub open spec fn time_stamp_req_content(req: TimeStampReqView) -> Seq<u8> {
    integer_der(req.version) + message_imprint_der(req.hash_algorithm, req.hashed_message)
        + optional_integer_der(req.nonce) + optional_boolean_der(req.cert_req)
}

/// A request as a whole value.
pub open spec fn time_stamp_req_der(req: TimeStampReqView) -> Seq<u8> {
    tlv(TAG_SEQUENCE, time_stamp_req_content(req))
}

/// Whether a request can be encoded: its numbers fit 64 bits and its digest
/// is no longer than [`MAX_HASHED_MESSAGE`].
pub open spec fn encodable(req: TimeStampReqView) -> bool {
    &&& req.version <= u64::MAX
    &&& req.hashed_message.len() <= MAX_HASHED_MESSAGE
    &&& req.nonce matches Some(n) ==> n <= u64::MAX
}

/// `x509_certificate::rfc5280::AlgorithmIdentifier::from` a
/// `x509_certificate::DigestAlgorithm`, written in DER through bcder's
/// `write_encoded`. Believed of it: what is written is a SEQUENCE of the
/// hash function's object identifier and a NULL for the parameters. The
/// encoder fails only where its target does, and the target is a new vector,
/// which only grows: so the octets are always there.
#[verifier::external_body]
pub(crate) fn encode_digest_identifier(digest: DigestAlgorithm) -> (out: Option<Vec<u8>>)
    ensures
        out is Some,
        out->0@ == algorithm_identifier_der(digest_oid(digest)),
{
    let outside = match digest {
        DigestAlgorithm::Sha256 => x509_certificate::DigestAlgorithm::Sha256,
        DigestAlgorithm::Sha384 => x509_certificate::DigestAlgorithm::Sha384,
        DigestAlgorithm::Sha512 => x509_certificate::DigestAlgorithm::Sha512,
    };
    let identifier = x509_certificate::rfc5280::AlgorithmIdentifier::from(outside);
    let mut target: Vec<u8> = Vec::new();
    match identifier.write_encoded(bcder::Mode::Der, &mut target) {
        Ok(()) => Some(target),
        Err(_) => None,
    }
}

/// What one piece of the encoding becomes: its octets, or the failure to
/// encode where there are none.
pub fn encoded_piece(piece: Option<Vec<u8>>) -> (out: Result<Vec<u8>, Error>)
    ensures
        piece is Some <==> out is Ok,
        out matches Ok(bytes) ==> bytes == piece->0,
        out matches Err(e) ==> e == Error::TimestampEncode,
{
    match piece {
        Some(bytes) => Ok(bytes),
        None => Err(Error::TimestampEncode),
    }
}

/// A little-endian number below 256 to the power of its length.
pub proof fn lemma_le_value_bound(bytes: Seq<u8>)
    ensures
        le_value(bytes) < pow256(bytes.len()),
    decreases bytes.len(),
{
    if bytes.len() > 0 {
        lemma_le_value_bound(bytes.skip(1));
    }
}

/// Reads eight bytes as a number, the first byte the least significant.
pub fn nonce_from_random(random: &[u8; 8]) -> (nonce: u64)
    ensures
        nonce == le_value(random@),
{
    let mut acc: u64 = 0;
    let mut i: usize = 8;
    proof {
        reveal_with_fuel(pow256, 9);
        assert(random@.skip(8).len() == 0);
    }
    while i > 0
        invariant
            i <= 8,
            random@.len() == 8,
            acc == le_value(random@.skip(i as int)),
            acc < pow256((8 - i) as nat),
        decreases i,
    {
        proof {
            reveal_with_fuel(pow256, 9);
            let tail = random@.skip(i - 1);
            assert(tail.skip(1) == random@.skip(i as int));
            assert(tail[0] == random@[i - 1]);
            assert(pow256((8 - (i - 1)) as nat) == 256 * pow256((8 - i) as nat));
            assert(pow256((8 - i) as nat) <= pow256(7)) by {
                lemma_pow256_monotonic((8 - i) as nat, 7);
            }
        }
        i = i - 1;
        acc = acc * 256 + random[i] as u64;
    }
    proof {
        assert(random@.skip(0) == random@);
    }
    acc
}

/// Copies bytes into a vector of their own.
pub fn copy_bytes(bytes: &[u8]) -> (out: Vec<u8>)
    ensures
        out@ == bytes@,
{
    let mut out: Vec<u8> = Vec::new();
    let mut i: usize = 0;
    while i < bytes.len()
        invariant
            i <= bytes@.len(),
            out@ == bytes@.subrange(0, i as int),
        decreases bytes@.len() - i,
    {
        out.push(bytes[i]);
        i = i + 1;
        assert(out@ == bytes@.subrange(0, i as int));
    }
    assert(bytes@.subrange(0, bytes@.len() as int) == bytes@);
    out
}

impl TimeStampReq {
    /// The request for a digest and eight random bytes, as [`request_for`]
    /// describes it. The digest must be as long as the hash function of `alg`
    /// makes it.
    pub fn new(alg: SigningAlgorithm, digest: &[u8], random: [u8; 8]) -> (req: TimeStampReq)
        requires
            digest@.len() == digest_len(digest_of(alg)),
        ensures
            req@ == request_for(alg, digest@, random@),
            encodable(req@),
    {
        TimeStampReq {
            version: 1,
            hash_algorithm: get_digest_algorithm(alg),
            hashed_message: copy_bytes(digest),
            nonce: Some(nonce_from_random(&random)),
            cert_req: Some(true),
        }
    }

    /// The DER encoding of the request: the octets of
    /// [`time_stamp_req_der`]. A piece that the encoder did not deliver would
    /// be `TimestampEncode`; into a vector it delivers every piece.
    pub fn to_der(&self) -> (out: Result<Vec<u8>, Error>)
        requires
            encodable(self@),
        ensures
            out matches Ok(body) && body@ == time_stamp_req_der(self@),
    {
        let ghost oid = digest_oid(self.hash_algorithm);
        proof {
            lemma_tlv_len(TAG_OID, oid);
            lemma_tlv_len(TAG_NULL, Seq::empty());
            lemma_tlv_len(TAG_SEQUENCE, tlv(TAG_OID, oid) + tlv(TAG_NULL, Seq::empty()));
            lemma_tlv_len(TAG_OCTET_STRING, self.hashed_message@);
            lemma_uint_content_len(self.version as nat);
            lemma_tlv_len(TAG_BOOLEAN, seq![0xffu8]);
            lemma_tlv_len(TAG_BOOLEAN, seq![0u8]);
        }
        let mut imprint_content: Vec<u8> = match encoded_piece(
            encode_digest_identifier(self.hash_algorithm),
        ) {
            Ok(bytes) => bytes,
            Err(e) => { return Err(e); },
        };
        let mut hashed: Vec<u8> = match encoded_piece(
            encode_octet_string(self.hashed_message.as_slice()),
        ) {
            Ok(bytes) => bytes,
            Err(e) => { return Err(e); },
        };
        imprint_content.append(&mut hashed);
        proof {
            lemma_tlv_len(TAG_SEQUENCE, imprint_content@);
        }
        let mut imprint: Vec<u8> = match encoded_piece(encode_sequence(imprint_content)) {
            Ok(bytes) => bytes,
            Err(e) => { return Err(e); },
        };
        let mut content: Vec<u8> = match encoded_piece(encode_integer(self.version)) {
            Ok(bytes) => bytes,
            Err(e) => { return Err(e); },
        };
        content.append(&mut imprint);
        match self.nonce {
            Some(n) => {
                proof {
                    lemma_uint_content_len(n as nat);
                }
                let mut nonce: Vec<u8> = match encoded_piece(encode_integer(n)) {
                    Ok(bytes) => bytes,
                    Err(e) => { return Err(e); },
                };
                content.append(&mut nonce);
            },
            None => {
                assert(content@ + Seq::<u8>::empty() == content@);
            },
        }
        match self.cert_req {
            Some(b) => {
                let mut cert_req: Vec<u8> = match encoded_piece(encode_boolean(b)) {
                    Ok(bytes) => bytes,
                    Err(e) => { return Err(e); },
                };
                content.append(&mut cert_req);
            },
            None => {
                assert(content@ + Seq::<u8>::empty() == content@);
            },
        }
        assert(content@ == time_stamp_req_content(self@));
        encoded_piece(encode_sequence(content))
    }
}

/// Whether a digest is as long as the hash function of `alg` makes it.
pub fn digest_matches(alg: SigningAlgorithm, digest: &[u8]) -> (out: bool)
    ensures
        out == (digest@.len() == digest_len(digest_of(alg))),
{
    digest.len() == get_digest_algorithm(alg).output_len()
}

/// Builds the time-stamp request for a digest and eight random bytes, and
/// encodes it in DER. The digest must be as long as the hash function of
/// `alg` makes it. The only failure there could be is the encoder's,
/// `TimestampEncode`, and into a vector the encoder does not fail.
pub fn rfc3161_time_stamp_message(alg: SigningAlgorithm, digest: &[u8], random: [u8; 8]) -> (out:
    Result<Vec<u8>, Error>)
    requires
        digest@.len() == digest_len(digest_of(alg)),
    ensures
        out matches Ok(body) && body@ == time_stamp_req_der(request_for(alg, digest@, random@)),
{
    let request = TimeStampReq::new(alg, digest, random);
    request.to_der()
}

/// What a decoder reads out of a time-stamp request: every field that
/// RFC 3161 gives it, the optional ones as they were found.
pub struct DecodedTimeStampReq {
    pub version: int,
    /// The content octets of the hash function's object identifier.
    pub hash_algorithm: Seq<u8>,
    /// Whatever follows the object identifier inside the AlgorithmIdentifier.
    pub hash_parameters: Seq<u8>,
    pub hashed_message: Seq<u8>,
    /// The content octets of the policy's object identifier.
    pub req_policy: Option<Seq<u8>>,
    pub nonce: Option<int>,
    pub cert_req: Option<bool>,
    /// The content octets of the extensions.
    pub extensions: Option<Seq<u8>>,
}

/// Reads a value with the tag `tag` off the front of `s`: its content and
/// what follows it.
pub open spec fn take(tag: u8, s: Seq<u8>) -> Option<(Seq<u8>, Seq<u8>)> {
    match read_tlv(s) {
        Some(value) => if value.tag == tag {
            Some((value.content, value.rest))
        } else {
            None
        },
        None => None,
    }
}

/// Reads a value with the tag `tag` off the front of `s` if the next value
/// has that tag, and nothing otherwise.
pub open spec fn take_optional(tag: u8, s: Seq<u8>) -> Option<(Option<Seq<u8>>, Seq<u8>)> {
    if s.len() > 0 && s[0] == tag {
        match read_tlv(s) {
            Some(value) => Some((Some(value.content), value.rest)),
            None => None,
        }
    } else {
        Some((None, s))
    }
}

/// Reads the content of a BOOLEAN: one octet, all bits set or none.
pub open spec fn decode_boolean(content: Seq<u8>) -> Option<bool> {
    if content.len() != 1 {
        None
    } else if content[0] == 0xff {
        Some(true)
    } else if content[0] == 0 {
        Some(false)
    } else {
        None
    }
}

/// Reads the content of a MessageImprint: the object identifier, the
/// parameters behind it, and the digest.
pub open spec fn decode_message_imprint(content: Seq<u8>) -> Option<(Seq<u8>, Seq<u8>, Seq<u8>)> {
    match take(TAG_SEQUENCE, content) {
        None => None,
        Some((identifier, after)) => match take(TAG_OID, identifier) {
            None => None,
            Some((oid, parameters)) => match take(TAG_OCTET_STRING, after) {
                None => None,
                Some((hashed, end)) => if end.len() == 0 {
                    Some((oid, parameters, hashed))
                } else {
                    None
                },
            },
        },
    }
}

/// Reads the optional fields that close a request: policy, nonce,
/// certificate request, extensions, in that order and with nothing behind.
pub open spec fn decode_optional_fields(s: Seq<u8>) -> Option<
    (Option<Seq<u8>>, Option<int>, Option<bool>, Option<Seq<u8>>),
> {
    match take_optional(TAG_OID, s) {
        None => None,
        Some((policy, s1)) => match take_optional(TAG_INTEGER, s1) {
            None => None,
            Some((nonce, s2)) => match take_optional(TAG_BOOLEAN, s2) {
                None => None,
                Some((cert_req, s3)) => match take_optional(TAG_CONTEXT_0, s3) {
                    None => None,
                    Some((extensions, s4)) => {
                        if s4.len() != 0 {
                            None
                        } else if nonce is Some && !integer_is_minimal(nonce->0) {
                            None
                        } else if cert_req is Some && decode_boolean(cert_req->0) is None {
                            None
                        } else {
                            Some(
                                (
                                    policy,
                                    match nonce {
                                        Some(content) => Some(integer_value(content)),
                                        None => None,
                                    },
                                    match cert_req {
                                        Some(content) => decode_boolean(content),
                                        None => None,
                                    },
                                    extensions,
                                ),
                            )
                        }
                    },
                },
            },
        },
    }
}

/// Reads the fields of a request: version, message imprint, then the
/// optional fields.
pub open spec fn decode_time_stamp_req_content(content: Seq<u8>) -> Option<DecodedTimeStampReq> {
    match take(TAG_INTEGER, content) {
        None => None,
        Some((version, s1)) => match take(TAG_SEQUENCE, s1) {
            None => None,
            Some((imprint, s2)) => match decode_message_imprint(imprint) {
                None => None,
                Some((oid, parameters, hashed)) => match decode_optional_fields(s2) {
                    None => None,
                    Some((policy, nonce, cert_req, extensions)) => if integer_is_minimal(
                        version,
                    ) {
                        Some(
                            DecodedTimeStampReq {
                                version: integer_value(version),
                                hash_algorithm: oid,
                                hash_parameters: parameters,
                                hashed_message: hashed,
                                req_policy: policy,
                                nonce,
                                cert_req,
                                extensions,
                            },
                        )
                    } else {
                        None
                    },
                },
            },
        },
    }
}

/// Reads a time-stamp request from DER: one SEQUENCE that takes all the
/// octets, with the fields of RFC 3161 inside.
pub open spec fn decode_time_stamp_req(bytes: Seq<u8>) -> Option<DecodedTimeStampReq> {
    match take(TAG_SEQUENCE, bytes) {
        None => None,
        Some((content, end)) => if end.len() == 0 {
            decode_time_stamp_req_content(content)
        } else {
            None
        },
    }
}

/// What a decoder must read out of the encoding of `req`.
pub open spec fn decoded_form(req: TimeStampReqView) -> DecodedTimeStampReq {
    DecodedTimeStampReq {
        version: req.version as int,
        hash_algorithm: digest_oid(req.hash_algorithm),
        hash_parameters: tlv(TAG_NULL, Seq::empty()),
        hashed_message: req.hashed_message,
        req_policy: None,
        nonce: match req.nonce {
            Some(n) => Some(n as int),
            None => None,
        },
        cert_req: req.cert_req,
        extensions: None,
    }
}

/// The message imprint reads back as the hash function's object identifier,
/// a NULL for the parameters, and the digest.
pub proof fn lemma_message_imprint_round_trip(digest: DigestAlgorithm, hashed: Seq<u8>)
    requires
        hashed.len() <= MAX_HASHED_MESSAGE,
    ensures
        decode_message_imprint(
            algorithm_identifier_der(digest_oid(digest)) + tlv(TAG_OCTET_STRING, hashed),
        ) == Some((digest_oid(digest), tlv(TAG_NULL, Seq::empty()), hashed)),
{
    let oid = digest_oid(digest);
    let null = tlv(TAG_NULL, Seq::<u8>::empty());
    let inner = tlv(TAG_OID, oid) + null;
    let octets = tlv(TAG_OCTET_STRING, hashed);
    lemma_tlv_len(TAG_OID, oid);
    lemma_tlv_len(TAG_NULL, Seq::empty());
    lemma_read_tlv(TAG_SEQUENCE, inner, octets);
    lemma_read_tlv(TAG_OID, oid, null);
    lemma_read_tlv(TAG_OCTET_STRING, hashed, Seq::empty());
    assert(octets + Seq::<u8>::empty() == octets);
}

/// The optional fields read back as they were written: no policy, the nonce
/// and the certificate request as given, no extensions.
pub proof fn lemma_optional_fields_round_trip(nonce: Option<nat>, cert_req: Option<bool>)
    requires
        nonce matches Some(n) ==> n <= u64::MAX,
    ensures
        decode_optional_fields(optional_integer_der(nonce) + optional_boolean_der(cert_req))
            == Some(
            (
                None::<Seq<u8>>,
                match nonce {
                    Some(n) => Some(n as int),
                    None => None,
                },
                cert_req,
                None::<Seq<u8>>,
            ),
        ),
{
    let first = optional_integer_der(nonce);
    let second = optional_boolean_der(cert_req);
    let s = first + second;
    let flag: Seq<u8> = match cert_req {
        Some(b) => seq![if b { 0xffu8 } else { 0u8 }],
        None => Seq::empty(),
    };
    if cert_req is Some {
        lemma_tlv_len(TAG_BOOLEAN, flag);
        lemma_read_tlv(TAG_BOOLEAN, flag, Seq::empty());
        assert(second + Seq::<u8>::empty() == second);
        assert(second[0] == TAG_BOOLEAN);
    }
    match nonce {
        Some(n) => {
            lemma_uint_content_len(n);
            lemma_integer_round_trip(n);
            lemma_tlv_len(TAG_INTEGER, uint_content(n));
            lemma_read_tlv(TAG_INTEGER, uint_content(n), second);
            assert(s[0] == TAG_INTEGER);
            assert(take_optional(TAG_OID, s) == Some((None::<Seq<u8>>, s)));
            assert(take_optional(TAG_INTEGER, s) == Some((Some(uint_content(n)), second)));
        },
        None => {
            assert(s == second);
            assert(take_optional(TAG_OID, s) == Some((None::<Seq<u8>>, s)));
            assert(take_optional(TAG_INTEGER, s) == Some((None::<Seq<u8>>, s)));
        },
    }
    match cert_req {
        Some(b) => {
            assert(take_optional(TAG_BOOLEAN, second) == Some((Some(flag), Seq::<u8>::empty())));
            assert(decode_boolean(flag) == Some(b));
        },
        None => {
            assert(take_optional(TAG_BOOLEAN, second) == Some((None::<Seq<u8>>, second)));
        },
    }
}

/// A whole value with the tag `tag` is taken off the front as it was put.
pub proof fn lemma_take(tag: u8, content: Seq<u8>, rest: Seq<u8>)
    requires
        tag % 32 != 31,
        content.len() < 0x1_0000_0000,
    ensures
        take(tag, tlv(tag, content) + rest) == Some((content, rest)),
{
    lemma_read_tlv(tag, content, rest);
}

/// How long the pieces of an encodable request are: each stays far below
/// what four length octets can count.
pub proof fn lemma_time_stamp_req_lengths(req: TimeStampReqView)
    requires
        encodable(req),
    ensures
        uint_content(req.version).len() <= 9,
        (algorithm_identifier_der(digest_oid(req.hash_algorithm)) + tlv(
            TAG_OCTET_STRING,
            req.hashed_message,
        )).len() <= req.hashed_message.len() + 20,
        time_stamp_req_content(req).len() <= req.hashed_message.len() + 64,
{
    let oid = digest_oid(req.hash_algorithm);
    let imprint_content = algorithm_identifier_der(oid) + tlv(
        TAG_OCTET_STRING,
        req.hashed_message,
    );
    lemma_tlv_len(TAG_OID, oid);
    lemma_tlv_len(TAG_NULL, Seq::empty());
    lemma_tlv_len(TAG_SEQUENCE, tlv(TAG_OID, oid) + tlv(TAG_NULL, Seq::empty()));
    lemma_tlv_len(TAG_OCTET_STRING, req.hashed_message);
    lemma_tlv_len(TAG_SEQUENCE, imprint_content);
    lemma_uint_content_len(req.version);
    lemma_tlv_len(TAG_BOOLEAN, seq![0xffu8]);
    lemma_tlv_len(TAG_BOOLEAN, seq![0u8]);
    if req.nonce is Some {
        lemma_uint_content_len(req.nonce->0);
    }
}

/// The fields of a request read back as they were written.
pub proof fn lemma_time_stamp_req_content_round_trip(req: TimeStampReqView)
    requires
        encodable(req),
    ensures
        decode_time_stamp_req_content(time_stamp_req_content(req)) == Some(decoded_form(req)),
{
    let imprint_content = algorithm_identifier_der(digest_oid(req.hash_algorithm)) + tlv(
        TAG_OCTET_STRING,
        req.hashed_message,
    );
    let imprint = tlv(TAG_SEQUENCE, imprint_content);
    let tail = optional_integer_der(req.nonce) + optional_boolean_der(req.cert_req);
    let content = time_stamp_req_content(req);
    let version = uint_content(req.version);

    lemma_time_stamp_req_lengths(req);
    assert(content == tlv(TAG_INTEGER, version) + (imprint + tail));
    lemma_take(TAG_INTEGER, version, imprint + tail);
    lemma_take(TAG_SEQUENCE, imprint_content, tail);
    lemma_integer_round_trip(req.version);
    lemma_message_imprint_round_trip(req.hash_algorithm, req.hashed_message);
    lemma_optional_fields_round_trip(req.nonce, req.cert_req);
}

/// Decoding the DER encoding of a request gives the request back: its
/// version, hash function, digest, nonce and certificate request as they
/// were, and neither a policy nor extensions.
pub proof fn lemma_time_stamp_req_round_trip(req: TimeStampReqView)
    requires
        encodable(req),
    ensures
        decode_time_stamp_req(time_stamp_req_der(req)) == Some(decoded_form(req)),
{
    let content = time_stamp_req_content(req);
    let bytes = tlv(TAG_SEQUENCE, content);
    lemma_time_stamp_req_lengths(req);
    lemma_take(TAG_SEQUENCE, content, Seq::empty());
    assert(bytes + Seq::<u8>::empty() == bytes);
    lemma_time_stamp_req_content_round_trip(req);
}

/// For any digest of the right length and any eight random bytes, the
/// request that is built reads back from its DER encoding with version 1,
/// the certificate asked for, no policy, no extensions, the digest under the
/// hash function of the signature algorithm, and for the nonce the random
/// bytes as a little-endian 64-bit number.
pub proof fn lemma_request_round_trip(alg: SigningAlgorithm, digest: Seq<u8>, random: Seq<u8>)
    requires
        digest.len() == digest_len(digest_of(alg)),
        random.len() == 8,
    ensures
        decode_time_stamp_req(time_stamp_req_der(request_for(alg, digest, random))) matches Some(
            decoded,
        ) && {
            &&& decoded.version == 1
            &&& decoded.cert_req == Some(true)
            &&& decoded.req_policy is None
            &&& decoded.extensions is None
            &&& decoded.nonce == Some(le_value(random) as int)
            &&& le_value(random) <= u64::MAX
            &&& decoded.hash_algorithm == digest_oid(digest_of(alg))
            &&& decoded.hashed_message == digest
            &&& decoded.hashed_message.len() == digest_len(digest_of(alg))
        },
{
    reveal_with_fuel(pow256, 9);
    lemma_le_value_bound(random);
    lemma_time_stamp_req_round_trip(request_for(alg, digest, random));
}

} // verus!
