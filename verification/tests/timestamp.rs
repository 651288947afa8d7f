use toolkit::algorithm::{DigestAlgorithm, SigningAlgorithm};
use toolkit::der::encode_sequence;
use toolkit::timestamp::{
    copy_bytes, digest_matches, encoded_piece, nonce_from_random, rfc3161_time_stamp_message,
    TimeStampReq,
};
use toolkit::error::Error;

const SHA256_OID: [u8; 9] = [96, 134, 72, 1, 101, 3, 4, 2, 1];
const SHA384_OID: [u8; 9] = [96, 134, 72, 1, 101, 3, 4, 2, 2];
const SHA512_OID: [u8; 9] = [96, 134, 72, 1, 101, 3, 4, 2, 3];

struct Decoded {
    version: u8,
    oid: Vec<u8>,
    hashed: Vec<u8>,
    nonce: Option<u64>,
    cert_req: Option<bool>,
}

fn decode_request(bytes: &[u8]) -> Decoded {
    let decoded = bcder::decode::Constructed::decode(bytes, bcder::Mode::Der, |cons| {
        cons.take_sequence(|cons| {
            let version = cons.take_u8()?;
            let (oid, hashed) = cons.take_sequence(|cons| {
                let oid = cons.take_sequence(|cons| {
                    let oid = bcder::Oid::take_from(cons)?;
                    cons.take_null()?;
                    Ok(oid)
                })?;
                let hashed = bcder::OctetString::take_from(cons)?;
                Ok((oid, hashed))
            })?;
            let nonce = cons.take_opt_u64()?;
            let cert_req = cons.take_opt_bool()?;
            Ok(Decoded {
                version,
                oid: oid.0.to_vec(),
                hashed: hashed.to_bytes().to_vec(),
                nonce,
                cert_req,
            })
        })
    });
    match decoded {
        Ok(d) => d,
        Err(_) => panic!("the request is not what a DER decoder reads"),
    }
}

#[test]
fn request_for_zero_digest_has_the_expected_octets() {
    let digest = [0u8; 32];
    let body =
        rfc3161_time_stamp_message(SigningAlgorithm::Es256, &digest, [1, 2, 3, 4, 5, 6, 7, 8])
            .unwrap();
    let mut expected: Vec<u8> = vec![0x30, 0x43, 0x02, 0x01, 0x01, 0x30, 0x31, 0x30, 0x0d, 0x06, 0x09];
    expected.extend_from_slice(&SHA256_OID);
    expected.extend_from_slice(&[0x05, 0x00, 0x04, 0x20]);
    expected.extend_from_slice(&[0u8; 32]);
    expected.extend_from_slice(&[0x02, 0x08, 0x08, 0x07, 0x06, 0x05, 0x04, 0x03, 0x02, 0x01]);
    expected.extend_from_slice(&[0x01, 0x01, 0xff]);
    assert_eq!(body, expected);
}

#[test]
fn request_reads_back_through_a_der_decoder() {
    let digest = [0u8; 32];
    let body =
        rfc3161_time_stamp_message(SigningAlgorithm::Es256, &digest, [1, 2, 3, 4, 5, 6, 7, 8])
            .unwrap();
    let decoded = decode_request(&body);
    assert_eq!(decoded.version, 1);
    assert_eq!(decoded.oid, SHA256_OID.to_vec());
    assert_eq!(decoded.hashed, digest.to_vec());
    assert_eq!(decoded.nonce, Some(0x0807060504030201));
    assert_eq!(decoded.nonce, Some(578437695752307201));
    assert_eq!(decoded.cert_req, Some(true));
}

#[test]
fn request_round_trips_for_every_algorithm() {
    let cases = vec![
        (SigningAlgorithm::Ps256, 32usize, SHA256_OID),
        (SigningAlgorithm::Es256, 32usize, SHA256_OID),
        (SigningAlgorithm::Ps384, 48usize, SHA384_OID),
        (SigningAlgorithm::Es384, 48usize, SHA384_OID),
        (SigningAlgorithm::Ps512, 64usize, SHA512_OID),
        (SigningAlgorithm::Es512, 64usize, SHA512_OID),
        (SigningAlgorithm::Ed25519, 64usize, SHA512_OID),
    ];
    for (alg, len, oid) in cases {
        let digest: Vec<u8> = (0..len).map(|i| (i * 7 + 3) as u8).collect();
        let random = [0xff, 0x00, 0x12, 0x34, 0x56, 0x78, 0x9a, 0xbc];
        let body = rfc3161_time_stamp_message(alg, &digest, random).unwrap();
        let decoded = decode_request(&body);
        assert_eq!(decoded.version, 1);
        assert_eq!(decoded.oid, oid.to_vec());
        assert_eq!(decoded.hashed, digest);
        assert_eq!(decoded.nonce, Some(u64::from_le_bytes(random)));
        assert_eq!(decoded.cert_req, Some(true));
    }
}

#[test]
fn nonce_is_little_endian() {
    assert_eq!(nonce_from_random(&[1, 2, 3, 4, 5, 6, 7, 8]), 0x0807060504030201);
    assert_eq!(nonce_from_random(&[0; 8]), 0);
    assert_eq!(nonce_from_random(&[1, 0, 0, 0, 0, 0, 0, 0]), 1);
    assert_eq!(nonce_from_random(&[0, 0, 0, 0, 0, 0, 0, 1]), 1u64 << 56);
    assert_eq!(nonce_from_random(&[0xff; 8]), u64::MAX);
}

#[test]
fn nonce_with_top_bit_gets_a_zero_octet() {
    let digest = [0xabu8; 32];
    let body =
        rfc3161_time_stamp_message(SigningAlgorithm::Ps256, &digest, [0, 0, 0, 0, 0, 0, 0, 0x80])
            .unwrap();
    let tail = &body[body.len() - 14..];
    assert_eq!(
        tail,
        &[0x02, 0x09, 0x00, 0x80, 0, 0, 0, 0, 0, 0, 0, 0x01, 0x01, 0xff][..]
    );
    assert_eq!(decode_request(&body).nonce, Some(0x8000000000000000));
}

#[test]
fn small_nonces_are_encoded_in_few_octets() {
    let digest = [7u8; 48];
    let body =
        rfc3161_time_stamp_message(SigningAlgorithm::Es384, &digest, [0; 8]).unwrap();
    assert_eq!(&body[body.len() - 6..], &[0x02, 0x01, 0x00, 0x01, 0x01, 0xff][..]);
    let body = rfc3161_time_stamp_message(
        SigningAlgorithm::Es384,
        &digest,
        [0x34, 0x12, 0, 0, 0, 0, 0, 0],
    )
    .unwrap();
    assert_eq!(&body[body.len() - 7..], &[0x02, 0x02, 0x12, 0x34, 0x01, 0x01, 0xff][..]);
    assert_eq!(decode_request(&body).nonce, Some(0x1234));
}

#[test]
fn new_request_holds_what_was_given() {
    let digest = [9u8; 64];
    let req = TimeStampReq::new(SigningAlgorithm::Ed25519, &digest, [1, 0, 0, 0, 0, 0, 0, 0]);
    assert_eq!(req.version, 1);
    assert_eq!(req.hash_algorithm, DigestAlgorithm::Sha512);
    assert_eq!(req.hashed_message, digest.to_vec());
    assert_eq!(req.nonce, Some(1));
    assert_eq!(req.cert_req, Some(true));
}

#[test]
fn optional_fields_can_be_left_out() {
    let req = TimeStampReq {
        version: 1,
        hash_algorithm: DigestAlgorithm::Sha256,
        hashed_message: vec![0x11; 32],
        nonce: None,
        cert_req: None,
    };
    let body = req.to_der().unwrap();
    assert_eq!(body.len(), 2 + 3 + 51);
    assert_eq!(&body[..2], &[0x30, 0x36][..]);
    let decoded = decode_request(&body);
    assert_eq!(decoded.nonce, None);
    assert_eq!(decoded.cert_req, None);

    let req = TimeStampReq {
        version: 1,
        hash_algorithm: DigestAlgorithm::Sha256,
        hashed_message: vec![0x11; 32],
        nonce: None,
        cert_req: Some(false),
    };
    let body = req.to_der().unwrap();
    assert_eq!(&body[body.len() - 3..], &[0x01, 0x01, 0x00][..]);
    assert_eq!(decode_request(&body).cert_req, Some(false));
}

#[test]
fn long_messages_get_long_length_octets() {
    let req = TimeStampReq {
        version: 300,
        hash_algorithm: DigestAlgorithm::Sha384,
        hashed_message: vec![0x5a; 200],
        nonce: Some(255),
        cert_req: Some(true),
    };
    let body = req.to_der().unwrap();
    let mut expected: Vec<u8> = vec![0x30, 0x81, 0xe8, 0x02, 0x02, 0x01, 0x2c];
    expected.extend_from_slice(&[0x30, 0x81, 0xda, 0x30, 0x0d, 0x06, 0x09]);
    expected.extend_from_slice(&SHA384_OID);
    expected.extend_from_slice(&[0x05, 0x00, 0x04, 0x81, 0xc8]);
    expected.extend_from_slice(&[0x5a; 200]);
    expected.extend_from_slice(&[0x02, 0x02, 0x00, 0xff, 0x01, 0x01, 0xff]);
    assert_eq!(body, expected);

    let req = TimeStampReq {
        version: 1,
        hash_algorithm: DigestAlgorithm::Sha512,
        hashed_message: vec![0x5a; 70000],
        nonce: None,
        cert_req: None,
    };
    let body = req.to_der().unwrap();
    assert_eq!(&body[..5], &[0x30, 0x83, 0x01, 0x11, 0x8c][..]);
    assert_eq!(&body[8..13], &[0x30, 0x83, 0x01, 0x11, 0x84][..]);
    assert_eq!(&body[28..33], &[0x04, 0x83, 0x01, 0x11, 0x70][..]);
    assert_eq!(body.len(), 5 + 3 + 5 + 15 + 5 + 70000);
}

#[test]
fn sequences_are_framed_by_their_length() {
    assert_eq!(encode_sequence(vec![]), Some(vec![0x30, 0x00]));
    assert_eq!(encode_sequence(vec![1, 2, 3]), Some(vec![0x30, 0x03, 1, 2, 3]));
    let framed = encode_sequence(vec![9u8; 127]).unwrap();
    assert_eq!(&framed[..2], &[0x30, 0x7f][..]);
    let framed = encode_sequence(vec![9u8; 128]).unwrap();
    assert_eq!(&framed[..3], &[0x30, 0x81, 0x80][..]);
    assert_eq!(framed.len(), 131);
    let framed = encode_sequence(vec![9u8; 256]).unwrap();
    assert_eq!(&framed[..4], &[0x30, 0x82, 0x01, 0x00][..]);
}

#[test]
fn digest_must_have_the_length_of_the_hash() {
    assert!(digest_matches(SigningAlgorithm::Es256, &[0u8; 32]));
    assert!(!digest_matches(SigningAlgorithm::Es256, &[0u8; 31]));
    assert!(!digest_matches(SigningAlgorithm::Es256, &[0u8; 48]));
    assert!(digest_matches(SigningAlgorithm::Ps384, &[0u8; 48]));
    assert!(digest_matches(SigningAlgorithm::Ed25519, &[0u8; 64]));
    assert!(!digest_matches(SigningAlgorithm::Ed25519, &[]));
}

#[test]
fn a_missing_piece_is_an_encoding_failure() {
    assert_eq!(encoded_piece(None), Err(Error::TimestampEncode));
    assert_eq!(encoded_piece(Some(vec![1, 2])), Ok(vec![1, 2]));
}

#[test]
fn bytes_are_copied_as_they_are() {
    assert_eq!(copy_bytes(&[]), Vec::<u8>::new());
    assert_eq!(copy_bytes(&[1, 2, 3]), vec![1, 2, 3]);
}

#[test]
fn encoding_always_delivers() {
    for len in [0usize, 1, 31, 32, 127, 128, 255, 256, 65535, 65536] {
        let req = TimeStampReq {
            version: u64::MAX,
            hash_algorithm: DigestAlgorithm::Sha256,
            hashed_message: vec![0xa5; len],
            nonce: Some(u64::MAX),
            cert_req: Some(false),
        };
        let body = req.to_der();
        assert!(body.is_ok());
        assert!(encode_sequence(vec![0u8; len]).is_some());
    }
}
