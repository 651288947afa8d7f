use toolkit::algorithm::SigningAlgorithm;
use toolkit::error::Error;
use toolkit::signer::{
    chain_fits, timestamp_after_encode, Callback, CallbackRequest, KeyVaultSigner, SignFlow,
    SignStep, TimestampFlow, TimestampStep,
};
use toolkit::timestamp::rfc3161_time_stamp_message;

const SHA256_OF_HELLO: [u8; 32] = [
    0x2c, 0xf2, 0x4d, 0xba, 0x5f, 0xb0, 0xa3, 0x0e, 0x26, 0xe8, 0x3b, 0x2a, 0xc5, 0xb9, 0xe2, 0x9e,
    0x1b, 0x16, 0x1e, 0x5c, 0x1f, 0xa7, 0x42, 0x5e, 0x73, 0x04, 0x33, 0x62, 0x93, 0x8b, 0x98, 0x24,
];

fn signer(timestamp: bool, alg: &str) -> KeyVaultSigner {
    KeyVaultSigner::new(timestamp, vec![vec![1u8; 10]], alg).unwrap()
}

fn spy_digest(input: &[u8]) -> Result<Vec<u8>, Error> {
    if input == b"hello" {
        Ok(SHA256_OF_HELLO.to_vec())
    } else {
        Err(Error::CallbackFailure)
    }
}

fn spy_sign(input: &[u8]) -> Result<Vec<u8>, Error> {
    let mut out = input.to_vec();
    out.reverse();
    Ok(out)
}

fn run_sign(signer: &KeyVaultSigner, payload: Vec<u8>, log: &mut Vec<String>) -> SignStep {
    let mut step = signer.sign(payload);
    loop {
        match step {
            SignStep::Invoke { next, request } => {
                let reply = match request {
                    CallbackRequest::Buffer { callback: Callback::Digest, bytes } => {
                        log.push(format!("digest({})", String::from_utf8_lossy(&bytes)));
                        spy_digest(&bytes)
                    }
                    CallbackRequest::Buffer { callback: Callback::Sign, bytes } => {
                        log.push(format!("sign(<{}-byte hash>)", bytes.len()));
                        spy_sign(&bytes)
                    }
                    _ => panic!("a signing invokes digest and sign only"),
                };
                step = signer.sign_resume(next, reply);
            }
            done => return done,
        }
    }
}

#[test]
fn reserve_is_base_plus_certificates() {
    let s = KeyVaultSigner::new(false, vec![vec![0u8; 1200], vec![0u8; 1400]], "es256").unwrap();
    assert_eq!(s.reserve_size(), 8192 + 2600);
    assert_eq!(s.reserve_size(), 10792);
}

#[test]
fn reserve_of_an_empty_chain_is_the_base() {
    let s = KeyVaultSigner::new(false, vec![], "ps512").unwrap();
    assert_eq!(s.reserve_size(), 8192);
    let s = KeyVaultSigner::new(false, vec![vec![], vec![7], vec![]], "ps512").unwrap();
    assert_eq!(s.reserve_size(), 8193);
}

#[test]
fn reserve_counts_every_certificate() {
    let chain: Vec<Vec<u8>> = (0..10).map(|i| vec![0u8; i * 100]).collect();
    assert!(chain_fits(&chain));
    let s = KeyVaultSigner::new(true, chain, "ed25519").unwrap();
    assert_eq!(s.reserve_size(), 8192 + 4500);
}

#[test]
fn signer_keeps_what_it_was_made_with() {
    let chain = vec![vec![1u8, 2, 3], vec![4u8, 5]];
    let s = KeyVaultSigner::new(true, chain.clone(), "es384").unwrap();
    assert_eq!(s.alg(), SigningAlgorithm::Es384);
    assert!(s.has_timestamp());
    assert_eq!(s.certs(), chain);
    let s = KeyVaultSigner::new(false, chain.clone(), "ps256").unwrap();
    assert_eq!(s.alg(), SigningAlgorithm::Ps256);
    assert!(!s.has_timestamp());
}

#[test]
fn signer_refuses_an_unknown_algorithm() {
    assert!(matches!(
        KeyVaultSigner::new(true, vec![vec![1u8]], "rsa1024"),
        Err(Error::UnsupportedAlgorithm)
    ));
    assert!(matches!(KeyVaultSigner::new(false, vec![], ""), Err(Error::UnsupportedAlgorithm)));
}

#[test]
fn sign_runs_digest_then_sign() {
    let s = signer(false, "es256");
    let mut log: Vec<String> = Vec::new();
    let done = run_sign(&s, b"hello".to_vec(), &mut log);
    let mut expected = SHA256_OF_HELLO.to_vec();
    expected.reverse();
    assert_eq!(done, SignStep::Signed(expected));
    assert_eq!(log, vec!["digest(hello)".to_string(), "sign(<32-byte hash>)".to_string()]);
}

#[test]
fn sign_begins_with_the_digest_of_the_payload() {
    let s = signer(true, "ps384");
    assert_eq!(
        s.sign(vec![1, 2, 3]),
        SignStep::Invoke {
            next: SignFlow::AwaitDigest,
            request: CallbackRequest::Buffer { callback: Callback::Digest, bytes: vec![1, 2, 3] },
        }
    );
}

#[test]
fn sign_hands_the_digest_to_the_sign_callback() {
    let s = signer(true, "ps384");
    assert_eq!(
        s.sign_resume(SignFlow::AwaitDigest, Ok(vec![9, 8, 7])),
        SignStep::Invoke {
            next: SignFlow::AwaitSignature,
            request: CallbackRequest::Buffer { callback: Callback::Sign, bytes: vec![9, 8, 7] },
        }
    );
    assert_eq!(
        s.sign_resume(SignFlow::AwaitSignature, Ok(vec![5, 5])),
        SignStep::Signed(vec![5, 5])
    );
}

#[test]
fn failed_digest_ends_the_signing_before_sign() {
    let s = signer(false, "es256");
    let mut log: Vec<String> = Vec::new();
    let done = run_sign(&s, b"other".to_vec(), &mut log);
    assert_eq!(done, SignStep::DigestFailure(Error::CallbackFailure));
    assert_eq!(log, vec!["digest(other)".to_string()]);
}

#[test]
fn failed_sign_ends_the_signing() {
    let s = signer(false, "es256");
    assert_eq!(
        s.sign_resume(SignFlow::AwaitSignature, Err(Error::HostConversion)),
        SignStep::SignFailure(Error::HostConversion)
    );
    assert_eq!(
        s.sign_resume(SignFlow::AwaitDigest, Err(Error::HostConversion)),
        SignStep::DigestFailure(Error::HostConversion)
    );
}

#[test]
fn no_timestamp_callback_means_no_timestamp() {
    let s = signer(false, "es256");
    assert_eq!(s.send_timestamp_request(b"x"), TimestampStep::Absent);
    assert_eq!(s.send_timestamp_request(b""), TimestampStep::Absent);
    assert_eq!(s.send_timestamp_request(&[0u8; 1000]), TimestampStep::Absent);
}

#[test]
fn timestamp_begins_with_the_digest_of_the_message() {
    let s = signer(true, "es256");
    assert_eq!(
        s.send_timestamp_request(b"x"),
        TimestampStep::Invoke {
            next: TimestampFlow::AwaitDigest,
            request: CallbackRequest::Buffer { callback: Callback::Digest, bytes: b"x".to_vec() },
        }
    );
}

#[test]
fn timestamp_asks_for_eight_random_bytes() {
    let s = signer(true, "es256");
    assert_eq!(
        s.timestamp_resume(TimestampFlow::AwaitDigest, Ok(vec![3u8; 32])),
        TimestampStep::Invoke {
            next: TimestampFlow::AwaitRandom { digest: vec![3u8; 32] },
            request: CallbackRequest::Value { callback: Callback::Random, value: 8 },
        }
    );
}

#[test]
fn short_random_means_no_timestamp() {
    let s = signer(true, "es256");
    let state = TimestampFlow::AwaitRandom { digest: vec![3u8; 32] };
    assert_eq!(s.timestamp_resume(state.clone(), Ok(vec![1, 2, 3, 4, 5, 6, 7])), TimestampStep::Absent);
    assert_eq!(s.timestamp_resume(state.clone(), Ok(vec![])), TimestampStep::Absent);
    assert_eq!(s.timestamp_resume(state.clone(), Ok(vec![0; 9])), TimestampStep::Absent);
    assert_eq!(s.timestamp_resume(state, Err(Error::CallbackFailure)), TimestampStep::Absent);
}

#[test]
fn failed_or_odd_digest_means_no_timestamp() {
    let s = signer(true, "es256");
    assert_eq!(
        s.timestamp_resume(TimestampFlow::AwaitDigest, Err(Error::CallbackFailure)),
        TimestampStep::Absent
    );
    assert_eq!(
        s.timestamp_resume(TimestampFlow::AwaitDigest, Ok(vec![0u8; 48])),
        TimestampStep::Absent
    );
    assert_eq!(
        s.timestamp_resume(TimestampFlow::AwaitRandom { digest: vec![0u8; 31] }, Ok(vec![0u8; 8])),
        TimestampStep::Absent
    );
}

#[test]
fn timestamp_sends_the_encoded_request() {
    let s = signer(true, "es512");
    let digest = vec![0x42u8; 64];
    let step = s.timestamp_resume(
        TimestampFlow::AwaitRandom { digest: digest.clone() },
        Ok(vec![1, 2, 3, 4, 5, 6, 7, 8]),
    );
    let body =
        rfc3161_time_stamp_message(SigningAlgorithm::Es512, &digest, [1, 2, 3, 4, 5, 6, 7, 8])
            .unwrap();
    assert_eq!(
        step,
        TimestampStep::Invoke {
            next: TimestampFlow::AwaitResponse,
            request: CallbackRequest::Buffer { callback: Callback::Timestamp, bytes: body },
        }
    );
}

#[test]
fn timestamp_response_is_handed_on_as_it_came() {
    let s = signer(true, "es256");
    assert_eq!(
        s.timestamp_resume(TimestampFlow::AwaitResponse, Ok(vec![0x30, 0x03, 1, 2, 3])),
        TimestampStep::Present(Ok(vec![0x30, 0x03, 1, 2, 3]))
    );
    assert_eq!(
        s.timestamp_resume(TimestampFlow::AwaitResponse, Err(Error::CallbackFailure)),
        TimestampStep::Present(Err(Error::CallbackFailure))
    );
}

#[test]
fn whole_timestamping_invokes_digest_random_timestamp() {
    let s = signer(true, "es256");
    let mut log: Vec<String> = Vec::new();
    let mut step = s.send_timestamp_request(b"hello");
    let done = loop {
        match step {
            TimestampStep::Invoke { next, request } => {
                let reply = match request {
                    CallbackRequest::Buffer { callback: Callback::Digest, bytes } => {
                        log.push("digest".to_string());
                        spy_digest(&bytes)
                    }
                    CallbackRequest::Value { callback: Callback::Random, value } => {
                        log.push(format!("random({})", value));
                        Ok(vec![8, 7, 6, 5, 4, 3, 2, 1])
                    }
                    CallbackRequest::Buffer { callback: Callback::Timestamp, bytes } => {
                        log.push("timestamp".to_string());
                        Ok(bytes)
                    }
                    _ => panic!("a time-stamping does not sign"),
                };
                step = s.timestamp_resume(next, reply);
            }
            done => break done,
        }
    };
    assert_eq!(log, vec!["digest".to_string(), "random(8)".to_string(), "timestamp".to_string()]);
    let body = rfc3161_time_stamp_message(
        SigningAlgorithm::Es256,
        &SHA256_OF_HELLO,
        [8, 7, 6, 5, 4, 3, 2, 1],
    )
    .unwrap();
    assert_eq!(done, TimestampStep::Present(Ok(body)));
}

#[test]
fn failed_encoding_means_no_timestamp() {
    assert_eq!(timestamp_after_encode(Err(Error::TimestampEncode)), TimestampStep::Absent);
    assert_eq!(
        timestamp_after_encode(Ok(vec![1, 2, 3])),
        TimestampStep::Invoke {
            next: TimestampFlow::AwaitResponse,
            request: CallbackRequest::Buffer { callback: Callback::Timestamp, bytes: vec![1, 2, 3] },
        }
    );
}
