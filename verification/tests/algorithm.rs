use toolkit::algorithm::{get_digest_algorithm, DigestAlgorithm, SigningAlgorithm};
use toolkit::error::Error;

#[test]
fn digest_follows_the_table() {
    assert_eq!(get_digest_algorithm(SigningAlgorithm::Ps256), DigestAlgorithm::Sha256);
    assert_eq!(get_digest_algorithm(SigningAlgorithm::Es256), DigestAlgorithm::Sha256);
    assert_eq!(get_digest_algorithm(SigningAlgorithm::Ps384), DigestAlgorithm::Sha384);
    assert_eq!(get_digest_algorithm(SigningAlgorithm::Es384), DigestAlgorithm::Sha384);
    assert_eq!(get_digest_algorithm(SigningAlgorithm::Ps512), DigestAlgorithm::Sha512);
    assert_eq!(get_digest_algorithm(SigningAlgorithm::Es512), DigestAlgorithm::Sha512);
    assert_eq!(get_digest_algorithm(SigningAlgorithm::Ed25519), DigestAlgorithm::Sha512);
}

#[test]
fn digest_lengths_are_those_of_the_hashes() {
    assert_eq!(DigestAlgorithm::Sha256.output_len(), 32);
    assert_eq!(DigestAlgorithm::Sha384.output_len(), 48);
    assert_eq!(DigestAlgorithm::Sha512.output_len(), 64);
    assert_eq!(get_digest_algorithm(SigningAlgorithm::Ed25519).output_len(), 64);
    assert_eq!(get_digest_algorithm(SigningAlgorithm::Es384).output_len(), 48);
}

#[test]
fn every_name_gives_its_algorithm() {
    assert_eq!(SigningAlgorithm::from_name("ps256"), Ok(SigningAlgorithm::Ps256));
    assert_eq!(SigningAlgorithm::from_name("es256"), Ok(SigningAlgorithm::Es256));
    assert_eq!(SigningAlgorithm::from_name("ps384"), Ok(SigningAlgorithm::Ps384));
    assert_eq!(SigningAlgorithm::from_name("es384"), Ok(SigningAlgorithm::Es384));
    assert_eq!(SigningAlgorithm::from_name("ps512"), Ok(SigningAlgorithm::Ps512));
    assert_eq!(SigningAlgorithm::from_name("es512"), Ok(SigningAlgorithm::Es512));
    assert_eq!(SigningAlgorithm::from_name("ed25519"), Ok(SigningAlgorithm::Ed25519));
}

#[test]
fn unknown_names_are_unsupported() {
    assert_eq!(SigningAlgorithm::from_name("rsa1024"), Err(Error::UnsupportedAlgorithm));
    assert_eq!(SigningAlgorithm::from_name(""), Err(Error::UnsupportedAlgorithm));
    assert_eq!(SigningAlgorithm::from_name("ES256"), Err(Error::UnsupportedAlgorithm));
    assert_eq!(SigningAlgorithm::from_name("es256 "), Err(Error::UnsupportedAlgorithm));
    assert_eq!(SigningAlgorithm::from_name("Ed25519"), Err(Error::UnsupportedAlgorithm));
}
