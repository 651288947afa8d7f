//! Signature algorithms and the digest that goes with each.

use crate::error::Error;
use vstd::prelude::*;

verus! {

/// The signature algorithms a manifest may be signed with.
#[derive(Debug, Clone, Copy, PartialEq, Eq, Structural)]
pub enum SigningAlgorithm {
    /// RSASSA-PSS with SHA-256.
    Ps256,
    /// ECDSA with SHA-256.
    Es256,
    /// RSASSA-PSS with SHA-384.
    Ps384,
    /// ECDSA with SHA-384.
    Es384,
    /// RSASSA-PSS with SHA-512.
    Ps512,
    /// ECDSA with SHA-512.
    Es512,
    /// Edwards-curve DSA, Ed25519.
    Ed25519,
}

/// The hash functions that the signature algorithms use.
#[derive(Debug, Clone, Copy, PartialEq, Eq, Structural)]
pub enum DigestAlgorithm {
    Sha256,
    Sha384,
    Sha512,
}

/// The digest that goes with a signature algorithm.
pub open spec fn digest_of(alg: SigningAlgorithm) -> DigestAlgorithm {
    match alg {
        SigningAlgorithm::Ps256 | SigningAlgorithm::Es256 => DigestAlgorithm::Sha256,
        SigningAlgorithm::Ps384 | SigningAlgorithm::Es384 => DigestAlgorithm::Sha384,
        SigningAlgorithm::Ps512 | SigningAlgorithm::Es512 | SigningAlgorithm::Ed25519 =>
            DigestAlgorithm::Sha512,
    }
}

/// The number of bytes a hash function puts out.
pub open spec fn digest_len(digest: DigestAlgorithm) -> nat {
    match digest {
        DigestAlgorithm::Sha256 => 32,
        DigestAlgorithm::Sha384 => 48,
        DigestAlgorithm::Sha512 => 64,
    }
}

/// The content octets of a hash function's object identifier:
/// 2.16.840.1.101.3.4.2.1, .2 and .3.
pub open spec fn digest_oid(digest: DigestAlgorithm) -> Seq<u8> {
    match digest {
        DigestAlgorithm::Sha256 => seq![96u8, 134u8, 72u8, 1u8, 101u8, 3u8, 4u8, 2u8, 1u8],
        DigestAlgorithm::Sha384 => seq![96u8, 134u8, 72u8, 1u8, 101u8, 3u8, 4u8, 2u8, 2u8],
        DigestAlgorithm::Sha512 => seq![96u8, 134u8, 72u8, 1u8, 101u8, 3u8, 4u8, 2u8, 3u8],
    }
}

/// The signature algorithm that a lower-case name stands for, if any.
pub open spec fn algorithm_of_name(name: Seq<char>) -> Option<SigningAlgorithm> {
    if name == "es256"@ {
        Some(SigningAlgorithm::Es256)
    } else if name == "es384"@ {
        Some(SigningAlgorithm::Es384)
    } else if name == "es512"@ {
        Some(SigningAlgorithm::Es512)
    } else if name == "ps256"@ {
        Some(SigningAlgorithm::Ps256)
    } else if name == "ps384"@ {
        Some(SigningAlgorithm::Ps384)
    } else if name == "ps512"@ {
        Some(SigningAlgorithm::Ps512)
    } else if name == "ed25519"@ {
        Some(SigningAlgorithm::Ed25519)
    } else {
        None
    }
}

/// Picks the digest for a signature algorithm.
pub fn get_digest_algorithm(alg: SigningAlgorithm) -> (digest: DigestAlgorithm)
    ensures
        digest == digest_of(alg),
        digest_len(digest) == 32 || digest_len(digest) == 48 || digest_len(digest) == 64,
{
    match alg {
        SigningAlgorithm::Es256 | SigningAlgorithm::Ps256 => DigestAlgorithm::Sha256,
        SigningAlgorithm::Es384 | SigningAlgorithm::Ps384 => DigestAlgorithm::Sha384,
        SigningAlgorithm::Es512 | SigningAlgorithm::Ps512 | SigningAlgorithm::Ed25519 =>
            DigestAlgorithm::Sha512,
    }
}

/// `c2pa::SigningAlg::from_str`, with the variant it returns put into this
/// crate's enum. Believed of it: it knows exactly the seven lower-case names
/// of [`algorithm_of_name`], each for the variant of the same name, and
/// refuses every other string.
#[verifier::external_body]
fn parse_signing_alg(name: &str) -> (out: Option<SigningAlgorithm>)
    ensures
        out == algorithm_of_name(name@),
{
    match name.parse::<c2pa::SigningAlg>() {
        Ok(c2pa::SigningAlg::Es256) => Some(SigningAlgorithm::Es256),
        Ok(c2pa::SigningAlg::Es384) => Some(SigningAlgorithm::Es384),
        Ok(c2pa::SigningAlg::Es512) => Some(SigningAlgorithm::Es512),
        Ok(c2pa::SigningAlg::Ps256) => Some(SigningAlgorithm::Ps256),
        Ok(c2pa::SigningAlg::Ps384) => Some(SigningAlgorithm::Ps384),
        Ok(c2pa::SigningAlg::Ps512) => Some(SigningAlgorithm::Ps512),
        Ok(c2pa::SigningAlg::Ed25519) => Some(SigningAlgorithm::Ed25519),
        Err(_) => None,
    }
}

impl SigningAlgorithm {
    /// Reads a signature algorithm from its lower-case name. Any other string
    /// is an unsupported algorithm.
    pub fn from_name(name: &str) -> (out: Result<SigningAlgorithm, Error>)
        ensures
            out is Ok <==> algorithm_of_name(name@) is Some,
            out matches Ok(alg) ==> algorithm_of_name(name@) == Some(alg),
            out matches Err(e) ==> e == Error::UnsupportedAlgorithm,
    {
        match parse_signing_alg(name) {
            Some(alg) => Ok(alg),
            None => Err(Error::UnsupportedAlgorithm),
        }
    }
}

impl DigestAlgorithm {
    /// The number of bytes this hash function puts out.
    pub fn output_len(&self) -> (len: usize)
        ensures
            len == digest_len(*self),
    {
        match self {
            DigestAlgorithm::Sha256 => 32,
            DigestAlgorithm::Sha384 => 48,
            DigestAlgorithm::Sha512 => 64,
        }
    }
}

} // verus!
