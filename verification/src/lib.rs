//! Remote, callback-driven signing of content-provenance manifests.
//!
//! The keys never live here: a signer is driven by a host that owns four
//! asynchronous callbacks. This crate holds the decisions around them: which
//! digest goes with which signature algorithm, how an RFC 3161 time-stamp
//! request is laid out in DER, how many bytes to reserve for the signature, in
//! which order the callbacks run, and how a manifest is assembled before it is
//! embedded.

pub mod algorithm;
pub mod der;
pub mod error;
pub mod manifest;
pub mod outside;
pub mod signer;
pub mod signing;
pub mod timestamp;
