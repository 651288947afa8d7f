//! The remote signer: a signature algorithm, a certificate chain, and the
//! order in which the host's callbacks are run.
//!
//! The callbacks themselves belong to the host. Each operation here is a
//! small machine: it says which callback to invoke next and with what, is
//! handed what the callback gave back, and says what follows.

use crate::algorithm::{algorithm_of_name, digest_len, digest_of, SigningAlgorithm};
use crate::error::{Error, ErrorView};
use crate::timestamp::{
    copy_bytes, digest_matches, request_for, rfc3161_time_stamp_message, time_stamp_req_der,
};
use vstd::prelude::*;

verus! {

/// The bytes reserved for a signature and its framing, before certificates.
pub const BASE_RESERVE: usize = 8192;

/// How many random bytes a nonce is made of.
pub const NONCE_LEN: usize = 8;

/// The certificates of a chain as sequences of bytes.
pub open spec fn chain_of(certs: Seq<Vec<u8>>) -> Seq<Seq<u8>> {
    Seq::new(certs.len(), |i: int| certs[i]@)
}

/// The lengths of all certificates of a chain added up.
pub open spec fn total_len(chain: Seq<Seq<u8>>) -> nat
    decreases chain.len(),
{
    if chain.len() == 0 {
        0
    } else {
        total_len(chain.drop_last()) + chain.last().len()
    }
}

/// The bytes to reserve for a chain: the fixed part and every certificate
/// in full.
pub open spec fn reserve_of(chain: Seq<Seq<u8>>) -> nat {
    BASE_RESERVE as nat + total_len(chain)
}

/// The first certificates of a chain are no longer than the whole chain.
pub proof fn lemma_total_len_prefix(chain: Seq<Seq<u8>>, i: int)
    requires
        0 <= i <= chain.len(),
    ensures
        total_len(chain.take(i)) <= total_len(chain),
    decreases chain.len(),
{
    if i == chain.len() {
        assert(chain.take(i) == chain);
    } else {
        lemma_total_len_prefix(chain.drop_last(), i);
        assert(chain.drop_last().take(i) == chain.take(i));
    }
}

/// One certificate more adds its length.
pub proof fn lemma_total_len_step(chain: Seq<Seq<u8>>, i: int)
    requires
        0 <= i < chain.len(),
    ensures
        total_len(chain.take(i + 1)) == total_len(chain.take(i)) + chain[i].len(),
{
    assert(chain.take(i + 1).drop_last() == chain.take(i));
    assert(chain.take(i + 1).last() == chain[i]);
}

/// The four callbacks of the host.
#[derive(Debug, Clone, Copy, PartialEq, Eq, Structural)]
pub enum Callback {
    /// Signs a digest.
    Sign,
    /// Computes the digest of a buffer.
    Digest,
    /// Gives as many random bytes as asked for.
    Random,
    /// Sends a time-stamp request and gives the response.
    Timestamp,
}

/// One invocation of a callback: with a byte buffer of exactly these bytes,
/// or with a single number.
#[derive(Debug, Clone, PartialEq, Eq)]
pub enum CallbackRequest {
    Buffer { callback: Callback, bytes: Vec<u8> },
    Value { callback: Callback, value: usize },
}

/// The mathematical value of a [`CallbackRequest`].
pub enum CallbackRequestView {
    Buffer { callback: Callback, bytes: Seq<u8> },
    Value { callback: Callback, value: nat },
}

impl View for CallbackRequest {
    type V = CallbackRequestView;

    open spec fn view(&self) -> CallbackRequestView {
        match self {
            CallbackRequest::Buffer { callback, bytes } => CallbackRequestView::Buffer {
                callback: *callback,
                bytes: bytes@,
            },
            CallbackRequest::Value { callback, value } => CallbackRequestView::Value {
                callback: *callback,
                value: *value as nat,
            },
        }
    }
}

/// What a callback gave back, as mathematical values: the bytes it resolved
/// with, or how it failed.
pub open spec fn reply_view(reply: Result<Vec<u8>, Error>) -> Result<Seq<u8>, ErrorView> {
    match reply {
        Ok(bytes) => Ok(bytes@),
        Err(e) => Err(e@),
    }
}

/// Where a signing stands while a callback runs.
#[derive(Debug, Clone, Copy, PartialEq, Eq, Structural)]
pub enum SignFlow {
    /// The digest of the payload was asked for.
    AwaitDigest,
    /// The signature over the digest was asked for.
    AwaitSignature,
}

/// What a signing does next.
#[derive(Debug, Clone, PartialEq, Eq)]
pub enum SignStep {
    /// Invoke a callback and come back with what it gave.
    Invoke { next: SignFlow, request: CallbackRequest },
    /// Done: the signature.
    Signed(Vec<u8>),
    /// Done: the digest callback failed, and the signing with it.
    DigestFailure(Error),
    /// Done: the sign callback failed, and the signing with it.
    SignFailure(Error),
}

/// The mathematical value of a [`SignStep`].
pub enum SignStepView {
    Invoke { next: SignFlow, request: CallbackRequestView },
    Signed(Seq<u8>),
    DigestFailure(ErrorView),
    SignFailure(ErrorView),
}

impl View for SignStep {
    type V = SignStepView;

    open spec fn view(&self) -> SignStepView {
        match self {
            SignStep::Invoke { next, request } => SignStepView::Invoke {
                next: *next,
                request: request@,
            },
            SignStep::Signed(signature) => SignStepView::Signed(signature@),
            SignStep::DigestFailure(e) => SignStepView::DigestFailure(e@),
            SignStep::SignFailure(e) => SignStepView::SignFailure(e@),
        }
    }
}

/// How a signing begins: the digest callback is invoked on the payload.
pub open spec fn sign_start(payload: Seq<u8>) -> SignStepView {
    SignStepView::Invoke {
        next: SignFlow::AwaitDigest,
        request: CallbackRequestView::Buffer { callback: Callback::Digest, bytes: payload },
    }
}

/// How a signing goes on after a callback: the digest goes to the sign
/// callback, the signature ends the signing, and a failure ends it at once.
pub open spec fn sign_next(state: SignFlow, reply: Result<Seq<u8>, ErrorView>) -> SignStepView {
    match state {
        SignFlow::AwaitDigest => match reply {
            Ok(digest) => SignStepView::Invoke {
                next: SignFlow::AwaitSignature,
                request: CallbackRequestView::Buffer { callback: Callback::Sign, bytes: digest },
            },
            Err(e) => SignStepView::DigestFailure(e),
        },
        SignFlow::AwaitSignature => match reply {
            Ok(signature) => SignStepView::Signed(signature),
            Err(e) => SignStepView::SignFailure(e),
        },
    }
}

/// A whole signing, with what the digest callback and the sign callback
/// would give: the invocations made, in order, and how the signing ends.
pub open spec fn sign_run(
    payload: Seq<u8>,
    digest_reply: Result<Seq<u8>, ErrorView>,
    sign_reply: Result<Seq<u8>, ErrorView>,
) -> (Seq<CallbackRequestView>, SignStepView) {
    let first = sign_start(payload);
    let second = sign_next(first->next, digest_reply);
    match second {
        SignStepView::Invoke { next, request } => (
            seq![first->request, request],
            sign_next(next, sign_reply),
        ),
        _ => (seq![first->request], second),
    }
}

/// Where a time-stamping stands while a callback runs.
#[derive(Debug, Clone, PartialEq, Eq)]
pub enum TimestampFlow {
    /// The digest of the message was asked for.
    AwaitDigest,
    /// The random bytes for the nonce were asked for; the digest is kept.
    AwaitRandom { digest: Vec<u8> },
    /// The request was sent.
    AwaitResponse,
}

/// The mathematical value of a [`TimestampFlow`].
pub enum TimestampFlowView {
    AwaitDigest,
    AwaitRandom { digest: Seq<u8> },
    AwaitResponse,
}

impl View for TimestampFlow {
    type V = TimestampFlowView;

    open spec fn view(&self) -> TimestampFlowView {
        match self {
            TimestampFlow::AwaitDigest => TimestampFlowView::AwaitDigest,
            TimestampFlow::AwaitRandom { digest } => TimestampFlowView::AwaitRandom {
                digest: digest@,
            },
            TimestampFlow::AwaitResponse => TimestampFlowView::AwaitResponse,
        }
    }
}

/// What a time-stamping does next.
#[derive(Debug, PartialEq, Eq)]
pub enum TimestampStep {
    /// Invoke a callback and come back with what it gave.
    Invoke { next: TimestampFlow, request: CallbackRequest },
    /// Done: no time stamp. This is no error.
    Absent,
    /// Done: the time-stamp callback ran, and this is what it gave.
    Present(Result<Vec<u8>, Error>),
}

/// The mathematical value of a [`TimestampStep`].
pub enum TimestampStepView {
    Invoke { next: TimestampFlowView, request: CallbackRequestView },
    Absent,
    Present(Result<Seq<u8>, ErrorView>),
}

impl View for TimestampStep {
    type V = TimestampStepView;

    open spec fn view(&self) -> TimestampStepView {
        match self {
            TimestampStep::Invoke { next, request } => TimestampStepView::Invoke {
                next: next@,
                request: request@,
            },
            TimestampStep::Absent => TimestampStepView::Absent,
            TimestampStep::Present(reply) => TimestampStepView::Present(reply_view(*reply)),
        }
    }
}

/// How a time-stamping begins: without a time-stamp callback there is no
/// time stamp and nothing is invoked; with one, the digest callback is
/// invoked on the message.
pub open spec fn timestamp_start(has_timestamp: bool, message: Seq<u8>) -> TimestampStepView {
    if has_timestamp {
        TimestampStepView::Invoke {
            next: TimestampFlowView::AwaitDigest,
            request: CallbackRequestView::Buffer { callback: Callback::Digest, bytes: message },
        }
    } else {
        TimestampStepView::Absent
    }
}

/// Whether this is the moment the request is built: the random bytes came,
/// there are eight of them, and the digest kept has the length that the
/// hash function of `alg` gives.
pub open spec fn builds_request(
    alg: SigningAlgorithm,
    state: TimestampFlowView,
    reply: Result<Seq<u8>, ErrorView>,
) -> bool {
    &&& state matches TimestampFlowView::AwaitRandom { digest }
    &&& digest.len() == digest_len(digest_of(alg))
    &&& reply matches Ok(random)
    &&& random.len() == NONCE_LEN
}

/// What follows the encoding of the request: the time-stamp callback is
/// invoked on the encoded request, or there is no time stamp where the
/// encoding failed.
pub open spec fn timestamp_after_encoding(encoded: Result<Seq<u8>, ErrorView>)
    -> TimestampStepView {
    match encoded {
        Ok(body) => TimestampStepView::Invoke {
            next: TimestampFlowView::AwaitResponse,
            request: CallbackRequestView::Buffer { callback: Callback::Timestamp, bytes: body },
        },
        Err(_) => TimestampStepView::Absent,
    }
}

/// How a time-stamping goes on after a callback, wherever no request is
/// built. A digest of the right length leads to the random callback, asked
/// for eight bytes. A failed callback before the request, a digest of
/// another length, or random bytes that are not eight: no time stamp. What
/// the time-stamp callback gave is handed on as it is, failure included.
pub open spec fn timestamp_next(
    alg: SigningAlgorithm,
    state: TimestampFlowView,
    reply: Result<Seq<u8>, ErrorView>,
) -> TimestampStepView {
    match state {
        TimestampFlowView::AwaitDigest => match reply {
            Ok(digest) => if digest.len() == digest_len(digest_of(alg)) {
                TimestampStepView::Invoke {
                    next: TimestampFlowView::AwaitRandom { digest },
                    request: CallbackRequestView::Value {
                        callback: Callback::Random,
                        value: NONCE_LEN as nat,
                    },
                }
            } else {
                TimestampStepView::Absent
            },
            Err(_) => TimestampStepView::Absent,
        },
        TimestampFlowView::AwaitRandom { digest } => TimestampStepView::Absent,
        TimestampFlowView::AwaitResponse => TimestampStepView::Present(reply),
    }
}

/// The encoded request that goes to the time-stamp callback.
pub open spec fn request_body(
    alg: SigningAlgorithm,
    state: TimestampFlowView,
    reply: Result<Seq<u8>, ErrorView>,
) -> Seq<u8> {
    time_stamp_req_der(request_for(alg, state->digest, reply->Ok_0))
}

/// A signer whose key is held by the host: the signature algorithm, the
/// certificate chain with the leaf first, and whether the host can reach a
/// time-stamp authority. It keeps nothing between calls.
pub struct KeyVaultSigner {
    alg: SigningAlgorithm,
    timestamp: bool,
    certs: Vec<Vec<u8>>,
}

/// The mathematical value of a [`KeyVaultSigner`].
pub struct SignerView {
    pub alg: SigningAlgorithm,
    pub certs: Seq<Seq<u8>>,
    pub timestamp: bool,
}

impl View for KeyVaultSigner {
    type V = SignerView;

    closed spec fn view(&self) -> SignerView {
        SignerView { alg: self.alg, certs: chain_of(self.certs@), timestamp: self.timestamp }
    }
}

/// Adds up what to reserve for a chain, or finds that it does not fit.
fn checked_reserve(certs: &Vec<Vec<u8>>) -> (out: Option<usize>)
    ensures
        match out {
            Some(n) => n == reserve_of(chain_of(certs@)),
            None => reserve_of(chain_of(certs@)) > usize::MAX,
        },
{
    let ghost chain = chain_of(certs@);
    let mut acc: usize = BASE_RESERVE;
    let mut i: usize = 0;
    assert(chain.take(0).len() == 0);
    while i < certs.len()
        invariant
            i <= certs@.len(),
            chain == chain_of(certs@),
            acc == BASE_RESERVE + total_len(chain.take(i as int)),
        decreases certs@.len() - i,
    {
        proof {
            lemma_total_len_step(chain, i as int);
            lemma_total_len_prefix(chain, i + 1);
        }
        match acc.checked_add(certs[i].len()) {
            Some(n) => {
                acc = n;
            },
            None => {
                return None;
            },
        }
        i = i + 1;
    }
    assert(chain.take(i as int) == chain);
    Some(acc)
}

/// Whether the bytes to reserve for a chain can be counted on this machine.
/// A signer is made only for such a chain.
pub fn chain_fits(certs: &Vec<Vec<u8>>) -> (out: bool)
    ensures
        out == (reserve_of(chain_of(certs@)) <= usize::MAX),
{
    checked_reserve(certs).is_some()
}

/// Copies eight bytes into an array.
fn nonce_bytes(random: &Vec<u8>) -> (out: [u8; 8])
    requires
        random@.len() == NONCE_LEN,
    ensures
        out@ == random@,
{
    let out: [u8; 8] = [
        random[0],
        random[1],
        random[2],
        random[3],
        random[4],
        random[5],
        random[6],
        random[7],
    ];
    assert(out@ =~= random@);
    out
}

/// What follows the encoding of the time-stamp request: the time-stamp
/// callback is invoked on the encoded request, or, where the encoding
/// failed, there is no time stamp.
pub fn timestamp_after_encode(encoded: Result<Vec<u8>, Error>) -> (out: TimestampStep)
    ensures
        out@ == timestamp_after_encoding(reply_view(encoded)),
{
    match encoded {
        Ok(body) => TimestampStep::Invoke {
            next: TimestampFlow::AwaitResponse,
            request: CallbackRequest::Buffer { callback: Callback::Timestamp, bytes: body },
        },
        Err(_) => TimestampStep::Absent,
    }
}

impl KeyVaultSigner {
    #[verifier::type_invariant]
    spec fn reserve_fits(self) -> bool {
        reserve_of(chain_of(self.certs@)) <= usize::MAX
    }

    /// Makes a signer for one signing request. The algorithm comes by its
    /// lower-case name; any other name is an unsupported algorithm. The chain
    /// must be one whose reserve can be counted, see [`chain_fits`].
    pub fn new(timestamp: bool, certs: Vec<Vec<u8>>, alg: &str) -> (out: Result<
        KeyVaultSigner,
        Error,
    >)
        requires
            reserve_of(chain_of(certs@)) <= usize::MAX,
        ensures
            match algorithm_of_name(alg@) {
                Some(a) => out matches Ok(signer) && signer@ == (SignerView {
                    alg: a,
                    certs: chain_of(certs@),
                    timestamp,
                }),
                None => out matches Err(e) && e == Error::UnsupportedAlgorithm,
            },
    {
        match SigningAlgorithm::from_name(alg) {
            Ok(alg) => Ok(KeyVaultSigner { alg, timestamp, certs }),
            Err(e) => Err(e),
        }
    }

    /// The signature algorithm.
    pub fn alg(&self) -> (out: SigningAlgorithm)
        ensures
            out == self@.alg,
    {
        self.alg
    }

    /// Whether the host supplied a time-stamp callback.
    pub fn has_timestamp(&self) -> (out: bool)
        ensures
            out == self@.timestamp,
    {
        self.timestamp
    }

    /// A copy of the certificate chain, leaf first.
    pub fn certs(&self) -> (out: Vec<Vec<u8>>)
        ensures
            chain_of(out@) == self@.certs,
    {
        let mut out: Vec<Vec<u8>> = Vec::new();
        let mut i: usize = 0;
        while i < self.certs.len()
            invariant
                i <= self.certs@.len(),
                out@.len() == i,
                forall|j: int| 0 <= j < i ==> (#[trigger] out@[j])@ == self.certs@[j]@,
            decreases self.certs@.len() - i,
        {
            let copy = copy_bytes(self.certs[i].as_slice());
            out.push(copy);
            i = i + 1;
        }
        assert(chain_of(out@) =~= chain_of(self.certs@));
        out
    }

    /// The bytes to reserve in the asset for the signature that is yet to be
    /// written: 8192, and the length of every certificate.
    pub fn reserve_size(&self) -> (out: usize)
        ensures
            out == reserve_of(self@.certs),
            out == BASE_RESERVE + total_len(self@.certs),
    {
        proof {
            use_type_invariant(self);
        }
        let reserve = checked_reserve(&self.certs);
        reserve.unwrap()
    }

    /// Begins to sign a payload: the digest callback is invoked on it.
    pub fn sign(&self, payload: Vec<u8>) -> (out: SignStep)
        ensures
            out@ == sign_start(payload@),
    {
        SignStep::Invoke {
            next: SignFlow::AwaitDigest,
            request: CallbackRequest::Buffer { callback: Callback::Digest, bytes: payload },
        }
    }

    /// Goes on with a signing after a callback: the digest is handed to the
    /// sign callback, the signature ends the signing. A failed callback ends
    /// it at once, with the callback's own error; nothing is tried again.
    pub fn sign_resume(&self, state: SignFlow, reply: Result<Vec<u8>, Error>) -> (out: SignStep)
        ensures
            out@ == sign_next(state, reply_view(reply)),
    {
        match state {
            SignFlow::AwaitDigest => match reply {
                Ok(digest) => SignStep::Invoke {
                    next: SignFlow::AwaitSignature,
                    request: CallbackRequest::Buffer { callback: Callback::Sign, bytes: digest },
                },
                Err(e) => SignStep::DigestFailure(e),
            },
            SignFlow::AwaitSignature => match reply {
                Ok(signature) => SignStep::Signed(signature),
                Err(e) => SignStep::SignFailure(e),
            },
        }
    }

    /// Begins to time-stamp a message. Without a time-stamp callback there
    /// is no time stamp, and no callback is invoked at all.
    pub fn send_timestamp_request(&self, message: &[u8]) -> (out: TimestampStep)
        ensures
            out@ == timestamp_start(self@.timestamp, message@),
            !self@.timestamp ==> out@ is Absent,
    {
        if self.timestamp {
            TimestampStep::Invoke {
                next: TimestampFlow::AwaitDigest,
                request: CallbackRequest::Buffer {
                    callback: Callback::Digest,
                    bytes: copy_bytes(message),
                },
            }
        } else {
            TimestampStep::Absent
        }
    }

    /// Goes on with a time-stamping after a callback, as [`timestamp_next`]
    /// says. Where the request is built, the time-stamp callback is invoked
    /// on exactly the DER encoding of the request. Random bytes that are not
    /// eight never lead to a request.
    pub fn timestamp_resume(&self, state: TimestampFlow, reply: Result<Vec<u8>, Error>) -> (out:
        TimestampStep)
        ensures
            !builds_request(self@.alg, state@, reply_view(reply)) ==> out@ == timestamp_next(
                self@.alg,
                state@,
                reply_view(reply),
            ),
            builds_request(self@.alg, state@, reply_view(reply)) ==> out@
                == timestamp_after_encoding(
                Ok(request_body(self@.alg, state@, reply_view(reply))),
            ),
            (state is AwaitRandom && reply is Ok && reply->Ok_0@.len() != NONCE_LEN) ==> out@
                is Absent,
    {
        match state {
            TimestampFlow::AwaitDigest => match reply {
                Ok(digest) => {
                    if digest_matches(self.alg, digest.as_slice()) {
                        TimestampStep::Invoke {
                            next: TimestampFlow::AwaitRandom { digest },
                            request: CallbackRequest::Value {
                                callback: Callback::Random,
                                value: NONCE_LEN,
                            },
                        }
                    } else {
                        TimestampStep::Absent
                    }
                },
                Err(_) => TimestampStep::Absent,
            },
            TimestampFlow::AwaitRandom { digest } => match reply {
                Ok(random) => {
                    if random.len() == NONCE_LEN && digest_matches(self.alg, digest.as_slice()) {
                        let encoded = rfc3161_time_stamp_message(
                            self.alg,
                            digest.as_slice(),
                            nonce_bytes(&random),
                        );
                        timestamp_after_encode(encoded)
                    } else {
                        TimestampStep::Absent
                    }
                },
                Err(_) => TimestampStep::Absent,
            },
            TimestampFlow::AwaitResponse => TimestampStep::Present(reply),
        }
    }
}

/// A signing whose callbacks both succeed invokes the digest callback once,
/// on the payload, then the sign callback once, on what the digest callback
/// gave, and ends with what the sign callback gave.
pub proof fn lemma_sign_order(payload: Seq<u8>, digest: Seq<u8>, signature: Seq<u8>)
    ensures
        sign_run(payload, Ok(digest), Ok(signature)) == (
            seq![
                CallbackRequestView::Buffer { callback: Callback::Digest, bytes: payload },
                CallbackRequestView::Buffer { callback: Callback::Sign, bytes: digest },
            ],
            SignStepView::Signed(signature),
        ),
{
}

/// A signing whose digest callback fails never invokes the sign callback; one
/// whose sign callback fails has invoked each callback once. Either way the
/// callback's error is what the signing ends with.
pub proof fn lemma_sign_short_circuit(
    payload: Seq<u8>,
    digest: Seq<u8>,
    failure: ErrorView,
    sign_reply: Result<Seq<u8>, ErrorView>,
)
    ensures
        sign_run(payload, Err(failure), sign_reply) == (
            seq![CallbackRequestView::Buffer { callback: Callback::Digest, bytes: payload }],
            SignStepView::DigestFailure(failure),
        ),
        sign_run(payload, Ok(digest), Err(failure)) == (
            seq![
                CallbackRequestView::Buffer { callback: Callback::Digest, bytes: payload },
                CallbackRequestView::Buffer { callback: Callback::Sign, bytes: digest },
            ],
            SignStepView::SignFailure(failure),
        ),
{
}

/// Whatever the random callback gives, fewer or more than eight bytes or a
/// failure, a time-stamping that waits for it ends without a time stamp
/// unless a request is built; and a request is built only from a digest as
/// long as the hash function makes it.
pub proof fn lemma_timestamp_degrades(
    alg: SigningAlgorithm,
    digest: Seq<u8>,
    reply: Result<Seq<u8>, ErrorView>,
)
    ensures
        !builds_request(alg, TimestampFlowView::AwaitRandom { digest }, reply) ==> timestamp_next(
            alg,
            TimestampFlowView::AwaitRandom { digest },
            reply,
        ) is Absent,
        builds_request(alg, TimestampFlowView::AwaitRandom { digest }, reply) ==> request_for(
            alg,
            digest,
            reply->Ok_0,
        ).hashed_message.len() == digest_len(digest_of(alg)),
        (reply is Ok && reply->Ok_0.len() < NONCE_LEN) ==> !builds_request(
            alg,
            TimestampFlowView::AwaitRandom { digest },
            reply,
        ),
{
}

} // verus!
