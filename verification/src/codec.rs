//! Writing and reading multihash values.

use crate::error::MultihashError;
use crate::provider::{compute_digest, digest_of, Algorithm, MAX_DIGEST_LEN};
use crate::registry::HashTypes;
use vstd::prelude::*;

verus! {

/// The longest payload that the length byte can declare.
pub const MAX_PAYLOAD_LEN: usize = 255;

/// How the payload of a kind comes about.
#[derive(PartialEq, Eq, Clone, Copy, Debug, Structural)]
pub enum Route {
    /// The payload is the input itself.
    PassThrough,
    /// The payload is the digest of the input under this algorithm.
    Digest(Algorithm),
    /// No provider computes the kind.
    Unsupported,
}

impl HashTypes {
    /// The route of a kind: `Identity` passes its input through, `SHA1`,
    /// `SHA2256` and `SHA2512` go to the digest provider, and the other kinds
    /// are known to the format without being computable.
    pub open spec fn routed(self) -> Route {
        match self {
            HashTypes::Identity => Route::PassThrough,
            HashTypes::SHA1 => Route::Digest(Algorithm::Sha1),
            HashTypes::SHA2256 => Route::Digest(Algorithm::Sha256),
            HashTypes::SHA2512 => Route::Digest(Algorithm::Sha512),
            _ => Route::Unsupported,
        }
    }

    /// Decides how the payload of this kind is made.
    pub fn route(&self) -> (r: Route)
        ensures
            r == self.routed(),
    {
        match *self {
            HashTypes::Identity => Route::PassThrough,
            HashTypes::SHA1 => Route::Digest(Algorithm::Sha1),
            HashTypes::SHA2256 => Route::Digest(Algorithm::Sha256),
            HashTypes::SHA2512 => Route::Digest(Algorithm::Sha512),
            _ => Route::Unsupported,
        }
    }
}

/// The multihash of `kind` with `payload`: the identifier, the length of the
/// payload as one byte, then the payload.
pub open spec fn framed(kind: HashTypes, payload: Seq<u8>) -> Seq<u8>
    recommends
        payload.len() <= MAX_PAYLOAD_LEN,
{
    seq![kind.code(), payload.len() as u8] + payload
}

/// The payload that `kind` gives to `input`, for a kind that has one.
pub open spec fn payload_of(kind: HashTypes, input: Seq<u8>) -> Seq<u8>
    recommends
        kind.routed() != Route::Unsupported,
{
    match kind.routed() {
        Route::Digest(algorithm) => digest_of(algorithm, input),
        _ => input,
    }
}

/// What reading `buffer` as a multihash gives: the kind that its first byte
/// names and the payload behind the header, or the reason why it is none. The
/// buffer must hold exactly the bytes that its length byte declares.
pub open spec fn decoded(buffer: Seq<u8>) -> Result<(HashTypes, Seq<u8>), MultihashError> {
    if buffer.len() < 2 {
        Err(MultihashError::Truncated)
    } else if HashTypes::of_code(buffer[0]) is None {
        Err(MultihashError::UnknownAlgorithm(buffer[0]))
    } else if buffer.len() < 2 + buffer[1] {
        Err(MultihashError::Truncated)
    } else if buffer.len() > 2 + buffer[1] {
        Err(MultihashError::TrailingData)
    } else {
        Ok((HashTypes::of_code(buffer[0]).unwrap(), buffer.subrange(2, 2 + buffer[1])))
    }
}

/// What framing `payload` under `kind` gives: the multihash, or
/// `PayloadTooLarge` when the payload does not fit the length byte.
pub open spec fn frame_result(
    kind: HashTypes,
    payload: Seq<u8>,
    r: Result<Vec<u8>, MultihashError>,
) -> bool {
    if payload.len() <= MAX_PAYLOAD_LEN {
        r matches Ok(out) && out@ == framed(kind, payload)
    } else {
        r == Err::<Vec<u8>, MultihashError>(MultihashError::PayloadTooLarge)
    }
}

/// What encoding gives once a digest provider has answered with `outcome`:
/// the framed digest, `PayloadTooLarge` for a digest that does not fit the
/// length byte, or the provider's failure with its message.
pub open spec fn digest_result(
    kind: HashTypes,
    outcome: Result<Vec<u8>, String>,
    r: Result<Vec<u8>, MultihashError>,
) -> bool {
    match outcome {
        Ok(digest) => frame_result(kind, digest@, r),
        Err(detail) => r == Err::<Vec<u8>, MultihashError>(
            MultihashError::DigestComputationFailed(detail),
        ),
    }
}

/// What `multihash` may return for `wanthash` and `input`.
///
/// For `Identity` and for the kinds without a provider the result is fixed.
/// For a kind that the provider computes, success is the provider's to give:
/// a multihash that comes back is the framed digest, and an error is the
/// provider's failure.
pub open spec fn multihash_result(
    wanthash: HashTypes,
    input: Seq<u8>,
    r: Result<Vec<u8>, MultihashError>,
) -> bool {
    match wanthash.routed() {
        Route::PassThrough => frame_result(wanthash, input, r),
        Route::Digest(algorithm) => match r {
            Ok(out) => {
                &&& digest_of(algorithm, input).len() <= MAX_DIGEST_LEN
                &&& out@ == framed(wanthash, digest_of(algorithm, input))
            },
            Err(e) => e is DigestComputationFailed,
        },
        Route::Unsupported => r == Err::<Vec<u8>, MultihashError>(
            MultihashError::UnsupportedAlgorithm,
        ),
    }
}

/// Puts the header of `kind` in front of `payload`.
///
/// Fails with `PayloadTooLarge`, and only then, when the payload is longer
/// than `MAX_PAYLOAD_LEN`: the length is never cut down to fit its byte.
pub fn frame(kind: HashTypes, payload: Vec<u8>) -> (r: Result<Vec<u8>, MultihashError>)
    ensures
        frame_result(kind, payload@, r),
{
    let length: usize = payload.len();
    if length > MAX_PAYLOAD_LEN {
        Err(MultihashError::PayloadTooLarge)
    } else {
        let mut out = payload;
        out.insert(0, length as u8);
        out.insert(0, kind.to_u8());
        assert(out@ =~= framed(kind, payload@));
        Ok(out)
    }
}

/// Finishes an encoding from what a digest provider answered: a digest is
/// framed under `kind`, a failure is passed on with its message.
pub fn frame_digest(kind: HashTypes, outcome: Result<Vec<u8>, String>) -> (r: Result<
    Vec<u8>,
    MultihashError,
>)
    ensures
        digest_result(kind, outcome, r),
{
    match outcome {
        Ok(digest) => frame(kind, digest),
        Err(detail) => Err(MultihashError::DigestComputationFailed(detail)),
    }
}

/// Encodes `input` under `wanthash` with a digest provider of the caller's
/// choice.
///
/// `Identity` keeps the input as it is and a kind without a route to a
/// provider is refused; neither asks the provider. For a digest kind the
/// provider is called once, with the algorithm and the input, and its answer
/// is finished as `frame_digest` does.
pub fn multihash_with<P>(wanthash: HashTypes, input: Vec<u8>, provider: P) -> (r: Result<
    Vec<u8>,
    MultihashError,
>) where
    P: FnOnce(Algorithm, &[u8]) -> Result<Vec<u8>, String>,

    requires
        wanthash.routed() matches Route::Digest(algorithm) ==> forall|data: &[u8]|
            data@ == input@ ==> #[trigger] provider.requires((algorithm, data)),
    ensures
        match wanthash.routed() {
            Route::PassThrough => frame_result(wanthash, input@, r),
            Route::Digest(algorithm) => (exists|data: &[u8], outcome: Result<Vec<u8>, String>|
                data@ == input@ && #[trigger] provider.ensures((algorithm, data), outcome)
                    && digest_result(wanthash, outcome, r)),
            Route::Unsupported => r == Err::<Vec<u8>, MultihashError>(
                MultihashError::UnsupportedAlgorithm,
            ),
        },
{
    match wanthash.route() {
        Route::PassThrough => frame(wanthash, input),
        Route::Digest(algorithm) => {
            let outcome = provider(algorithm, input.as_slice());
            frame_digest(wanthash, outcome)
        },
        Route::Unsupported => Err(MultihashError::UnsupportedAlgorithm),
    }
}

/// Hashes `input` with the algorithm `wanthash` and puts the identifier of the
/// algorithm and the length of the digest in front.
///
/// `Identity` keeps the input as it is, and takes at most `MAX_PAYLOAD_LEN`
/// bytes. `SHA1`, `SHA2256` and `SHA2512` are computed by `compute_digest`. A
/// kind that no provider computes gives `UnsupportedAlgorithm`.
pub fn multihash(wanthash: HashTypes, input: Vec<u8>) -> (r: Result<Vec<u8>, MultihashError>)
    ensures
        multihash_result(wanthash, input@, r),
{
    multihash_with(wanthash, input, compute_digest)
}

/// Reads `buffer` as a multihash and gives its kind and a copy of its payload.
///
/// Fails with `Truncated` when the buffer is shorter than its header or than
/// the payload it declares, with `UnknownAlgorithm` when its first byte names
/// no kind, and with `TrailingData` when bytes follow the declared payload.
pub fn decode(buffer: &[u8]) -> (r: Result<(HashTypes, Vec<u8>), MultihashError>)
    ensures
        match decoded(buffer@) {
            Ok((kind, payload)) => r matches Ok((k, p)) && k == kind && p@ == payload,
            Err(e) => r matches Err(x) && x == e,
        },
{
    let len: usize = buffer.len();
    if len < 2 {
        return Err(MultihashError::Truncated);
    }
    let identifier: u8 = buffer[0];
    let kind = match HashTypes::from_u8(identifier) {
        Some(kind) => kind,
        None => {
            return Err(MultihashError::UnknownAlgorithm(identifier));
        },
    };
    let declared: usize = buffer[1] as usize;
    if len - 2 < declared {
        return Err(MultihashError::Truncated);
    }
    if len - 2 > declared {
        return Err(MultihashError::TrailingData);
    }
    let mut payload: Vec<u8> = Vec::new();
    let mut i: usize = 2;
    while i < len
        invariant
            2 <= i <= len,
            len == buffer@.len(),
            payload@ == buffer@.subrange(2, i as int),
        decreases len - i,
    {
        payload.push(buffer[i]);
        i += 1;
    }
    Ok((kind, payload))
}

} // verus!
