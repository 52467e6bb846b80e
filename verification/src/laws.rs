//! What holds between writing and reading a multihash.

use crate::codec::{decoded, framed, multihash_result, payload_of, MAX_PAYLOAD_LEN};
use crate::error::MultihashError;
use crate::registry::HashTypes;
use vstd::prelude::*;

verus! {

/// Reading the frame of a kind and a payload gives back the payload and the
/// kind, the alias `SHA3` as `SHA3512`.
pub proof fn lemma_decode_framed(kind: HashTypes, payload: Seq<u8>)
    requires
        payload.len() <= MAX_PAYLOAD_LEN,
    ensures
        decoded(framed(kind, payload)) == Ok::<(HashTypes, Seq<u8>), MultihashError>(
            (kind.canonical(), payload),
        ),
{
    let buffer = framed(kind, payload);
    assert(buffer.subrange(2, 2 + buffer[1]) =~= payload);
}

/// A buffer that is read successfully is the frame of what was read from it,
/// and of nothing else: the kind is canonical and the payload fits its length
/// byte.
pub proof fn lemma_decoded_is_framed(buffer: Seq<u8>)
    ensures
        decoded(buffer) matches Ok((kind, payload)) ==> kind.canonical() == kind
            && payload.len() <= MAX_PAYLOAD_LEN && framed(kind, payload) == buffer,
{
}

/// Round trip: a multihash that `multihash` returned reads back as the kind
/// it was asked for and the payload of that kind, which is the input itself
/// for `Identity` and the digest of the input for a digest kind.
pub proof fn lemma_round_trip(
    wanthash: HashTypes,
    input: Seq<u8>,
    r: Result<Vec<u8>, MultihashError>,
)
    requires
        multihash_result(wanthash, input, r),
        r is Ok,
    ensures
        decoded(r.unwrap()@) == Ok::<(HashTypes, Seq<u8>), MultihashError>(
            (wanthash, payload_of(wanthash, input)),
        ),
{
    lemma_decode_framed(wanthash, payload_of(wanthash, input));
}

/// Determinism: two calls of `multihash` on the same kind and input that both
/// return a multihash return the same bytes. Where no provider is asked, the
/// two calls agree in everything, failures included.
pub proof fn lemma_multihash_deterministic(
    wanthash: HashTypes,
    input: Seq<u8>,
    first: Result<Vec<u8>, MultihashError>,
    second: Result<Vec<u8>, MultihashError>,
)
    requires
        multihash_result(wanthash, input, first),
        multihash_result(wanthash, input, second),
    ensures
        first is Ok && second is Ok ==> first.unwrap()@ == second.unwrap()@,
        !(wanthash.routed() is Digest) ==> (first is Ok <==> second is Ok),
        !(wanthash.routed() is Digest) && first is Err ==> first == second,
{
}

/// A multihash that is cut short is rejected as truncated, wherever the cut
/// falls.
pub proof fn lemma_decode_rejects_cut(kind: HashTypes, payload: Seq<u8>, kept: int)
    requires
        payload.len() <= MAX_PAYLOAD_LEN,
        0 <= kept < 2 + payload.len(),
    ensures
        decoded(framed(kind, payload).take(kept)) == Err::<(HashTypes, Seq<u8>), MultihashError>(
            MultihashError::Truncated,
        ),
{
}

/// A multihash with any bytes behind it is rejected for its trailing data.
pub proof fn lemma_decode_rejects_extra(kind: HashTypes, payload: Seq<u8>, extra: Seq<u8>)
    requires
        payload.len() <= MAX_PAYLOAD_LEN,
        extra.len() > 0,
    ensures
        decoded(framed(kind, payload) + extra) == Err::<(HashTypes, Seq<u8>), MultihashError>(
            MultihashError::TrailingData,
        ),
{
}

} // verus!
