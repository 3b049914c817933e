//! Filler: the deterministic pseudorandom tail that keeps each hop's
//! post-unwrap ciphertext length-stable.
//!
//! For a route of length `n` the filler is built in `n - 1` steps: each step
//! appends one unwrap step's worth of zero bytes and XORs the whole buffer
//! with the matching tail of that hop's keystream. The filler is exactly
//! what the keystream tail would overwrite during that hop's unwrap.

use vstd::prelude::*;

use crate::constants::{FILLER_STEP_SIZE, MAX_PATH_LENGTH, STREAM_CIPHER_OUTPUT_LENGTH};
use crate::crypto::{spec_stream, stream_cipher_output};
use crate::keys::RoutingKeys;
use crate::utils::{append_slice, xor, xor_spec, zero_bytes, zeros_spec};

verus! {

/// The stream-cipher keys of a sequence of routing-key bundles, in order.
pub open spec fn spec_stream_keys(keys: Seq<RoutingKeys>) -> Seq<Seq<u8>> {
    keys.map_values(|k: RoutingKeys| k.stream_cipher_key@)
}

/// The filler after `i` steps, built from the first `i` stream-cipher keys:
/// step `j` (1-based) appends `FILLER_STEP_SIZE` zero bytes and XORs the
/// whole buffer with the last `j * FILLER_STEP_SIZE` bytes of the keystream
/// of key `j - 1`.
pub open spec fn spec_filler(stream_keys: Seq<Seq<u8>>, i: int) -> Seq<u8>
    decreases i,
{
    if i <= 0 {
        Seq::empty()
    } else {
        xor_spec(
            spec_filler(stream_keys, i - 1) + zeros_spec(FILLER_STEP_SIZE as int),
            spec_stream(stream_keys[i - 1]).subrange(
                STREAM_CIPHER_OUTPUT_LENGTH as int - FILLER_STEP_SIZE as int * i,
                STREAM_CIPHER_OUTPUT_LENGTH as int,
            ),
        )
    }
}

/// The filler after `i` steps has `i` unwrap steps' worth of bytes.
pub proof fn lemma_filler_len(stream_keys: Seq<Seq<u8>>, i: int)
    requires
        i >= 0,
    ensures
        spec_filler(stream_keys, i).len() == FILLER_STEP_SIZE as int * i,
    decreases i,
{
    if i > 0 {
        assert(FILLER_STEP_SIZE == 89);
        lemma_filler_len(stream_keys, i - 1);
        assert(spec_filler(stream_keys, i) == xor_spec(
            spec_filler(stream_keys, i - 1) + zeros_spec(FILLER_STEP_SIZE as int),
            spec_stream(stream_keys[i - 1]).subrange(
                STREAM_CIPHER_OUTPUT_LENGTH as int - FILLER_STEP_SIZE as int * i,
                STREAM_CIPHER_OUTPUT_LENGTH as int,
            ),
        ));
        assert(spec_filler(stream_keys, i).len() == FILLER_STEP_SIZE as int * (i - 1)
            + FILLER_STEP_SIZE as int);
    }
}

/// The filler depends only on the first `i` stream keys: two key
/// sequences that agree there give the same filler.
pub proof fn lemma_filler_agrees(k1: Seq<Seq<u8>>, k2: Seq<Seq<u8>>, i: int)
    requires
        forall|j: int| 0 <= j < i ==> k1[j] == k2[j],
    ensures
        spec_filler(k1, i) == spec_filler(k2, i),
    decreases i,
{
    if i > 0 {
        lemma_filler_agrees(k1, k2, i - 1);
    }
}

/// The filler of a header under construction.
pub struct Filler {
    value: Vec<u8>,
}

impl View for Filler {
    type V = Seq<u8>;

    closed spec fn view(&self) -> Seq<u8> {
        self.value@
    }
}

impl Filler {
    /// Builds the filler from the routing-key bundles of all hops but the
    /// last.
    pub fn new(routing_keys: &[RoutingKeys]) -> (r: Filler)
        requires
            routing_keys@.len() < MAX_PATH_LENGTH,
        ensures
            r@ == spec_filler(spec_stream_keys(routing_keys@), routing_keys@.len() as int),
            r@.len() == FILLER_STEP_SIZE as int * routing_keys@.len(),
    {
        let ghost stream_keys = spec_stream_keys(routing_keys@);
        let mut value: Vec<u8> = Vec::new();
        let n = routing_keys.len();
        let mut i: usize = 0;
        while i < n
            invariant
                n == routing_keys@.len() < MAX_PATH_LENGTH,
                i <= n,
                stream_keys == spec_stream_keys(routing_keys@),
                value@ == spec_filler(stream_keys, i as int),
                value@.len() == FILLER_STEP_SIZE as int * i,
            decreases n - i,
        {
            let key = vstd::slice::slice_index_get(routing_keys, i);
            proof {
                assert(FILLER_STEP_SIZE == 89 && STREAM_CIPHER_OUTPUT_LENGTH == 534
                    && MAX_PATH_LENGTH == 5);
                assert(FILLER_STEP_SIZE * (i + 1) <= STREAM_CIPHER_OUTPUT_LENGTH);
            }
            let zeros = zero_bytes(FILLER_STEP_SIZE);
            append_slice(&mut value, zeros.as_slice());
            let stream = stream_cipher_output(&key.stream_cipher_key);
            let tail = vstd::slice::slice_subrange(
                stream.as_slice(),
                STREAM_CIPHER_OUTPUT_LENGTH - FILLER_STEP_SIZE * (i + 1),
                STREAM_CIPHER_OUTPUT_LENGTH,
            );
            value = xor(value.as_slice(), tail);
            proof {
                assert(stream_keys[i as int] == routing_keys@[i as int].stream_cipher_key@);
                assert(value@ =~= spec_filler(stream_keys, i as int + 1));
            }
            i += 1;
        }
        proof {
            lemma_filler_len(stream_keys, n as int);
        }
        Filler { value }
    }

    /// The filler bytes.
    pub fn as_bytes(&self) -> (r: &[u8])
        ensures
            r@ == self@,
    {
        self.value.as_slice()
    }
}

} // verus!
