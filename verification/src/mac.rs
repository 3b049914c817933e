//! The per-hop header integrity MAC: a truncated HMAC over the encrypted
//! routing-information block.

use vstd::prelude::*;

use crate::constants::{HEADER_INTEGRITY_MAC_SIZE, INTEGRITY_MAC_KEY_SIZE};
use crate::crypto::{compute_hmac, hmac_of};
use crate::utils::{subrange_to_array, zeros_spec};

verus! {

broadcast use vstd::array::group_array_axioms;

/// The truncated HMAC tag of `data` under `key`, with a fixed length in
/// every context.
pub open spec fn spec_integrity_mac(key: Seq<u8>, data: Seq<u8>) -> Seq<u8> {
    (hmac_of(key, data) + zeros_spec(HEADER_INTEGRITY_MAC_SIZE as int)).take(
        HEADER_INTEGRITY_MAC_SIZE as int,
    )
}

/// An integrity MAC always views as `HEADER_INTEGRITY_MAC_SIZE` bytes.
pub broadcast proof fn lemma_integrity_mac_len(m: HeaderIntegrityMac)
    ensures
        (#[trigger] m@).len() == HEADER_INTEGRITY_MAC_SIZE,
{
}

/// The integrity MAC of one routing layer.
#[derive(Clone, Copy, Debug)]
pub struct HeaderIntegrityMac {
    value: [u8; HEADER_INTEGRITY_MAC_SIZE],
}

impl View for HeaderIntegrityMac {
    type V = Seq<u8>;

    closed spec fn view(&self) -> Seq<u8> {
        self.value@
    }
}

impl HeaderIntegrityMac {
    /// Computes the truncated HMAC of `data` under `key`.
    pub fn compute(key: [u8; INTEGRITY_MAC_KEY_SIZE], data: &[u8]) -> (r: HeaderIntegrityMac)
        ensures
            r@ == spec_integrity_mac(key@, data@),
    {
        let tag = compute_hmac(key.as_slice(), data);
        let value: [u8; HEADER_INTEGRITY_MAC_SIZE] = subrange_to_array(tag.as_slice(), 0);
        proof {
            assert(value@ =~= spec_integrity_mac(key@, data@));
        }
        HeaderIntegrityMac { value }
    }

    /// Wraps raw tag bytes.
    pub fn from_bytes(bytes: [u8; HEADER_INTEGRITY_MAC_SIZE]) -> (r: HeaderIntegrityMac)
        ensures
            r@ == bytes@,
    {
        HeaderIntegrityMac { value: bytes }
    }

    /// The raw tag bytes.
    pub fn as_bytes(&self) -> (r: &[u8; HEADER_INTEGRITY_MAC_SIZE])
        ensures
            r@ == self@,
    {
        &self.value
    }

    /// Checks this tag against the truncated HMAC of `data` under `key`.
    /// The comparison accumulates over every byte, without an early exit.
    pub fn verify(&self, key: [u8; INTEGRITY_MAC_KEY_SIZE], data: &[u8]) -> (r: bool)
        ensures
            r == (self@ == spec_integrity_mac(key@, data@)),
    {
        let expected = Self::compute(key, data);
        let mut diff: u8 = 0;
        let mut i: usize = 0;
        while i < HEADER_INTEGRITY_MAC_SIZE
            invariant
                i <= HEADER_INTEGRITY_MAC_SIZE,
                self@.len() == HEADER_INTEGRITY_MAC_SIZE,
                expected@.len() == HEADER_INTEGRITY_MAC_SIZE,
                (diff == 0) <==> (forall|j: int| 0 <= j < i ==> self@[j] == expected@[j]),
            decreases HEADER_INTEGRITY_MAC_SIZE - i,
        {
            let a = self.value[i];
            let b = expected.value[i];
            proof {
                let d = diff;
                assert(((d | (a ^ b)) == 0) == (d == 0 && a == b)) by (bit_vector);
            }
            diff = diff | (a ^ b);
            i += 1;
        }
        proof {
            if diff == 0 {
                assert(self@ =~= expected@);
            } else {
                assert(self@ != expected@);
            }
        }
        diff == 0
    }
}

} // verus!
