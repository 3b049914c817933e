//! The key schedule: the per-hop Diffie–Hellman chain with blinding, and
//! the HKDF expansion of a shared key and a salt into the per-hop
//! routing-key bundle.

use vstd::prelude::*;

use crate::constants::{
    BLINDING_FACTOR_SIZE, HKDF_SALT_SIZE, INTEGRITY_MAC_KEY_SIZE, PAYLOAD_KEY_SIZE,
    ROUTING_KEYS_LENGTH, STREAM_CIPHER_KEY_SIZE,
};
use crate::crypto::{
    dh_of, group_element_mul, hkdf_expand, hkdf_of, scalar_mul, scalar_mul_of, EphemeralSecret,
    SharedKey, CURVE_BASEPOINT,
};
use crate::route::Node;
use crate::utils::{subrange_to_array, zeros_spec};

verus! {

broadcast use vstd::array::group_array_axioms;

/// A per-hop HKDF salt.
pub type HkdfSalt = [u8; HKDF_SALT_SIZE];

/// A per-hop payload key handed to the payload onion.
pub type PayloadKey = [u8; PAYLOAD_KEY_SIZE];

/// The seed bytes of a blinding factor, reduced modulo the group order
/// before use.
pub type BlindingFactor = [u8; BLINDING_FACTOR_SIZE];

/// The routing-key material of one hop: the HKDF expansion of the shared
/// key under the hop's salt, with a fixed length in every context.
pub open spec fn spec_okm(shared_key: Seq<u8>, salt: Seq<u8>) -> Seq<u8> {
    (hkdf_of(salt, shared_key) + zeros_spec(ROUTING_KEYS_LENGTH as int)).take(
        ROUTING_KEYS_LENGTH as int,
    )
}

/// The stream-cipher key segment of the routing-key material.
pub open spec fn spec_stream_cipher_key(shared_key: Seq<u8>, salt: Seq<u8>) -> Seq<u8> {
    spec_okm(shared_key, salt).subrange(0, STREAM_CIPHER_KEY_SIZE as int)
}

/// The header-integrity HMAC key segment of the routing-key material.
pub open spec fn spec_integrity_mac_key(shared_key: Seq<u8>, salt: Seq<u8>) -> Seq<u8> {
    spec_okm(shared_key, salt).subrange(
        STREAM_CIPHER_KEY_SIZE as int,
        STREAM_CIPHER_KEY_SIZE as int + INTEGRITY_MAC_KEY_SIZE as int,
    )
}

/// The payload-key segment of the routing-key material.
pub open spec fn spec_payload_key(shared_key: Seq<u8>, salt: Seq<u8>) -> Seq<u8> {
    spec_okm(shared_key, salt).subrange(
        STREAM_CIPHER_KEY_SIZE as int + INTEGRITY_MAC_KEY_SIZE as int,
        STREAM_CIPHER_KEY_SIZE as int + INTEGRITY_MAC_KEY_SIZE as int + PAYLOAD_KEY_SIZE as int,
    )
}

/// The blinding-factor-seed segment of the routing-key material.
pub open spec fn spec_blinding_seed(shared_key: Seq<u8>, salt: Seq<u8>) -> Seq<u8> {
    spec_okm(shared_key, salt).subrange(
        STREAM_CIPHER_KEY_SIZE as int + INTEGRITY_MAC_KEY_SIZE as int + PAYLOAD_KEY_SIZE as int,
        ROUTING_KEYS_LENGTH as int,
    )
}

/// The blinding factor derived from a shared key alone (no salt): the first
/// `BLINDING_FACTOR_SIZE` bytes of the HKDF expansion with an empty salt.
/// Reblinding must not depend on the per-packet salt, so this derivation is
/// distinct from the salted routing-key bundle.
pub open spec fn spec_blinding_factor(shared_key: Seq<u8>) -> Seq<u8> {
    spec_okm(shared_key, Seq::empty()).subrange(0, BLINDING_FACTOR_SIZE as int)
}

/// The routing-key bundle of one hop, split off the single HKDF expansion
/// in fixed order.
pub struct RoutingKeys {
    pub stream_cipher_key: [u8; STREAM_CIPHER_KEY_SIZE],
    pub header_integrity_hmac_key: [u8; INTEGRITY_MAC_KEY_SIZE],
    pub payload_key: [u8; PAYLOAD_KEY_SIZE],
    pub blinding_factor_seed: [u8; BLINDING_FACTOR_SIZE],
}

/// Whether `rk` is exactly the routing-key bundle derived from the given
/// shared key and salt.
pub open spec fn spec_routing_keys(rk: RoutingKeys, shared_key: Seq<u8>, salt: Seq<u8>) -> bool {
    &&& rk.stream_cipher_key@ == spec_stream_cipher_key(shared_key, salt)
    &&& rk.header_integrity_hmac_key@ == spec_integrity_mac_key(shared_key, salt)
    &&& rk.payload_key@ == spec_payload_key(shared_key, salt)
    &&& rk.blinding_factor_seed@ == spec_blinding_seed(shared_key, salt)
}

/// The salt sequence a derivation uses: the given salt, or empty when none
/// is supplied.
pub open spec fn spec_salt_of(hkdf_salt: Option<&HkdfSalt>) -> Seq<u8> {
    match hkdf_salt {
        Some(salt) => salt@,
        None => Seq::empty(),
    }
}

impl RoutingKeys {
    /// Derives the routing-key bundle for one hop from a shared key and an
    /// optional salt, by one HKDF expansion partitioned in fixed order.
    pub fn derive(shared_key: SharedKey, hkdf_salt: Option<&HkdfSalt>) -> (r: RoutingKeys)
        ensures
            spec_routing_keys(r, shared_key@, spec_salt_of(hkdf_salt)),
    {
        let empty: Vec<u8> = Vec::new();
        let salt_slice: &[u8] = match hkdf_salt {
            Some(salt) => salt.as_slice(),
            None => empty.as_slice(),
        };
        let okm = hkdf_expand(salt_slice, shared_key.as_bytes().as_slice());
        proof {
            assert(spec_okm(shared_key@, spec_salt_of(hkdf_salt)) =~= okm@);
        }
        let stream_cipher_key: [u8; STREAM_CIPHER_KEY_SIZE] = subrange_to_array(okm.as_slice(), 0);
        let header_integrity_hmac_key: [u8; INTEGRITY_MAC_KEY_SIZE] = subrange_to_array(
            okm.as_slice(),
            STREAM_CIPHER_KEY_SIZE,
        );
        let payload_key: [u8; PAYLOAD_KEY_SIZE] = subrange_to_array(
            okm.as_slice(),
            STREAM_CIPHER_KEY_SIZE + INTEGRITY_MAC_KEY_SIZE,
        );
        let blinding_factor_seed: [u8; BLINDING_FACTOR_SIZE] = subrange_to_array(
            okm.as_slice(),
            STREAM_CIPHER_KEY_SIZE + INTEGRITY_MAC_KEY_SIZE + PAYLOAD_KEY_SIZE,
        );
        RoutingKeys { stream_cipher_key, header_integrity_hmac_key, payload_key,
            blinding_factor_seed }
    }

    /// Derives the routing-key bundles for a whole route, hop by hop.
    pub fn derive_routing_keys(shared_keys: &[SharedKey], hkdf_salt: &[HkdfSalt]) -> (r: Vec<
        RoutingKeys,
    >)
        requires
            shared_keys@.len() == hkdf_salt@.len(),
        ensures
            r@.len() == shared_keys@.len(),
            forall|i: int|
                0 <= i < r@.len() ==> spec_routing_keys(
                    #[trigger] r@[i],
                    shared_keys@[i]@,
                    hkdf_salt@[i]@,
                ),
    {
        let mut out: Vec<RoutingKeys> = Vec::new();
        let n = shared_keys.len();
        let mut i: usize = 0;
        while i < n
            invariant
                n == shared_keys@.len() == hkdf_salt@.len(),
                i <= n,
                out@.len() == i,
                forall|j: int|
                    0 <= j < i ==> spec_routing_keys(
                        #[trigger] out@[j],
                        shared_keys@[j]@,
                        hkdf_salt@[j]@,
                    ),
            decreases n - i,
        {
            let shared_key = *vstd::slice::slice_index_get(shared_keys, i);
            let salt = vstd::slice::slice_index_get(hkdf_salt, i);
            out.push(RoutingKeys::derive(shared_key, Some(salt)));
            i += 1;
        }
        out
    }
}

/// The scalar that accumulates the ephemeral secret and the blinding
/// factors of the first `i` hops.
pub open spec fn spec_accumulator(x: Seq<u8>, pks: Seq<Seq<u8>>, i: int) -> Seq<u8>
    decreases i,
{
    if i <= 0 {
        x
    } else {
        scalar_mul_of(
            spec_accumulator(x, pks, i - 1),
            spec_blinding_factor(dh_of(spec_accumulator(x, pks, i - 1), pks[i - 1])),
        )
    }
}

/// The shared key of hop `i` as the sender derives it: the hop's public
/// element multiplied by the accumulated scalar.
pub open spec fn spec_shared_key_at(x: Seq<u8>, pks: Seq<Seq<u8>>, i: int) -> Seq<u8> {
    dh_of(spec_accumulator(x, pks, i), pks[i])
}

/// The public elements of a route, in order.
pub open spec fn spec_route_pub_keys(route: Seq<Node>) -> Seq<Seq<u8>> {
    route.map_values(|n: Node| n.pub_key@)
}

/// The sender's key material: the initial shared group element placed in
/// the header and the per-hop shared keys.
pub struct KeyMaterial {
    pub initial_shared_group_element: SharedKey,
    pub shared_keys: Vec<SharedKey>,
}

impl KeyMaterial {
    /// Derives the blinding factor of a hop from its shared key alone.
    pub fn compute_blinding_factor(shared_key: SharedKey) -> (r: BlindingFactor)
        ensures
            r@ == spec_blinding_factor(shared_key@),
    {
        let empty: Vec<u8> = Vec::new();
        let okm = hkdf_expand(empty.as_slice(), shared_key.as_bytes().as_slice());
        proof {
            assert(spec_okm(shared_key@, Seq::<u8>::empty()) =~= okm@);
        }
        subrange_to_array(okm.as_slice(), 0)
    }

    /// Derives the whole per-hop shared-key chain from the sender's
    /// ephemeral secret: each hop's public element is multiplied by the
    /// accumulated scalar, and the accumulator picks up that hop's blinding
    /// factor.
    pub fn derive_shared_keys(route: &[Node], initial_secret: &EphemeralSecret) -> (r: KeyMaterial)
        ensures
            r.initial_shared_group_element@ == dh_of(initial_secret@, CURVE_BASEPOINT@),
            r.shared_keys@.len() == route@.len(),
            forall|i: int|
                0 <= i < route@.len() ==> (#[trigger] r.shared_keys@[i])@ == spec_shared_key_at(
                    initial_secret@,
                    spec_route_pub_keys(route@),
                    i,
                ),
    {
        let ghost pks = spec_route_pub_keys(route@);
        let initial_shared_group_element = SharedKey::from_bytes(
            group_element_mul(initial_secret.as_bytes(), &CURVE_BASEPOINT),
        );
        let mut acc: [u8; 32] = *initial_secret.as_bytes();
        let mut shared_keys: Vec<SharedKey> = Vec::new();
        let n = route.len();
        let mut i: usize = 0;
        while i < n
            invariant
                n == route@.len(),
                i <= n,
                pks == spec_route_pub_keys(route@),
                acc@ == spec_accumulator(initial_secret@, pks, i as int),
                shared_keys@.len() == i,
                forall|j: int|
                    0 <= j < i ==> (#[trigger] shared_keys@[j])@ == spec_shared_key_at(
                        initial_secret@,
                        pks,
                        j,
                    ),
            decreases n - i,
        {
            let node = vstd::slice::slice_index_get(route, i);
            let shared_key_bytes = group_element_mul(&acc, node.pub_key.as_bytes());
            let shared_key = SharedKey::from_bytes(shared_key_bytes);
            assert(shared_key@ == spec_shared_key_at(initial_secret@, pks, i as int));
            shared_keys.push(shared_key);
            let blinding = Self::compute_blinding_factor(shared_key);
            acc = scalar_mul(&acc, &blinding);
            i += 1;
        }
        KeyMaterial { initial_shared_group_element, shared_keys }
    }
}

} // verus!
