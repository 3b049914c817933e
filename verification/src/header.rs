//! The fixed-size packet header: construction over a route, per-hop
//! processing, and the byte codec.

use vstd::prelude::*;

use crate::constants::{
    ENCRYPTED_ROUTING_INFO_SIZE, FILLER_STEP_SIZE, FINAL_HOP_META_SIZE, GROUP_ELEMENT_SIZE,
    HEADER_INTEGRITY_MAC_SIZE, HEADER_SIZE, HKDF_SALT_SIZE, MAX_PATH_LENGTH,
};
use crate::crypto::{dh_of, EphemeralSecret, PrivateKey, SharedKey, CURVE_BASEPOINT};
use crate::delays::Delay;
use crate::error::{Error, ErrorKind};
use crate::filler::Filler;
use crate::keys::{
    spec_blinding_factor, spec_integrity_mac_key, spec_payload_key, spec_routing_keys,
    spec_salt_of, spec_shared_key_at, spec_stream_cipher_key, BlindingFactor, KeyMaterial,
    PayloadKey, RoutingKeys,
};
use crate::mac::spec_integrity_mac;
use crate::route::{Destination, DestinationAddressBytes, Node, NodeAddressBytes, SURBIdentifier};
use crate::routing::{
    spec_beta, spec_layer_mac, spec_layout, spec_unwrapped, EncapsulatedRoutingInformation,
    OnionLayout, ParsedRawRoutingInformation, FINAL_HOP, FORWARD_HOP,
};
use crate::utils::subrange_to_array;
use vstd::bytes::spec_u64_from_le_bytes;

pub use crate::keys::HkdfSalt;

verus! {

broadcast use vstd::array::group_array_axioms, crate::route::lemma_node_address_len,
    crate::route::lemma_destination_address_len, crate::crypto::lemma_shared_key_len,
    crate::mac::lemma_integrity_mac_len;

/// The header of a packet: the current shared group element, the current
/// hop's HKDF salt, and the layered routing information with its MAC.
#[derive(Clone, Debug)]
pub struct SphinxHeader {
    pub shared_secret: SharedKey,
    pub hkdf_salt: HkdfSalt,
    pub routing_info: EncapsulatedRoutingInformation,
}

/// The outcome of processing a header at one relay: either the successor
/// hop's header and forwarding data, or the final-hop destination data.
pub enum ProcessedHeader {
    ForwardHop(SphinxHeader, NodeAddressBytes, Delay, PayloadKey),
    FinalHop(DestinationAddressBytes, SURBIdentifier, PayloadKey),
}

/// The serialized form of a header: group element, salt, routing block and
/// MAC, concatenated.
pub open spec fn spec_header_bytes(h: SphinxHeader) -> Seq<u8> {
    h.shared_secret@ + h.hkdf_salt@ + h.routing_info.enc_routing_information@
        + h.routing_info.integrity_mac@
}

/// What processing a header with shared key `s` and salt `salt` returns:
/// an error when the MAC does not match; otherwise the parsed outcome of
/// one unwrap step, with the group element reblinded by the factor derived
/// from `s` alone, or an error when the revealed flag is unrecognized.
pub open spec fn spec_process_post(
    h: SphinxHeader,
    s: Seq<u8>,
    salt: Seq<u8>,
    r: Result<ProcessedHeader, Error>,
) -> bool {
    let mac_key = spec_integrity_mac_key(s, salt);
    let stream_key = spec_stream_cipher_key(s, salt);
    let payload_key = spec_payload_key(s, salt);
    let beta = h.routing_info.enc_routing_information@;
    if h.routing_info.integrity_mac@ != spec_integrity_mac(mac_key, beta) {
        r matches Err(e) && e.kind == ErrorKind::InvalidHeader
    } else {
        let u = spec_unwrapped(beta, stream_key);
        if u[0] == FORWARD_HOP {
            r matches Ok(ProcessedHeader::ForwardHop(h2, addr, delay, pk)) && {
                &&& h2.shared_secret@ == dh_of(spec_blinding_factor(s), h.shared_secret@)
                &&& h2.hkdf_salt@ == u.subrange(41int, 73int)
                &&& h2.routing_info.integrity_mac@ == u.subrange(73int, 89int)
                &&& h2.routing_info.enc_routing_information@ == u.subrange(
                    FILLER_STEP_SIZE as int,
                    FILLER_STEP_SIZE as int + ENCRYPTED_ROUTING_INFO_SIZE as int,
                )
                &&& h2.wf()
                &&& addr@ == u.subrange(1int, 33int)
                &&& delay@ == spec_u64_from_le_bytes(u.subrange(33int, 41int))
                &&& pk@ == payload_key
            }
        } else if u[0] == FINAL_HOP {
            r matches Ok(ProcessedHeader::FinalHop(dest_addr, surb_id, pk)) && {
                &&& dest_addr@ == u.subrange(1int, 33int)
                &&& surb_id@ == u.subrange(33int, 49int)
                &&& pk@ == payload_key
            }
        } else {
            r matches Err(e) && e.kind == ErrorKind::InvalidHeader
        }
    }
}

/// The layout of a header built by `new`: the per-hop keys come from the
/// blinded Diffie–Hellman chain of the ephemeral secret, expanded under the
/// per-hop salts.
pub open spec fn spec_header_layout(
    x: Seq<u8>,
    route: Seq<Node>,
    delays: Seq<Delay>,
    hkdf_salt: Seq<HkdfSalt>,
    destination: Destination,
    padding: Seq<u8>,
) -> OnionLayout {
    let pks = crate::keys::spec_route_pub_keys(route);
    let salts = hkdf_salt.map_values(|sl: HkdfSalt| sl@);
    OnionLayout {
        addrs: route.map_values(|nd: Node| nd.address@),
        delays: delays.map_values(|d: Delay| d@),
        salts: salts,
        stream_keys: Seq::new(
            route.len(),
            |i: int| spec_stream_cipher_key(spec_shared_key_at(x, pks, i), salts[i]),
        ),
        mac_keys: Seq::new(
            route.len(),
            |i: int| spec_integrity_mac_key(spec_shared_key_at(x, pks, i), salts[i]),
        ),
        dest_addr: destination.address@,
        surb_id: destination.surb_id@,
        padding,
    }
}

/// The layout of a header built by `new_with_precomputed_keys`: the per-hop
/// keys come from the supplied shared keys, expanded under the per-hop
/// salts.
pub open spec fn spec_precomputed_layout(
    shared_keys: Seq<SharedKey>,
    route: Seq<Node>,
    delays: Seq<Delay>,
    hkdf_salt: Seq<HkdfSalt>,
    destination: Destination,
    padding: Seq<u8>,
) -> OnionLayout {
    let salts = hkdf_salt.map_values(|sl: HkdfSalt| sl@);
    OnionLayout {
        addrs: route.map_values(|nd: Node| nd.address@),
        delays: delays.map_values(|d: Delay| d@),
        salts: salts,
        stream_keys: Seq::new(
            route.len(),
            |i: int| spec_stream_cipher_key(shared_keys[i]@, salts[i]),
        ),
        mac_keys: Seq::new(
            route.len(),
            |i: int| spec_integrity_mac_key(shared_keys[i]@, salts[i]),
        ),
        dest_addr: destination.address@,
        surb_id: destination.surb_id@,
        padding,
    }
}

/// Whether `h` is a header built by `new` over the given inputs with the
/// given innermost padding, together with the payload keys handed back.
pub open spec fn spec_header_from(
    h: SphinxHeader,
    x: Seq<u8>,
    route: Seq<Node>,
    delays: Seq<Delay>,
    hkdf_salt: Seq<HkdfSalt>,
    destination: Destination,
    padding: Seq<u8>,
) -> bool {
    let l = spec_header_layout(x, route, delays, hkdf_salt, destination, padding);
    &&& padding.len() == ENCRYPTED_ROUTING_INFO_SIZE - FILLER_STEP_SIZE as int * (route.len() - 1)
        - FINAL_HOP_META_SIZE
    &&& h.shared_secret@ == dh_of(x, CURVE_BASEPOINT@)
    &&& h.hkdf_salt@ == hkdf_salt[0]@
    &&& h.routing_info.enc_routing_information@ == spec_beta(l, 0)
    &&& h.routing_info.integrity_mac@ == spec_layer_mac(l, 0)
    &&& h.wf()
}

/// Whether `h` is a header built by `new_with_precomputed_keys` over the
/// given inputs with the given innermost padding.
pub open spec fn spec_precomputed_header_from(
    h: SphinxHeader,
    shared_keys: Seq<SharedKey>,
    initial: SharedKey,
    route: Seq<Node>,
    delays: Seq<Delay>,
    hkdf_salt: Seq<HkdfSalt>,
    destination: Destination,
    padding: Seq<u8>,
) -> bool {
    let l = spec_precomputed_layout(shared_keys, route, delays, hkdf_salt, destination, padding);
    &&& padding.len() == ENCRYPTED_ROUTING_INFO_SIZE - FILLER_STEP_SIZE as int * (route.len() - 1)
        - FINAL_HOP_META_SIZE
    &&& h.shared_secret@ == initial@
    &&& h.hkdf_salt@ == hkdf_salt[0]@
    &&& h.routing_info.enc_routing_information@ == spec_beta(l, 0)
    &&& h.routing_info.integrity_mac@ == spec_layer_mac(l, 0)
    &&& h.wf()
}

impl SphinxHeader {
    /// Whether the routing block inside has its fixed size.
    pub open spec fn wf(&self) -> bool {
        self.routing_info.wf()
    }

    /// Builds a header over `route` from the sender's ephemeral secret:
    /// derives the per-hop shared-key chain, expands routing keys under the
    /// given salts, builds filler and onion, and returns the header
    /// together with one payload key per hop, in route order.
    pub fn new(
        initial_secret: &EphemeralSecret,
        route: &[Node],
        delays: &[Delay],
        hkdf_salt: &[HkdfSalt],
        destination: &Destination,
    ) -> (r: (SphinxHeader, Vec<PayloadKey>))
        requires
            1 <= route@.len() <= MAX_PATH_LENGTH,
            delays@.len() == route@.len(),
            hkdf_salt@.len() == route@.len(),
        ensures
            exists|padding: Seq<u8>|
                #[trigger] spec_header_from(
                    r.0,
                    initial_secret@,
                    route@,
                    delays@,
                    hkdf_salt@,
                    *destination,
                    padding,
                ),
            r.1@.len() == route@.len(),
            forall|i: int|
                0 <= i < route@.len() ==> (#[trigger] r.1@[i])@ == spec_payload_key(
                    spec_shared_key_at(
                        initial_secret@,
                        crate::keys::spec_route_pub_keys(route@),
                        i,
                    ),
                    hkdf_salt@[i]@,
                ),
    {
        let key_material = KeyMaterial::derive_shared_keys(route, initial_secret);
        let initial_shared_secret = key_material.initial_shared_group_element;
        let (header, payload_keys) = Self::assemble(
            route,
            delays,
            hkdf_salt,
            destination,
            &key_material.shared_keys,
            &initial_shared_secret,
        );
        proof {
            let ghost pks = crate::keys::spec_route_pub_keys(route@);
            let padding = choose|padding: Seq<u8>|
                #[trigger] spec_precomputed_header_from(
                    header,
                    key_material.shared_keys@,
                    initial_shared_secret,
                    route@,
                    delays@,
                    hkdf_salt@,
                    *destination,
                    padding,
                );
            let l1 = spec_precomputed_layout(
                key_material.shared_keys@,
                route@,
                delays@,
                hkdf_salt@,
                *destination,
                padding,
            );
            let l2 = spec_header_layout(
                initial_secret@,
                route@,
                delays@,
                hkdf_salt@,
                *destination,
                padding,
            );
            assert(l1.stream_keys =~= l2.stream_keys);
            assert(l1.mac_keys =~= l2.mac_keys);
            assert(l1 =~= l2);
            assert(spec_header_from(header, initial_secret@, route@, delays@, hkdf_salt@,
                *destination, padding));
        }
        (header, payload_keys)
    }

    /// Builds a header over `route` from a previously computed shared-key
    /// chain and initial shared element; used when the sender caches the
    /// schedule for a recurring path. Returns the header together with one
    /// payload key per hop, in route order.
    pub fn new_with_precomputed_keys(
        route: &[Node],
        delays: &[Delay],
        hkdf_salt: &[HkdfSalt],
        destination: &Destination,
        shared_keys: &Vec<SharedKey>,
        initial_shared_secret: &SharedKey,
    ) -> (r: (SphinxHeader, Vec<PayloadKey>))
        requires
            1 <= route@.len() <= MAX_PATH_LENGTH,
            delays@.len() == route@.len(),
            hkdf_salt@.len() == route@.len(),
            shared_keys@.len() == route@.len(),
        ensures
            exists|padding: Seq<u8>|
                #[trigger] spec_precomputed_header_from(
                    r.0,
                    shared_keys@,
                    *initial_shared_secret,
                    route@,
                    delays@,
                    hkdf_salt@,
                    *destination,
                    padding,
                ),
            r.1@.len() == route@.len(),
            forall|i: int|
                0 <= i < route@.len() ==> (#[trigger] r.1@[i])@ == spec_payload_key(
                    shared_keys@[i]@,
                    hkdf_salt@[i]@,
                ),
    {
        Self::assemble(route, delays, hkdf_salt, destination, shared_keys, initial_shared_secret)
    }

    /// The shared construction path: expands routing keys for each hop,
    /// builds filler and onion, and packages the header.
    fn assemble(
        route: &[Node],
        delays: &[Delay],
        hkdf_salt: &[HkdfSalt],
        destination: &Destination,
        shared_keys: &Vec<SharedKey>,
        initial_shared_secret: &SharedKey,
    ) -> (r: (SphinxHeader, Vec<PayloadKey>))
        requires
            1 <= route@.len() <= MAX_PATH_LENGTH,
            delays@.len() == route@.len(),
            hkdf_salt@.len() == route@.len(),
            shared_keys@.len() == route@.len(),
        ensures
            exists|padding: Seq<u8>|
                #[trigger] spec_precomputed_header_from(
                    r.0,
                    shared_keys@,
                    *initial_shared_secret,
                    route@,
                    delays@,
                    hkdf_salt@,
                    *destination,
                    padding,
                ),
            r.1@.len() == route@.len(),
            forall|i: int|
                0 <= i < route@.len() ==> (#[trigger] r.1@[i])@ == spec_payload_key(
                    shared_keys@[i]@,
                    hkdf_salt@[i]@,
                ),
    {
        let n = route.len();
        let routing_keys = RoutingKeys::derive_routing_keys(shared_keys.as_slice(), hkdf_salt);
        let filler_keys = vstd::slice::slice_subrange(routing_keys.as_slice(), 0, n - 1);
        let filler = Filler::new(filler_keys);
        proof {
            crate::filler::lemma_filler_agrees(
                crate::filler::spec_stream_keys(filler_keys@),
                crate::filler::spec_stream_keys(routing_keys@),
                n as int - 1,
            );
        }
        let routing_info = EncapsulatedRoutingInformation::new(
            route,
            destination,
            delays,
            hkdf_salt,
            routing_keys.as_slice(),
            filler,
        );
        let mut payload_keys: Vec<PayloadKey> = Vec::new();
        let mut i: usize = 0;
        while i < n
            invariant
                n == route@.len(),
                hkdf_salt@.len() == n,
                shared_keys@.len() == n,
                routing_keys@.len() == n,
                forall|j: int|
                    0 <= j < n ==> spec_routing_keys(
                        #[trigger] routing_keys@[j],
                        shared_keys@[j]@,
                        hkdf_salt@[j]@,
                    ),
                i <= n,
                payload_keys@.len() == i,
                forall|j: int|
                    0 <= j < i ==> (#[trigger] payload_keys@[j])@ == spec_payload_key(
                        shared_keys@[j]@,
                        hkdf_salt@[j]@,
                    ),
            decreases n - i,
        {
            payload_keys.push(vstd::slice::slice_index_get(routing_keys.as_slice(), i).payload_key);
            i += 1;
        }
        let salt0 = *vstd::slice::slice_index_get(hkdf_salt, 0);
        let header = SphinxHeader {
            shared_secret: *initial_shared_secret,
            hkdf_salt: salt0,
            routing_info,
        };
        let result = (header, payload_keys);
        proof {
            let header = result.0;
            let padding = choose|padding: Seq<u8>|
                #[trigger] crate::routing::spec_encapsulated_from(
                    header.routing_info,
                    route@,
                    delays@,
                    hkdf_salt@,
                    routing_keys@,
                    *destination,
                    padding,
                );
            let l1 = spec_layout(route@, delays@, hkdf_salt@, routing_keys@, *destination,
                padding);
            let l2 = spec_precomputed_layout(shared_keys@, route@, delays@, hkdf_salt@,
                *destination, padding);
            assert forall|j: int| 0 <= j < n as int implies l1.stream_keys[j]
                == l2.stream_keys[j] by {
                assert(spec_routing_keys(routing_keys@[j], shared_keys@[j]@, hkdf_salt@[j]@));
            }
            assert forall|j: int| 0 <= j < n as int implies l1.mac_keys[j] == l2.mac_keys[j] by {
                assert(spec_routing_keys(routing_keys@[j], shared_keys@[j]@, hkdf_salt@[j]@));
            }
            assert(l1 =~= l2);
            assert(spec_precomputed_header_from(header, shared_keys@, *initial_shared_secret,
                route@, delays@, hkdf_salt@, *destination, padding));
        }
        result
    }

    /// Processes the header with a previously derived shared key: the relay
    /// caches the Diffie–Hellman result as a master key and expands
    /// per-packet routing keys from it under a fresh salt (or the header's
    /// salt when none is given). Reblinding uses the shared key alone.
    pub fn process_with_previously_derived_keys(
        self,
        shared_key: SharedKey,
        hkdf_salt: Option<&HkdfSalt>,
    ) -> (r: Result<ProcessedHeader, Error>)
        requires
            self.wf(),
        ensures
            spec_process_post(
                self,
                shared_key@,
                match hkdf_salt {
                    Some(salt) => salt@,
                    None => self.hkdf_salt@,
                },
                r,
            ),
    {
        let routing_keys = match hkdf_salt {
            Some(salt) => RoutingKeys::derive(shared_key, Some(salt)),
            None => RoutingKeys::derive(shared_key, Some(&self.hkdf_salt)),
        };
        if !self.routing_info.integrity_mac.verify(
            routing_keys.header_integrity_hmac_key,
            self.routing_info.enc_routing_information.get_value_ref(),
        ) {
            return Err(Error::new(ErrorKind::InvalidHeader));
        }
        let old_shared_secret = self.shared_secret;
        let SphinxHeader { shared_secret: _, hkdf_salt: _, routing_info } = self;
        let unwrapped = match routing_info.enc_routing_information.unwrap(
            routing_keys.stream_cipher_key,
        ) {
            Ok(parsed) => parsed,
            Err(e) => {
                return Err(e);
            },
        };
        match unwrapped {
            ParsedRawRoutingInformation::ForwardHop(
                next_hop_address,
                delay,
                new_hkdf_salt,
                new_encapsulated_routing_info,
            ) => {
                let blinding_factor = KeyMaterial::compute_blinding_factor(shared_key);
                let new_shared_secret = Self::blind_the_shared_secret(
                    old_shared_secret,
                    blinding_factor,
                );
                Ok(
                    ProcessedHeader::ForwardHop(
                        SphinxHeader {
                            shared_secret: new_shared_secret,
                            hkdf_salt: new_hkdf_salt,
                            routing_info: new_encapsulated_routing_info,
                        },
                        next_hop_address,
                        delay,
                        routing_keys.payload_key,
                    ),
                )
            },
            ParsedRawRoutingInformation::FinalHop(destination_address, identifier) => {
                Ok(
                    ProcessedHeader::FinalHop(
                        destination_address,
                        identifier,
                        routing_keys.payload_key,
                    ),
                )
            },
        }
    }

    /// Processes the header with a freshly derived shared key: computes the
    /// Diffie–Hellman result of the relay's secret key and the header's
    /// group element, and expands routing keys under the header's salt.
    pub fn process(self, node_secret_key: &PrivateKey) -> (r: Result<ProcessedHeader, Error>)
        requires
            self.wf(),
        ensures
            spec_process_post(
                self,
                dh_of(node_secret_key@, self.shared_secret@),
                self.hkdf_salt@,
                r,
            ),
    {
        let shared_key = node_secret_key.diffie_hellman(&self.shared_secret);
        self.process_with_previously_derived_keys(shared_key, None)
    }

    /// Derives the routing-key bundle for one hop; offered so relays can
    /// compute it outside header processing.
    pub fn compute_routing_keys(shared_key: SharedKey, hkdf_salt: Option<&HkdfSalt>) -> (r:
        RoutingKeys)
        ensures
            spec_routing_keys(r, shared_key@, spec_salt_of(hkdf_salt)),
    {
        RoutingKeys::derive(shared_key, hkdf_salt)
    }

    /// Serializes the header: group element, salt, routing block and MAC.
    pub fn to_bytes(&self) -> (r: Vec<u8>)
        requires
            self.wf(),
        ensures
            r@ == spec_header_bytes(*self),
            r@.len() == HEADER_SIZE,
    {
        let mut out: Vec<u8> = Vec::new();
        crate::utils::append_slice(&mut out, self.shared_secret.as_bytes().as_slice());
        crate::utils::append_slice(&mut out, self.hkdf_salt.as_slice());
        crate::utils::append_slice(
            &mut out,
            self.routing_info.enc_routing_information.get_value_ref(),
        );
        crate::utils::append_slice(&mut out, self.routing_info.integrity_mac.as_bytes().as_slice());
        proof {
            assert(out@ =~= spec_header_bytes(*self));
        }
        out
    }

    /// Recovers a header from its serialized form. Fails exactly when the
    /// input does not have the fixed header length; the cryptographic
    /// contents are not validated here.
    pub fn from_bytes(bytes: &[u8]) -> (r: Result<SphinxHeader, Error>)
        ensures
            spec_from_bytes_post(bytes@, r),
    {
        proof {
            assert(HEADER_SIZE == 525 && GROUP_ELEMENT_SIZE == 32 && HKDF_SALT_SIZE == 32
                && ENCRYPTED_ROUTING_INFO_SIZE == 445 && HEADER_INTEGRITY_MAC_SIZE == 16);
        }
        if bytes.len() != HEADER_SIZE {
            return Err(Error::new(ErrorKind::InvalidHeader));
        }
        let shared_secret_bytes: [u8; GROUP_ELEMENT_SIZE] = subrange_to_array(bytes, 0);
        let shared_secret = SharedKey::from_bytes(shared_secret_bytes);
        let hkdf_salt: HkdfSalt = subrange_to_array(bytes, GROUP_ELEMENT_SIZE);
        let routing_bytes = vstd::slice::slice_subrange(
            bytes,
            GROUP_ELEMENT_SIZE + HKDF_SALT_SIZE,
            HEADER_SIZE,
        );
        let routing_info = match EncapsulatedRoutingInformation::from_bytes(routing_bytes) {
            Ok(encap) => encap,
            Err(e) => {
                proof {
                    assert(false);
                }
                return Err(e);
            },
        };
        let h = SphinxHeader { shared_secret, hkdf_salt, routing_info };
        proof {
            assert(h.routing_info.enc_routing_information@ =~= bytes@.subrange(
                GROUP_ELEMENT_SIZE as int + HKDF_SALT_SIZE as int,
                GROUP_ELEMENT_SIZE as int + HKDF_SALT_SIZE as int
                    + ENCRYPTED_ROUTING_INFO_SIZE as int,
            ));
            assert(h.routing_info.integrity_mac@ =~= bytes@.subrange(
                GROUP_ELEMENT_SIZE as int + HKDF_SALT_SIZE as int
                    + ENCRYPTED_ROUTING_INFO_SIZE as int,
                HEADER_SIZE as int,
            ));
        }
        Ok(h)
    }

    /// Multiplies the header's group element by the blinding factor, so the
    /// successor relay sees an unlinkable fresh element.
    fn blind_the_shared_secret(shared_secret: SharedKey, blinding_factor: BlindingFactor) -> (r:
        SharedKey)
        ensures
            r@ == dh_of(blinding_factor@, shared_secret@),
    {
        shared_secret.blind(&blinding_factor)
    }
}


/// What recovering a header from `bytes` returns: for input of the fixed
/// header length, a header whose fields are the four slices of the input;
/// for any other length, an error.
pub open spec fn spec_from_bytes_post(bytes: Seq<u8>, r: Result<SphinxHeader, Error>) -> bool {
    match r {
        Ok(h) => {
            &&& bytes.len() == HEADER_SIZE
            &&& h.shared_secret@ == bytes.subrange(0, GROUP_ELEMENT_SIZE as int)
            &&& h.hkdf_salt@ == bytes.subrange(
                GROUP_ELEMENT_SIZE as int,
                GROUP_ELEMENT_SIZE as int + HKDF_SALT_SIZE as int,
            )
            &&& h.routing_info.enc_routing_information@ == bytes.subrange(
                GROUP_ELEMENT_SIZE as int + HKDF_SALT_SIZE as int,
                GROUP_ELEMENT_SIZE as int + HKDF_SALT_SIZE as int
                    + ENCRYPTED_ROUTING_INFO_SIZE as int,
            )
            &&& h.routing_info.integrity_mac@ == bytes.subrange(
                GROUP_ELEMENT_SIZE as int + HKDF_SALT_SIZE as int
                    + ENCRYPTED_ROUTING_INFO_SIZE as int,
                HEADER_SIZE as int,
            )
            &&& h.wf()
        },
        Err(e) => bytes.len() != HEADER_SIZE && e.kind == ErrorKind::InvalidHeader,
    }
}

/// Law: the byte codec round-trips. The serialized form of a well-formed
/// header has exactly the fixed header length, and recovering a header from
/// it succeeds and gives back the same group element, salt, routing block
/// and MAC.
pub proof fn lemma_header_codec_roundtrip(h: SphinxHeader, r: Result<SphinxHeader, Error>)
    requires
        h.wf(),
        spec_from_bytes_post(spec_header_bytes(h), r),
    ensures
        spec_header_bytes(h).len() == HEADER_SIZE,
        r matches Ok(h2) && {
            &&& h2.shared_secret@ == h.shared_secret@
            &&& h2.hkdf_salt@ == h.hkdf_salt@
            &&& h2.routing_info.enc_routing_information@
                == h.routing_info.enc_routing_information@
            &&& h2.routing_info.integrity_mac@ == h.routing_info.integrity_mac@
            &&& spec_header_bytes(h2) == spec_header_bytes(h)
        },
{
    let bytes = spec_header_bytes(h);
    assert(HEADER_SIZE == 525 && GROUP_ELEMENT_SIZE == 32 && HKDF_SALT_SIZE == 32
        && ENCRYPTED_ROUTING_INFO_SIZE == 445 && HEADER_INTEGRITY_MAC_SIZE == 16);
    assert(bytes.len() == HEADER_SIZE);
    assert(bytes.subrange(0, 32) =~= h.shared_secret@);
    assert(bytes.subrange(32, 64) =~= h.hkdf_salt@);
    assert(bytes.subrange(64, 509) =~= h.routing_info.enc_routing_information@);
    assert(bytes.subrange(509, 525) =~= h.routing_info.integrity_mac@);
    match r {
        Ok(h2) => {
            assert(spec_header_bytes(h2) =~= spec_header_bytes(h));
        },
        Err(_) => {
            assert(false);
        },
    }
}

/// Law: processing an intermediate layer of a well-formed onion with the
/// keys that built it succeeds with a forward hop that carries the
/// successor's address, delay, salt, payload key and exactly the successor
/// layer's block and MAC: one processing step inverts one construction
/// step, and the group element moves on reblinded.
pub proof fn lemma_process_forward_hop(
    l: OnionLayout,
    i: int,
    h: SphinxHeader,
    s: Seq<u8>,
    salt: Seq<u8>,
    r: Result<ProcessedHeader, Error>,
)
    requires
        l.wf(),
        0 <= i < l.len() - 1,
        h.routing_info.enc_routing_information@ == spec_beta(l, i),
        h.routing_info.integrity_mac@ == spec_layer_mac(l, i),
        l.stream_keys[i] == spec_stream_cipher_key(s, salt),
        l.mac_keys[i] == spec_integrity_mac_key(s, salt),
        spec_process_post(h, s, salt, r),
    ensures
        r matches Ok(ProcessedHeader::ForwardHop(h2, addr, delay, pk)) && {
            &&& addr@ == l.addrs[i + 1]
            &&& delay@ == l.delays[i]
            &&& pk@ == spec_payload_key(s, salt)
            &&& h2.hkdf_salt@ == l.salts[i + 1]
            &&& h2.routing_info.enc_routing_information@ == spec_beta(l, i + 1)
            &&& h2.routing_info.integrity_mac@ == spec_layer_mac(l, i + 1)
            &&& h2.shared_secret@ == dh_of(spec_blinding_factor(s), h.shared_secret@)
            &&& h2.wf()
        },
{
    crate::routing::lemma_unwrap_forward_layer(l, i);
    assert(FORWARD_HOP != FINAL_HOP);
}

/// Law: processing the innermost layer of a well-formed onion with the
/// keys that built it succeeds with the final hop: the destination address,
/// the reply-block identifier and the hop's payload key.
pub proof fn lemma_process_final_hop(
    l: OnionLayout,
    h: SphinxHeader,
    s: Seq<u8>,
    salt: Seq<u8>,
    r: Result<ProcessedHeader, Error>,
)
    requires
        l.wf(),
        h.routing_info.enc_routing_information@ == spec_beta(l, l.len() - 1),
        h.routing_info.integrity_mac@ == spec_layer_mac(l, l.len() - 1),
        l.stream_keys[l.len() - 1] == spec_stream_cipher_key(s, salt),
        l.mac_keys[l.len() - 1] == spec_integrity_mac_key(s, salt),
        spec_process_post(h, s, salt, r),
    ensures
        r matches Ok(ProcessedHeader::FinalHop(dest_addr, surb_id, pk)) && {
            &&& dest_addr@ == l.dest_addr
            &&& surb_id@ == l.surb_id
            &&& pk@ == spec_payload_key(s, salt)
        },
{
    crate::routing::lemma_unwrap_final_layer(l);
    assert(FORWARD_HOP != FINAL_HOP);
}

/// Law: a single-hop onion has an empty filler, and its only processing
/// step returns the final-hop outcome.
pub proof fn lemma_single_hop_is_final(
    l: OnionLayout,
    h: SphinxHeader,
    s: Seq<u8>,
    salt: Seq<u8>,
    r: Result<ProcessedHeader, Error>,
)
    requires
        l.wf(),
        l.len() == 1,
        h.routing_info.enc_routing_information@ == spec_beta(l, 0),
        h.routing_info.integrity_mac@ == spec_layer_mac(l, 0),
        l.stream_keys[0] == spec_stream_cipher_key(s, salt),
        l.mac_keys[0] == spec_integrity_mac_key(s, salt),
        spec_process_post(h, s, salt, r),
    ensures
        crate::filler::spec_filler(l.stream_keys, l.len() - 1) == Seq::<u8>::empty(),
        r matches Ok(ProcessedHeader::FinalHop(dest_addr, surb_id, pk)) && {
            &&& dest_addr@ == l.dest_addr
            &&& surb_id@ == l.surb_id
            &&& pk@ == spec_payload_key(s, salt)
        },
{
    lemma_process_final_hop(l, h, s, salt, r);
}

/// Whether two processing outcomes are byte-identical: the same variant,
/// with components that serialize to the same bytes.
pub open spec fn spec_processed_equiv(a: ProcessedHeader, b: ProcessedHeader) -> bool {
    match (a, b) {
        (
            ProcessedHeader::ForwardHop(h1, a1, d1, p1),
            ProcessedHeader::ForwardHop(h2, a2, d2, p2),
        ) => {
            &&& spec_header_bytes(h1) == spec_header_bytes(h2)
            &&& a1@ == a2@
            &&& d1@ == d2@
            &&& p1@ == p2@
        },
        (ProcessedHeader::FinalHop(d1, s1, p1), ProcessedHeader::FinalHop(d2, s2, p2)) => {
            &&& d1@ == d2@
            &&& s1@ == s2@
            &&& p1@ == p2@
        },
        _ => false,
    }
}

/// Law: processing is a function of the header, the shared key and the
/// salt: any two outcomes admitted for the same inputs are byte-identical.
/// In particular, `process` with a relay's secret key and
/// `process_with_previously_derived_keys` with the matching Diffie–Hellman
/// result and the header's salt agree on every component.
pub proof fn lemma_process_deterministic(
    h: SphinxHeader,
    s: Seq<u8>,
    salt: Seq<u8>,
    r1: Result<ProcessedHeader, Error>,
    r2: Result<ProcessedHeader, Error>,
)
    requires
        spec_process_post(h, s, salt, r1),
        spec_process_post(h, s, salt, r2),
    ensures
        match (r1, r2) {
            (Ok(a), Ok(b)) => spec_processed_equiv(a, b),
            (Err(a), Err(b)) => a.kind == b.kind,
            _ => false,
        },
{
}


/// A header layout over matching route, delay and salt lists is
/// well-formed.
pub proof fn lemma_header_layout_wf(
    x: Seq<u8>,
    route: Seq<Node>,
    delays: Seq<Delay>,
    hkdf_salt: Seq<HkdfSalt>,
    destination: Destination,
    padding: Seq<u8>,
)
    requires
        1 <= route.len() <= MAX_PATH_LENGTH,
        delays.len() == route.len(),
        hkdf_salt.len() == route.len(),
        padding.len() == ENCRYPTED_ROUTING_INFO_SIZE - FILLER_STEP_SIZE as int * (route.len() - 1)
            - FINAL_HOP_META_SIZE,
    ensures
        spec_header_layout(x, route, delays, hkdf_salt, destination, padding).wf(),
{
    let l = spec_header_layout(x, route, delays, hkdf_salt, destination, padding);
    assert forall|i: int|
        0 <= i < l.len() implies (#[trigger] l.addrs[i]).len()
        == crate::constants::NODE_ADDRESS_LENGTH by {
        assert(l.addrs[i] == route[i].address@);
    }
    assert forall|i: int|
        0 <= i < l.len() implies (#[trigger] l.salts[i]).len() == HKDF_SALT_SIZE by {
        assert(l.salts[i] == hkdf_salt[i]@);
    }
}

/// Law: processing hop `i` of a freshly built multi-hop header with that
/// hop's chain key and salt hands out the successor node's address, the
/// hop's own delay and payload key, the successor's salt, and exactly the
/// next layer of the onion, with the group element reblinded. Applied hop
/// by hop, every hop before the last returns a forward hop.
pub proof fn lemma_built_header_forward_hop(
    h: SphinxHeader,
    x: Seq<u8>,
    route: Seq<Node>,
    delays: Seq<Delay>,
    hkdf_salt: Seq<HkdfSalt>,
    destination: Destination,
    padding: Seq<u8>,
    i: int,
    r: Result<ProcessedHeader, Error>,
)
    requires
        1 <= route.len() <= MAX_PATH_LENGTH,
        delays.len() == route.len(),
        hkdf_salt.len() == route.len(),
        0 <= i < route.len() - 1,
        h.routing_info.enc_routing_information@ == spec_beta(
            spec_header_layout(x, route, delays, hkdf_salt, destination, padding),
            i,
        ),
        h.routing_info.integrity_mac@ == spec_layer_mac(
            spec_header_layout(x, route, delays, hkdf_salt, destination, padding),
            i,
        ),
        padding.len() == ENCRYPTED_ROUTING_INFO_SIZE - FILLER_STEP_SIZE as int * (route.len() - 1)
            - FINAL_HOP_META_SIZE,
        spec_process_post(
            h,
            spec_shared_key_at(x, crate::keys::spec_route_pub_keys(route), i),
            hkdf_salt[i]@,
            r,
        ),
    ensures
        ({
            let l = spec_header_layout(x, route, delays, hkdf_salt, destination, padding);
            let s = spec_shared_key_at(x, crate::keys::spec_route_pub_keys(route), i);
            r matches Ok(ProcessedHeader::ForwardHop(h2, addr, delay, pk)) && {
                &&& addr@ == route[i + 1].address@
                &&& delay@ == delays[i]@
                &&& pk@ == spec_payload_key(s, hkdf_salt[i]@)
                &&& h2.hkdf_salt@ == hkdf_salt[i + 1]@
                &&& h2.routing_info.enc_routing_information@ == spec_beta(l, i + 1)
                &&& h2.routing_info.integrity_mac@ == spec_layer_mac(l, i + 1)
                &&& h2.shared_secret@ == dh_of(spec_blinding_factor(s), h.shared_secret@)
                &&& h2.wf()
            }
        }),
{
    lemma_header_layout_wf(x, route, delays, hkdf_salt, destination, padding);
    let l = spec_header_layout(x, route, delays, hkdf_salt, destination, padding);
    let s = spec_shared_key_at(x, crate::keys::spec_route_pub_keys(route), i);
    let salt = hkdf_salt[i]@;
    assert(l.stream_keys[i] == spec_stream_cipher_key(s, salt));
    assert(l.mac_keys[i] == spec_integrity_mac_key(s, salt));
    lemma_process_forward_hop(l, i, h, s, salt, r);
    assert(l.addrs[i + 1] == route[i + 1].address@);
    assert(l.delays[i] == delays[i]@);
    assert(l.salts[i + 1] == hkdf_salt[i + 1]@);
}

/// Law: processing the last hop of a built header with that hop's chain
/// key and salt returns the final-hop outcome: the destination address, the
/// reply-block identifier and the hop's payload key. For a route of one
/// hop this is the only processing step, and the filler is empty.
pub proof fn lemma_built_header_final_hop(
    h: SphinxHeader,
    x: Seq<u8>,
    route: Seq<Node>,
    delays: Seq<Delay>,
    hkdf_salt: Seq<HkdfSalt>,
    destination: Destination,
    padding: Seq<u8>,
    r: Result<ProcessedHeader, Error>,
)
    requires
        1 <= route.len() <= MAX_PATH_LENGTH,
        delays.len() == route.len(),
        hkdf_salt.len() == route.len(),
        h.routing_info.enc_routing_information@ == spec_beta(
            spec_header_layout(x, route, delays, hkdf_salt, destination, padding),
            route.len() - 1,
        ),
        h.routing_info.integrity_mac@ == spec_layer_mac(
            spec_header_layout(x, route, delays, hkdf_salt, destination, padding),
            route.len() - 1,
        ),
        padding.len() == ENCRYPTED_ROUTING_INFO_SIZE - FILLER_STEP_SIZE as int * (route.len() - 1)
            - FINAL_HOP_META_SIZE,
        spec_process_post(
            h,
            spec_shared_key_at(x, crate::keys::spec_route_pub_keys(route), route.len() - 1),
            hkdf_salt[route.len() - 1]@,
            r,
        ),
    ensures
        ({
            let s = spec_shared_key_at(x, crate::keys::spec_route_pub_keys(route), route.len()
                - 1);
            r matches Ok(ProcessedHeader::FinalHop(dest_addr, surb_id, pk)) && {
                &&& dest_addr@ == destination.address@
                &&& surb_id@ == destination.surb_id@
                &&& pk@ == spec_payload_key(s, hkdf_salt[route.len() - 1]@)
            }
        }),
{
    lemma_header_layout_wf(x, route, delays, hkdf_salt, destination, padding);
    let l = spec_header_layout(x, route, delays, hkdf_salt, destination, padding);
    let i = route.len() - 1;
    let s = spec_shared_key_at(x, crate::keys::spec_route_pub_keys(route), i as int);
    let salt = hkdf_salt[i as int]@;
    assert(l.stream_keys[i as int] == spec_stream_cipher_key(s, salt));
    assert(l.mac_keys[i as int] == spec_integrity_mac_key(s, salt));
    lemma_process_final_hop(l, h, s, salt, r);
}

} // verus!
