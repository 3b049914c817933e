//! Layered encapsulation and decapsulation of the routing information: the
//! onion over per-hop metadata, with a truncated HMAC per layer.

use vstd::prelude::*;

use crate::constants::{
    DESTINATION_ADDRESS_LENGTH, ENCRYPTED_ROUTING_INFO_SIZE, FILLER_STEP_SIZE, FINAL_HOP_META_SIZE,
    FLAG_LENGTH, HEADER_INTEGRITY_MAC_SIZE, HKDF_SALT_SIZE, IDENTIFIER_LENGTH, MAX_PATH_LENGTH,
    NODE_ADDRESS_LENGTH, STREAM_CIPHER_KEY_SIZE, STREAM_CIPHER_OUTPUT_LENGTH,
};
use crate::crypto::{random_bytes, spec_stream, stream_cipher_output};
use crate::delays::Delay;
use crate::error::{Error, ErrorKind};
use crate::filler::{spec_filler, spec_stream_keys, Filler};
use crate::keys::{HkdfSalt, RoutingKeys};
use crate::mac::{spec_integrity_mac, HeaderIntegrityMac};
use crate::route::{Destination, DestinationAddressBytes, Node, NodeAddressBytes, SURBIdentifier};
use crate::utils::{
    append_slice, copy_subrange, subrange_to_array, xor, xor_spec, zero_bytes, zeros_spec,
};
use vstd::bytes::{spec_u64_from_le_bytes, spec_u64_to_le_bytes, u64_from_le_bytes,
    u64_to_le_bytes};

verus! {

broadcast use vstd::array::group_array_axioms, crate::route::lemma_node_address_len,
    crate::route::lemma_destination_address_len, crate::crypto::lemma_shared_key_len,
    crate::mac::lemma_integrity_mac_len;

/// Flag byte that opens a forward-hop entry.
pub const FORWARD_HOP: u8 = 1;

/// Flag byte that opens the final-hop block.
pub const FINAL_HOP: u8 = 2;

/// The plaintext entry of a forward hop: flag, next address, delay, next
/// salt and the next layer's MAC.
pub open spec fn spec_forward_entry(addr: Seq<u8>, delay: u64, salt: Seq<u8>, mac: Seq<u8>)
    -> Seq<u8> {
    seq![FORWARD_HOP] + addr + spec_u64_to_le_bytes(delay) + salt + mac
}

/// The metadata of the final-hop block: flag, destination address and
/// reply-block identifier.
pub open spec fn spec_final_meta(dest_addr: Seq<u8>, surb_id: Seq<u8>) -> Seq<u8> {
    seq![FINAL_HOP] + dest_addr + surb_id
}

/// Everything the layered construction depends on, as plain sequences: one
/// entry per hop, the destination and the sender-chosen padding.
#[verifier::ext_equal]
pub struct OnionLayout {
    /// The node addresses along the route.
    pub addrs: Seq<Seq<u8>>,
    /// The forwarding delays, in nanoseconds.
    pub delays: Seq<u64>,
    /// The per-hop HKDF salts.
    pub salts: Seq<Seq<u8>>,
    /// The per-hop stream-cipher keys.
    pub stream_keys: Seq<Seq<u8>>,
    /// The per-hop integrity-MAC keys.
    pub mac_keys: Seq<Seq<u8>>,
    /// The destination address placed in the innermost block.
    pub dest_addr: Seq<u8>,
    /// The reply-block identifier placed in the innermost block.
    pub surb_id: Seq<u8>,
    /// The sender-chosen random padding of the innermost block.
    pub padding: Seq<u8>,
}

impl OnionLayout {
    /// The number of hops.
    pub open spec fn len(self) -> int {
        self.stream_keys.len() as int
    }

    /// Whether all components have the lengths the construction expects.
    pub open spec fn wf(self) -> bool {
        &&& 1 <= self.len() <= MAX_PATH_LENGTH
        &&& self.addrs.len() == self.len()
        &&& self.delays.len() == self.len()
        &&& self.salts.len() == self.len()
        &&& self.mac_keys.len() == self.len()
        &&& (forall|i: int|
            0 <= i < self.len() ==> (#[trigger] self.addrs[i]).len() == NODE_ADDRESS_LENGTH)
        &&& (forall|i: int|
            0 <= i < self.len() ==> (#[trigger] self.salts[i]).len() == HKDF_SALT_SIZE)
        &&& self.dest_addr.len() == DESTINATION_ADDRESS_LENGTH
        &&& self.surb_id.len() == IDENTIFIER_LENGTH
        &&& self.padding.len() == ENCRYPTED_ROUTING_INFO_SIZE - FILLER_STEP_SIZE as int * (
        self.len() - 1) - FINAL_HOP_META_SIZE
    }
}

/// The encrypted routing-information block of layer `i`: the innermost
/// layer is the encrypted final-hop block with the filler appended; every
/// outer layer is the encrypted concatenation of the next hop's entry and
/// the truncated next layer.
pub open spec fn spec_beta(l: OnionLayout, i: int) -> Seq<u8>
    decreases l.len() - i, 0int,
{
    if i >= l.len() - 1 {
        xor_spec(
            spec_final_meta(l.dest_addr, l.surb_id) + l.padding,
            spec_stream(l.stream_keys[i]),
        ) + spec_filler(l.stream_keys, l.len() - 1)
    } else {
        xor_spec(
            spec_forward_entry(l.addrs[i + 1], l.delays[i], l.salts[i + 1], spec_layer_mac(l, i + 1))
                + spec_beta(l, i + 1).take(
                ENCRYPTED_ROUTING_INFO_SIZE as int - FILLER_STEP_SIZE as int,
            ),
            spec_stream(l.stream_keys[i]),
        )
    }
}

/// The integrity MAC of layer `i`: the truncated HMAC of that layer's
/// encrypted block under the hop's MAC key.
pub open spec fn spec_layer_mac(l: OnionLayout, i: int) -> Seq<u8>
    decreases l.len() - i, 1int,
{
    spec_integrity_mac(l.mac_keys[i], spec_beta(l, i))
}

/// Every layer's encrypted block has exactly `ENCRYPTED_ROUTING_INFO_SIZE`
/// bytes.
pub proof fn lemma_beta_len(l: OnionLayout, i: int)
    requires
        l.wf(),
        0 <= i < l.len(),
    ensures
        spec_beta(l, i).len() == ENCRYPTED_ROUTING_INFO_SIZE,
    decreases l.len() - i,
{
    let n = l.len();
    crate::filler::lemma_filler_len(l.stream_keys, n - 1);
    vstd::bytes::lemma_auto_spec_u64_to_from_le_bytes();
    assert(FILLER_STEP_SIZE == 89 && ENCRYPTED_ROUTING_INFO_SIZE == 445 && FINAL_HOP_META_SIZE
        == 49 && MAX_PATH_LENGTH == 5 && NODE_ADDRESS_LENGTH == 32 && HKDF_SALT_SIZE == 32
        && DESTINATION_ADDRESS_LENGTH == 32 && IDENTIFIER_LENGTH == 16
        && HEADER_INTEGRITY_MAC_SIZE == 16);
    if i >= n - 1 {
        let front = spec_final_meta(l.dest_addr, l.surb_id) + l.padding;
        assert(spec_final_meta(l.dest_addr, l.surb_id).len() == FINAL_HOP_META_SIZE);
        assert(spec_beta(l, i).len() == front.len() + spec_filler(l.stream_keys, n - 1).len());
    } else {
        lemma_beta_len(l, i + 1);
        let entry = spec_forward_entry(
            l.addrs[i + 1],
            l.delays[i],
            l.salts[i + 1],
            spec_layer_mac(l, i + 1),
        );
        assert(spec_u64_to_le_bytes(l.delays[i]).len() == 8);
        assert(spec_layer_mac(l, i + 1).len() == HEADER_INTEGRITY_MAC_SIZE);
        assert(entry.len() == FILLER_STEP_SIZE);
        assert(spec_beta(l, i + 1).take(
            ENCRYPTED_ROUTING_INFO_SIZE as int - FILLER_STEP_SIZE as int,
        ).len() == ENCRYPTED_ROUTING_INFO_SIZE as int - FILLER_STEP_SIZE as int);
        assert(spec_beta(l, i).len() == entry.len() + ENCRYPTED_ROUTING_INFO_SIZE as int
            - FILLER_STEP_SIZE as int);
    }
}

/// One unwrap step over an encrypted block: extend by one step of zero
/// bytes and XOR with the hop's keystream.
pub open spec fn spec_unwrapped(beta: Seq<u8>, stream_key: Seq<u8>) -> Seq<u8> {
    xor_spec(beta + zeros_spec(FILLER_STEP_SIZE as int), spec_stream(stream_key))
}

/// The fixed-size encrypted routing-information block.
#[derive(Clone, Debug)]
pub struct EncryptedRoutingInformation {
    value: Vec<u8>,
}

impl View for EncryptedRoutingInformation {
    type V = Seq<u8>;

    closed spec fn view(&self) -> Seq<u8> {
        self.value@
    }
}

/// The encrypted routing information of one layer together with its
/// integrity MAC.
#[derive(Clone, Debug)]
pub struct EncapsulatedRoutingInformation {
    pub enc_routing_information: EncryptedRoutingInformation,
    pub integrity_mac: HeaderIntegrityMac,
}

/// The routing information a relay recovers from one unwrap step: either
/// the successor hop's data and remaining layer, or the final-hop
/// destination data.
pub enum ParsedRawRoutingInformation {
    ForwardHop(NodeAddressBytes, Delay, HkdfSalt, EncapsulatedRoutingInformation),
    FinalHop(DestinationAddressBytes, SURBIdentifier),
}

/// Whether `parsed` is exactly what the fields of the unwrapped block `u`
/// say.
pub open spec fn spec_parsed(u: Seq<u8>, parsed: ParsedRawRoutingInformation) -> bool {
    match parsed {
        ParsedRawRoutingInformation::ForwardHop(addr, delay, salt, encap) => {
            &&& u[0] == FORWARD_HOP
            &&& addr@ == u.subrange(
                FLAG_LENGTH as int,
                FLAG_LENGTH as int + NODE_ADDRESS_LENGTH as int,
            )
            &&& delay@ == spec_u64_from_le_bytes(u.subrange(33int, 41int))
            &&& salt@ == u.subrange(41int, 73int)
            &&& encap.integrity_mac@ == u.subrange(73int, 89int)
            &&& encap.enc_routing_information@ == u.subrange(
                FILLER_STEP_SIZE as int,
                FILLER_STEP_SIZE as int + ENCRYPTED_ROUTING_INFO_SIZE as int,
            )
        },
        ParsedRawRoutingInformation::FinalHop(dest_addr, surb_id) => {
            &&& u[0] == FINAL_HOP
            &&& dest_addr@ == u.subrange(
                FLAG_LENGTH as int,
                FLAG_LENGTH as int + DESTINATION_ADDRESS_LENGTH as int,
            )
            &&& surb_id@ == u.subrange(33int, 49int)
        },
    }
}

impl EncryptedRoutingInformation {
    /// Whether the block has its fixed size.
    pub open spec fn wf(&self) -> bool {
        self@.len() == ENCRYPTED_ROUTING_INFO_SIZE
    }

    /// Wraps a fixed-size block.
    pub fn from_bytes(bytes: [u8; ENCRYPTED_ROUTING_INFO_SIZE]) -> (r: EncryptedRoutingInformation)
        ensures
            r@ == bytes@,
            r.wf(),
    {
        let mut value: Vec<u8> = Vec::new();
        append_slice(&mut value, bytes.as_slice());
        proof {
            assert(value@ =~= bytes@);
        }
        EncryptedRoutingInformation { value }
    }

    /// Wraps a block held in a vector of the fixed size.
    pub(crate) fn from_vec(value: Vec<u8>) -> (r: EncryptedRoutingInformation)
        requires
            value@.len() == ENCRYPTED_ROUTING_INFO_SIZE,
        ensures
            r@ == value@,
            r.wf(),
    {
        EncryptedRoutingInformation { value }
    }

    /// The block's bytes.
    pub fn get_value_ref(&self) -> (r: &[u8])
        ensures
            r@ == self@,
    {
        self.value.as_slice()
    }

    /// One unwrap step: extends the block by one step of zero bytes, XORs
    /// it with the hop's keystream and parses the revealed entry. Fails
    /// exactly when the revealed flag byte is unrecognized.
    pub fn unwrap(self, stream_cipher_key: [u8; STREAM_CIPHER_KEY_SIZE]) -> (r: Result<
        ParsedRawRoutingInformation,
        Error,
    >)
        requires
            self.wf(),
        ensures
            ({
                let u = spec_unwrapped(self@, stream_cipher_key@);
                match r {
                    Ok(parsed) => (u[0] == FORWARD_HOP || u[0] == FINAL_HOP) && spec_parsed(
                        u,
                        parsed,
                    ),
                    Err(e) => u[0] != FORWARD_HOP && u[0] != FINAL_HOP && e.kind
                        == ErrorKind::InvalidHeader,
                }
            }),
    {
        proof {
            assert(FILLER_STEP_SIZE == 89 && ENCRYPTED_ROUTING_INFO_SIZE == 445
                && STREAM_CIPHER_OUTPUT_LENGTH == 534);
        }
        let stream = stream_cipher_output(&stream_cipher_key);
        let mut extended = self.value;
        let zeros = zero_bytes(FILLER_STEP_SIZE);
        append_slice(&mut extended, zeros.as_slice());
        let u = xor(extended.as_slice(), stream.as_slice());
        let ghost u_spec = spec_unwrapped(self@, stream_cipher_key@);
        proof {
            assert(u@ == u_spec);
        }
        let flag = u[0];
        if flag == FORWARD_HOP {
            let addr: [u8; NODE_ADDRESS_LENGTH] = subrange_to_array(u.as_slice(), FLAG_LENGTH);
            let delay_bytes = vstd::slice::slice_subrange(u.as_slice(), 33, 41);
            let delay = Delay::new_from_nanos(u64_from_le_bytes(delay_bytes));
            let salt: HkdfSalt = subrange_to_array(u.as_slice(), 41);
            let mac_bytes: [u8; HEADER_INTEGRITY_MAC_SIZE] = subrange_to_array(u.as_slice(), 73);
            let next = copy_subrange(
                u.as_slice(),
                FILLER_STEP_SIZE,
                FILLER_STEP_SIZE + ENCRYPTED_ROUTING_INFO_SIZE,
            );
            Ok(
                ParsedRawRoutingInformation::ForwardHop(
                    NodeAddressBytes::from_bytes(addr),
                    delay,
                    salt,
                    EncapsulatedRoutingInformation {
                        enc_routing_information: EncryptedRoutingInformation::from_vec(next),
                        integrity_mac: HeaderIntegrityMac::from_bytes(mac_bytes),
                    },
                ),
            )
        } else if flag == FINAL_HOP {
            let dest: [u8; DESTINATION_ADDRESS_LENGTH] = subrange_to_array(
                u.as_slice(),
                FLAG_LENGTH,
            );
            let surb_id: SURBIdentifier = subrange_to_array(u.as_slice(), 33);
            Ok(
                ParsedRawRoutingInformation::FinalHop(
                    DestinationAddressBytes::from_bytes(dest),
                    surb_id,
                ),
            )
        } else {
            Err(Error::new(ErrorKind::InvalidHeader))
        }
    }
}

/// The layout that a construction from the given route data uses.
pub open spec fn spec_layout(
    route: Seq<Node>,
    delays: Seq<Delay>,
    hkdf_salt: Seq<HkdfSalt>,
    routing_keys: Seq<RoutingKeys>,
    destination: Destination,
    padding: Seq<u8>,
) -> OnionLayout {
    OnionLayout {
        addrs: route.map_values(|n: Node| n.address@),
        delays: delays.map_values(|d: Delay| d@),
        salts: hkdf_salt.map_values(|s: HkdfSalt| s@),
        stream_keys: spec_stream_keys(routing_keys),
        mac_keys: routing_keys.map_values(|k: RoutingKeys| k.header_integrity_hmac_key@),
        dest_addr: destination.address@,
        surb_id: destination.surb_id@,
        padding,
    }
}

/// Whether `r` is the onion built over the given route data with the given
/// innermost padding.
pub open spec fn spec_encapsulated_from(
    r: EncapsulatedRoutingInformation,
    route: Seq<Node>,
    delays: Seq<Delay>,
    hkdf_salt: Seq<HkdfSalt>,
    routing_keys: Seq<RoutingKeys>,
    destination: Destination,
    padding: Seq<u8>,
) -> bool {
    let l = spec_layout(route, delays, hkdf_salt, routing_keys, destination, padding);
    &&& padding.len() == ENCRYPTED_ROUTING_INFO_SIZE - FILLER_STEP_SIZE as int * (route.len() - 1)
        - FINAL_HOP_META_SIZE
    &&& r.enc_routing_information@ == spec_beta(l, 0)
    &&& r.integrity_mac@ == spec_layer_mac(l, 0)
    &&& r.wf()
}

impl EncapsulatedRoutingInformation {
    /// Whether the block inside has its fixed size.
    pub open spec fn wf(&self) -> bool {
        self.enc_routing_information.wf()
    }

    /// Wraps a block and its MAC.
    pub fn encapsulate(
        enc_routing_information: EncryptedRoutingInformation,
        integrity_mac: HeaderIntegrityMac,
    ) -> (r: EncapsulatedRoutingInformation)
        ensures
            r.enc_routing_information == enc_routing_information,
            r.integrity_mac == integrity_mac,
    {
        EncapsulatedRoutingInformation { enc_routing_information, integrity_mac }
    }

    /// Builds the onion over the whole route with the given padding of the
    /// innermost block: the outermost layer's block and MAC.
    pub fn new_with_padding(
        route: &[Node],
        destination: &Destination,
        delays: &[Delay],
        hkdf_salt: &[HkdfSalt],
        routing_keys: &[RoutingKeys],
        filler: Filler,
        padding: &[u8],
    ) -> (r: EncapsulatedRoutingInformation)
        requires
            1 <= route@.len() <= MAX_PATH_LENGTH,
            delays@.len() == route@.len(),
            hkdf_salt@.len() == route@.len(),
            routing_keys@.len() == route@.len(),
            filler@ == spec_filler(spec_stream_keys(routing_keys@), route@.len() - 1),
            padding@.len() == ENCRYPTED_ROUTING_INFO_SIZE - FILLER_STEP_SIZE as int * (route@.len()
                - 1) - FINAL_HOP_META_SIZE,
        ensures
            ({
                let l = spec_layout(
                    route@,
                    delays@,
                    hkdf_salt@,
                    routing_keys@,
                    *destination,
                    padding@,
                );
                r.enc_routing_information@ == spec_beta(l, 0) && r.integrity_mac@ == spec_layer_mac(
                    l,
                    0,
                ) && r.wf()
            }),
    {
        let ghost l = spec_layout(route@, delays@, hkdf_salt@, routing_keys@, *destination,
            padding@);
        proof {
            assert(l.wf());
            assert(FILLER_STEP_SIZE == 89 && ENCRYPTED_ROUTING_INFO_SIZE == 445
                && FINAL_HOP_META_SIZE == 49 && STREAM_CIPHER_OUTPUT_LENGTH == 534
                && MAX_PATH_LENGTH == 5);
            crate::filler::lemma_filler_len(l.stream_keys, l.len() - 1);
        }
        let n = route.len();

        // innermost layer: the final-hop block, encrypted, with the filler
        // appended
        let final_keys = vstd::slice::slice_index_get(routing_keys, n - 1);
        let mut block: Vec<u8> = Vec::new();
        block.push(FINAL_HOP);
        append_slice(&mut block, destination.address.as_bytes().as_slice());
        append_slice(&mut block, destination.surb_id.as_slice());
        append_slice(&mut block, padding);
        let stream = stream_cipher_output(&final_keys.stream_cipher_key);
        let mut beta = xor(block.as_slice(), stream.as_slice());
        append_slice(&mut beta, filler.as_bytes());
        proof {
            assert(block@ =~= spec_final_meta(l.dest_addr, l.surb_id) + l.padding);
            assert(beta@ =~= spec_beta(l, n as int - 1));
        }
        let mut mac = HeaderIntegrityMac::compute(
            final_keys.header_integrity_hmac_key,
            beta.as_slice(),
        );

        // outer layers, inside out
        let mut i = n - 1;
        while i > 0
            invariant
                l == spec_layout(route@, delays@, hkdf_salt@, routing_keys@, *destination,
                    padding@),
                l.wf(),
                n == route@.len(),
                delays@.len() == n,
                hkdf_salt@.len() == n,
                routing_keys@.len() == n,
                i < n,
                beta@ == spec_beta(l, i as int),
                beta@.len() == ENCRYPTED_ROUTING_INFO_SIZE,
                mac@ == spec_layer_mac(l, i as int),
            decreases i,
        {
            i -= 1;
            let keys = vstd::slice::slice_index_get(routing_keys, i);
            let next_node = vstd::slice::slice_index_get(route, i + 1);
            let hop_delay = vstd::slice::slice_index_get(delays, i);
            let next_salt = vstd::slice::slice_index_get(hkdf_salt, i + 1);
            let mut entry: Vec<u8> = Vec::new();
            entry.push(FORWARD_HOP);
            append_slice(&mut entry, next_node.address.as_bytes().as_slice());
            let delay_bytes = u64_to_le_bytes(hop_delay.to_nanos());
            append_slice(&mut entry, delay_bytes.as_slice());
            append_slice(&mut entry, next_salt.as_slice());
            append_slice(&mut entry, mac.as_bytes().as_slice());
            proof {
                assert(entry@ =~= spec_forward_entry(
                    l.addrs[i as int + 1],
                    l.delays[i as int],
                    l.salts[i as int + 1],
                    spec_layer_mac(l, i as int + 1),
                ));
            }
            let truncated = vstd::slice::slice_subrange(
                beta.as_slice(),
                0,
                ENCRYPTED_ROUTING_INFO_SIZE - FILLER_STEP_SIZE,
            );
            append_slice(&mut entry, truncated);
            let stream = stream_cipher_output(&keys.stream_cipher_key);
            beta = xor(entry.as_slice(), stream.as_slice());
            proof {
                assert(beta@ =~= spec_beta(l, i as int));
            }
            mac = HeaderIntegrityMac::compute(keys.header_integrity_hmac_key, beta.as_slice());
        }
        EncapsulatedRoutingInformation {
            enc_routing_information: EncryptedRoutingInformation::from_vec(beta),
            integrity_mac: mac,
        }
    }

    /// Builds the onion over the whole route, padding the innermost block
    /// with fresh random bytes.
    pub fn new(
        route: &[Node],
        destination: &Destination,
        delays: &[Delay],
        hkdf_salt: &[HkdfSalt],
        routing_keys: &[RoutingKeys],
        filler: Filler,
    ) -> (r: EncapsulatedRoutingInformation)
        requires
            1 <= route@.len() <= MAX_PATH_LENGTH,
            delays@.len() == route@.len(),
            hkdf_salt@.len() == route@.len(),
            routing_keys@.len() == route@.len(),
            filler@ == spec_filler(spec_stream_keys(routing_keys@), route@.len() - 1),
        ensures
            exists|padding: Seq<u8>|
                #[trigger] spec_encapsulated_from(
                    r,
                    route@,
                    delays@,
                    hkdf_salt@,
                    routing_keys@,
                    *destination,
                    padding,
                ),
    {
        proof {
            assert(FILLER_STEP_SIZE == 89 && ENCRYPTED_ROUTING_INFO_SIZE == 445
                && FINAL_HOP_META_SIZE == 49 && MAX_PATH_LENGTH == 5);
        }
        let pad_len = ENCRYPTED_ROUTING_INFO_SIZE - FILLER_STEP_SIZE * (route.len() - 1)
            - FINAL_HOP_META_SIZE;
        let padding = random_bytes(pad_len);
        let r = Self::new_with_padding(
            route,
            destination,
            delays,
            hkdf_salt,
            routing_keys,
            filler,
            padding.as_slice(),
        );
        proof {
            assert(spec_encapsulated_from(r, route@, delays@, hkdf_salt@, routing_keys@,
                *destination, padding@));
        }
        r
    }

    /// Serializes the block followed by its MAC.
    pub fn to_bytes(&self) -> (r: Vec<u8>)
        requires
            self.wf(),
        ensures
            r@ == self.enc_routing_information@ + self.integrity_mac@,
            r@.len() == ENCRYPTED_ROUTING_INFO_SIZE + HEADER_INTEGRITY_MAC_SIZE,
    {
        let mut out: Vec<u8> = Vec::new();
        append_slice(&mut out, self.enc_routing_information.get_value_ref());
        append_slice(&mut out, self.integrity_mac.as_bytes().as_slice());
        out
    }

    /// Splits a serialized block-and-MAC pair. Fails exactly when the input
    /// has the wrong length.
    pub fn from_bytes(bytes: &[u8]) -> (r: Result<EncapsulatedRoutingInformation, Error>)
        ensures
            ({
                match r {
                    Ok(encap) => {
                        &&& bytes@.len() == ENCRYPTED_ROUTING_INFO_SIZE + HEADER_INTEGRITY_MAC_SIZE
                        &&& encap.enc_routing_information@ == bytes@.subrange(
                            0,
                            ENCRYPTED_ROUTING_INFO_SIZE as int,
                        )
                        &&& encap.integrity_mac@ == bytes@.subrange(
                            ENCRYPTED_ROUTING_INFO_SIZE as int,
                            ENCRYPTED_ROUTING_INFO_SIZE as int + HEADER_INTEGRITY_MAC_SIZE as int,
                        )
                        &&& encap.wf()
                    },
                    Err(e) => bytes@.len() != ENCRYPTED_ROUTING_INFO_SIZE
                        + HEADER_INTEGRITY_MAC_SIZE && e.kind == ErrorKind::InvalidHeader,
                }
            }),
    {
        if bytes.len() != ENCRYPTED_ROUTING_INFO_SIZE + HEADER_INTEGRITY_MAC_SIZE {
            return Err(Error::new(ErrorKind::InvalidHeader));
        }
        let enc = copy_subrange(bytes, 0, ENCRYPTED_ROUTING_INFO_SIZE);
        let mac_bytes: [u8; HEADER_INTEGRITY_MAC_SIZE] = subrange_to_array(
            bytes,
            ENCRYPTED_ROUTING_INFO_SIZE,
        );
        Ok(
            EncapsulatedRoutingInformation {
                enc_routing_information: EncryptedRoutingInformation::from_vec(enc),
                integrity_mac: HeaderIntegrityMac::from_bytes(mac_bytes),
            },
        )
    }
}

} // verus!

use crate::filler::lemma_filler_len;

verus! {

/// The tail invariant of the onion: the last `FILLER_STEP_SIZE * i` bytes
/// of layer `i`'s block equal the filler after `i` steps. This is what
/// makes every intermediate hop's output length-stable: the bytes an unwrap
/// step reveals past the block are exactly the keystream tail the filler
/// was built from.
pub proof fn lemma_beta_tail(l: OnionLayout, i: int)
    requires
        l.wf(),
        0 <= i < l.len(),
    ensures
        spec_beta(l, i).subrange(
            ENCRYPTED_ROUTING_INFO_SIZE as int - FILLER_STEP_SIZE as int * i,
            ENCRYPTED_ROUTING_INFO_SIZE as int,
        ) == spec_filler(l.stream_keys, i),
    decreases l.len() - i,
{
    let n = l.len();
    let enc = ENCRYPTED_ROUTING_INFO_SIZE as int;
    let step = FILLER_STEP_SIZE as int;
    let sl = STREAM_CIPHER_OUTPUT_LENGTH as int;
    assert(step == 89 && enc == 445 && sl == 534 && FINAL_HOP_META_SIZE == 49 && MAX_PATH_LENGTH
        == 5);
    lemma_beta_len(l, i);
    lemma_filler_len(l.stream_keys, i);
    vstd::bytes::lemma_auto_spec_u64_to_from_le_bytes();
    if i == n - 1 {
        lemma_filler_len(l.stream_keys, n - 1);
        let front = xor_spec(
            spec_final_meta(l.dest_addr, l.surb_id) + l.padding,
            spec_stream(l.stream_keys[i]),
        );
        assert(front.len() == enc - step * i);
        assert(spec_beta(l, i).subrange(enc - step * i, enc) =~= spec_filler(l.stream_keys, i));
    } else {
        lemma_beta_tail(l, i + 1);
        lemma_beta_len(l, i + 1);
        lemma_filler_len(l.stream_keys, i + 1);
        let g = spec_beta(l, i).subrange(enc - step * i, enc);
        let f = spec_filler(l.stream_keys, i);
        let entry = spec_forward_entry(
            l.addrs[i + 1],
            l.delays[i],
            l.salts[i + 1],
            spec_layer_mac(l, i + 1),
        );
        assert(spec_layer_mac(l, i + 1).len() == HEADER_INTEGRITY_MAC_SIZE);
        assert(entry.len() == step);
        assert(g.len() == step * i && f.len() == step * i);
        assert forall|r: int| 0 <= r < step * i implies g[r] == f[r] by {
            let q = enc - step * i + r;
            let stream_i = spec_stream(l.stream_keys[i]);
            let inner = spec_beta(l, i + 1);
            assert(spec_beta(l, i)[q] == (entry + inner.take(enc - step))[q] ^ stream_i[q]);
            assert((entry + inner.take(enc - step))[q] == inner[q - step]);
            assert(inner[q - step] == inner.subrange(enc - step * (i + 1), enc)[r]);
            assert(inner[q - step] == spec_filler(l.stream_keys, i + 1)[r]);
            assert(spec_filler(l.stream_keys, i + 1)[r] == (spec_filler(l.stream_keys, i)
                + zeros_spec(step))[r] ^ spec_stream(l.stream_keys[i]).subrange(
                sl - step * (i + 1),
                sl,
            )[r]);
            assert((spec_filler(l.stream_keys, i) + zeros_spec(step))[r] == f[r]);
            assert(sl - step * (i + 1) + r == q);
            let a = f[r];
            let b = stream_i[q];
            assert(((a ^ b) ^ b) == a) by (bit_vector);
            assert(g[r] == spec_beta(l, i)[q]);
        }
        assert(g =~= f);
    }
}

/// Unwrapping an intermediate layer with its own stream key reveals the
/// forward flag, the successor hop's address, delay, salt and MAC, and
/// exactly the successor layer's block: one processing step inverts one
/// construction step.
pub proof fn lemma_unwrap_forward_layer(l: OnionLayout, i: int)
    requires
        l.wf(),
        0 <= i < l.len() - 1,
    ensures
        ({
            let u = spec_unwrapped(spec_beta(l, i), l.stream_keys[i]);
            &&& u[0] == FORWARD_HOP
            &&& u.subrange(1int, 33int) == l.addrs[i + 1]
            &&& spec_u64_from_le_bytes(u.subrange(33int, 41int)) == l.delays[i]
            &&& u.subrange(41int, 73int) == l.salts[i + 1]
            &&& u.subrange(73int, 89int) == spec_layer_mac(l, i + 1)
            &&& u.subrange(
                FILLER_STEP_SIZE as int,
                FILLER_STEP_SIZE as int + ENCRYPTED_ROUTING_INFO_SIZE as int,
            ) == spec_beta(l, i + 1)
        }),
{
    let enc = ENCRYPTED_ROUTING_INFO_SIZE as int;
    let step = FILLER_STEP_SIZE as int;
    let sl = STREAM_CIPHER_OUTPUT_LENGTH as int;
    assert(step == 89 && enc == 445 && sl == 534 && NODE_ADDRESS_LENGTH == 32 && HKDF_SALT_SIZE
        == 32 && HEADER_INTEGRITY_MAC_SIZE == 16 && MAX_PATH_LENGTH == 5);
    lemma_beta_len(l, i);
    lemma_beta_len(l, i + 1);
    lemma_beta_tail(l, i + 1);
    lemma_filler_len(l.stream_keys, i + 1);
    vstd::bytes::lemma_auto_spec_u64_to_from_le_bytes();
    let u = spec_unwrapped(spec_beta(l, i), l.stream_keys[i]);
    let beta = spec_beta(l, i);
    let stream_i = spec_stream(l.stream_keys[i]);
    let inner = spec_beta(l, i + 1);
    let entry = spec_forward_entry(
        l.addrs[i + 1],
        l.delays[i],
        l.salts[i + 1],
        spec_layer_mac(l, i + 1),
    );
    assert(spec_layer_mac(l, i + 1).len() == HEADER_INTEGRITY_MAC_SIZE);
    assert(entry.len() == step);
    assert(u.len() == sl);
    assert forall|q: int| 0 <= q < enc implies u[q] == (entry + inner.take(enc - step))[q] by {
        assert(u[q] == (beta + zeros_spec(step))[q] ^ stream_i[q]);
        assert((beta + zeros_spec(step))[q] == beta[q]);
        assert(beta[q] == (entry + inner.take(enc - step))[q] ^ stream_i[q]);
        let a = (entry + inner.take(enc - step))[q];
        let b = stream_i[q];
        assert(((a ^ b) ^ b) == a) by (bit_vector);
    }
    assert forall|q: int| enc <= q < sl implies u[q] == inner[q - step] by {
        assert(u[q] == (beta + zeros_spec(step))[q] ^ stream_i[q]);
        assert((beta + zeros_spec(step))[q] == 0u8);
        let b = stream_i[q];
        assert(((0u8) ^ b) == b) by (bit_vector);
        let p = q - enc + step * i;
        assert(inner[q - step] == inner.subrange(enc - step * (i + 1), enc)[p]);
        assert(inner[q - step] == spec_filler(l.stream_keys, i + 1)[p]);
        assert(spec_filler(l.stream_keys, i + 1)[p] == (spec_filler(l.stream_keys, i)
            + zeros_spec(step))[p] ^ spec_stream(l.stream_keys[i]).subrange(
            sl - step * (i + 1),
            sl,
        )[p]);
        lemma_filler_len(l.stream_keys, i);
        assert((spec_filler(l.stream_keys, i) + zeros_spec(step))[p] == 0u8);
        assert(sl - step * (i + 1) + p == q);
        assert(((0u8) ^ b) == b) by (bit_vector);
    }
    assert(u[0] == entry[0]);
    assert(u.subrange(1int, 33int) =~= l.addrs[i + 1]);
    assert(u.subrange(33int, 41int) =~= spec_u64_to_le_bytes(l.delays[i]));
    assert(u.subrange(41int, 73int) =~= l.salts[i + 1]);
    assert(u.subrange(73int, 89int) =~= spec_layer_mac(l, i + 1));
    assert forall|k: int| 0 <= k < enc implies u.subrange(step, step + enc)[k] == inner[k] by {
        if k < enc - step {
            assert(u[step + k] == (entry + inner.take(enc - step))[step + k]);
            assert((entry + inner.take(enc - step))[step + k] == inner[k]);
        } else {
            assert(u[step + k] == inner[k]);
        }
    }
    assert(u.subrange(step, step + enc) =~= inner);
}

/// Unwrapping the innermost layer with its own stream key reveals the
/// final flag, the destination address and the reply-block identifier.
pub proof fn lemma_unwrap_final_layer(l: OnionLayout)
    requires
        l.wf(),
    ensures
        ({
            let u = spec_unwrapped(spec_beta(l, l.len() - 1), l.stream_keys[l.len() - 1]);
            &&& u[0] == FINAL_HOP
            &&& u.subrange(1int, 33int) == l.dest_addr
            &&& u.subrange(33int, 49int) == l.surb_id
        }),
{
    let n = l.len();
    let enc = ENCRYPTED_ROUTING_INFO_SIZE as int;
    let step = FILLER_STEP_SIZE as int;
    let sl = STREAM_CIPHER_OUTPUT_LENGTH as int;
    assert(step == 89 && enc == 445 && sl == 534 && FINAL_HOP_META_SIZE == 49
        && DESTINATION_ADDRESS_LENGTH == 32 && IDENTIFIER_LENGTH == 16 && MAX_PATH_LENGTH == 5);
    lemma_beta_len(l, n - 1);
    lemma_filler_len(l.stream_keys, n - 1);
    let u = spec_unwrapped(spec_beta(l, n - 1), l.stream_keys[n - 1]);
    let beta = spec_beta(l, n - 1);
    let stream_n = spec_stream(l.stream_keys[n - 1]);
    let meta = spec_final_meta(l.dest_addr, l.surb_id) + l.padding;
    assert(meta.len() == enc - step * (n - 1));
    assert forall|q: int| 0 <= q < FINAL_HOP_META_SIZE implies u[q] == meta[q] by {
        assert(u[q] == (beta + zeros_spec(step))[q] ^ stream_n[q]);
        assert((beta + zeros_spec(step))[q] == beta[q]);
        assert(q < enc - step * (n - 1));
        assert(beta[q] == xor_spec(meta, stream_n)[q]);
        assert(beta[q] == meta[q] ^ stream_n[q]);
        let a = meta[q];
        let b = stream_n[q];
        assert(((a ^ b) ^ b) == a) by (bit_vector);
    }
    assert(u[0] == FINAL_HOP);
    assert(u.subrange(1int, 33int) =~= l.dest_addr);
    assert(u.subrange(33int, 49int) =~= l.surb_id);
}

} // verus!
