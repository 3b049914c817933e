//! Route entities: relay nodes, their addresses, and the final destination.

use vstd::prelude::*;

use crate::constants::{DESTINATION_ADDRESS_LENGTH, IDENTIFIER_LENGTH, NODE_ADDRESS_LENGTH};
use crate::crypto::PublicKey;

verus! {

broadcast use vstd::array::group_array_axioms;

/// A node address always views as `NODE_ADDRESS_LENGTH` bytes.
pub broadcast proof fn lemma_node_address_len(a: NodeAddressBytes)
    ensures
        (#[trigger] a@).len() == NODE_ADDRESS_LENGTH,
{
}

/// A destination address always views as `DESTINATION_ADDRESS_LENGTH`
/// bytes.
pub broadcast proof fn lemma_destination_address_len(a: DestinationAddressBytes)
    ensures
        (#[trigger] a@).len() == DESTINATION_ADDRESS_LENGTH,
{
}

/// The address bytes of a relay node.
#[derive(Clone, Copy, Debug)]
pub struct NodeAddressBytes {
    bytes: [u8; NODE_ADDRESS_LENGTH],
}

impl View for NodeAddressBytes {
    type V = Seq<u8>;

    closed spec fn view(&self) -> Seq<u8> {
        self.bytes@
    }
}

impl NodeAddressBytes {
    /// Wraps raw address bytes.
    pub fn from_bytes(bytes: [u8; NODE_ADDRESS_LENGTH]) -> (r: NodeAddressBytes)
        ensures
            r@ == bytes@,
    {
        NodeAddressBytes { bytes }
    }

    /// The raw address bytes.
    pub fn to_bytes(&self) -> (r: [u8; NODE_ADDRESS_LENGTH])
        ensures
            r@ == self@,
    {
        self.bytes
    }

    /// A borrowed view of the raw address bytes.
    pub fn as_bytes(&self) -> (r: &[u8; NODE_ADDRESS_LENGTH])
        ensures
            r@ == self@,
    {
        &self.bytes
    }
}

/// The address bytes of the final destination.
#[derive(Clone, Copy, Debug)]
pub struct DestinationAddressBytes {
    bytes: [u8; DESTINATION_ADDRESS_LENGTH],
}

impl View for DestinationAddressBytes {
    type V = Seq<u8>;

    closed spec fn view(&self) -> Seq<u8> {
        self.bytes@
    }
}

impl DestinationAddressBytes {
    /// Wraps raw address bytes.
    pub fn from_bytes(bytes: [u8; DESTINATION_ADDRESS_LENGTH]) -> (r: DestinationAddressBytes)
        ensures
            r@ == bytes@,
    {
        DestinationAddressBytes { bytes }
    }

    /// The raw address bytes.
    pub fn to_bytes(&self) -> (r: [u8; DESTINATION_ADDRESS_LENGTH])
        ensures
            r@ == self@,
    {
        self.bytes
    }

    /// A borrowed view of the raw address bytes.
    pub fn as_bytes(&self) -> (r: &[u8; DESTINATION_ADDRESS_LENGTH])
        ensures
            r@ == self@,
    {
        &self.bytes
    }
}

/// Identifier of a single-use reply block, emitted at the final hop.
pub type SURBIdentifier = [u8; IDENTIFIER_LENGTH];

/// A relay node of the route: its address and its public element.
#[derive(Clone, Copy, Debug)]
pub struct Node {
    pub address: NodeAddressBytes,
    pub pub_key: PublicKey,
}

impl Node {
    /// Builds a node from its address and public element.
    pub fn new(address: NodeAddressBytes, pub_key: PublicKey) -> (r: Node)
        ensures
            r.address == address,
            r.pub_key == pub_key,
    {
        Node { address, pub_key }
    }
}

/// The final destination: its address and the reply-block identifier the
/// last hop hands out.
#[derive(Clone, Copy, Debug)]
pub struct Destination {
    pub address: DestinationAddressBytes,
    pub surb_id: SURBIdentifier,
}

impl Destination {
    /// Builds a destination from its address and reply-block identifier.
    pub fn new(address: DestinationAddressBytes, surb_id: SURBIdentifier) -> (r: Destination)
        ensures
            r.address == address,
            r.surb_id == surb_id,
    {
        Destination { address, surb_id }
    }
}

} // verus!
