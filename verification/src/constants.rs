//! Fixed byte sizes and flag values of the header format.

use vstd::prelude::*;

verus! {

/// Length of a node address carried in a forward-hop entry.
pub const NODE_ADDRESS_LENGTH: usize = 32;

/// Length of the final destination address.
pub const DESTINATION_ADDRESS_LENGTH: usize = 32;

/// Length of a single-use reply block identifier.
pub const IDENTIFIER_LENGTH: usize = 16;

/// Length of the per-hop HKDF salt.
pub const HKDF_SALT_SIZE: usize = 32;

/// Length of the truncated header integrity MAC.
pub const HEADER_INTEGRITY_MAC_SIZE: usize = 16;

/// Length of the flag byte that opens every routing entry.
pub const FLAG_LENGTH: usize = 1;

/// Length of the serialized forwarding delay (unsigned 64-bit little-endian
/// nanoseconds).
pub const DELAY_LENGTH: usize = 8;

/// Maximum number of hops a route may have.
pub const MAX_PATH_LENGTH: usize = 5;

/// Size of the per-hop metadata: flag, next address, delay and next salt.
pub const NODE_META_INFO_SIZE: usize = FLAG_LENGTH + NODE_ADDRESS_LENGTH + DELAY_LENGTH
    + HKDF_SALT_SIZE;

/// Bytes consumed from the routing-information block by one unwrap step:
/// the per-hop metadata followed by the next hop's integrity MAC. The
/// filler grows by the same amount for every intermediate hop.
pub const FILLER_STEP_SIZE: usize = NODE_META_INFO_SIZE + HEADER_INTEGRITY_MAC_SIZE;

/// Size of the encrypted routing-information block.
pub const ENCRYPTED_ROUTING_INFO_SIZE: usize = FILLER_STEP_SIZE * MAX_PATH_LENGTH;

/// Length of the stream-cipher output used for wrapping, unwrapping and
/// filler construction: one block plus one unwrap step.
pub const STREAM_CIPHER_OUTPUT_LENGTH: usize = ENCRYPTED_ROUTING_INFO_SIZE + FILLER_STEP_SIZE;

/// Stream-cipher key length.
pub const STREAM_CIPHER_KEY_SIZE: usize = 16;

/// Stream-cipher initialisation vector length.
pub const STREAM_CIPHER_IV_SIZE: usize = 16;

/// Key length for the header integrity HMAC.
pub const INTEGRITY_MAC_KEY_SIZE: usize = 16;

/// Length of the per-hop payload key handed to the payload onion.
pub const PAYLOAD_KEY_SIZE: usize = 192;

/// Length of the blinding-factor seed segment of the routing-key bundle.
pub const BLINDING_FACTOR_SIZE: usize = 32;

/// Total length of one HKDF routing-key expansion: stream-cipher key,
/// integrity-MAC key, payload key and blinding-factor seed.
pub const ROUTING_KEYS_LENGTH: usize = STREAM_CIPHER_KEY_SIZE + INTEGRITY_MAC_KEY_SIZE
    + PAYLOAD_KEY_SIZE + BLINDING_FACTOR_SIZE;

/// Length of a serialized curve group element.
pub const GROUP_ELEMENT_SIZE: usize = 32;

/// Total length of a serialized header: group element, salt, routing
/// information and its MAC.
pub const HEADER_SIZE: usize = GROUP_ELEMENT_SIZE + HKDF_SALT_SIZE
    + ENCRYPTED_ROUTING_INFO_SIZE + HEADER_INTEGRITY_MAC_SIZE;

/// Size of the metadata at the start of a fully unwrapped final-hop block:
/// flag, destination address and reply-block identifier.
pub const FINAL_HOP_META_SIZE: usize = FLAG_LENGTH + DESTINATION_ADDRESS_LENGTH
    + IDENTIFIER_LENGTH;

} // verus!
