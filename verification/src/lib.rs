//! Header subsystem of a Sphinx-style onion packet for an anonymous mix
//! network.
//!
//! A sender constructs a fixed-size header that encodes a source-routed path
//! through a chain of relay nodes and a final destination. Each relay can
//! decrypt exactly one routing layer, learn only its successor and its
//! forwarding delay, and pass along a header of identical length. The
//! construction combines a Diffie–Hellman key chain with per-hop blinding,
//! HKDF-derived per-hop routing keys, a stream-cipher onion over the routing
//! information with precomputed filler for length invariance, and truncated
//! HMAC integrity tags.

pub mod constants;
pub mod crypto;
pub mod delays;
pub mod error;
pub mod filler;
pub mod header;
pub mod keys;
pub mod mac;
pub mod route;
pub mod routing;
pub mod utils;

pub use error::{Error, ErrorKind};
