//! Cryptographic primitives: X25519 scalar multiplication, HKDF key
//! expansion, HMAC and the stream cipher, together with the key types built
//! on them.
//!
//! The primitives themselves come from outside crates and are reached
//! through trusted wrappers; their results are named by uninterpreted spec
//! functions, so that every contract of the library can speak of them
//! exactly.

use vstd::prelude::*;

use crate::constants::{
    ROUTING_KEYS_LENGTH, STREAM_CIPHER_IV_SIZE, STREAM_CIPHER_KEY_SIZE,
    STREAM_CIPHER_OUTPUT_LENGTH,
};
use crate::utils::zeros_spec;
use aes::cipher::{KeyIvInit, StreamCipher};
use hmac::Mac;

verus! {

broadcast use vstd::array::group_array_axioms;

/// The X25519 basepoint, as a serialized group element.
pub const CURVE_BASEPOINT: [u8; 32] = [
    9, 0, 0, 0, 0, 0, 0, 0, 0, 0, 0, 0, 0, 0, 0, 0, 0, 0, 0, 0, 0, 0, 0, 0, 0, 0, 0, 0, 0, 0, 0,
    0,
];

/// Initialisation vector of the stream cipher; fixed across all packets.
/// Confidentiality rests on key uniqueness per hop.
pub const STREAM_CIPHER_INIT_VECTOR: [u8; 16] = [
    0, 0, 0, 0, 0, 0, 0, 0, 0, 0, 0, 0, 0, 0, 0, 0,
];

/// The group element obtained by multiplying `point` by the scalar whose
/// canonical form is `scalar` reduced modulo the group order.
pub uninterp spec fn dh_of(scalar: Seq<u8>, point: Seq<u8>) -> Seq<u8>;

/// The canonical bytes of the product (modulo the group order) of the two
/// scalars given by the argument bytes.
pub uninterp spec fn scalar_mul_of(a: Seq<u8>, b: Seq<u8>) -> Seq<u8>;

/// The HKDF-SHA-256 extract-and-expand output of length
/// `ROUTING_KEYS_LENGTH` for the given salt and input key material, with
/// empty info.
pub uninterp spec fn hkdf_of(salt: Seq<u8>, ikm: Seq<u8>) -> Seq<u8>;

/// The (untruncated) HMAC-SHA-256 tag of `data` under `key`.
pub uninterp spec fn hmac_of(key: Seq<u8>, data: Seq<u8>) -> Seq<u8>;

/// The first `len` bytes of the stream-cipher keystream for the given key
/// and initialisation vector.
pub uninterp spec fn stream_of(key: Seq<u8>, iv: Seq<u8>, len: int) -> Seq<u8>;

/// Relies on curve25519-dalek: `Scalar::from_bytes_mod_order` and
/// `Mul<&Scalar> for &MontgomeryPoint`. Returns the X25519 scalar
/// multiplication of the group element by the scalar; the result is a
/// function of the two arguments alone.
#[verifier::external_body]
pub(crate) fn group_element_mul(scalar: &[u8; 32], point: &[u8; 32]) -> (r: [u8; 32])
    ensures
        r@ == dh_of(scalar@, point@),
{
    let s = curve25519_dalek::scalar::Scalar::from_bytes_mod_order(*scalar);
    let p = curve25519_dalek::montgomery::MontgomeryPoint(*point);
    (&p * &s).to_bytes()
}

/// Relies on curve25519-dalek: `Scalar::from_bytes_mod_order` and
/// `Mul<&Scalar> for &Scalar`. Returns the canonical bytes of the product of
/// the two scalars; the result is a function of the two arguments alone.
#[verifier::external_body]
pub(crate) fn scalar_mul(a: &[u8; 32], b: &[u8; 32]) -> (r: [u8; 32])
    ensures
        r@ == scalar_mul_of(a@, b@),
{
    let x = curve25519_dalek::scalar::Scalar::from_bytes_mod_order(*a);
    let y = curve25519_dalek::scalar::Scalar::from_bytes_mod_order(*b);
    (&x * &y).to_bytes()
}

/// Relies on hkdf: `Hkdf::<Sha256>::new` and `Hkdf::expand` with empty
/// info. `expand` succeeds whenever the requested length is at most 255
/// hash lengths, which `ROUTING_KEYS_LENGTH` is; the output is a function
/// of salt and input key material alone.
#[verifier::external_body]
pub(crate) fn hkdf_expand(salt: &[u8], ikm: &[u8]) -> (r: Vec<u8>)
    ensures
        r@ == hkdf_of(salt@, ikm@),
        r@.len() == ROUTING_KEYS_LENGTH,
{
    let hk = hkdf::Hkdf::<sha2::Sha256>::new(Some(salt), ikm);
    let mut okm = vec![0u8; ROUTING_KEYS_LENGTH];
    hk.expand(&[], &mut okm).expect("okm length is within the HKDF expansion bound");
    okm
}

/// Relies on hmac: `Hmac::<Sha256>::new_from_slice` (which accepts keys of
/// any length), `update` and `finalize`. Returns the 32-byte tag, a
/// function of key and data alone.
#[verifier::external_body]
pub(crate) fn compute_hmac(key: &[u8], data: &[u8]) -> (r: Vec<u8>)
    ensures
        r@ == hmac_of(key@, data@),
        r@.len() == 32,
{
    let mut mac = hmac::Hmac::<sha2::Sha256>::new_from_slice(key)
        .expect("HMAC accepts keys of any length");
    mac.update(data);
    mac.finalize().into_bytes().to_vec()
}

/// Relies on ctr/aes: `Ctr64BE::<Aes128>::new` and `apply_keystream` over a
/// zeroed buffer. Returns the first `length` keystream bytes, a function of
/// key and initialisation vector alone.
#[verifier::external_body]
pub fn generate_pseudorandom_bytes(
    key: &[u8; STREAM_CIPHER_KEY_SIZE],
    iv: &[u8; STREAM_CIPHER_IV_SIZE],
    length: usize,
) -> (r: Vec<u8>)
    ensures
        r@ == stream_of(key@, iv@, length as int),
        r@.len() == length,
{
    let mut cipher = ctr::Ctr64BE::<aes::Aes128>::new(key.into(), iv.into());
    let mut data = vec![0u8; length];
    cipher.apply_keystream(&mut data);
    data
}

/// Relies on rand: `thread_rng` and `RngCore::fill_bytes`, the platform
/// CSPRNG. Nothing is promised of the values.
#[verifier::external_body]
pub(crate) fn random_bytes(length: usize) -> (r: Vec<u8>)
    ensures
        r@.len() == length,
{
    let mut data = vec![0u8; length];
    rand::RngCore::fill_bytes(&mut rand::thread_rng(), &mut data);
    data
}

/// The keystream slice every header operation works with: the first
/// `STREAM_CIPHER_OUTPUT_LENGTH` bytes under the fixed initialisation
/// vector, padded so that its length is fixed in every context.
pub open spec fn spec_stream(key: Seq<u8>) -> Seq<u8> {
    (stream_of(key, STREAM_CIPHER_INIT_VECTOR@, STREAM_CIPHER_OUTPUT_LENGTH as int) + zeros_spec(
        STREAM_CIPHER_OUTPUT_LENGTH as int,
    )).take(STREAM_CIPHER_OUTPUT_LENGTH as int)
}

/// Generates the keystream used for wrapping, unwrapping and filler
/// construction under the given key.
pub(crate) fn stream_cipher_output(key: &[u8; STREAM_CIPHER_KEY_SIZE]) -> (r: Vec<u8>)
    ensures
        r@ == spec_stream(key@),
        r@.len() == STREAM_CIPHER_OUTPUT_LENGTH,
{
    let r = generate_pseudorandom_bytes(
        key,
        &STREAM_CIPHER_INIT_VECTOR,
        STREAM_CIPHER_OUTPUT_LENGTH,
    );
    proof {
        assert(r@ == (r@ + zeros_spec(STREAM_CIPHER_OUTPUT_LENGTH as int)).take(
            STREAM_CIPHER_OUTPUT_LENGTH as int,
        ));
    }
    r
}

/// A secret scalar always views as 32 bytes.
pub broadcast proof fn lemma_secret_len(s: EphemeralSecret)
    ensures
        (#[trigger] s@).len() == 32,
{
}

/// A group element always views as 32 bytes.
pub broadcast proof fn lemma_shared_key_len(k: SharedKey)
    ensures
        (#[trigger] k@).len() == 32,
{
}

/// An ephemeral X25519 secret scalar, generated by the sender and never
/// transmitted.
pub struct EphemeralSecret {
    bytes: [u8; 32],
}

/// A relay's long-term secret scalar; structurally the same as an ephemeral
/// one.
pub type PrivateKey = EphemeralSecret;

impl View for EphemeralSecret {
    type V = Seq<u8>;

    closed spec fn view(&self) -> Seq<u8> {
        self.bytes@
    }
}

/// A serialized group element: a public key, or a Diffie–Hellman shared
/// element carried in the header.
#[derive(Clone, Copy, Debug)]
#[verifier::ext_equal]
pub struct SharedKey {
    bytes: [u8; 32],
}

/// A node's public X25519 element.
pub type PublicKey = SharedKey;

impl View for SharedKey {
    type V = Seq<u8>;

    closed spec fn view(&self) -> Seq<u8> {
        self.bytes@
    }
}

impl EphemeralSecret {
    /// Samples a fresh random secret scalar.
    pub fn new() -> (r: EphemeralSecret) {
        let v = random_bytes(32);
        EphemeralSecret { bytes: crate::utils::bytes_to_array(v.as_slice()) }
    }

    /// Builds a secret from its raw bytes.
    pub fn from_bytes(bytes: [u8; 32]) -> (r: EphemeralSecret)
        ensures
            r@ == bytes@,
    {
        EphemeralSecret { bytes }
    }

    /// The raw scalar bytes.
    pub fn as_bytes(&self) -> (r: &[u8; 32])
        ensures
            r@ == self@,
    {
        &self.bytes
    }

    /// X25519 Diffie–Hellman: multiplies the remote group element by this
    /// secret scalar.
    pub fn diffie_hellman(&self, remote: &SharedKey) -> (r: SharedKey)
        ensures
            r@ == dh_of(self@, remote@),
    {
        SharedKey { bytes: group_element_mul(&self.bytes, &remote.bytes) }
    }
}

impl SharedKey {
    /// Builds a group element from its serialized form.
    pub fn from_bytes(bytes: [u8; 32]) -> (r: SharedKey)
        ensures
            r@ == bytes@,
    {
        SharedKey { bytes }
    }

    /// The serialized group element.
    pub fn as_bytes(&self) -> (r: &[u8; 32])
        ensures
            r@ == self@,
    {
        &self.bytes
    }

    /// Multiplies this group element by the scalar given in canonical
    /// bytes; used to blind the shared element between hops.
    pub fn blind(&self, scalar: &[u8; 32]) -> (r: SharedKey)
        ensures
            r@ == dh_of(scalar@, self@),
    {
        SharedKey { bytes: group_element_mul(scalar, &self.bytes) }
    }
}

/// The public element of a secret scalar, as a value: the unique
/// `SharedKey` whose view is `dh_of` of the scalar and the basepoint.
pub closed spec fn spec_public_element(secret: &EphemeralSecret) -> SharedKey {
    choose|k: SharedKey| #[trigger] k@ == dh_of(secret@, CURVE_BASEPOINT@)
}

impl From<&EphemeralSecret> for SharedKey {
    /// The public element of a secret scalar: the basepoint multiplied by
    /// it.
    fn from(secret: &EphemeralSecret) -> (r: SharedKey) {
        let r = SharedKey { bytes: group_element_mul(&secret.bytes, &CURVE_BASEPOINT) };
        proof {
            assert(exists|k: SharedKey| #[trigger] k@ == dh_of(secret@, CURVE_BASEPOINT@)) by {
                assert(r@ == dh_of(secret@, CURVE_BASEPOINT@));
            }
            let k = spec_public_element(secret);
            assert(k@ == dh_of(secret@, CURVE_BASEPOINT@));
            assert(r.bytes =~= k.bytes);
            assert(r =~= k);
        }
        r
    }
}

impl vstd::std_specs::convert::FromSpecImpl<&EphemeralSecret> for SharedKey {
    open spec fn obeys_from_spec() -> bool {
        true
    }

    /// The public element of the secret: its view is fixed by `dh_of`.
    open spec fn from_spec(secret: &EphemeralSecret) -> SharedKey {
        spec_public_element(secret)
    }
}

/// Generates a key pair: a random secret scalar and its public element.
pub fn keygen() -> (r: (PrivateKey, PublicKey))
    ensures
        r.1@ == dh_of(r.0@, CURVE_BASEPOINT@),
{
    let secret = EphemeralSecret::new();
    let public = SharedKey { bytes: group_element_mul(&secret.bytes, &CURVE_BASEPOINT) };
    (secret, public)
}

} // verus!
