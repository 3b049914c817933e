use sphinx::constants::{
    HEADER_SIZE, HKDF_SALT_SIZE, MAX_PATH_LENGTH, NODE_ADDRESS_LENGTH,
    STREAM_CIPHER_OUTPUT_LENGTH,
};
use sphinx::crypto::{self, EphemeralSecret, PrivateKey, PublicKey};
use sphinx::delays::Delay;
use sphinx::error::ErrorKind;
use sphinx::filler::Filler;
use sphinx::header::{HkdfSalt, ProcessedHeader, SphinxHeader};
use sphinx::keys::{KeyMaterial, PayloadKey, RoutingKeys};
use sphinx::route::{Destination, DestinationAddressBytes, Node, NodeAddressBytes};

fn destination_fixture() -> Destination {
    Destination {
        address: DestinationAddressBytes::from_bytes([3u8; 32]),
        surb_id: [4u8; 16],
    }
}

fn make_route(n: usize) -> (Vec<PrivateKey>, Vec<Node>) {
    let mut secrets: Vec<PrivateKey> = Vec::new();
    let mut nodes: Vec<Node> = Vec::new();
    for i in 0..n {
        let (sk, pk): (PrivateKey, PublicKey) = crypto::keygen();
        secrets.push(sk);
        nodes.push(Node {
            address: NodeAddressBytes::from_bytes([10 + i as u8; NODE_ADDRESS_LENGTH]),
            pub_key: pk,
        });
    }
    (secrets, nodes)
}

fn salts(n: usize) -> Vec<HkdfSalt> {
    (0..n).map(|i| [20 + i as u8; HKDF_SALT_SIZE]).collect()
}

fn delays(n: usize) -> Vec<Delay> {
    (0..n).map(|i| Delay::new_from_nanos(i as u64 * 17 + 3)).collect()
}

// A full traversal succeeds at the maximum route length, each hop returning
// a forward hop until the last, and the payload key of hop k equals the
// k-th key that construction handed out.
#[test]
fn max_length_route_traversal_succeeds() {
    let n = MAX_PATH_LENGTH;
    let (secrets, nodes) = make_route(n);
    let hkdf_salt = salts(n);
    let route_delays = delays(n);
    let destination = destination_fixture();
    let initial_secret = EphemeralSecret::new();
    let (mut header, payload_keys) = SphinxHeader::new(
        &initial_secret,
        &nodes,
        &route_delays,
        &hkdf_salt,
        &destination,
    );
    assert_eq!(payload_keys.len(), n);
    for k in 0..n {
        match header.process(&secrets[k]).unwrap() {
            ProcessedHeader::ForwardHop(next_header, next_address, delay, payload_key) => {
                assert!(k < n - 1);
                assert_eq!(next_address.to_bytes(), nodes[k + 1].address.to_bytes());
                assert_eq!(delay.to_nanos(), route_delays[k].to_nanos());
                assert_eq!(payload_key.to_vec(), payload_keys[k].to_vec());
                header = next_header;
            }
            ProcessedHeader::FinalHop(dest_addr, surb_id, payload_key) => {
                assert_eq!(k, n - 1);
                assert_eq!(dest_addr.to_bytes(), destination.address.to_bytes());
                assert_eq!(surb_id, destination.surb_id);
                assert_eq!(payload_key.to_vec(), payload_keys[k].to_vec());
                return;
            }
        }
    }
    panic!("the final hop was never reached");
}

// One payload key per hop, in order: the key returned while processing hop
// k equals the k-th key returned by construction.
#[test]
fn payload_keys_match_construction_order() {
    let n = 3;
    let (secrets, nodes) = make_route(n);
    let hkdf_salt = salts(n);
    let route_delays = delays(n);
    let destination = destination_fixture();
    let initial_secret = EphemeralSecret::new();
    let (header, payload_keys) = SphinxHeader::new(
        &initial_secret,
        &nodes,
        &route_delays,
        &hkdf_salt,
        &destination,
    );
    assert_eq!(payload_keys.len(), n);
    let mut collected: Vec<PayloadKey> = Vec::new();
    let mut current = header;
    for k in 0..n {
        match current.process(&secrets[k]).unwrap() {
            ProcessedHeader::ForwardHop(next_header, _, _, payload_key) => {
                collected.push(payload_key);
                current = next_header;
            }
            ProcessedHeader::FinalHop(_, _, payload_key) => {
                collected.push(payload_key);
                break;
            }
        }
    }
    assert_eq!(collected.len(), n);
    for k in 0..n {
        assert_eq!(collected[k].to_vec(), payload_keys[k].to_vec());
    }
}

// A single-hop route has an empty filler and its only hop returns the
// final-hop outcome.
#[test]
fn single_hop_filler_empty_and_final() {
    let empty: [RoutingKeys; 0] = [];
    let filler = Filler::new(&empty);
    assert!(filler.as_bytes().is_empty());

    let (secrets, nodes) = make_route(1);
    let hkdf_salt = salts(1);
    let route_delays = delays(1);
    let destination = destination_fixture();
    let initial_secret = EphemeralSecret::new();
    let (header, _) = SphinxHeader::new(
        &initial_secret,
        &nodes,
        &route_delays,
        &hkdf_salt,
        &destination,
    );
    match header.process(&secrets[0]).unwrap() {
        ProcessedHeader::FinalHop(dest_addr, surb_id, _) => {
            assert_eq!(dest_addr.to_bytes(), destination.address.to_bytes());
            assert_eq!(surb_id, destination.surb_id);
        }
        _ => panic!("a single-hop header must resolve to the final hop"),
    }
}

// Any single-bit change to the serialized header makes the next processing
// step fail: flipping a bit in the routing block, in the MAC, in the salt
// or in the group element is detected.
#[test]
fn single_bit_mutation_is_rejected() {
    let n = 3;
    let (secrets, nodes) = make_route(n);
    let hkdf_salt = salts(n);
    let route_delays = delays(n);
    let destination = destination_fixture();
    let initial_secret = EphemeralSecret::new();
    let (header, _) = SphinxHeader::new(
        &initial_secret,
        &nodes,
        &route_delays,
        &hkdf_salt,
        &destination,
    );
    let bytes = header.to_bytes();
    // one position in each region: group element, salt, routing block, MAC
    for &position in &[0usize, 40, 100, HEADER_SIZE - 1] {
        let mut tampered = bytes.clone();
        tampered[position] ^= 0x01;
        let recovered = SphinxHeader::from_bytes(&tampered).unwrap();
        let outcome = recovered.process(&secrets[0]);
        assert!(outcome.is_err());
        assert_eq!(outcome.err().unwrap().kind(), ErrorKind::InvalidHeader);
    }
    // the untampered bytes still process fine
    let recovered = SphinxHeader::from_bytes(&bytes).unwrap();
    assert!(recovered.process(&secrets[0]).is_ok());
}

// Processing the first hop with a salt other than the one the header was
// built with fails with an invalid-header error.
#[test]
fn processing_with_wrong_salt_first_hop_fails() {
    let n = 3;
    let (secrets, nodes) = make_route(n);
    let hkdf_salt: Vec<HkdfSalt> = vec![[25u8; HKDF_SALT_SIZE], [123u8; HKDF_SALT_SIZE], [12u8;
        HKDF_SALT_SIZE]];
    let route_delays = delays(n);
    let destination = destination_fixture();
    let initial_secret = EphemeralSecret::new();
    let (header, _) = SphinxHeader::new(
        &initial_secret,
        &nodes,
        &route_delays,
        &hkdf_salt,
        &destination,
    );
    let wrong_salt = [36u8; HKDF_SALT_SIZE];
    let shared_key = secrets[0].diffie_hellman(&header.shared_secret);
    let outcome = header.process_with_previously_derived_keys(shared_key, Some(&wrong_salt));
    assert!(outcome.is_err());
    assert_eq!(outcome.err().unwrap().kind(), ErrorKind::InvalidHeader);
}

// Processing the middle hop with a wrong salt fails, after the first hop
// succeeded with the right one.
#[test]
fn processing_with_wrong_salt_middle_hop_fails() {
    let n = 3;
    let (secrets, nodes) = make_route(n);
    let hkdf_salt: Vec<HkdfSalt> = vec![[25u8; HKDF_SALT_SIZE], [123u8; HKDF_SALT_SIZE], [12u8;
        HKDF_SALT_SIZE]];
    let route_delays = delays(n);
    let destination = destination_fixture();
    let initial_secret = EphemeralSecret::new();
    let (header, _) = SphinxHeader::new(
        &initial_secret,
        &nodes,
        &route_delays,
        &hkdf_salt,
        &destination,
    );
    let shared_key = secrets[0].diffie_hellman(&header.shared_secret);
    let unwrapped = match header
        .process_with_previously_derived_keys(shared_key, Some(&hkdf_salt[0]))
        .unwrap()
    {
        ProcessedHeader::ForwardHop(new_header, ..) => new_header,
        _ => unreachable!(),
    };
    let wrong_salt = [221u8; HKDF_SALT_SIZE];
    let shared_key2 = secrets[1].diffie_hellman(&unwrapped.shared_secret);
    let outcome = unwrapped.process_with_previously_derived_keys(shared_key2, Some(&wrong_salt));
    assert!(outcome.is_err());
}

// Processing the final hop with a wrong salt fails, after the first two
// hops succeeded with the right ones.
#[test]
fn processing_with_wrong_salt_final_hop_fails() {
    let n = 3;
    let (secrets, nodes) = make_route(n);
    let hkdf_salt: Vec<HkdfSalt> = vec![[25u8; HKDF_SALT_SIZE], [123u8; HKDF_SALT_SIZE], [12u8;
        HKDF_SALT_SIZE]];
    let route_delays = delays(n);
    let destination = destination_fixture();
    let initial_secret = EphemeralSecret::new();
    let (header, _) = SphinxHeader::new(
        &initial_secret,
        &nodes,
        &route_delays,
        &hkdf_salt,
        &destination,
    );
    let shared_key = secrets[0].diffie_hellman(&header.shared_secret);
    let unwrapped = match header
        .process_with_previously_derived_keys(shared_key, Some(&hkdf_salt[0]))
        .unwrap()
    {
        ProcessedHeader::ForwardHop(new_header, ..) => new_header,
        _ => unreachable!(),
    };
    let shared_key2 = secrets[1].diffie_hellman(&unwrapped.shared_secret);
    let unwrapped2 = match unwrapped
        .process_with_previously_derived_keys(shared_key2, Some(&hkdf_salt[1]))
        .unwrap()
    {
        ProcessedHeader::ForwardHop(new_header, ..) => new_header,
        _ => unreachable!(),
    };
    let wrong_salt = [89u8; HKDF_SALT_SIZE];
    let shared_key3 = secrets[2].diffie_hellman(&unwrapped2.shared_secret);
    let outcome = unwrapped2.process_with_previously_derived_keys(shared_key3, Some(&wrong_salt));
    assert!(outcome.is_err());
}

// Deserialization rejects exactly the inputs whose length is not the fixed
// header length.
#[test]
fn from_bytes_rejects_wrong_length() {
    let short = vec![0u8; HEADER_SIZE - 1];
    let outcome = SphinxHeader::from_bytes(&short);
    assert!(outcome.is_err());
    assert_eq!(outcome.err().unwrap().kind(), ErrorKind::InvalidHeader);

    let long = vec![0u8; HEADER_SIZE + 1];
    assert!(SphinxHeader::from_bytes(&long).is_err());

    let exact = vec![0u8; HEADER_SIZE];
    assert!(SphinxHeader::from_bytes(&exact).is_ok());
}

// Serialization of a freshly built header round-trips through the byte
// codec: length, group element, salt and routing bytes are preserved.
#[test]
fn built_header_roundtrips_through_bytes() {
    let n = 3;
    let (secrets, nodes) = make_route(n);
    let hkdf_salt = salts(n);
    let route_delays = delays(n);
    let destination = destination_fixture();
    let initial_secret = EphemeralSecret::new();
    let (header, _) = SphinxHeader::new(
        &initial_secret,
        &nodes,
        &route_delays,
        &hkdf_salt,
        &destination,
    );
    let bytes = header.to_bytes();
    assert_eq!(bytes.len(), HEADER_SIZE);
    let recovered = SphinxHeader::from_bytes(&bytes).unwrap();
    assert_eq!(
        recovered.shared_secret.as_bytes(),
        header.shared_secret.as_bytes()
    );
    assert_eq!(recovered.hkdf_salt, header.hkdf_salt);
    assert_eq!(
        recovered.routing_info.to_bytes(),
        header.routing_info.to_bytes()
    );
    assert_eq!(recovered.to_bytes(), bytes);
    // the recovered header still processes correctly
    assert!(recovered.process(&secrets[0]).is_ok());
}

// The Diffie–Hellman wrapper behaves as scalar multiplication on the curve:
// both sides of an exchange derive the same shared element, and it differs
// from either public element.
#[test]
fn diffie_hellman_agrees_on_both_sides() {
    let (sk1, pk1) = crypto::keygen();
    let (sk2, pk2) = crypto::keygen();
    let shared12 = sk1.diffie_hellman(&pk2);
    let shared21 = sk2.diffie_hellman(&pk1);
    assert_eq!(shared12.as_bytes(), shared21.as_bytes());
    assert_ne!(shared12.as_bytes(), pk1.as_bytes());
    assert_ne!(shared12.as_bytes(), pk2.as_bytes());
}

// The stream cipher is a deterministic function of key and initialisation
// vector, with the requested length, and is not a trivial stream.
#[test]
fn stream_cipher_output_is_deterministic() {
    let key1 = [1u8; 16];
    let key2 = [2u8; 16];
    let a = crypto::generate_pseudorandom_bytes(
        &key1,
        &crypto::STREAM_CIPHER_INIT_VECTOR,
        STREAM_CIPHER_OUTPUT_LENGTH,
    );
    let b = crypto::generate_pseudorandom_bytes(
        &key1,
        &crypto::STREAM_CIPHER_INIT_VECTOR,
        STREAM_CIPHER_OUTPUT_LENGTH,
    );
    let c = crypto::generate_pseudorandom_bytes(
        &key2,
        &crypto::STREAM_CIPHER_INIT_VECTOR,
        STREAM_CIPHER_OUTPUT_LENGTH,
    );
    assert_eq!(a.len(), STREAM_CIPHER_OUTPUT_LENGTH);
    assert_eq!(a, b);
    assert_ne!(a, c);
    assert!(a.iter().any(|&byte| byte != 0));
}

// The routing-key expansion separates salts: the same master key with two
// different salts gives two different bundles, and the same inputs give the
// same bundle.
#[test]
fn routing_keys_depend_on_salt() {
    let (sk, pk) = crypto::keygen();
    let shared = sk.diffie_hellman(&pk);
    let salt_a = [1u8; HKDF_SALT_SIZE];
    let salt_b = [2u8; HKDF_SALT_SIZE];
    let keys_a1 = SphinxHeader::compute_routing_keys(shared, Some(&salt_a));
    let keys_a2 = SphinxHeader::compute_routing_keys(shared, Some(&salt_a));
    let keys_b = SphinxHeader::compute_routing_keys(shared, Some(&salt_b));
    assert_eq!(keys_a1.stream_cipher_key, keys_a2.stream_cipher_key);
    assert_eq!(keys_a1.payload_key.to_vec(), keys_a2.payload_key.to_vec());
    assert_ne!(keys_a1.stream_cipher_key, keys_b.stream_cipher_key);
    assert_ne!(
        keys_a1.header_integrity_hmac_key,
        keys_b.header_integrity_hmac_key
    );
}

// The blinding factor depends on the shared key alone, so processing with a
// fresh salt still reblinds the group element the same way.
#[test]
fn blinding_factor_ignores_salt() {
    let (sk, pk) = crypto::keygen();
    let shared = sk.diffie_hellman(&pk);
    let f1 = KeyMaterial::compute_blinding_factor(shared);
    let f2 = KeyMaterial::compute_blinding_factor(shared);
    assert_eq!(f1, f2);
}

// The fixed sizes compose as the format says: the per-hop metadata, the
// unwrap step, the routing block and the whole header.
#[test]
fn size_formulas_have_expected_values() {
    assert_eq!(sphinx::constants::NODE_META_INFO_SIZE, 73);
    assert_eq!(sphinx::constants::FILLER_STEP_SIZE, 89);
    assert_eq!(sphinx::constants::ENCRYPTED_ROUTING_INFO_SIZE, 445);
    assert_eq!(STREAM_CIPHER_OUTPUT_LENGTH, 534);
    assert_eq!(HEADER_SIZE, 525);
    assert_eq!(sphinx::constants::ROUTING_KEYS_LENGTH, 256);
}
