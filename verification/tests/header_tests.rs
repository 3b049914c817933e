use sphinx::constants::{
    ENCRYPTED_ROUTING_INFO_SIZE, HEADER_INTEGRITY_MAC_SIZE, HKDF_SALT_SIZE, NODE_ADDRESS_LENGTH,
    NODE_META_INFO_SIZE, STREAM_CIPHER_OUTPUT_LENGTH,
};
use sphinx::crypto::{self, EphemeralSecret, SharedKey};
use sphinx::delays::Delay;
use sphinx::header::{HkdfSalt, ProcessedHeader, SphinxHeader};
use sphinx::keys::KeyMaterial;
use sphinx::route::{Destination, DestinationAddressBytes, Node, NodeAddressBytes};
use sphinx::routing::{
    EncapsulatedRoutingInformation, EncryptedRoutingInformation, ParsedRawRoutingInformation,
    FORWARD_HOP,
};
use sphinx::utils;

fn destination_fixture() -> Destination {
    Destination {
        address: DestinationAddressBytes::from_bytes([3u8; 32]),
        surb_id: [4u8; 16],
    }
}

fn hkdf_salt_fixture() -> HkdfSalt {
    [7u8; HKDF_SALT_SIZE]
}

fn delays_fixture(n: usize) -> Vec<Delay> {
    (0..n)
        .map(|i| Delay::new_from_nanos(1_000_000_000 + i as u64))
        .collect()
}

#[test]
fn it_returns_correct_routing_information_for_route_of_3_mixnodes() {
    let (node1_sk, node1_pk) = crypto::keygen();
    let node1 = Node {
        address: NodeAddressBytes::from_bytes([5u8; NODE_ADDRESS_LENGTH]),
        pub_key: node1_pk,
    };
    let (node2_sk, node2_pk) = crypto::keygen();
    let node2 = Node {
        address: NodeAddressBytes::from_bytes([4u8; NODE_ADDRESS_LENGTH]),
        pub_key: node2_pk,
    };
    let (node3_sk, node3_pk) = crypto::keygen();
    let node3 = Node {
        address: NodeAddressBytes::from_bytes([2u8; NODE_ADDRESS_LENGTH]),
        pub_key: node3_pk,
    };
    let route = [node1, node2, node3];
    let destination = destination_fixture();
    let initial_secret = EphemeralSecret::new();
    let delays = delays_fixture(route.len());

    let hkdf_salt = [
        hkdf_salt_fixture(),
        hkdf_salt_fixture(),
        hkdf_salt_fixture(),
    ];

    let key_material = KeyMaterial::derive_shared_keys(&route, &initial_secret);
    let initial_shared_secret = SharedKey::from(&initial_secret);

    let (header, _) = SphinxHeader::new_with_precomputed_keys(
        &route,
        &delays,
        &hkdf_salt,
        &destination,
        &key_material.shared_keys,
        &initial_shared_secret,
    );

    // The first mix processing
    let shared_key1 = node1_sk.diffie_hellman(&header.shared_secret);
    let derived_unwrapped1 = match header
        .process_with_previously_derived_keys(shared_key1, Some(&hkdf_salt[0]))
        .unwrap()
    {
        ProcessedHeader::ForwardHop(new_header, next_hop_address, delay, _) => {
            assert_eq!(node2.address.to_bytes(), next_hop_address.to_bytes());
            assert_eq!(delays[0].to_nanos(), delay.to_nanos());
            new_header
        }
        _ => unreachable!(),
    };

    // The second mix processing
    let shared_key2 = node2_sk.diffie_hellman(&derived_unwrapped1.shared_secret);
    let derived_unwrapped2 = match derived_unwrapped1
        .process_with_previously_derived_keys(shared_key2, Some(&hkdf_salt[1]))
        .unwrap()
    {
        ProcessedHeader::ForwardHop(new_header, next_hop_address, delay, _) => {
            assert_eq!(node3.address.to_bytes(), next_hop_address.to_bytes());
            assert_eq!(delays[1].to_nanos(), delay.to_nanos());
            new_header
        }
        _ => unreachable!(),
    };

    // The last mix processing
    let shared_key3 = node3_sk.diffie_hellman(&derived_unwrapped2.shared_secret);
    match derived_unwrapped2
        .process_with_previously_derived_keys(shared_key3, Some(&hkdf_salt[2]))
        .unwrap()
    {
        ProcessedHeader::FinalHop(destination_address, ..) => {
            assert_eq!(destination.address.to_bytes(), destination_address.to_bytes())
        }
        _ => unreachable!(),
    };
}

#[test]
fn produces_same_result_for_forward_hop_as_process_with_fresh_keys() {
    let (node1_sk, node1_pk) = crypto::keygen();
    let node1 = Node {
        address: NodeAddressBytes::from_bytes([5u8; NODE_ADDRESS_LENGTH]),
        pub_key: node1_pk,
    };
    let (node2_sk, node2_pk) = crypto::keygen();
    let node2 = Node {
        address: NodeAddressBytes::from_bytes([4u8; NODE_ADDRESS_LENGTH]),
        pub_key: node2_pk,
    };
    let route = [node1, node2];
    let destination = destination_fixture();
    let initial_secret = EphemeralSecret::new();
    let delays = delays_fixture(route.len());
    let hkdf_salt = [hkdf_salt_fixture(), hkdf_salt_fixture()];
    let (sphinx_header, _) =
        SphinxHeader::new(&initial_secret, &route, &delays, &hkdf_salt, &destination);

    // The first mix processing
    let normally_unwrapped1 = match sphinx_header.clone().process(&node1_sk).unwrap() {
        ProcessedHeader::ForwardHop(new_header, ..) => new_header,
        _ => unreachable!(),
    };

    let shared_key1 = node1_sk.diffie_hellman(&sphinx_header.shared_secret);
    let derived_unwrapped1 = match sphinx_header
        .process_with_previously_derived_keys(shared_key1, Some(&hkdf_salt[0]))
        .unwrap()
    {
        ProcessedHeader::ForwardHop(new_header, ..) => new_header,
        _ => unreachable!(),
    };

    assert_eq!(
        normally_unwrapped1.shared_secret.as_bytes(),
        derived_unwrapped1.shared_secret.as_bytes()
    );
    assert_eq!(
        normally_unwrapped1.routing_info.to_bytes(),
        derived_unwrapped1.routing_info.to_bytes()
    );

    // The final (second) mix processing
    let normally_unwrapped2 = match derived_unwrapped1.clone().process(&node2_sk).unwrap() {
        ProcessedHeader::FinalHop(destination_address, ..) => destination_address,
        _ => unreachable!(),
    };

    let shared_key2 = node2_sk.diffie_hellman(&derived_unwrapped1.shared_secret);
    let derived_unwrapped2 = match derived_unwrapped1
        .process_with_previously_derived_keys(shared_key2, Some(&hkdf_salt[1]))
        .unwrap()
    {
        ProcessedHeader::FinalHop(destination_address, ..) => destination_address,
        _ => unreachable!(),
    };

    assert_eq!(
        normally_unwrapped2.to_bytes(),
        derived_unwrapped2.to_bytes()
    );
}

#[test]
fn produces_same_result_for_final_hop_as_process_with_fresh_keys() {
    let (node1_sk, node1_pk) = crypto::keygen();
    let node1 = Node {
        address: NodeAddressBytes::from_bytes([5u8; NODE_ADDRESS_LENGTH]),
        pub_key: node1_pk,
    };
    let route = [node1];
    let destination = destination_fixture();
    let initial_secret = EphemeralSecret::new();
    let delays = delays_fixture(route.len());
    let hkdf_salt = [hkdf_salt_fixture()];
    let (sphinx_header, _) =
        SphinxHeader::new(&initial_secret, &route, &delays, &hkdf_salt, &destination);

    let normally_unwrapped = match sphinx_header.clone().process(&node1_sk).unwrap() {
        ProcessedHeader::FinalHop(destination, surb_id, keys) => (destination, surb_id, keys),
        _ => unreachable!(),
    };

    let shared_key = node1_sk.diffie_hellman(&sphinx_header.shared_secret);
    let derived_unwrapped = match sphinx_header
        .process_with_previously_derived_keys(shared_key, Some(&hkdf_salt[0]))
        .unwrap()
    {
        ProcessedHeader::FinalHop(destination, surb_id, keys) => (destination, surb_id, keys),
        _ => unreachable!(),
    };

    assert_eq!(normally_unwrapped.0.to_bytes(), derived_unwrapped.0.to_bytes());
    assert_eq!(normally_unwrapped.1, derived_unwrapped.1);
    assert_eq!(normally_unwrapped.2.to_vec(), derived_unwrapped.2.to_vec())
}

#[test]
fn it_returns_correct_routing_information_at_each_hop_for_route_of_3_mixnodes() {
    let (node1_sk, node1_pk) = crypto::keygen();
    let node1 = Node {
        address: NodeAddressBytes::from_bytes([5u8; NODE_ADDRESS_LENGTH]),
        pub_key: node1_pk,
    };
    let (node2_sk, node2_pk) = crypto::keygen();
    let node2 = Node {
        address: NodeAddressBytes::from_bytes([4u8; NODE_ADDRESS_LENGTH]),
        pub_key: node2_pk,
    };
    let (node3_sk, node3_pk) = crypto::keygen();
    let node3 = Node {
        address: NodeAddressBytes::from_bytes([2u8; NODE_ADDRESS_LENGTH]),
        pub_key: node3_pk,
    };
    let route = [node1, node2, node3];
    let destination = destination_fixture();
    let initial_secret = EphemeralSecret::new();
    let delays = delays_fixture(route.len());

    let hkdf_salt = [
        hkdf_salt_fixture(),
        hkdf_salt_fixture(),
        hkdf_salt_fixture(),
    ];

    let (sphinx_header, _) =
        SphinxHeader::new(&initial_secret, &route, &delays, &hkdf_salt, &destination);

    let new_header = match sphinx_header.process(&node1_sk).unwrap() {
        ProcessedHeader::ForwardHop(new_header, next_hop_address, delay, _) => {
            assert_eq!(
                NodeAddressBytes::from_bytes([4u8; NODE_ADDRESS_LENGTH]).to_bytes(),
                next_hop_address.to_bytes()
            );
            assert_eq!(delays[0].to_nanos(), delay.to_nanos());
            new_header
        }
        _ => panic!(),
    };

    let new_header2 = match new_header.process(&node2_sk).unwrap() {
        ProcessedHeader::ForwardHop(new_header, next_hop_address, delay, _) => {
            assert_eq!(
                NodeAddressBytes::from_bytes([2u8; NODE_ADDRESS_LENGTH]).to_bytes(),
                next_hop_address.to_bytes()
            );
            assert_eq!(delays[1].to_nanos(), delay.to_nanos());
            new_header
        }
        _ => panic!(),
    };
    match new_header2.process(&node3_sk).unwrap() {
        ProcessedHeader::FinalHop(final_destination, _, _) => {
            assert_eq!(destination.address.to_bytes(), final_destination.to_bytes());
        }
        _ => panic!(),
    };
}

#[test]
fn it_returns_correct_unwrapped_routing_information() {
    let mut routing_info = [9u8; ENCRYPTED_ROUTING_INFO_SIZE];
    routing_info[0] = FORWARD_HOP;
    let stream_cipher_key = [1u8; sphinx::constants::STREAM_CIPHER_KEY_SIZE];
    let pseudorandom_bytes = crypto::generate_pseudorandom_bytes(
        &stream_cipher_key,
        &crypto::STREAM_CIPHER_INIT_VECTOR,
        STREAM_CIPHER_OUTPUT_LENGTH,
    );
    let encrypted_routing_info_vec = utils::xor(
        &routing_info,
        &pseudorandom_bytes[..ENCRYPTED_ROUTING_INFO_SIZE],
    );
    let mut encrypted_routing_info_array = [0u8; ENCRYPTED_ROUTING_INFO_SIZE];
    encrypted_routing_info_array.copy_from_slice(&encrypted_routing_info_vec);

    let enc_routing_info = EncryptedRoutingInformation::from_bytes(encrypted_routing_info_array);

    let expected_next_hop_encrypted_routing_information = [
        routing_info[NODE_META_INFO_SIZE + HEADER_INTEGRITY_MAC_SIZE..].to_vec(),
        pseudorandom_bytes
            [NODE_META_INFO_SIZE + HEADER_INTEGRITY_MAC_SIZE + ENCRYPTED_ROUTING_INFO_SIZE..]
            .to_vec(),
    ]
    .concat();
    let next_hop_encapsulated_routing_info = match enc_routing_info.unwrap(stream_cipher_key).unwrap()
    {
        ParsedRawRoutingInformation::ForwardHop(
            next_hop_address,
            _delay,
            _next_hkdf_salt,
            next_hop_encapsulated_routing_info,
        ) => {
            assert_eq!(
                routing_info[1..1 + NODE_ADDRESS_LENGTH],
                next_hop_address.to_bytes()
            );
            assert_eq!(
                routing_info[NODE_ADDRESS_LENGTH..NODE_ADDRESS_LENGTH + HEADER_INTEGRITY_MAC_SIZE]
                    .to_vec(),
                next_hop_encapsulated_routing_info
                    .integrity_mac
                    .as_bytes()
                    .to_vec()
            );
            next_hop_encapsulated_routing_info
        }
        _ => panic!(),
    };

    let next_hop_encrypted_routing_information = next_hop_encapsulated_routing_info
        .enc_routing_information
        .get_value_ref();

    for i in 0..expected_next_hop_encrypted_routing_information.len() {
        assert_eq!(
            expected_next_hop_encrypted_routing_information[i],
            next_hop_encrypted_routing_information[i]
        );
    }
}

#[test]
fn it_is_possible_to_convert_back_and_forth() {
    let encapsulated_routing_info = EncapsulatedRoutingInformation::from_bytes(
        &[6u8; ENCRYPTED_ROUTING_INFO_SIZE + HEADER_INTEGRITY_MAC_SIZE],
    )
    .unwrap();
    let hkdf_salt = [7u8; HKDF_SALT_SIZE];
    let header = SphinxHeader {
        shared_secret: SharedKey::from(&EphemeralSecret::new()),
        hkdf_salt,
        routing_info: encapsulated_routing_info,
    };

    let header_bytes = header.to_bytes();
    let recovered_header = SphinxHeader::from_bytes(&header_bytes).unwrap();

    assert_eq!(
        header.shared_secret.as_bytes(),
        recovered_header.shared_secret.as_bytes()
    );
    assert_eq!(
        header.routing_info.to_bytes(),
        recovered_header.routing_info.to_bytes()
    );
}
