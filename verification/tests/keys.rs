//! Keys, their order, and what a node is configured with.
use std::str::FromStr;

use tapyrus_signer::{
    sender_index, sign, sort_keys, Network, NodeParameters, PrivateKey, PublicKey, Signature,
    SignatureMap, SignerID,
};

/// The group order of the curve, most significant byte first.
const GROUP_ORDER: [u8; 32] = [
    0xff, 0xff, 0xff, 0xff, 0xff, 0xff, 0xff, 0xff, 0xff, 0xff, 0xff, 0xff, 0xff, 0xff, 0xff, 0xfe,
    0xba, 0xae, 0xdc, 0xe6, 0xaf, 0x48, 0xa0, 0x3b, 0xbf, 0xd2, 0x5e, 0x8c, 0xd0, 0x36, 0x41, 0x41,
];

fn first_key() -> PrivateKey {
    let secret = [
        0xdb, 0xb9, 0xd1, 0x96, 0x37, 0x01, 0x82, 0x67, 0x26, 0x8d, 0xfc, 0x2c, 0xc7, 0xae, 0xc0,
        0x7e, 0x72, 0x17, 0xc1, 0xa2, 0xd6, 0x73, 0x3e, 0x11, 0x84, 0xa0, 0x90, 0x92, 0x73, 0xbf,
        0x07, 0x8b,
    ];
    PrivateKey::new(secret, true, Network::Testnet).unwrap()
}

fn from_bitcoin(key: &bitcoin::PublicKey) -> PublicKey {
    let sec1 = key.key.serialize_uncompressed();
    PublicKey {
        compressed: key.compressed,
        x: sec1[1..33].try_into().unwrap(),
        y: sec1[33..65].try_into().unwrap(),
    }
}

fn listed_keys() -> Vec<bitcoin::PublicKey> {
    [
        "03831a69b8009833ab5b0326012eaf489bfea35a7321b1ca15b11d88131423fafc",
        "02ce7edc292d7b747fab2f23584bbafaffde5c8ff17cf689969614441e0527b900",
        "02785a891f323acd6cef0fc509bb14304410595914267c50467e51c87142acbb5e",
        "02d111519ba1f3013a7a613ecdcc17f4d53fbcb558b70404b5fb0c84ebb90a8d3c",
        "02472012cf49fca573ca1f63deafe59df842f0bbe77e9ac7e67b211bb074b72506",
    ]
    .iter()
    .map(|text| bitcoin::PublicKey::from_str(text).unwrap())
    .collect()
}

#[test]
fn test_pubkey_list_sort() {
    let pubkey_list: Vec<PublicKey> = listed_keys().iter().map(from_bitcoin).collect();
    let threshold = 3;
    let params = NodeParameters::new(pubkey_list.clone(), first_key(), threshold, true, 0, true);

    assert_ne!(params.pubkey_list[0], pubkey_list[0]);
    assert_eq!(params.pubkey_list[1], pubkey_list[4]);
}

#[test]
fn the_configuration_is_made_of_its_parts() {
    let pubkey_list: Vec<PublicKey> = listed_keys().iter().map(from_bitcoin).collect();
    let params = NodeParameters::new(pubkey_list.clone(), first_key(), 3, true, 60, false);
    assert_eq!(params.threshold, 3);
    assert_eq!(params.signer_id.pubkey, pubkey_list[0]);
    assert_eq!(params.self_node_index, 4);
    assert_eq!(params.address, first_key().address());
    assert!(params.master_flag);
    assert_eq!(params.round_duration, 60);
    assert!(!params.skip_waiting_ibd);
}

#[test]
fn the_order_of_the_list_is_of_no_account() {
    let pubkey_list: Vec<PublicKey> = listed_keys().iter().map(from_bitcoin).collect();
    let mut reversed = pubkey_list.clone();
    reversed.reverse();
    let a = NodeParameters::new(pubkey_list, first_key(), 3, true, 60, false);
    let b = NodeParameters::new(reversed, first_key(), 3, true, 60, false);
    assert_eq!(a.pubkey_list, b.pubkey_list);
    assert_eq!(a.self_node_index, b.self_node_index);
}

#[test]
fn a_federation_without_the_node_is_refused() {
    let pubkey_list: Vec<PublicKey> = listed_keys().iter().map(from_bitcoin).collect();
    let stranger = PrivateKey::new([5; 32], true, Network::Testnet).unwrap();
    assert!(NodeParameters::checked_new(pubkey_list.clone(), stranger, 3, true, 0, true).is_none());
    let params = NodeParameters::checked_new(pubkey_list, first_key(), 3, true, 0, true).unwrap();
    assert_eq!(params.self_node_index, 4);
}

#[test]
fn keys_are_ordered_as_bitcoin_orders_them() {
    let mut theirs = listed_keys();
    for k in 1..60 {
        let key = secp256k1::SecretKey::from_slice(&[k; 32]).unwrap();
        let compressed = k % 3 != 0;
        let private_key =
            bitcoin::PrivateKey { compressed, network: bitcoin::Network::Testnet, key };
        let public_key = private_key.public_key(&secp256k1::Secp256k1::new());
        theirs.push(public_key);
        // The opposite point: the same x with the other y.
        let mut opposite = public_key.key.serialize();
        opposite[0] ^= 1;
        theirs.push(bitcoin::PublicKey {
            compressed,
            key: secp256k1::PublicKey::from_slice(&opposite).unwrap(),
        });
    }
    let ours = sort_keys(&theirs.iter().map(from_bitcoin).collect());
    theirs.sort();
    let expected: Vec<PublicKey> = theirs.iter().map(from_bitcoin).collect();
    if is_little_endian() {
        assert_eq!(ours, expected);
    }
}

fn is_little_endian() -> bool {
    1_u16.to_ne_bytes()[0] == 1
}

#[test]
fn a_signer_is_found_at_its_first_place() {
    let keys: Vec<PublicKey> = listed_keys().iter().map(from_bitcoin).collect();
    let list = vec![keys[1], keys[0], keys[1], keys[0]];
    assert_eq!(sender_index(&SignerID { pubkey: keys[0] }, &list), Some(1));
    assert_eq!(sender_index(&SignerID { pubkey: keys[1] }, &list), Some(0));
    assert_eq!(sender_index(&SignerID { pubkey: keys[2] }, &list), None);
}

#[test]
fn a_public_key_is_the_one_of_bitcoin() {
    assert_eq!(first_key().public_key(), from_bitcoin(&listed_keys()[0]));
    let uncompressed = PrivateKey::new([5; 32], false, Network::Bitcoin).unwrap();
    assert!(!uncompressed.public_key().compressed);
}

#[test]
fn an_address_is_the_one_of_bitcoin() {
    let key = bitcoin::PublicKey::from_str(
        "03831a69b8009833ab5b0326012eaf489bfea35a7321b1ca15b11d88131423fafc",
    )
    .unwrap();
    let expected = bitcoin::Address::p2pkh(&key, bitcoin::Network::Testnet).to_string();
    assert_eq!(first_key().address(), expected);
    assert_eq!(first_key().address(), "mzPrm4t5p2msVrGnb6fzn9HUfZc25E4bQc");
    let main = PrivateKey::new([5; 32], true, Network::Bitcoin).unwrap().address();
    assert!(main.starts_with('1'));
}

#[test]
fn a_secret_lies_between_zero_and_the_group_order() {
    assert!(PrivateKey::new([0; 32], true, Network::Regtest).is_none());
    assert!(PrivateKey::new(GROUP_ORDER, true, Network::Regtest).is_none());
    let mut below = GROUP_ORDER;
    below[31] -= 1;
    assert!(PrivateKey::new(below, true, Network::Regtest).is_some());
    assert!(PrivateKey::new([0xff; 32], true, Network::Regtest).is_none());
}

#[test]
fn a_signature_verifies_under_its_own_key_only() {
    let key = PrivateKey::new([0xcd; 32], true, Network::Testnet).unwrap();
    let other = PrivateKey::new([0xce; 32], true, Network::Testnet).unwrap();
    let digest = [0xab; 32];
    let signature = sign(&key, &digest);
    assert!(key.public_key().verify(&digest, &signature));
    assert!(!other.public_key().verify(&digest, &signature));
    assert!(!key.public_key().verify(&[0xac; 32], &signature));
    assert!(!key.public_key().verify(&digest, &Signature { compact: [0; 64] }));
    assert!(!key.public_key().verify(&digest, &Signature { compact: [0xff; 64] }));
}

#[test]
fn a_signature_is_the_one_of_secp256k1() {
    let digest = [0xab; 32];
    let secret = secp256k1::SecretKey::from_slice(&[0xcd; 32]).unwrap();
    let message = secp256k1::Message::from_slice(&digest).unwrap();
    let expected = secp256k1::Secp256k1::new().sign(&message, &secret).serialize_compact();
    let key = PrivateKey::new([0xcd; 32], true, Network::Testnet).unwrap();
    assert_eq!(sign(&key, &digest).compact, expected);
}

#[test]
fn no_point_means_no_valid_signature() {
    let key = PrivateKey::new([0xcd; 32], true, Network::Testnet).unwrap();
    let digest = [0xab; 32];
    let nowhere = PublicKey { compressed: true, x: [1; 32], y: [1; 32] };
    assert!(!nowhere.verify(&digest, &sign(&key, &digest)));
}

#[test]
fn a_signer_has_one_signature() {
    let signers: Vec<SignerID> =
        listed_keys().iter().map(|key| SignerID { pubkey: from_bitcoin(key) }).collect();
    let mut map = SignatureMap::new();
    assert_eq!(map.len(), 0);
    map.insert(signers[0], Signature { compact: [1; 64] });
    map.insert(signers[1], Signature { compact: [2; 64] });
    map.insert(signers[0], Signature { compact: [3; 64] });
    assert_eq!(map.len(), 2);
    assert!(map.contains_key(&signers[1]));
    assert!(!map.contains_key(&signers[2]));
    assert_eq!(
        map.values(),
        vec![Signature { compact: [3; 64] }, Signature { compact: [2; 64] }]
    );
    assert_eq!(map.clone(), map);
    let mut other = SignatureMap::new();
    assert_ne!(other, map);
    assert_ne!(map, other);
    other.insert(signers[1], Signature { compact: [2; 64] });
    other.insert(signers[0], Signature { compact: [4; 64] });
    assert_ne!(other, map);
    other.insert(signers[0], Signature { compact: [3; 64] });
    assert_eq!(other, map);
}
