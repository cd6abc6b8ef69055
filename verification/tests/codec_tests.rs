use music_ownable::address::{derive_eip155, derive_local, NETWORK_ID_MAIN, NETWORK_ID_TEST};
use music_ownable::network::{parse_network_id, resolve_namespace, CodecVariant};
use music_ownable::ContractError;

// Compressed secp256k1 public key of private key 1 (the generator point).
const PK1: [u8; 33] = [
    0x02, 0x79, 0xBE, 0x66, 0x7E, 0xF9, 0xDC, 0xBB, 0xAC, 0x55, 0xA0, 0x62, 0x95, 0xCE, 0x87,
    0x0B, 0x07, 0x02, 0x9B, 0xFC, 0xDB, 0x2D, 0xCE, 0x28, 0xD9, 0x59, 0xF2, 0x81, 0x5B, 0x16,
    0xF8, 0x17, 0x98,
];

// Compressed secp256k1 public key of private key 2.
const PK2: [u8; 33] = [
    0x02, 0xC6, 0x04, 0x7F, 0x94, 0x41, 0xED, 0x7D, 0x6D, 0x30, 0x45, 0x40, 0x6E, 0x95, 0xC0,
    0x7C, 0xD8, 0x5C, 0x77, 0x8E, 0x4B, 0x8C, 0xEF, 0x3C, 0xA7, 0xAB, 0xAC, 0x09, 0xB9, 0x5C,
    0x70, 0x9E, 0xE5,
];

fn pk1_b58() -> String {
    bs58::encode(PK1).into_string()
}

fn pk2_b58() -> String {
    bs58::encode(PK2).into_string()
}

#[test]
fn parse_network_id_splits_on_first_colon() {
    let (namespace, reference) = parse_network_id("eip155:1").unwrap();
    assert_eq!(namespace, "eip155");
    assert_eq!(reference, "1");

    let (namespace, reference) = parse_network_id("cosmos:hub-1:extra").unwrap();
    assert_eq!(namespace, "cosmos");
    assert_eq!(reference, "hub-1:extra");
}

#[test]
fn parse_network_id_without_colon_gives_empty_reference() {
    let (namespace, reference) = parse_network_id("eip155").unwrap();
    assert_eq!(namespace, "eip155");
    assert_eq!(reference, "");
}

#[test]
fn parse_network_id_rejects_empty_and_missing_namespace() {
    assert!(matches!(
        parse_network_id(""),
        Err(ContractError::MalformedNetworkId)
    ));
    assert!(matches!(
        parse_network_id(":1"),
        Err(ContractError::MalformedNetworkId)
    ));
}

#[test]
fn resolve_namespace_supports_only_eip155() {
    assert!(matches!(
        resolve_namespace(&"eip155".to_string()),
        Ok(CodecVariant::Eip155)
    ));
    match resolve_namespace(&"cosmos".to_string()) {
        Err(ContractError::UnsupportedNamespace(ns)) => assert_eq!(ns, "cosmos"),
        other => panic!("unexpected result: {:?}", other.is_ok()),
    }
    match resolve_namespace(&"".to_string()) {
        Err(ContractError::UnsupportedNamespace(ns)) => assert_eq!(ns, ""),
        other => panic!("unexpected result: {:?}", other.is_ok()),
    }
}

#[test]
fn derive_eip155_gives_known_address_of_key_one() {
    let derived = derive_eip155(&pk1_b58()).unwrap();
    assert_eq!(derived, "0x7E5F4552091A69125d5DfCb7b8C2659029395Bdf");
}

#[test]
fn derive_eip155_gives_known_address_of_key_two() {
    let derived = derive_eip155(&pk2_b58()).unwrap();
    assert_eq!(derived, "0x2B5AD5c4795c026514f8317c7a215E218DcCD6cF");
}

#[test]
fn derive_eip155_is_deterministic() {
    let a = derive_eip155(&pk1_b58()).unwrap();
    let b = derive_eip155(&pk1_b58()).unwrap();
    assert_eq!(a, b);
}

#[test]
fn derive_eip155_rejects_non_base58_input() {
    assert!(matches!(
        derive_eip155(&"0xCallerRaw".to_string()),
        Err(ContractError::InvalidAddress)
    ));
    assert!(matches!(
        derive_eip155(&"".to_string()),
        Err(ContractError::InvalidAddress)
    ));
}

#[test]
fn derive_eip155_rejects_base58_that_is_no_public_key() {
    // Valid base58, but the decoded bytes are not a secp256k1 point.
    assert!(matches!(
        derive_eip155(&"abc".to_string()),
        Err(ContractError::InvalidAddress)
    ));
}

#[test]
fn derive_local_is_deterministic_and_network_dependent() {
    let a = derive_local(&pk1_b58(), NETWORK_ID_MAIN).unwrap();
    let b = derive_local(&pk1_b58(), NETWORK_ID_MAIN).unwrap();
    assert_eq!(a, b);

    let t = derive_local(&pk1_b58(), NETWORK_ID_TEST).unwrap();
    assert_ne!(a, t);
}

#[test]
fn derive_local_rejects_unknown_network_byte() {
    assert!(matches!(
        derive_local(&pk1_b58(), 2),
        Err(ContractError::InvalidAddress)
    ));
}

#[test]
fn derive_local_rejects_non_base58_identity() {
    assert!(matches!(
        derive_local(&"0xCallerRaw".to_string(), NETWORK_ID_MAIN),
        Err(ContractError::InvalidAddress)
    ));
}
