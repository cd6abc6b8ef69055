//! Address codec: derives a canonical address string for a raw identity
//! under a named addressing scheme. Derivation itself is done by
//! `ownable_std`; what it returns is deterministic in its input alone, so
//! each result is given a name here, and the contracts of the functions
//! that call it speak of those names.

use vstd::prelude::*;
use crate::error::ContractError;

verus! {

/// What `bs58::decode(..).into_vec()` returns on a string: `Some` with the
/// decoded bytes where the string is well-formed base58, `None` otherwise.
pub uninterp spec fn b58_of(s: Seq<char>) -> Option<Seq<u8>>;

/// Whether `secp256k1::PublicKey::from_slice` accepts these bytes as a
/// public key.
pub uninterp spec fn secp256k1_key_ok(b: Seq<u8>) -> bool;

/// The canonical EIP-155 address that `ownable_std::address_eip155`
/// derives from a base58-encoded secp256k1 public key.
pub uninterp spec fn eip155_of(s: Seq<char>) -> Seq<char>;

/// The canonical local-network address that `ownable_std::address_lto`
/// derives from a network-id byte and a base58-encoded public key.
pub uninterp spec fn lto_of(network_id: u8, s: Seq<char>) -> Seq<char>;

/// The network-id byte of the `L` main network.
pub const NETWORK_ID_MAIN: u8 = 76;

/// The network-id byte of the `T` test network.
pub const NETWORK_ID_TEST: u8 = 84;

/// Whether this network-id byte selects a local addressing rule at all:
/// `ownable_std::address_lto` knows only the `L` and `T` networks.
pub open spec fn local_network_known(network_id: u8) -> bool {
    network_id == NETWORK_ID_MAIN || network_id == NETWORK_ID_TEST
}

/// Whether an identity can be mapped to an EIP-155 address: it must decode
/// as base58 into bytes that form a secp256k1 public key.
pub open spec fn eip155_valid(s: Seq<char>) -> bool {
    &&& b58_of(s) is Some
    &&& secp256k1_key_ok(b58_of(s).unwrap())
}

/// Whether an identity can be mapped to a local address under this
/// network-id byte.
pub open spec fn local_valid(network_id: u8, s: Seq<char>) -> bool {
    &&& local_network_known(network_id)
    &&& b58_of(s) is Some
}

/// Relies on `bs58::decode(..).into_vec()` (the same `bs58` version that
/// `ownable_std` decodes with): base58 decoding is a function of the
/// string alone.
#[verifier::external_body]
fn b58_decode(s: &String) -> (r: Option<Vec<u8>>)
    ensures
        r is Some <==> b58_of(s@) is Some,
        r matches Some(v) ==> b58_of(s@) == Some(v@),
{
    bs58::decode(s.as_bytes()).into_vec().ok()
}

/// Relies on `secp256k1::PublicKey::from_slice` (the same `secp256k1`
/// version that `ownable_std` parses with): whether bytes form a public
/// key is a function of the bytes alone.
#[verifier::external_body]
fn secp256k1_key_check(b: &Vec<u8>) -> (r: bool)
    ensures
        r == secp256k1_key_ok(b@),
{
    secp256k1::PublicKey::from_slice(b.as_slice()).is_ok()
}

/// Relies on `ownable_std::address_eip155`: on a base58 string whose bytes
/// form a secp256k1 public key it returns the canonical EIP-155 address,
/// a function of the input alone. On other input it errs or panics, so the
/// precondition keeps such input out.
#[verifier::external_body]
fn eip155_raw(public_key: &String) -> (r: String)
    requires
        eip155_valid(public_key@),
    ensures
        r@ == eip155_of(public_key@),
{
    ownable_std::address_eip155(public_key.clone()).unwrap().into_string()
}

/// Relies on `ownable_std::address_lto`: it returns `Ok` exactly when the
/// network-id byte is one of the two it recognizes and the key is
/// well-formed base58, and the address it then derives is a function of
/// the two arguments alone.
#[verifier::external_body]
fn lto_raw(network_id: u8, public_key: &String) -> (r: Option<String>)
    ensures
        r is Some <==> local_valid(network_id, public_key@),
        r matches Some(a) ==> a@ == lto_of(network_id, public_key@),
{
    match ownable_std::address_lto(network_id as char, public_key.clone()) {
        Ok(a) => Some(a.into_string()),
        Err(_) => None,
    }
}

/// Derives the canonical form of `identity` under the EIP-155 addressing
/// convention: `Ok` exactly on identities that decode as base58 into a
/// secp256k1 public key, and the address returned depends on the identity
/// alone.
pub fn derive_eip155(identity: &String) -> (r: Result<String, ContractError>)
    ensures
        r is Ok <==> eip155_valid(identity@),
        r matches Ok(a) ==> a@ == eip155_of(identity@),
        r matches Err(e) ==> e@ == crate::error::ErrorView::InvalidAddress,
{
    match b58_decode(identity) {
        None => Err(ContractError::InvalidAddress),
        Some(bytes) => {
            if secp256k1_key_check(&bytes) {
                Ok(eip155_raw(identity))
            } else {
                Err(ContractError::InvalidAddress)
            }
        },
    }
}

/// Derives the canonical address of `identity` on the local network whose
/// id byte is `network_id`: `Ok` exactly when that byte selects a known
/// network and the identity is well-formed base58, and the address
/// returned depends on the two arguments alone.
pub fn derive_local(identity: &String, network_id: u8) -> (r: Result<String, ContractError>)
    ensures
        r is Ok <==> local_valid(network_id, identity@),
        r matches Ok(a) ==> a@ == lto_of(network_id, identity@),
        r matches Err(e) ==> e@ == crate::error::ErrorView::InvalidAddress,
{
    match lto_raw(network_id, identity) {
        Some(a) => Ok(a),
        None => Err(ContractError::InvalidAddress),
    }
}

/// Derives the canonical form of `identity` under whichever addressing
/// scheme the namespace router selected.
pub fn derive_for_namespace(identity: &String, codec: &crate::network::CodecVariant) -> (r: Result<
    String,
    ContractError,
>)
    ensures
        match codec {
            crate::network::CodecVariant::Eip155 => {
                &&& r is Ok <==> eip155_valid(identity@)
                &&& (r matches Ok(a) ==> a@ == eip155_of(identity@))
            },
            crate::network::CodecVariant::Local(n) => {
                &&& r is Ok <==> local_valid(*n, identity@)
                &&& (r matches Ok(a) ==> a@ == lto_of(*n, identity@))
            },
        },
        r matches Err(e) ==> e@ == crate::error::ErrorView::InvalidAddress,
{
    match codec {
        crate::network::CodecVariant::Eip155 => derive_eip155(identity),
        crate::network::CodecVariant::Local(n) => derive_local(identity, *n),
    }
}

/// Derivation is deterministic: two EIP-155 derivations of the same
/// identity yield the same canonical address, and likewise two local
/// derivations under the same network-id byte.
pub proof fn lemma_derivation_deterministic(
    s: Seq<char>,
    r1: Seq<char>,
    r2: Seq<char>,
    network_id: u8,
    l1: Seq<char>,
    l2: Seq<char>,
)
    requires
        r1 == eip155_of(s),
        r2 == eip155_of(s),
        l1 == lto_of(network_id, s),
        l2 == lto_of(network_id, s),
    ensures
        r1 == r2,
        l1 == l2,
{
}

} // verus!
