//! Namespace router: parses a composite network identifier of the form
//! `namespace:reference` and selects the address-codec variant to use for
//! that namespace.

use vstd::prelude::*;
use vstd::string::StrSliceExecFns;
use vstd::string::StringExecFns;
use crate::error::ContractError;
use crate::error::ErrorView;

verus! {

/// Index of the first `:` in `s`, or `s.len()` if there is none.
pub open spec fn first_colon_index(s: Seq<char>) -> int
    decreases s.len(),
{
    if s.len() == 0 {
        0
    } else if s[0] == ':' {
        0
    } else {
        1 + first_colon_index(s.drop_first())
    }
}

/// The namespace segment of a composite network identifier: everything
/// before the first `:`, or the whole string if there is no `:`.
pub open spec fn spec_namespace(s: Seq<char>) -> Seq<char> {
    s.take(first_colon_index(s))
}

/// The reference segment of a composite network identifier: everything
/// after the first `:`, or empty if there is no `:`.
pub open spec fn spec_reference(s: Seq<char>) -> Seq<char> {
    if first_colon_index(s) == s.len() {
        Seq::empty()
    } else {
        s.skip(first_colon_index(s) + 1)
    }
}

/// A composite network identifier parses when it is nonempty and its
/// namespace segment is nonempty.
pub open spec fn parse_ok(s: Seq<char>) -> bool {
    s.len() > 0 && first_colon_index(s) > 0
}

/// `first_colon_index` is within bounds, points at a `:` unless there is
/// none, and nothing before it is a `:`.
pub proof fn lemma_first_colon_index(s: Seq<char>)
    ensures
        0 <= first_colon_index(s) <= s.len(),
        first_colon_index(s) < s.len() ==> s[first_colon_index(s)] == ':',
        forall|j: int| 0 <= j < first_colon_index(s) ==> s[j] != ':',
    decreases s.len(),
{
    if s.len() != 0 && s[0] != ':' {
        lemma_first_colon_index(s.drop_first());
        assert forall|j: int| 0 <= j < first_colon_index(s) implies s[j] != ':' by {
            if j > 0 {
                assert(s.drop_first()[j - 1] == s[j]);
            }
        }
    }
}

/// The address-codec variants this library can route to, as a closed set:
/// adding a namespace means adding a variant here.
pub enum CodecVariant {
    /// The EIP-155 (Ethereum-style) addressing convention.
    Eip155,
    /// The local network's addressing convention, selected by its
    /// network-id byte.
    Local(u8),
}

/// Splits a composite network identifier on its first `:` into namespace
/// and reference. Fails exactly when the string is empty or has no
/// namespace segment before the `:`.
pub fn parse_network_id(network_id: &str) -> (r: Result<(String, String), ContractError>)
    ensures
        r is Ok <==> parse_ok(network_id@),
        r matches Ok(p) ==> p.0@ == spec_namespace(network_id@) && p.1@ == spec_reference(
            network_id@,
        ),
        r matches Err(e) ==> e@ == ErrorView::MalformedNetworkId,
{
    let n = network_id.unicode_len();
    let mut i: usize = 0;
    while i < n && network_id.get_char(i) != ':'
        invariant
            0 <= i <= n == network_id@.len(),
            forall|j: int| 0 <= j < i ==> network_id@[j] != ':',
        decreases n - i,
    {
        i += 1;
    }
    proof {
        lemma_first_colon_index(network_id@);
        if i < n {
            assert(first_colon_index(network_id@) == i) by {
                let f = first_colon_index(network_id@);
                if f < i {
                    assert(network_id@[f] == ':');
                } else if f > i {
                    assert(network_id@[i as int] != ':');
                }
            }
        } else {
            assert(first_colon_index(network_id@) == n) by {
                let f = first_colon_index(network_id@);
                if f < n {
                    assert(network_id@[f] == ':');
                }
            }
        }
    }
    if i == 0 {
        return Err(ContractError::MalformedNetworkId);
    }
    let namespace = network_id.substring_char(0, i).to_owned();
    let reference = if i < n {
        network_id.substring_char(i + 1, n).to_owned()
    } else {
        String::new()
    };
    proof {
        assert(namespace@ =~= spec_namespace(network_id@));
        if i < n {
            assert(reference@ =~= spec_reference(network_id@));
        } else {
            assert(reference@ =~= spec_reference(network_id@));
        }
    }
    Ok((namespace, reference))
}

/// Selects the codec for a namespace. Only `eip155` is supported: every
/// other namespace value, the empty string included, is refused with
/// `UnsupportedNamespace` carrying that value.
pub fn resolve_namespace(namespace: &String) -> (r: Result<CodecVariant, ContractError>)
    ensures
        r is Ok <==> namespace@ == "eip155"@,
        r matches Ok(v) ==> v is Eip155,
        r matches Err(e) ==> e@ == ErrorView::UnsupportedNamespace(namespace@),
{
    let supported: String = String::from_str("eip155");
    if namespace.eq(&supported) {
        Ok(CodecVariant::Eip155)
    } else {
        Err(ContractError::UnsupportedNamespace(namespace.clone()))
    }
}

} // verus!
