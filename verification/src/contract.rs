//! The contract's logic: instantiation, the transfer/lock command handler,
//! and the lock/release state machine driven by verified external claims.
//! Every entry point is specified against one spec-level model, and every
//! failure leaves the record exactly as it was.

use vstd::prelude::*;
use vstd::string::StringExecFns;
use crate::address::derive_for_namespace;
use crate::address::derive_local;
use crate::address::eip155_of;
use crate::address::eip155_valid;
use crate::address::local_valid;
use crate::address::lto_of;
use crate::error::ContractError;
use crate::error::ErrorView;
use crate::msg::EventView;
use crate::msg::ExecuteMsg;
use crate::msg::ExecuteMsgView;
use crate::msg::ExternalEventMsg;
use crate::msg::InfoResponse;
use crate::msg::InstantiateMsg;
use crate::msg::Metadata;
use crate::msg::MetadataResponse;
use crate::msg::QueryMsg;
use crate::msg::QueryResponse;
use crate::msg::WidgetStateResponse;
use crate::network::first_colon_index;
use crate::network::lemma_first_colon_index;
use crate::network::parse_network_id;
use crate::network::parse_ok;
use crate::network::resolve_namespace;
use crate::network::spec_namespace;
use crate::state::nft_opt_view;
use crate::state::OwnableType;
use crate::state::State;
use crate::state::StateView;

verus! {

/// The attributes an external lock claim asserts, with an absent attribute
/// standing as the empty sequence.
pub ghost struct ClaimView {
    pub owner: Seq<char>,
    pub token_id: Seq<char>,
    pub contract_addr: Seq<char>,
    pub network: Seq<char>,
}

/// The value of the first attribute named `key`, or empty if there is none.
pub open spec fn spec_attr(attrs: Seq<(Seq<char>, Seq<char>)>, key: Seq<char>) -> Seq<char>
    decreases attrs.len(),
{
    if attrs.len() == 0 {
        Seq::empty()
    } else if attrs[0].0 == key {
        attrs[0].1
    } else {
        spec_attr(attrs.drop_first(), key)
    }
}

/// Looking an attribute up skips any prefix in which the key does not occur.
proof fn lemma_spec_attr_skip(attrs: Seq<(Seq<char>, Seq<char>)>, key: Seq<char>, i: int)
    requires
        0 <= i <= attrs.len(),
        forall|j: int| 0 <= j < i ==> attrs[j].0 != key,
    ensures
        spec_attr(attrs, key) == spec_attr(attrs.skip(i), key),
    decreases i,
{
    if i > 0 {
        assert(attrs.drop_first().len() == attrs.len() - 1);
        assert forall|j: int| 0 <= j < i - 1 implies attrs.drop_first()[j].0 != key by {
            assert(attrs.drop_first()[j] == attrs[j + 1]);
        }
        lemma_spec_attr_skip(attrs.drop_first(), key, i - 1);
        assert(attrs.drop_first().skip(i - 1) =~= attrs.skip(i));
    } else {
        assert(attrs.skip(0) =~= attrs);
    }
}

/// The claim an external event carries: its three required attributes and
/// its network, each empty where absent.
pub open spec fn claim_of(ev: EventView) -> ClaimView {
    ClaimView {
        owner: spec_attr(ev.attributes, "owner"@),
        token_id: spec_attr(ev.attributes, "token_id"@),
        contract_addr: spec_attr(ev.attributes, "contract"@),
        network: match ev.network {
            Some(n) => n,
            None => Seq::empty(),
        },
    }
}

/// What a direct command does to the record: the model every clause of
/// `execute` is held to.
pub open spec fn spec_execute(s: StateView, caller: Seq<char>, m: ExecuteMsgView) -> Result<
    StateView,
    ErrorView,
> {
    match m {
        ExecuteMsgView::Transfer { recipient } => {
            if caller != s.owner {
                Err(ErrorView::Unauthorized("caller is not the current owner"@))
            } else if s.locked {
                Err(ErrorView::Locked)
            } else {
                Ok(StateView { owner: recipient, ..s })
            }
        },
        ExecuteMsgView::Lock => {
            if caller != s.owner {
                Err(ErrorView::Unauthorized("caller is not the current owner"@))
            } else {
                Ok(StateView { locked: true, ..s })
            }
        },
    }
}

/// What registering an external lock claim does to the record: each check
/// in the order it is made, and on success the release itself — the owner
/// becomes the local canonical address of the claimed owner and the record
/// unlocks.
pub open spec fn spec_register_lock(s: StateView, caller: Seq<char>, c: ClaimView) -> Result<
    StateView,
    ErrorView,
> {
    if !s.locked {
        Err(ErrorView::LockError("Not locked"@))
    } else if c.owner.len() == 0 || c.token_id.len() == 0 || c.contract_addr.len() == 0 {
        Err(ErrorView::InvalidExternalEventArgs)
    } else if s.linked_nft is None {
        Err(ErrorView::NoLinkedNft)
    } else {
        let nft = s.linked_nft.unwrap();
        if c.token_id != nft.id {
            Err(ErrorView::LockError("nft_id mismatch"@))
        } else if c.contract_addr != nft.address {
            Err(ErrorView::LockError("locking contract mismatch"@))
        } else if c.network.len() == 0 {
            Err(ErrorView::MatchChainIdError("No network"@))
        } else if c.network != nft.network {
            Err(ErrorView::LockError("network mismatch"@))
        } else if spec_namespace(c.network) != "eip155"@ {
            Err(ErrorView::MatchChainIdError(c.network))
        } else if !eip155_valid(caller) {
            Err(ErrorView::InvalidAddress)
        } else if !eip155_valid(c.owner) {
            Err(ErrorView::InvalidAddress)
        } else if eip155_of(caller) != eip155_of(c.owner) {
            Err(ErrorView::Unauthorized("Only the owner can release an ownable"@))
        } else if !local_valid(s.network_id, c.owner) {
            Err(ErrorView::InvalidAddress)
        } else {
            Ok(StateView { locked: false, owner: lto_of(s.network_id, c.owner), ..s })
        }
    }
}

/// What registering any external event does: only `lock` events are
/// recognized and routed to the lock/release state machine.
pub open spec fn spec_register_event(s: StateView, caller: Seq<char>, ev: EventView) -> Result<
    StateView,
    ErrorView,
> {
    if ev.event_type == "lock"@ {
        spec_register_lock(s, caller, claim_of(ev))
    } else {
        Err(ErrorView::MatchEventError(ev.event_type))
    }
}

/// Creates the one record this contract governs: the creator identity is
/// mapped to its local canonical address, which becomes both owner and the
/// record's sole authority, and the record starts unlocked. Fails exactly
/// when the creator identity cannot be mapped under `msg.network_id`.
pub fn instantiate(sender: &String, msg: InstantiateMsg) -> (r: Result<State, ContractError>)
    ensures
        r is Ok <==> local_valid(msg.network_id, sender@),
        r matches Ok(s) ==> s@ == (StateView {
            name: msg.name@,
            description: msg.description@,
            owner: lto_of(msg.network_id, sender@),
            locked: false,
            ownable_type: OwnableType::Music,
            linked_nft: nft_opt_view(msg.nft),
            network_id: msg.network_id,
        }),
        r matches Err(e) ==> e@ == ErrorView::InvalidAddress,
{
    match derive_local(sender, msg.network_id) {
        Err(e) => Err(e),
        Ok(owner) => Ok(
            State {
                name: msg.name,
                description: msg.description,
                owner,
                locked: false,
                ownable_type: OwnableType::Music,
                linked_nft: msg.nft,
                network_id: msg.network_id,
            },
        ),
    }
}

/// Applies a direct command: a transfer or a lock, each accepted only from
/// the current owner, with a locked asset refusing transfer. On failure
/// the record is untouched.
pub fn execute(state: &mut State, caller: &String, msg: ExecuteMsg) -> (r: Result<
    (),
    ContractError,
>)
    ensures
        match r {
            Ok(_) => spec_execute(old(state)@, caller@, msg@) matches Ok(ns) && final(state)@
                == ns,
            Err(e) => spec_execute(old(state)@, caller@, msg@) matches Err(ev) && e@ == ev
                && final(state)@ == old(state)@,
        },
{
    match msg {
        ExecuteMsg::Transfer { recipient } => {
            if !caller.eq(&state.owner) {
                return Err(
                    ContractError::Unauthorized(
                        String::from_str("caller is not the current owner"),
                    ),
                );
            }
            if state.locked {
                return Err(ContractError::Locked);
            }
            state.owner = recipient;
            Ok(())
        },
        ExecuteMsg::Lock {} => {
            if !caller.eq(&state.owner) {
                return Err(
                    ContractError::Unauthorized(
                        String::from_str("caller is not the current owner"),
                    ),
                );
            }
            state.locked = true;
            Ok(())
        },
    }
}

/// The value of the first attribute of `attrs` named `key`, or the empty
/// string if no attribute carries that name.
fn get_attr(attrs: &Vec<(String, String)>, key: &String) -> (r: String)
    ensures
        r@ == spec_attr(attrs.deep_view(), key@),
{
    let ghost dv = attrs.deep_view();
    let n = attrs.len();
    let mut i: usize = 0;
    while i < n
        invariant
            0 <= i <= n == attrs.len(),
            dv == attrs.deep_view(),
            dv.len() == n,
            forall|j: int| 0 <= j < i ==> dv[j].0 != key@,
        decreases n - i,
    {
        proof {
            assert(dv[i as int] == (attrs@[i as int].0@, attrs@[i as int].1@));
        }
        let pair = &attrs[i];
        if pair.0.eq(key) {
            proof {
                lemma_spec_attr_skip(dv, key@, i as int);
                assert(dv.skip(i as int)[0] == dv[i as int]);
            }
            return pair.1.clone();
        }
        i += 1;
    }
    proof {
        lemma_spec_attr_skip(dv, key@, n as int);
        assert(dv.skip(n as int) =~= Seq::<(Seq<char>, Seq<char>)>::empty());
    }
    String::new()
}

/// Performs the release itself: only on a locked record, and then the
/// asset unlocks and ownership passes to `to`. The validation that makes
/// a release legitimate lives in `try_register_lock`.
pub fn try_release(state: &mut State, to: String) -> (r: Result<(), ContractError>)
    ensures
        old(state)@.locked ==> (r is Ok && final(state)@ == (StateView {
            locked: false,
            owner: to@,
            ..old(state)@
        })),
        !old(state)@.locked ==> (r matches Err(e) && e@ == ErrorView::LockError("Not locked"@)
            && final(state)@ == old(state)@),
{
    if !state.locked {
        return Err(ContractError::LockError(String::from_str("Not locked")));
    }
    state.locked = false;
    state.owner = to;
    Ok(())
}

/// Validates an external lock claim against the record and, on success,
/// releases the asset to the local canonical address of the claimed
/// owner. The checks run in the order of the model `spec_register_lock`:
/// the lock precondition before anything of the claim is read, then the
/// claim's attributes, the linked NFT identity, the network, the
/// namespace, and last the cross-chain owner-equivalence proof.
pub fn try_register_lock(state: &mut State, caller: &String, event: ExternalEventMsg) -> (r:
    Result<(), ContractError>)
    ensures
        match r {
            Ok(_) => spec_register_lock(old(state)@, caller@, claim_of(event@)) matches Ok(ns)
                && final(state)@ == ns,
            Err(e) => spec_register_lock(old(state)@, caller@, claim_of(event@)) matches Err(ev)
                && e@ == ev && final(state)@ == old(state)@,
        },
{
    proof {
        reveal_strlit("eip155");
    }
    if !state.locked {
        return Err(ContractError::LockError(String::from_str("Not locked")));
    }

    let owner_attr = get_attr(&event.attributes, &String::from_str("owner"));
    let nft_id = get_attr(&event.attributes, &String::from_str("token_id"));
    let contract_addr = get_attr(&event.attributes, &String::from_str("contract"));
    if owner_attr.as_str().is_empty() || nft_id.as_str().is_empty()
        || contract_addr.as_str().is_empty() {
        return Err(ContractError::InvalidExternalEventArgs);
    }

    let (nft_ref_id, nft_ref_address, nft_ref_network) = match &state.linked_nft {
        Some(n) => (n.id.clone(), n.address.clone(), n.network.clone()),
        None => {
            return Err(ContractError::NoLinkedNft);
        },
    };
    if !nft_id.eq(&nft_ref_id) {
        return Err(ContractError::LockError(String::from_str("nft_id mismatch")));
    }
    if !contract_addr.eq(&nft_ref_address) {
        return Err(ContractError::LockError(String::from_str("locking contract mismatch")));
    }

    let network = match &event.network {
        Some(n) => n.clone(),
        None => String::new(),
    };
    if network.as_str().is_empty() {
        return Err(ContractError::MatchChainIdError(String::from_str("No network")));
    }
    if !network.eq(&nft_ref_network) {
        return Err(ContractError::LockError(String::from_str("network mismatch")));
    }

    let codec = match parse_network_id(network.as_str()) {
        Ok((namespace, _reference)) => match resolve_namespace(&namespace) {
            Ok(c) => c,
            Err(_) => {
                return Err(ContractError::MatchChainIdError(network));
            },
        },
        Err(_) => {
            proof {
                assert(!parse_ok(network@));
                lemma_first_colon_index(network@);
                assert(first_colon_index(network@) == 0);
                assert(spec_namespace(network@).len() == 0);
                assert("eip155"@.len() == 6);
            }
            return Err(ContractError::MatchChainIdError(network));
        },
    };

    let caller_canonical = match derive_for_namespace(caller, &codec) {
        Ok(a) => a,
        Err(e) => {
            return Err(e);
        },
    };
    let owner_canonical = match derive_for_namespace(&owner_attr, &codec) {
        Ok(a) => a,
        Err(e) => {
            return Err(e);
        },
    };
    if !caller_canonical.eq(&owner_canonical) {
        return Err(
            ContractError::Unauthorized(String::from_str("Only the owner can release an ownable")),
        );
    }

    let new_owner = match derive_local(&owner_attr, state.network_id) {
        Ok(a) => a,
        Err(e) => {
            return Err(e);
        },
    };
    try_release(state, new_owner)
}

/// Routes an externally observed event: only `lock` events are recognized;
/// any other event type is refused with its name, the record untouched.
pub fn register_external_event(state: &mut State, caller: &String, event: ExternalEventMsg) -> (r:
    Result<(), ContractError>)
    ensures
        match r {
            Ok(_) => spec_register_event(old(state)@, caller@, event@) matches Ok(ns)
                && final(state)@ == ns,
            Err(e) => spec_register_event(old(state)@, caller@, event@) matches Err(ev) && e@ == ev
                && final(state)@ == old(state)@,
        },
{
    let lock_type = String::from_str("lock");
    if event.event_type.eq(&lock_type) {
        try_register_lock(state, caller, event)
    } else {
        Err(ContractError::MatchEventError(event.event_type))
    }
}

/// The display-state summary of a record with this name and description:
/// one JSON-shaped string.
pub open spec fn widget_state_of(name: Seq<char>, description: Seq<char>) -> Seq<char> {
    "{\"name\":\""@ + name + "\",\"description\":\""@ + description
        + "\",\"type\":\"music\"}"@
}

/// Ownership and description info of the record.
pub fn query_info(state: &State) -> (r: InfoResponse)
    ensures
        r.name@ == state@.name,
        r.description@ == state@.description,
        r.ownable_type == state@.ownable_type,
{
    InfoResponse {
        name: state.name.clone(),
        description: state.description.clone(),
        ownable_type: state.ownable_type,
    }
}

/// Whether the asset is currently locked.
pub fn query_locked(state: &State) -> (r: bool)
    ensures
        r == state@.locked,
{
    state.locked
}

/// The displayable metadata of the record.
pub fn query_metadata(state: &State) -> (r: MetadataResponse)
    ensures
        r.metadata.name@ == state@.name,
        r.metadata.description@ == state@.description,
        r.metadata.ownable_type == state@.ownable_type,
{
    MetadataResponse {
        metadata: Metadata {
            name: state.name.clone(),
            description: state.description.clone(),
            ownable_type: state.ownable_type,
        },
    }
}

/// The display-state summary of the record, as one JSON-shaped string.
pub fn query_widget_state(state: &State) -> (r: WidgetStateResponse)
    ensures
        r.state@ == widget_state_of(state@.name, state@.description),
{
    let mut out = String::from_str("{\"name\":\"");
    out.append(state.name.as_str());
    out.append("\",\"description\":\"");
    out.append(state.description.as_str());
    out.append("\",\"type\":\"music\"}");
    proof {
        assert(out@ =~= widget_state_of(state@.name, state@.description));
    }
    WidgetStateResponse { state: out }
}

/// Routes a read-only query to its projection of the record; nothing here
/// changes state.
pub fn query(state: &State, msg: &QueryMsg) -> (r: QueryResponse)
    ensures
        match msg {
            QueryMsg::GetInfo {} => r matches QueryResponse::Info(i) && i.name@ == state@.name
                && i.description@ == state@.description && i.ownable_type == state@.ownable_type,
            QueryMsg::IsLocked {} => r matches QueryResponse::Locked(l) && l == state@.locked,
            QueryMsg::GetMetadata {} => r matches QueryResponse::Metadata(m) && m.metadata.name@
                == state@.name && m.metadata.description@ == state@.description
                && m.metadata.ownable_type == state@.ownable_type,
            QueryMsg::GetWidgetState {} => r matches QueryResponse::WidgetState(w) && w.state@
                == widget_state_of(state@.name, state@.description),
        },
{
    match msg {
        QueryMsg::GetInfo {} => QueryResponse::Info(query_info(state)),
        QueryMsg::IsLocked {} => QueryResponse::Locked(query_locked(state)),
        QueryMsg::GetMetadata {} => QueryResponse::Metadata(query_metadata(state)),
        QueryMsg::GetWidgetState {} => QueryResponse::WidgetState(query_widget_state(state)),
    }
}

/// Authorization law: a direct command from anyone but the current owner
/// is refused as unauthorized, whichever command it is; `execute` then
/// leaves the record unchanged.
pub proof fn lemma_commands_require_owner(s: StateView, caller: Seq<char>, m: ExecuteMsgView)
    requires
        caller != s.owner,
    ensures
        spec_execute(s, caller, m) == Err::<StateView, ErrorView>(
            ErrorView::Unauthorized("caller is not the current owner"@),
        ),
{
}

/// Locked-transfer law: while the asset is locked, a transfer is refused
/// even when the true owner asks for it.
pub proof fn lemma_locked_blocks_transfer(s: StateView, recipient: Seq<char>)
    requires
        s.locked,
    ensures
        spec_execute(s, s.owner, ExecuteMsgView::Transfer { recipient }) == Err::<
            StateView,
            ErrorView,
        >(ErrorView::Locked),
{
}

/// Release-precondition law: on a record that is not locked, registering
/// an external lock claim fails before anything of the claim is read,
/// whatever the claim holds.
pub proof fn lemma_release_requires_lock(s: StateView, caller: Seq<char>, c: ClaimView)
    requires
        !s.locked,
    ensures
        spec_register_lock(s, caller, c) == Err::<StateView, ErrorView>(
            ErrorView::LockError("Not locked"@),
        ),
{
}

/// NFT-identity law: a claim whose token id or contract address differs
/// from the linked NFT reference is rejected as a lock error, whoever the
/// caller is and whatever the owner-equivalence proof would have said.
pub proof fn lemma_nft_identity_binding(s: StateView, caller: Seq<char>, c: ClaimView)
    requires
        s.locked,
        c.owner.len() > 0,
        c.token_id.len() > 0,
        c.contract_addr.len() > 0,
        s.linked_nft matches Some(nft) && (c.token_id != nft.id || c.contract_addr != nft.address),
    ensures
        spec_register_lock(s, caller, c) matches Err(e) && e is LockError,
{
}

/// Missing-network law: a claim that passed the NFT-identity checks but
/// carries no network is rejected, naming the absence.
pub proof fn lemma_missing_network(s: StateView, caller: Seq<char>, c: ClaimView)
    requires
        s.locked,
        c.owner.len() > 0,
        c.token_id.len() > 0,
        c.contract_addr.len() > 0,
        s.linked_nft matches Some(nft) && c.token_id == nft.id && c.contract_addr == nft.address,
        c.network.len() == 0,
    ensures
        spec_register_lock(s, caller, c) == Err::<StateView, ErrorView>(
            ErrorView::MatchChainIdError("No network"@),
        ),
{
}

/// Namespace-gating law: a claim whose network matches the linked NFT but
/// whose namespace segment is not `eip155` is rejected, carrying the
/// offending network identifier.
pub proof fn lemma_namespace_gating(s: StateView, caller: Seq<char>, c: ClaimView)
    requires
        s.locked,
        c.owner.len() > 0,
        c.token_id.len() > 0,
        c.contract_addr.len() > 0,
        s.linked_nft matches Some(nft) && c.token_id == nft.id && c.contract_addr == nft.address
            && c.network == nft.network,
        c.network.len() > 0,
        spec_namespace(c.network) != "eip155"@,
    ensures
        spec_register_lock(s, caller, c) == Err::<StateView, ErrorView>(
            ErrorView::MatchChainIdError(c.network),
        ),
{
}

/// Owner-equivalence law: once every record-side check passes, the
/// release happens exactly when caller and claimed owner canonicalize to
/// the same EIP-155 address; then the record unlocks and ownership passes
/// to the local canonical address of the claimed owner, and otherwise the
/// caller is refused as unauthorized.
pub proof fn lemma_owner_equivalence(s: StateView, caller: Seq<char>, c: ClaimView)
    requires
        s.locked,
        c.owner.len() > 0,
        c.token_id.len() > 0,
        c.contract_addr.len() > 0,
        s.linked_nft matches Some(nft) && c.token_id == nft.id && c.contract_addr == nft.address
            && c.network == nft.network,
        c.network.len() > 0,
        spec_namespace(c.network) == "eip155"@,
        eip155_valid(caller),
        eip155_valid(c.owner),
        local_valid(s.network_id, c.owner),
    ensures
        spec_register_lock(s, caller, c) is Ok <==> eip155_of(caller) == eip155_of(c.owner),
        spec_register_lock(s, caller, c) matches Ok(ns) ==> ns == (StateView {
            locked: false,
            owner: lto_of(s.network_id, c.owner),
            ..s
        }),
        eip155_of(caller) != eip155_of(c.owner) ==> spec_register_lock(s, caller, c) == Err::<
            StateView,
            ErrorView,
        >(ErrorView::Unauthorized("Only the owner can release an ownable"@)),
{
}

/// Creation-immutability law: whatever a direct command or an external
/// event does, only the owner and the lock flag ever move; the linked NFT
/// reference, the network id, the name, the description and the kind are
/// set at creation and never change.
pub proof fn lemma_only_owner_and_lock_move(
    s: StateView,
    caller: Seq<char>,
    m: ExecuteMsgView,
    ev: EventView,
)
    ensures
        spec_execute(s, caller, m) matches Ok(ns) ==> ns.linked_nft == s.linked_nft
            && ns.network_id == s.network_id && ns.name == s.name && ns.description
            == s.description && ns.ownable_type == s.ownable_type,
        spec_register_event(s, caller, ev) matches Ok(ns) ==> ns.linked_nft == s.linked_nft
            && ns.network_id == s.network_id && ns.name == s.name && ns.description
            == s.description && ns.ownable_type == s.ownable_type,
{
}

} // verus!
