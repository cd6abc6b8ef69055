//! The one authoritative record of an ownable: its owner, its lock flag,
//! the external NFT reference it mirrors, and the local network it lives
//! on. Both command handling and external release mutate this record and
//! nothing else.

use vstd::prelude::*;

verus! {

/// The kind of ownable this contract governs.
#[derive(Clone, Copy, PartialEq, Eq, Structural, Debug)]
pub enum OwnableType {
    Music,
}

/// Reference to the externally tracked NFT this ownable mirrors; set at
/// creation and immutable thereafter.
pub struct NftRef {
    /// Token id of the NFT on its own chain, in its decimal string form.
    pub id: String,
    /// Address of the contract holding the NFT.
    pub address: String,
    /// Composite identifier (`namespace:reference`) of the chain the NFT
    /// lives on.
    pub network: String,
}

/// Spec-level form of [`NftRef`].
pub ghost struct NftView {
    pub id: Seq<char>,
    pub address: Seq<char>,
    pub network: Seq<char>,
}

impl View for NftRef {
    type V = NftView;

    open spec fn view(&self) -> NftView {
        NftView { id: self.id@, address: self.address@, network: self.network@ }
    }
}

/// Spec-level form of [`State`].
pub ghost struct StateView {
    pub name: Seq<char>,
    pub description: Seq<char>,
    pub owner: Seq<char>,
    pub locked: bool,
    pub ownable_type: OwnableType,
    pub linked_nft: Option<NftView>,
    pub network_id: u8,
}

/// The record under governance. Exactly one exists per asset instance; it
/// is created once and mutated in place, never destroyed.
pub struct State {
    /// Display name of the ownable.
    pub name: String,
    /// Display description of the ownable.
    pub description: String,
    /// Canonical address, on the local network, of the sole authority for
    /// direct commands.
    pub owner: String,
    /// `true` while the asset is held pending an external release proof.
    pub locked: bool,
    /// The kind of ownable.
    pub ownable_type: OwnableType,
    /// The external NFT reference this ownable mirrors, if one was
    /// configured at creation.
    pub linked_nft: Option<NftRef>,
    /// Single-byte identifier of the local network, parameterizing local
    /// address derivation.
    pub network_id: u8,
}

/// The view of an optional NFT reference.
pub open spec fn nft_opt_view(o: Option<NftRef>) -> Option<NftView> {
    match o {
        Some(n) => Some(n@),
        None => None,
    }
}

impl View for State {
    type V = StateView;

    open spec fn view(&self) -> StateView {
        StateView {
            name: self.name@,
            description: self.description@,
            owner: self.owner@,
            locked: self.locked,
            ownable_type: self.ownable_type,
            linked_nft: nft_opt_view(self.linked_nft),
            network_id: self.network_id,
        }
    }
}

} // verus!
