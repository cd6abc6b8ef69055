//! The ways an operation can be refused. Every failure aborts the operation
//! with the record left exactly as it was.

use vstd::prelude::*;

verus! {

/// Spec-level form of [`ContractError`]: the same variants, with each
/// diagnostic payload as a sequence of characters.
pub ghost enum ErrorView {
    InvalidAddress,
    InvalidExternalEventArgs,
    Locked,
    NoLinkedNft,
    MalformedNetworkId,
    UnsupportedNamespace(Seq<char>),
    Unauthorized(Seq<char>),
    LockError(Seq<char>),
    MatchChainIdError(Seq<char>),
    MatchEventError(Seq<char>),
}

/// Why a command or an external-event registration was refused.
#[derive(Debug)]
pub enum ContractError {
    /// An identity string cannot be mapped to an address under the requested
    /// addressing scheme.
    InvalidAddress,
    /// An external-event claim is missing a required attribute.
    InvalidExternalEventArgs,
    /// A transfer was attempted while the asset is locked.
    Locked,
    /// An external lock event was registered on a record that has no linked
    /// NFT reference configured.
    NoLinkedNft,
    /// A composite network identifier is empty or has no namespace segment.
    MalformedNetworkId,
    /// A composite network identifier names a namespace this library does
    /// not support; the payload is that namespace.
    UnsupportedNamespace(String),
    /// The caller is not the current owner (direct commands), or fails the
    /// cross-chain owner-equivalence proof (release).
    Unauthorized(String),
    /// The claim does not match the linked NFT reference, or the record is
    /// not currently locked; the payload says which check failed.
    LockError(String),
    /// No network was supplied with the claim, or the network's namespace is
    /// unrecognized; the payload carries the offending value.
    MatchChainIdError(String),
    /// An external event of unrecognized type was submitted; the payload is
    /// that event type.
    MatchEventError(String),
}

impl View for ContractError {
    type V = ErrorView;

    open spec fn view(&self) -> ErrorView {
        match self {
            ContractError::InvalidAddress => ErrorView::InvalidAddress,
            ContractError::InvalidExternalEventArgs => ErrorView::InvalidExternalEventArgs,
            ContractError::Locked => ErrorView::Locked,
            ContractError::NoLinkedNft => ErrorView::NoLinkedNft,
            ContractError::MalformedNetworkId => ErrorView::MalformedNetworkId,
            ContractError::UnsupportedNamespace(s) => ErrorView::UnsupportedNamespace(s@),
            ContractError::Unauthorized(s) => ErrorView::Unauthorized(s@),
            ContractError::LockError(s) => ErrorView::LockError(s@),
            ContractError::MatchChainIdError(s) => ErrorView::MatchChainIdError(s@),
            ContractError::MatchEventError(s) => ErrorView::MatchEventError(s@),
        }
    }
}

} // verus!
