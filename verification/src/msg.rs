//! The messages callers send and the responses queries return. Transport
//! and encoding belong to the dispatch shell around the library; here the
//! messages are plain values.

use vstd::prelude::*;
use crate::state::NftRef;
use crate::state::NftView;
use crate::state::OwnableType;

verus! {

/// What the creator supplies at instantiation.
pub struct InstantiateMsg {
    /// Display name of the ownable.
    pub name: String,
    /// Display description of the ownable.
    pub description: String,
    /// Single-byte identifier of the local network.
    pub network_id: u8,
    /// The external NFT reference this ownable will mirror, if any.
    pub nft: Option<NftRef>,
    /// Content identifier of the package this ownable was built from; kept
    /// with the instantiation request, not part of the governed record.
    pub package: String,
}

/// A direct, caller-authorized command.
pub enum ExecuteMsg {
    /// Hand ownership to `recipient`; refused while the asset is locked.
    Transfer { recipient: String },
    /// Place the asset in the locked state.
    Lock {},
}

/// Spec-level form of [`ExecuteMsg`].
pub ghost enum ExecuteMsgView {
    Transfer { recipient: Seq<char> },
    Lock,
}

impl View for ExecuteMsg {
    type V = ExecuteMsgView;

    open spec fn view(&self) -> ExecuteMsgView {
        match self {
            ExecuteMsg::Transfer { recipient } => ExecuteMsgView::Transfer {
                recipient: recipient@,
            },
            ExecuteMsg::Lock {} => ExecuteMsgView::Lock,
        }
    }
}

/// A read-only query against the record.
pub enum QueryMsg {
    GetInfo {},
    IsLocked {},
    GetMetadata {},
    GetWidgetState {},
}

/// An externally observed event, as the bridge hands it over: an event
/// type, a list of string attributes, and the network it was seen on.
pub struct ExternalEventMsg {
    /// What kind of event was observed; only `lock` is recognized.
    pub event_type: String,
    /// Key-value attributes of the event, in the order received.
    pub attributes: Vec<(String, String)>,
    /// Composite identifier of the chain the event was observed on.
    pub network: Option<String>,
}

/// Spec-level form of [`ExternalEventMsg`].
pub ghost struct EventView {
    pub event_type: Seq<char>,
    pub attributes: Seq<(Seq<char>, Seq<char>)>,
    pub network: Option<Seq<char>>,
}

impl View for ExternalEventMsg {
    type V = EventView;

    open spec fn view(&self) -> EventView {
        EventView {
            event_type: self.event_type@,
            attributes: self.attributes.deep_view(),
            network: match self.network {
                Some(n) => Some(n@),
                None => None,
            },
        }
    }
}

/// Ownership and description of the record, as a query response.
pub struct InfoResponse {
    pub name: String,
    pub description: String,
    pub ownable_type: OwnableType,
}

/// The displayable metadata of the record.
pub struct Metadata {
    pub name: String,
    pub description: String,
    pub ownable_type: OwnableType,
}

/// Metadata of the record, as a query response.
pub struct MetadataResponse {
    pub metadata: Metadata,
}

/// A display-state summary of the record, as one JSON-shaped string.
pub struct WidgetStateResponse {
    pub state: String,
}

/// The response to a [`QueryMsg`], one variant per query.
pub enum QueryResponse {
    Info(InfoResponse),
    Locked(bool),
    Metadata(MetadataResponse),
    WidgetState(WidgetStateResponse),
}

} // verus!
