//! A lockable, uniquely owned record anchored to an NFT held on another
//! chain. Direct commands (`Transfer`, `Lock`) are accepted only from the
//! current owner; the way back from `Locked` to `Unlocked` is a verified
//! external lock claim whose owner is proved equivalent to the caller under
//! the external chain's addressing scheme.

pub mod address;
pub mod contract;
pub mod error;
pub mod msg;
pub mod network;
pub mod state;

pub use error::ContractError;
pub use error::ErrorView;
