//! On-chain verification of Reclaim Protocol proofs: claim hashing and
//! serialisation, signer recovery from Ethereum-style signatures, witness
//! selection for a claim, and the decisions of the contract's entry points.

pub mod claims;
pub mod contract;
pub mod ecdsa;
pub mod error;
pub mod event_builder;
pub mod hashing;
pub mod msg;
pub mod properties;
pub mod state;
pub mod text;

pub use claims::{keccak256, ClaimInfo, CompleteClaimData, Proof, SignedClaim};
pub use error::ContractError;
pub use state::{Config, Epoch, Witness};
pub use text::append_0x;
