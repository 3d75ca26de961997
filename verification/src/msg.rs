//! The messages the contract takes and the answers to its queries.

use crate::claims::Proof;
use crate::state::{Epoch, Witness};
use vstd::prelude::*;

verus! {

/// Message to instantiate the contract.
#[derive(Debug, Clone, PartialEq, Eq)]
pub struct InstantiateMsg {
    /// The address that will own the contract and can add epochs.
    pub owner: String,
}

/// Execute messages for contract interactions.
#[derive(Debug, Clone, PartialEq, Eq)]
pub enum ExecuteMsg {
    /// Verify a proof on-chain.
    VerifyProof(ProofMsg),
    /// Add a new epoch with witnesses (owner only).
    AddEpoch {
        /// List of authorized witnesses for this epoch.
        witness: Vec<Witness>,
        /// Minimum number of witness signatures required.
        minimum_witness: u128,
    },
}

/// Query messages for reading contract state.
#[derive(Debug, Clone, PartialEq, Eq)]
pub enum QueryMsg {
    /// Get all epoch IDs (empty on Secret Network).
    GetAllEpoch {},
    /// Get a specific epoch by ID.
    GetEpoch { id: u128 },
}

/// Response for the GetAllEpoch query.
#[derive(Debug, Clone, PartialEq, Eq)]
pub struct GetAllEpochResponse {
    /// List of all epoch IDs.
    pub ids: Vec<u128>,
}

/// Response for the GetEpoch query.
#[derive(Debug, Clone, PartialEq, Eq)]
pub struct GetEpochResponse {
    /// The requested epoch data.
    pub epoch: Epoch,
}

/// Message containing a proof to verify.
#[derive(Debug, Clone, PartialEq, Eq)]
pub struct ProofMsg {
    /// The proof to verify.
    pub proof: Proof,
}

} // verus!
