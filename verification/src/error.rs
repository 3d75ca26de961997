//! The errors the contract reports.

use crate::text::{decimal, push_decimal};
use vstd::prelude::*;

verus! {

/// Why a request to the contract was refused.
#[derive(Debug, PartialEq, Eq)]
pub enum ContractError {
    /// An error of the chain's standard library (storage, serialisation), by its text.
    Std(String),
    Unauthorized {},
    AlreadyExists {},
    PubKeyErr {},
    SignatureErr {},
    HashMismatchErr {},
    WitnessMismatchErr {},
    NotFoundErr {},
    InvalidSignatureFormat { reason: String },
    HexDecodeError(String),
    InvalidRecoveryParam { value: u8 },
    SignatureConversionError {},
    KeyRecoveryError {},
    InvalidHashLength { expected: usize, actual: usize },
    InvalidAddressLength { expected: usize, actual: usize },
    InvalidAddressFormat { reason: String },
    InvalidWitnessConfig { reason: String },
}


/// The text a refusal is reported with.
pub open spec fn error_text(e: ContractError) -> Seq<char> {
    match e {
        ContractError::Std(text) => text@,
        ContractError::Unauthorized {  } => "Unauthorized"@,
        ContractError::AlreadyExists {  } => "Epoch ID already exists"@,
        ContractError::PubKeyErr {  } => "Key recovery error"@,
        ContractError::SignatureErr {  } => "Signature not appropriate"@,
        ContractError::HashMismatchErr {  } => "Hash mismatch"@,
        ContractError::WitnessMismatchErr {  } => "Not enough witnesses"@,
        ContractError::NotFoundErr {  } => "Epoch not found"@,
        ContractError::InvalidSignatureFormat { reason } => "Invalid signature format: "@ + reason@,
        ContractError::HexDecodeError(text) => "Hex decode error: "@ + text@,
        ContractError::InvalidRecoveryParam { value } => "Invalid recovery parameter: "@ + decimal(value as nat),
        ContractError::SignatureConversionError {  } => "Signature byte conversion failed"@,
        ContractError::KeyRecoveryError {  } => "Public key recovery failed"@,
        ContractError::InvalidHashLength { expected, actual } => "Invalid hash length: expected at least "@
            + decimal(expected as nat) + " bytes, got "@ + decimal(actual as nat),
        ContractError::InvalidAddressLength { expected, actual } => "Invalid address length: expected "@
            + decimal(expected as nat) + " hex chars, got "@ + decimal(actual as nat),
        ContractError::InvalidAddressFormat { reason } => "Invalid address format: "@ + reason@,
        ContractError::InvalidWitnessConfig { reason } => "Invalid witness configuration: "@ + reason@,
    }
}

/// Whether two errors are the same as users see them: the same variant with the same
/// field values (texts by their characters).
pub open spec fn same_error(a: ContractError, b: ContractError) -> bool {
    match (a, b) {
        (ContractError::Std(x), ContractError::Std(y)) => x@ == y@,
        (ContractError::Unauthorized {  }, ContractError::Unauthorized {  }) => true,
        (ContractError::AlreadyExists {  }, ContractError::AlreadyExists {  }) => true,
        (ContractError::PubKeyErr {  }, ContractError::PubKeyErr {  }) => true,
        (ContractError::SignatureErr {  }, ContractError::SignatureErr {  }) => true,
        (ContractError::HashMismatchErr {  }, ContractError::HashMismatchErr {  }) => true,
        (ContractError::WitnessMismatchErr {  }, ContractError::WitnessMismatchErr {  }) => true,
        (ContractError::NotFoundErr {  }, ContractError::NotFoundErr {  }) => true,
        (ContractError::InvalidSignatureFormat { reason: x }, ContractError::InvalidSignatureFormat { reason: y }) => x@ == y@,
        (ContractError::HexDecodeError(x), ContractError::HexDecodeError(y)) => x@ == y@,
        (ContractError::InvalidRecoveryParam { value: x }, ContractError::InvalidRecoveryParam { value: y }) => x == y,
        (ContractError::SignatureConversionError {  }, ContractError::SignatureConversionError {  }) => true,
        (ContractError::KeyRecoveryError {  }, ContractError::KeyRecoveryError {  }) => true,
        (
            ContractError::InvalidHashLength { expected: e1, actual: a1 },
            ContractError::InvalidHashLength { expected: e2, actual: a2 },
        ) => e1 == e2 && a1 == a2,
        (
            ContractError::InvalidAddressLength { expected: e1, actual: a1 },
            ContractError::InvalidAddressLength { expected: e2, actual: a2 },
        ) => e1 == e2 && a1 == a2,
        (ContractError::InvalidAddressFormat { reason: x }, ContractError::InvalidAddressFormat { reason: y }) => x@ == y@,
        (ContractError::InvalidWitnessConfig { reason: x }, ContractError::InvalidWitnessConfig { reason: y }) => x@ == y@,
        _ => false,
    }
}

impl ContractError {
    /// The error's text, as it is shown to users.
    pub fn to_string(&self) -> (text: String)
        ensures
            text@ == error_text(*self),
    {
        match self {
            ContractError::Std(text) => text.clone(),
            ContractError::Unauthorized {  } => String::from_str("Unauthorized"),
            ContractError::AlreadyExists {  } => String::from_str("Epoch ID already exists"),
            ContractError::PubKeyErr {  } => String::from_str("Key recovery error"),
            ContractError::SignatureErr {  } => String::from_str("Signature not appropriate"),
            ContractError::HashMismatchErr {  } => String::from_str("Hash mismatch"),
            ContractError::WitnessMismatchErr {  } => String::from_str("Not enough witnesses"),
            ContractError::NotFoundErr {  } => String::from_str("Epoch not found"),
            ContractError::InvalidSignatureFormat { reason } => {
                let mut text = String::from_str("Invalid signature format: ");
                text.append(reason.as_str());
                text
            },
            ContractError::HexDecodeError(detail) => {
                let mut text = String::from_str("Hex decode error: ");
                text.append(detail.as_str());
                text
            },
            ContractError::InvalidRecoveryParam { value } => {
                let mut text = String::from_str("Invalid recovery parameter: ");
                push_decimal(&mut text, *value as u128);
                text
            },
            ContractError::SignatureConversionError {  } => String::from_str("Signature byte conversion failed"),
            ContractError::KeyRecoveryError {  } => String::from_str("Public key recovery failed"),
            ContractError::InvalidHashLength { expected, actual } => {
                let mut text = String::from_str("Invalid hash length: expected at least ");
                push_decimal(&mut text, *expected as u128);
                text.append(" bytes, got ");
                push_decimal(&mut text, *actual as u128);
                text
            },
            ContractError::InvalidAddressLength { expected, actual } => {
                let mut text = String::from_str("Invalid address length: expected ");
                push_decimal(&mut text, *expected as u128);
                text.append(" hex chars, got ");
                push_decimal(&mut text, *actual as u128);
                text
            },
            ContractError::InvalidAddressFormat { reason } => {
                let mut text = String::from_str("Invalid address format: ");
                text.append(reason.as_str());
                text
            },
            ContractError::InvalidWitnessConfig { reason } => {
                let mut text = String::from_str("Invalid witness configuration: ");
                text.append(reason.as_str());
                text
            },
        }
    }
}

} // verus!
