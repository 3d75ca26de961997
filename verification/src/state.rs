//! The contract's stored state: its configuration, the witnesses and the epochs.

use crate::claims::has_0x_prefix;
use crate::text::{hex_lower, is_hex_digit, is_lower_hex_char, lemma_hex_lower_shape};
use crate::ContractError;
use vstd::prelude::*;
use vstd::slice::slice_subrange;
use vstd::utf8::*;

verus! {

/// Contract configuration stored on-chain.
#[derive(Debug, Clone, PartialEq, Eq)]
pub struct Config {
    /// The owner address who can add epochs.
    pub owner: String,
    /// The current epoch number.
    pub current_epoch: u128,
}

/// A witness node that can sign claims.
#[derive(Debug, PartialEq, Eq)]
pub struct Witness {
    /// The Ethereum address of the witness (hex string with 0x prefix).
    pub address: String,
    /// The host URL of the witness node.
    pub host: String,
}

impl Clone for Witness {
    fn clone(&self) -> (res: Self)
        ensures
            res == *self,
    {
        Witness { address: self.address.clone(), host: self.host.clone() }
    }
}

/// An epoch: the witnesses authorised in it and how many of them must sign a claim.
#[derive(Debug, Clone, PartialEq, Eq)]
pub struct Epoch {
    /// Unique identifier for this epoch.
    pub id: u128,
    /// Unix timestamp (nanoseconds) when this epoch started.
    pub timestamp_start: u64,
    /// Unix timestamp (nanoseconds) when this epoch ends.
    pub timestamp_end: u64,
    /// Minimum number of witness signatures required for claim verification.
    pub minimum_witness_for_claim_creation: u128,
    /// The authorised witnesses.
    pub witness: Vec<Witness>,
}

/// The bytes of an address without its `0x` prefix, where it has one.
pub open spec fn without_0x(address: Seq<u8>) -> Seq<u8> {
    if has_0x_prefix(address) {
        address.subrange(2, address.len() as int)
    } else {
        address
    }
}

/// Whether all bytes are ASCII hex digits.
pub open spec fn all_hex_digits(text: Seq<u8>) -> bool {
    forall|i: int| 0 <= i < text.len() ==> is_hex_digit(#[trigger] text[i])
}

/// Whether an address (as UTF-8 bytes) is 40 hex digits, after an optional `0x` prefix.
pub open spec fn valid_eth_address(address: Seq<u8>) -> bool {
    without_0x(address).len() == 40 && all_hex_digits(without_0x(address))
}

/// What `validate_eth_address` answers on an address (as UTF-8 bytes).
pub open spec fn eth_address_verdict(res: Result<(), ContractError>, address: Seq<u8>) -> bool {
    let digits = without_0x(address);
    if digits.len() != 40 {
        res matches Err(ContractError::InvalidAddressLength { expected, actual })
            && expected == 40 && actual == digits.len()
    } else if !all_hex_digits(digits) {
        res matches Err(ContractError::InvalidAddressFormat { reason })
            && reason@ == "Address contains non-hex characters"@
    } else {
        res is Ok
    }
}

/// Every address written as `0x` and the lower-case hex of 20 bytes passes
/// `validate_eth_address`.
pub proof fn lemma_hex_address_is_valid(address_bytes: Seq<u8>)
    requires
        address_bytes.len() == 20,
    ensures
        valid_eth_address(encode_utf8("0x"@ + hex_lower(address_bytes))),
{
    reveal_strlit("0x");
    lemma_hex_lower_shape(address_bytes);
    let text = "0x"@ + hex_lower(address_bytes);
    assert(text.len() == 42);
    assert forall|i: int| 0 <= i < text.len() implies '\0' <= #[trigger] text[i] <= '\u{7f}' by {
        if i >= 2 {
            assert(text[i] == hex_lower(address_bytes)[i - 2]);
            assert(is_lower_hex_char(hex_lower(address_bytes)[i - 2]));
        }
    }
    assert(is_ascii_chars(text));
    is_ascii_chars_encode_utf8(text);
    let bytes = encode_utf8(text);
    assert(bytes[0] == text[0] as u8);
    assert(bytes[1] == text[1] as u8);
    assert(has_0x_prefix(bytes));
    assert forall|i: int| 0 <= i < without_0x(bytes).len() implies is_hex_digit(#[trigger] without_0x(bytes)[i]) by {
        assert(without_0x(bytes)[i] == bytes[i + 2]);
        assert(bytes[i + 2] == text[i + 2] as u8);
        assert(text[i + 2] == hex_lower(address_bytes)[i]);
        assert(is_lower_hex_char(hex_lower(address_bytes)[i]));
    }
}

impl Witness {
    /// The addresses of the witnesses, in order.
    pub fn get_addresses(witnesses: Vec<Witness>) -> (addresses: Vec<String>)
        ensures
            addresses@.len() == witnesses@.len(),
            forall|i: int| 0 <= i < witnesses@.len() ==> #[trigger] addresses@[i] == witnesses@[i].address,
    {
        let mut addresses: Vec<String> = Vec::new();
        let mut i: usize = 0;
        while i < witnesses.len()
            invariant
                i <= witnesses@.len(),
                addresses@.len() == i,
                forall|k: int| 0 <= k < i ==> #[trigger] addresses@[k] == witnesses@[k].address,
            decreases witnesses@.len() - i,
        {
            addresses.push(witnesses[i].address.clone());
            i = i + 1;
        }
        addresses
    }

    /// Validates that an address is an Ethereum address: 40 hex digits after an optional `0x`.
    pub fn validate_eth_address(address: &str) -> (res: Result<(), ContractError>)
        ensures
            eth_address_verdict(res, encode_utf8(address@)),
    {
        let bytes: &[u8] = address.as_bytes();
        let start: usize = if bytes.len() >= 2 && bytes[0] == 48u8 && bytes[1] == 120u8 { 2 } else { 0 };
        let without_prefix = slice_subrange(bytes, start, bytes.len());
        assert(without_prefix@ == without_0x(bytes@));
        if without_prefix.len() != 40 {
            return Err(ContractError::InvalidAddressLength { expected: 40, actual: without_prefix.len() });
        }
        let mut i: usize = 0;
        while i < without_prefix.len()
            invariant
                i <= without_prefix@.len(),
                without_prefix@ == without_0x(encode_utf8(address@)),
                without_prefix@.len() == 40,
                forall|k: int| 0 <= k < i ==> is_hex_digit(#[trigger] without_prefix@[k]),
            decreases without_prefix@.len() - i,
        {
            let c = without_prefix[i];
            if !((48u8 <= c && c <= 57u8) || (65u8 <= c && c <= 70u8) || (97u8 <= c && c <= 102u8)) {
                assert(!is_hex_digit(without_prefix@[i as int]));
                return Err(ContractError::InvalidAddressFormat {
                    reason: String::from_str("Address contains non-hex characters"),
                });
            }
            i = i + 1;
        }
        Ok(())
    }
}

} // verus!
