//! Claims, their hashing and serialisation, and recovery of the addresses that signed them.

use crate::ecdsa::{recover_uncompressed_key, scalars_in_range, secp256k1_recovered_key, KeyRecovery};
use crate::hashing::{keccak256_digest, keccak256_of};
use crate::text::{
    append_0x, decimal, hex_decode, hex_decode_error_text, hex_decoded, hex_encode, hex_lower, is_hex_text,
    lemma_encode_utf8_concat, lemma_hex_lower_shape, push_decimal,
};
use crate::state::{lemma_hex_address_is_valid, valid_eth_address};
use crate::ContractError;
use vstd::prelude::*;
use vstd::slice::slice_subrange;
use vstd::utf8::*;

verus! {

/// What a claim is about: the data provider, its parameters and the context.
#[derive(Debug, Clone, PartialEq, Eq)]
pub struct ClaimInfo {
    pub provider: String,
    pub parameters: String,
    pub context: String,
}

/// The claim the witnesses sign.
#[allow(non_snake_case)]
#[derive(Debug, Clone, PartialEq, Eq)]
pub struct CompleteClaimData {
    pub identifier: String,
    pub owner: String,
    pub epoch: u64,
    pub timestampS: u64,
}

/// A claim with the witnesses' signatures (hex, `0x`-prefixed, `r || s || v`).
#[derive(Debug, Clone, PartialEq, Eq)]
pub struct SignedClaim {
    pub claim: CompleteClaimData,
    pub signatures: Vec<String>,
}

/// A proof: the claim's content and the signed claim.
#[allow(non_snake_case)]
#[derive(Debug, Clone, PartialEq, Eq)]
pub struct Proof {
    pub claimInfo: ClaimInfo,
    pub signedClaim: SignedClaim,
}

/// The EIP-191 framing of a message: `"\x19Ethereum Signed Message:\n"`, the
/// message's byte length in decimal, then the message.
pub open spec fn eth_signed_message(message: Seq<u8>) -> Seq<u8> {
    encode_utf8("\x19Ethereum Signed Message:\n"@ + decimal(message.len())) + message
}

/// Computes the Ethereum signed message hash (EIP-191) of `message`.
pub fn keccak256(message: &str) -> (hash: Vec<u8>)
    ensures
        hash@ == keccak256_of(eth_signed_message(encode_utf8(message@))),
        hash@.len() == 32,
{
    let message_bytes = message.as_bytes();
    let message_len = message_bytes.len();
    let mut eth_message = String::from_str("\x19Ethereum Signed Message:\n");
    let ghost prefix = eth_message@;
    push_decimal(&mut eth_message, message_len as u128);
    let ghost framed = eth_message@;
    assert(prefix == "\x19Ethereum Signed Message:\n"@);
    assert(framed == prefix + decimal(message_len as nat));
    eth_message.append(message);
    proof {
        lemma_encode_utf8_concat(framed, message@);
        assert(framed == "\x19Ethereum Signed Message:\n"@ + decimal(encode_utf8(message@).len()));
    }
    keccak256_digest(eth_message.as_str().as_bytes())
}

/// The text that a claim's hash is taken of: provider, parameters and context, on lines of their own.
pub open spec fn claim_info_text(info: ClaimInfo) -> Seq<char> {
    info.provider@ + "\n"@ + info.parameters@ + "\n"@ + info.context@
}

/// A claim's hash: `0x` and the lower-case hex of the Keccak-256 of its text.
pub open spec fn claim_info_hash(info: ClaimInfo) -> Seq<char> {
    "0x"@ + hex_lower(keccak256_of(encode_utf8(claim_info_text(info))))
}

impl ClaimInfo {
    /// The claim's identifier hash.
    pub fn hash(&self) -> (h: String)
        ensures
            h@ == claim_info_hash(*self),
            h@.len() == 66,
    {
        let mut hash_str = self.provider.clone();
        hash_str.append("\n");
        hash_str.append(self.parameters.as_str());
        hash_str.append("\n");
        hash_str.append(self.context.as_str());
        assert(hash_str@ =~= claim_info_text(*self));
        let hash = keccak256_digest(hash_str.as_str().as_bytes());
        let hex = hex_encode(hash.as_slice());
        proof {
            lemma_hex_lower_shape(hash@);
            reveal_strlit("0x");
        }
        append_0x(hex.as_str())
    }
}

/// The text the witnesses sign: identifier, owner, timestamp (seconds) and epoch, one per line.
pub open spec fn serialised_claim(claim: CompleteClaimData) -> Seq<char> {
    claim.identifier@ + "\n"@ + claim.owner@ + "\n"@ + decimal(claim.timestampS as nat) + "\n"@
        + decimal(claim.epoch as nat)
}

impl CompleteClaimData {
    /// Serialises the claim for signing.
    pub fn serialise(&self) -> (text: String)
        ensures
            text@ == serialised_claim(*self),
    {
        let mut text = self.identifier.clone();
        text.append("\n");
        text.append(self.owner.as_str());
        text.append("\n");
        push_decimal(&mut text, self.timestampS as u128);
        text.append("\n");
        push_decimal(&mut text, self.epoch as u128);
        text
    }
}

/// The hash that signers of a claim sign: the EIP-191 hash of the serialised claim.
pub open spec fn claim_message_hash(claim: CompleteClaimData) -> Seq<u8> {
    keccak256_of(eth_signed_message(encode_utf8(serialised_claim(claim))))
}

/// Whether the signature text (as bytes) starts with `0x`.
pub open spec fn has_0x_prefix(sig: Seq<u8>) -> bool {
    &&& sig.len() >= 2
    &&& sig[0] == 48u8
    &&& sig[1] == 120u8
}

/// The last two hex digits of a signature: the recovery parameter `v`.
pub open spec fn recovery_hex(sig: Seq<u8>) -> Seq<u8> {
    sig.subrange(sig.len() - 2, sig.len() as int)
}

/// The hex digits between the `0x` prefix and the recovery parameter: `r || s`.
pub open spec fn rs_hex(sig: Seq<u8>) -> Seq<u8> {
    sig.subrange(2, sig.len() - 2)
}

/// The recovery parameter byte.
pub open spec fn recovery_byte(sig: Seq<u8>) -> u8 {
    hex_decoded(recovery_hex(sig))[0]
}

/// Whether the signature has the prefix and at least 130 hex digits after it.
pub open spec fn long_enough(sig: Seq<u8>) -> bool {
    has_0x_prefix(sig) && sig.len() - 2 >= 130
}

/// Whether the recovery parameter is hex and is Ethereum's 27 or 28.
pub open spec fn recovery_byte_ok(sig: Seq<u8>) -> bool {
    is_hex_text(recovery_hex(sig)) && 27 <= recovery_byte(sig) <= 28
}

/// The Ethereum address of an uncompressed SEC1 public key: `0x` and the hex of the
/// last 20 bytes of the Keccak-256 of the key without its tag byte.
pub open spec fn eth_address_of_key(key: Seq<u8>) -> Seq<char> {
    "0x"@ + hex_lower(keccak256_of(key.subrange(1, key.len() as int)).subrange(12, 32))
}

/// The address that signed `message_hash` with the signature text `sig`, if it is recovered.
pub open spec fn recovered_signer(sig: Seq<u8>, message_hash: Seq<u8>) -> Option<Seq<char>> {
    if long_enough(sig) && is_char_boundary(sig, sig.len() - 2) && recovery_byte_ok(sig) && is_hex_text(
        rs_hex(sig),
    ) && rs_hex(sig).len() == 128 && scalars_in_range(hex_decoded(rs_hex(sig))) {
        match secp256k1_recovered_key(message_hash, hex_decoded(rs_hex(sig)), recovery_byte(sig) == 28) {
            Some(key) => Some(eth_address_of_key(key)),
            None => None,
        }
    } else {
        None
    }
}

/// The error with which recovery from `sig` stops, where no signer is recovered.
pub open spec fn signer_error(e: ContractError, sig: Seq<u8>, message_hash: Seq<u8>) -> bool {
    if !has_0x_prefix(sig) {
        e matches ContractError::InvalidSignatureFormat { reason } && reason@ == "Missing 0x prefix"@
    } else if sig.len() - 2 < 130 {
        e matches ContractError::InvalidSignatureFormat { reason } && reason@
            == "Signature too short: expected at least 130 hex chars, got "@ + decimal((sig.len() - 2) as nat)
    } else if !is_char_boundary(sig, sig.len() - 2) {
        e matches ContractError::InvalidSignatureFormat { reason } && reason@ == "Signature contains non-hex characters"@
    } else if !is_hex_text(recovery_hex(sig)) {
        e matches ContractError::HexDecodeError(msg) && msg@ == "Recovery param decode failed: "@
            + hex_decode_error_text(recovery_hex(sig))
    } else if !(27 <= recovery_byte(sig) <= 28) {
        e matches ContractError::InvalidRecoveryParam { value } && value == recovery_byte(sig)
    } else if !is_hex_text(rs_hex(sig)) {
        e matches ContractError::HexDecodeError(msg) && msg@ == "Signature r,s decode failed: "@
            + hex_decode_error_text(rs_hex(sig))
    } else if rs_hex(sig).len() != 128 {
        e is SignatureConversionError
    } else if !scalars_in_range(hex_decoded(rs_hex(sig))) {
        e is SignatureConversionError
    } else {
        e is KeyRecoveryError
    }
}

/// The outcome of recovering the signer of `message_hash` from the signature text `sig`.
pub open spec fn signer_outcome(res: Result<String, ContractError>, sig: Seq<u8>, message_hash: Seq<u8>) -> bool {
    match recovered_signer(sig, message_hash) {
        Some(address) => res matches Ok(s) && s@ == address,
        None => res matches Err(e) && signer_error(e, sig, message_hash),
    }
}

/// Whether every signature yields a signer.
pub open spec fn all_signers_recovered(sigs: Seq<String>, message_hash: Seq<u8>) -> bool {
    forall|i: int| 0 <= i < sigs.len() ==> (#[trigger] recovered_signer(encode_utf8(sigs[i]@), message_hash)) is Some
}

/// `e` is the error of the first signature that yields no signer.
pub open spec fn first_signer_error(e: ContractError, sigs: Seq<String>, message_hash: Seq<u8>) -> bool {
    exists|i: int|
        0 <= i < sigs.len() && (forall|j: int|
            0 <= j < i ==> (#[trigger] recovered_signer(encode_utf8(sigs[j]@), message_hash)) is Some)
            && recovered_signer(encode_utf8(sigs[i]@), message_hash) is None
            && signer_error(e, encode_utf8(sigs[i]@), message_hash)
}

/// What recovering the signers of a signed claim answers: the addresses, in the order of
/// the signatures, where every signature yields one; otherwise the error of the first
/// signature that yields none.
pub open spec fn signers_outcome(res: Result<Vec<String>, ContractError>, signed: SignedClaim) -> bool {
    let sigs = signed.signatures@;
    let message_hash = claim_message_hash(signed.claim);
    &&& res is Ok <==> all_signers_recovered(sigs, message_hash)
    &&& res matches Ok(signers) ==> {
        &&& signers@.len() == sigs.len()
        &&& forall|i: int| 0 <= i < signers@.len() ==> valid_eth_address(encode_utf8(#[trigger] signers@[i]@))
        &&& forall|i: int| 0 <= i < signers@.len() ==> Some(#[trigger] signers@[i]@)
            == recovered_signer(encode_utf8(sigs[i]@), message_hash)
    }
    &&& res matches Err(e) ==> first_signer_error(e, sigs, message_hash)
}

impl SignedClaim {
    /// Recovers the Ethereum addresses of all signers, in the order of the signatures.
    pub fn recover_signers_of_signed_claim(self) -> (res: Result<Vec<String>, ContractError>)
        ensures
            signers_outcome(res, self),
    {
        let serialised_claim = self.claim.serialise();
        let message_hash = keccak256(serialised_claim.as_str());
        let ghost h = message_hash@;
        let ghost sigs = self.signatures@;
        let mut expected: Vec<String> = Vec::with_capacity(self.signatures.len());
        let n = self.signatures.len();
        let mut i: usize = 0;
        while i < n
            invariant
                n == sigs.len(),
                sigs == self.signatures@,
                h == claim_message_hash(self.claim),
                h == message_hash@,
                i <= n,
                expected@.len() == i,
                forall|k: int| 0 <= k < i ==> Some(#[trigger] expected@[k]@)
                    == recovered_signer(encode_utf8(sigs[k]@), h),
                forall|k: int| 0 <= k < i ==> valid_eth_address(encode_utf8(#[trigger] expected@[k]@)),
            decreases n - i,
        {
            let complete_signature = &self.signatures[i];
            let recovered = Self::recover_single_signer(complete_signature.as_str(), message_hash.as_slice());
            match recovered {
                Ok(address) => {
                    expected.push(address);
                },
                Err(e) => {
                    assert(forall|j: int| 0 <= j < i ==> (#[trigger] recovered_signer(encode_utf8(sigs[j]@), h)) is Some) by {
                        assert forall|j: int| 0 <= j < i implies (#[trigger] recovered_signer(encode_utf8(sigs[j]@), h)) is Some by {
                            assert(Some(expected@[j]@) == recovered_signer(encode_utf8(sigs[j]@), h));
                        }
                    }
                    assert(!all_signers_recovered(sigs, h)) by {
                        assert(recovered_signer(encode_utf8(sigs[i as int]@), h) is None);
                    }
                    return Err(e);
                },
            }
            i = i + 1;
        }
        proof {
            assert forall|k: int| 0 <= k < sigs.len() implies (#[trigger] recovered_signer(encode_utf8(sigs[k]@), h)) is Some by {
                assert(Some(expected@[k]@) == recovered_signer(encode_utf8(sigs[k]@), h));
            }
        }
        Ok(expected)
    }

    /// Recovers one signer's Ethereum address from a `0x`-prefixed hex signature
    /// `r || s || v` (`v` being 27 or 28) over `message_hash`.
    pub fn recover_single_signer(complete_signature: &str, message_hash: &[u8]) -> (res: Result<String, ContractError>)
        ensures
            signer_outcome(res, encode_utf8(complete_signature@), message_hash@),
            res matches Ok(address) ==> valid_eth_address(encode_utf8(address@)),
    {
        let bytes: &[u8] = complete_signature.as_bytes();
        let ghost sig = bytes@;
        if bytes.len() < 2 || bytes[0] != 48u8 || bytes[1] != 120u8 {
            return Err(ContractError::InvalidSignatureFormat { reason: String::from_str("Missing 0x prefix") });
        }
        let total = bytes.len();
        let sig_len = total - 2;
        if sig_len < 130 {
            let mut reason = String::from_str("Signature too short: expected at least 130 hex chars, got ");
            push_decimal(&mut reason, sig_len as u128);
            return Err(ContractError::InvalidSignatureFormat { reason });
        }
        if !complete_signature.is_char_boundary(total - 2) {
            return Err(ContractError::InvalidSignatureFormat {
                reason: String::from_str("Signature contains non-hex characters"),
            });
        }
        let rec_param_hex = slice_subrange(bytes, total - 2, total);
        let r_s_hex = slice_subrange(bytes, 2, total - 2);
        assert(rec_param_hex@ == recovery_hex(sig));
        assert(r_s_hex@ == rs_hex(sig));
        let rec_dec = match hex_decode(rec_param_hex) {
            Ok(decoded) => decoded,
            Err(text) => {
                let mut msg = String::from_str("Recovery param decode failed: ");
                msg.append(text.as_str());
                return Err(ContractError::HexDecodeError(msg));
            },
        };
        if rec_dec.len() == 0 {
            return Err(ContractError::InvalidSignatureFormat { reason: String::from_str("Empty recovery parameter") });
        }
        let rec_byte = rec_dec[0];
        if rec_byte < 27 || rec_byte > 28 {
            return Err(ContractError::InvalidRecoveryParam { value: rec_byte });
        }
        let rec_norm = rec_byte - 27;
        let r_s = match hex_decode(r_s_hex) {
            Ok(decoded) => decoded,
            Err(text) => {
                let mut msg = String::from_str("Signature r,s decode failed: ");
                msg.append(text.as_str());
                return Err(ContractError::HexDecodeError(msg));
            },
        };
        let y_odd = match rec_norm {
            0 => false,
            1 => true,
            _ => return Err(ContractError::SignatureErr {}),
        };
        if r_s.len() != 64 {
            return Err(ContractError::SignatureConversionError {});
        }
        let key = match recover_uncompressed_key(message_hash, r_s.as_slice(), y_odd) {
            KeyRecovery::InvalidSignature => return Err(ContractError::SignatureConversionError {}),
            KeyRecovery::Failed => return Err(ContractError::KeyRecoveryError {}),
            KeyRecovery::Recovered(key) => key,
        };
        let hash = keccak256_digest(slice_subrange(key.as_slice(), 1, key.len()));
        if hash.len() < 32 {
            return Err(ContractError::InvalidHashLength { expected: 32, actual: hash.len() });
        }
        let address_bytes = slice_subrange(hash.as_slice(), 12, hash.len());
        let hex = hex_encode(address_bytes);
        proof {
            lemma_hex_address_is_valid(address_bytes@);
        }
        Ok(append_0x(hex.as_str()))
    }
}

} // verus!
