//! Public-key recovery from secp256k1 ECDSA signatures.

use k256::ecdsa::{RecoveryId, Signature, VerifyingKey};
use vstd::prelude::*;

verus! {

/// The order `n` of the secp256k1 group.
pub open spec fn secp256k1_order() -> nat {
    0xFFFFFFFFFFFFFFFFFFFFFFFFFFFFFFFEBAAEDCE6AF48A03BBFD25E8CD0364141nat
}

/// The unsigned integer that `bytes` encode, most significant byte first.
pub open spec fn big_endian_value(bytes: Seq<u8>) -> nat
    decreases bytes.len(),
{
    if bytes.len() == 0 {
        0
    } else {
        big_endian_value(bytes.drop_last()) * 256 + bytes.last() as nat
    }
}

/// Whether the 64 bytes `r || s` of a signature hold two scalars in `1..n`.
pub open spec fn scalars_in_range(signature: Seq<u8>) -> bool {
    let r = big_endian_value(signature.subrange(0, 32));
    let s = big_endian_value(signature.subrange(32, 64));
    &&& 1 <= r < secp256k1_order()
    &&& 1 <= s < secp256k1_order()
}

/// The uncompressed SEC1 encoding of the public key that `k256` recovers from the
/// `prehash` (of 16 bytes or more; a shorter one fails), the signature `r || s` and the parity of the `y`
/// coordinate of `R`, or `None` where recovery fails.
pub uninterp spec fn secp256k1_recovered_key(prehash: Seq<u8>, signature: Seq<u8>, y_odd: bool) -> Option<Seq<u8>>;

/// What public-key recovery gave.
pub enum KeyRecovery {
    /// `r` or `s` is zero or not below the group order.
    InvalidSignature,
    /// No key verifies the signature over the prehash.
    Failed,
    /// The uncompressed SEC1 encoding of the recovered key.
    Recovered(Vec<u8>),
}

/// Recovers the signer's public key with `k256`: `Signature::from_bytes` on the 64 bytes
/// `r || s`, `RecoveryId::new(y_odd, false)`, `VerifyingKey::recover_from_prehash`, and
/// `to_encoded_point(false)` on the key.
/// Trusted: parsing fails exactly when `r` or `s` is outside `1..n` (as the documentation
/// of `Signature::from_scalars` says); otherwise the outcome is the key named by
/// `secp256k1_recovered_key`, encoded in 65 bytes (tag byte, `x`, `y`).
#[verifier::external_body]
pub(crate) fn recover_uncompressed_key(prehash: &[u8], signature: &[u8], y_odd: bool) -> (out: KeyRecovery)
    requires
        signature@.len() == 64,
    ensures
        out is InvalidSignature <==> !scalars_in_range(signature@),
        out is Failed <==> (scalars_in_range(signature@)
            && secp256k1_recovered_key(prehash@, signature@, y_odd) is None),
        out matches KeyRecovery::Recovered(key) ==> (key@.len() == 65
            && secp256k1_recovered_key(prehash@, signature@, y_odd) == Some(key@)),
{
    let sig = match Signature::from_bytes(signature.into()) {
        Ok(sig) => sig,
        Err(_) => return KeyRecovery::InvalidSignature,
    };
    match VerifyingKey::recover_from_prehash(prehash, &sig, RecoveryId::new(y_odd, false)) {
        Ok(key) => KeyRecovery::Recovered(key.to_encoded_point(false).as_bytes().to_vec()),
        Err(_) => KeyRecovery::Failed,
    }
}

} // verus!
