use k256::ecdsa::SigningKey;
use reclaim_cosmwasm::claims::ClaimInfo;
use reclaim_cosmwasm::{append_0x, keccak256, CompleteClaimData, ContractError, SignedClaim};
use sha3::{Digest, Keccak256};

fn raw_keccak(data: &[u8]) -> Vec<u8> {
    let mut hasher = Keccak256::new();
    hasher.update(data);
    hasher.finalize().to_vec()
}

fn signing_key(secret: u8) -> SigningKey {
    let mut bytes = [0u8; 32];
    bytes[31] = secret;
    SigningKey::from_slice(&bytes).unwrap()
}

/// `0x`-prefixed hex of `r || s || v` with Ethereum's `v` (27 or 28).
fn eth_signature(key: &SigningKey, prehash: &[u8]) -> String {
    let (sig, recid) = key.sign_prehash_recoverable(prehash).unwrap();
    let mut bytes = sig.to_bytes().to_vec();
    bytes.push(27 + recid.to_byte());
    format!("0x{}", hex::encode(bytes))
}

fn sample_claim() -> CompleteClaimData {
    CompleteClaimData {
        identifier: "0xabc".to_string(),
        owner: "0x1234".to_string(),
        epoch: 3,
        timestampS: 1700000000,
    }
}

#[test]
fn append_0x_prepends_prefix() {
    assert_eq!(append_0x("deadbeef"), "0xdeadbeef");
    assert_eq!(append_0x(""), "0x");
}

#[test]
fn keccak256_frames_message_as_eip191() {
    let expected = raw_keccak(b"\x19Ethereum Signed Message:\n5hello");
    assert_eq!(keccak256("hello"), expected);
    assert_eq!(keccak256("hello").len(), 32);
}

#[test]
fn keccak256_known_vector() {
    assert_eq!(
        hex::encode(keccak256("hello world")),
        "d9eba16ed0ecae432b71fe008c98cc872bb4cc214d3220a36f365326cf807d68"
    );
}

#[test]
fn keccak256_counts_bytes_not_chars() {
    // "é" is two bytes in UTF-8, so the framed length is 2.
    let expected = raw_keccak("\x19Ethereum Signed Message:\n2é".as_bytes());
    assert_eq!(keccak256("é"), expected);
}

#[test]
fn keccak256_of_long_message_uses_full_length() {
    let message = "x".repeat(123);
    let mut framed = b"\x19Ethereum Signed Message:\n123".to_vec();
    framed.extend_from_slice(message.as_bytes());
    assert_eq!(keccak256(&message), raw_keccak(&framed));
}

#[test]
fn claim_info_hash_is_prefixed_lowercase_hex_of_keccak() {
    let info = ClaimInfo {
        provider: "http".to_string(),
        parameters: "{\"url\":\"https://example.com\"}".to_string(),
        context: "ctx".to_string(),
    };
    let expected = format!(
        "0x{}",
        hex::encode(raw_keccak(b"http\n{\"url\":\"https://example.com\"}\nctx"))
    );
    let h = info.hash();
    assert_eq!(h, expected);
    assert_eq!(h.len(), 66);
}

#[test]
fn claim_info_hash_of_empty_fields() {
    let info = ClaimInfo { provider: String::new(), parameters: String::new(), context: String::new() };
    assert_eq!(info.hash(), format!("0x{}", hex::encode(raw_keccak(b"\n\n"))));
}

#[test]
fn serialise_puts_timestamp_before_epoch() {
    assert_eq!(sample_claim().serialise(), "0xabc\n0x1234\n1700000000\n3");
}

#[test]
fn serialise_zero_values() {
    let claim = CompleteClaimData { identifier: String::new(), owner: String::new(), epoch: 0, timestampS: 0 };
    assert_eq!(claim.serialise(), "\n\n0\n0");
}

#[test]
fn serialise_max_values() {
    let claim = CompleteClaimData {
        identifier: "i".to_string(),
        owner: "o".to_string(),
        epoch: u64::MAX,
        timestampS: 10,
    };
    assert_eq!(claim.serialise(), "i\no\n10\n18446744073709551615");
}

#[test]
fn recovers_address_of_private_key_one() {
    let hash = keccak256("message");
    let sig = eth_signature(&signing_key(1), &hash);
    let address = SignedClaim::recover_single_signer(&sig, &hash).unwrap();
    assert_eq!(address, "0x7e5f4552091a69125d5dfcb7b8c2659029395bdf");
}

#[test]
fn recovered_address_is_keccak_of_public_key() {
    let key = signing_key(7);
    let hash = keccak256("another message");
    let sig = eth_signature(&key, &hash);
    let point = key.verifying_key().to_encoded_point(false);
    let expected = format!("0x{}", hex::encode(&raw_keccak(&point.as_bytes()[1..])[12..]));
    assert_eq!(SignedClaim::recover_single_signer(&sig, &hash).unwrap(), expected);
}

#[test]
fn recovery_accepts_upper_case_hex() {
    let hash = keccak256("message");
    let sig = eth_signature(&signing_key(1), &hash);
    let upper = format!("0x{}", sig[2..].to_uppercase());
    assert_eq!(
        SignedClaim::recover_single_signer(&upper, &hash).unwrap(),
        "0x7e5f4552091a69125d5dfcb7b8c2659029395bdf"
    );
}

#[test]
fn recovery_requires_0x_prefix() {
    let hash = keccak256("message");
    let sig = eth_signature(&signing_key(1), &hash);
    let err = SignedClaim::recover_single_signer(&sig[2..], &hash).unwrap_err();
    assert_eq!(err, ContractError::InvalidSignatureFormat { reason: "Missing 0x prefix".to_string() });
}

#[test]
fn recovery_rejects_short_signature() {
    let hash = keccak256("message");
    let err = SignedClaim::recover_single_signer("0x1234", &hash).unwrap_err();
    assert_eq!(
        err,
        ContractError::InvalidSignatureFormat {
            reason: "Signature too short: expected at least 130 hex chars, got 4".to_string()
        }
    );
}

#[test]
fn recovery_rejects_bad_recovery_hex() {
    let hash = keccak256("message");
    let sig = format!("0x{}zz", "11".repeat(64));
    match SignedClaim::recover_single_signer(&sig, &hash) {
        Err(ContractError::HexDecodeError(msg)) => {
            assert!(msg.starts_with("Recovery param decode failed: "))
        },
        other => panic!("unexpected {:?}", other),
    }
}

#[test]
fn recovery_rejects_recovery_value_out_of_range() {
    let hash = keccak256("message");
    let sig = format!("0x{}1d", "11".repeat(64));
    let err = SignedClaim::recover_single_signer(&sig, &hash).unwrap_err();
    assert_eq!(err, ContractError::InvalidRecoveryParam { value: 29 });
    let sig = format!("0x{}00", "11".repeat(64));
    let err = SignedClaim::recover_single_signer(&sig, &hash).unwrap_err();
    assert_eq!(err, ContractError::InvalidRecoveryParam { value: 0 });
}

#[test]
fn recovery_rejects_bad_rs_hex() {
    let hash = keccak256("message");
    let sig = format!("0x{}g1b", "1".repeat(127));
    match SignedClaim::recover_single_signer(&sig, &hash) {
        Err(ContractError::HexDecodeError(msg)) => {
            assert!(msg.starts_with("Signature r,s decode failed: "))
        },
        other => panic!("unexpected {:?}", other),
    }
}

#[test]
fn recovery_reports_odd_rs_length() {
    let hash = keccak256("message");
    let sig = format!("0x{}1b", "1".repeat(129));
    let err = SignedClaim::recover_single_signer(&sig, &hash).unwrap_err();
    assert_eq!(
        err,
        ContractError::HexDecodeError("Signature r,s decode failed: Odd number of digits".to_string())
    );
}

#[test]
fn recovery_rejects_zero_scalars() {
    let hash = keccak256("message");
    let sig = format!("0x{}1b", "00".repeat(64));
    let err = SignedClaim::recover_single_signer(&sig, &hash).unwrap_err();
    assert_eq!(err, ContractError::SignatureConversionError {});
}

#[test]
fn recovery_rejects_scalar_above_order() {
    let hash = keccak256("message");
    let sig = format!("0x{}{}1b", "ff".repeat(32), "01".repeat(32));
    let err = SignedClaim::recover_single_signer(&sig, &hash).unwrap_err();
    assert_eq!(err, ContractError::SignatureConversionError {});
}

#[test]
fn recovery_with_wrong_parity_gives_another_key_or_fails() {
    let key = signing_key(1);
    let hash = keccak256("message");
    let sig = eth_signature(&key, &hash);
    let v = &sig[sig.len() - 2..];
    let flipped = format!("{}{}", &sig[..sig.len() - 2], if v == "1b" { "1c" } else { "1b" });
    match SignedClaim::recover_single_signer(&flipped, &hash) {
        Ok(address) => assert_ne!(address, "0x7e5f4552091a69125d5dfcb7b8c2659029395bdf"),
        Err(e) => assert_eq!(e, ContractError::KeyRecoveryError {}),
    }
}

#[test]
fn recover_signers_keeps_signature_order() {
    let claim = sample_claim();
    let hash = keccak256(&claim.serialise());
    let k1 = signing_key(1);
    let k2 = signing_key(2);
    let signed = SignedClaim {
        claim: sample_claim(),
        signatures: vec![eth_signature(&k2, &hash), eth_signature(&k1, &hash)],
    };
    let signers = signed.recover_signers_of_signed_claim().unwrap();
    assert_eq!(signers.len(), 2);
    assert_eq!(signers[0], "0x2b5ad5c4795c026514f8317c7a215e218dccd6cf");
    assert_eq!(signers[1], "0x7e5f4552091a69125d5dfcb7b8c2659029395bdf");
}

#[test]
fn recover_signers_of_no_signatures_is_empty() {
    let signed = SignedClaim { claim: sample_claim(), signatures: vec![] };
    assert_eq!(signed.recover_signers_of_signed_claim().unwrap(), Vec::<String>::new());
}

#[test]
fn recover_signers_stops_at_first_bad_signature() {
    let claim = sample_claim();
    let hash = keccak256(&claim.serialise());
    let good = eth_signature(&signing_key(1), &hash);
    let signed = SignedClaim {
        claim: sample_claim(),
        signatures: vec![good, "no prefix".to_string(), "0x12".to_string()],
    };
    let err = signed.recover_signers_of_signed_claim().unwrap_err();
    assert_eq!(err, ContractError::InvalidSignatureFormat { reason: "Missing 0x prefix".to_string() });
}

#[test]
fn recovery_rejects_split_inside_character() {
    let hash = keccak256("message");
    // The split before `v` falls inside the two-byte character.
    let sig = format!("0x{}\u{e9}1", "1".repeat(128));
    assert_eq!(
        SignedClaim::recover_single_signer(&sig, &hash).unwrap_err(),
        ContractError::InvalidSignatureFormat { reason: "Signature contains non-hex characters".to_string() }
    );
}

#[test]
fn recovery_rejects_rs_of_wrong_size() {
    // 65 bytes of `r || s`, then v = 27.
    let sig = format!("0x{}1b", "00".repeat(65));
    assert_eq!(
        SignedClaim::recover_single_signer(&sig, &[0u8; 32]).unwrap_err(),
        ContractError::SignatureConversionError {}
    );
    // An out-of-range `v` is reported before `r || s` is converted.
    let sig = format!("0x{}1d", "11".repeat(65));
    assert_eq!(
        SignedClaim::recover_single_signer(&sig, &[0u8; 32]).unwrap_err(),
        ContractError::InvalidRecoveryParam { value: 29 }
    );
}

#[test]
fn recovery_reports_invalid_character_text() {
    let hash = keccak256("message");
    let sig = format!("0x{}zz", "11".repeat(64));
    assert_eq!(
        SignedClaim::recover_single_signer(&sig, &hash).unwrap_err(),
        ContractError::HexDecodeError("Recovery param decode failed: Invalid character 'z' at position 0".to_string())
    );
}

#[test]
fn recover_signers_reports_first_failure_unchanged() {
    let claim = sample_claim();
    let hash = keccak256(&claim.serialise());
    let good = eth_signature(&signing_key(1), &hash);
    let bad = format!("0x{}g1b", "1".repeat(127));
    let expected = SignedClaim::recover_single_signer(&bad, &hash).unwrap_err();
    let signed = SignedClaim { claim: sample_claim(), signatures: vec![good, bad, "0x12".to_string()] };
    assert_eq!(signed.recover_signers_of_signed_claim().unwrap_err(), expected);
}

#[test]
fn recovered_addresses_pass_address_validation() {
    let hash = keccak256("message");
    for secret in 1..6u8 {
        let address = SignedClaim::recover_single_signer(&eth_signature(&signing_key(secret), &hash), &hash).unwrap();
        assert_eq!(reclaim_cosmwasm::Witness::validate_eth_address(&address), Ok(()));
    }
}

#[test]
fn serialised_claims_differ_when_fields_differ() {
    let a = CompleteClaimData { identifier: "id".to_string(), owner: "o".to_string(), epoch: 1, timestampS: 23 };
    let b = CompleteClaimData { identifier: "id".to_string(), owner: "o".to_string(), epoch: 12, timestampS: 3 };
    assert_ne!(a.serialise(), b.serialise());
    let parts: Vec<String> = a.serialise().split('\n').map(|p| p.to_string()).collect();
    assert_eq!(parts, vec!["id", "o", "23", "1"]);
}
