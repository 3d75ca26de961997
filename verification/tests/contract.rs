use k256::ecdsa::SigningKey;
use reclaim_cosmwasm::claims::ClaimInfo;
use reclaim_cosmwasm::contract::{
    add_epoch, calculate_epoch_end, epoch_request_is_accepted, fetch_witness_for_claim, generate_random_seed, instantiate, select_witnesses,
    verify_proof, EPOCH_DURATION_NANOS,
};
use reclaim_cosmwasm::event_builder::{Attribute, Event};
use reclaim_cosmwasm::msg::ProofMsg;
use reclaim_cosmwasm::{keccak256, CompleteClaimData, Config, ContractError, Epoch, Proof, SignedClaim, Witness};
use sha2::{Digest, Sha256};

const ADDR1: &str = "0x7e5f4552091a69125d5dfcb7b8c2659029395bdf";
const ADDR2: &str = "0x2b5ad5c4795c026514f8317c7a215e218dccd6cf";

fn attr(key: &str, value: &str) -> Attribute {
    Attribute { key: key.to_string(), value: value.to_string() }
}

fn witness(address: &str, host: &str) -> Witness {
    Witness { address: address.to_string(), host: host.to_string() }
}

fn signing_key(secret: u8) -> SigningKey {
    let mut bytes = [0u8; 32];
    bytes[31] = secret;
    SigningKey::from_slice(&bytes).unwrap()
}

fn eth_signature(key: &SigningKey, prehash: &[u8]) -> String {
    let (sig, recid) = key.sign_prehash_recoverable(prehash).unwrap();
    let mut bytes = sig.to_bytes().to_vec();
    bytes.push(27 + recid.to_byte());
    format!("0x{}", hex::encode(bytes))
}

fn epoch_with(witnesses: Vec<Witness>, minimum: u128) -> Epoch {
    Epoch { id: 1, timestamp_start: 10, timestamp_end: 20, minimum_witness_for_claim_creation: minimum, witness: witnesses }
}

/// An independent rendering of the selection the contract documents.
fn reference_selection(epoch: &Epoch, identifier: &str, timestamp: u64) -> Vec<Witness> {
    let text = format!(
        "{}\n{}\n{}\n{}",
        hex::encode(identifier),
        epoch.minimum_witness_for_claim_creation,
        timestamp,
        epoch.id
    );
    let hash = Sha256::digest(text.as_bytes()).to_vec();
    let mut out = Vec::new();
    let mut offset = 0usize;
    for _ in 0..epoch.minimum_witness_for_claim_creation {
        let seed = u32::from_le_bytes([hash[offset], hash[offset + 1], hash[offset + 2], hash[offset + 3]]);
        out.push(epoch.witness[seed as usize % epoch.witness.len()].clone());
        offset = (offset + 4) % hash.len();
    }
    out
}

fn proof_signed_by(keys: &[u8], info: ClaimInfo, identifier: String) -> Proof {
    let claim = CompleteClaimData { identifier, owner: "0xowner".to_string(), epoch: 1, timestampS: 1700000000 };
    let hash = keccak256(&claim.serialise());
    let signatures = keys.iter().map(|k| eth_signature(&signing_key(*k), &hash)).collect();
    Proof { claimInfo: info, signedClaim: SignedClaim { claim, signatures } }
}

fn sample_info() -> ClaimInfo {
    ClaimInfo { provider: "http".to_string(), parameters: "{}".to_string(), context: "".to_string() }
}

#[test]
fn random_seed_is_little_endian() {
    let bytes = [1u8, 2, 3, 4, 0xff, 0xff, 0xff, 0xff];
    assert_eq!(generate_random_seed(&bytes, 0), 0x04030201);
    assert_eq!(generate_random_seed(&bytes, 4), u32::MAX);
    assert_eq!(generate_random_seed(&bytes, 2), 0xffff0403);
}

#[test]
fn selection_wraps_offsets_around_hash() {
    let hash: Vec<u8> = vec![1, 0, 0, 0, 2, 0, 0, 0];
    let ws = vec![witness("a", "h"), witness("b", "h"), witness("c", "h")];
    let picked = select_witnesses(&ws, &hash, 4);
    let names: Vec<&str> = picked.iter().map(|w| w.address.as_str()).collect();
    assert_eq!(names, vec!["b", "c", "b", "c"]);
}

#[test]
fn selection_of_zero_witnesses_is_empty() {
    let hash = vec![0u8; 32];
    assert!(select_witnesses(&vec![], &hash, 0).is_empty());
}

#[test]
fn fetch_matches_documented_selection() {
    let ws: Vec<Witness> = (0..5).map(|i| witness(&format!("0x{:040x}", i), &format!("host{}", i))).collect();
    let epoch = epoch_with(ws, 12);
    let expected = reference_selection(&epoch, "0xclaim", 1_700_000_000_000_000_000);
    let got = fetch_witness_for_claim(epoch.clone(), "0xclaim".to_string(), 1_700_000_000_000_000_000);
    assert_eq!(got, expected);
    assert_eq!(got.len(), 12);
    assert!(got.iter().all(|w| epoch.witness.contains(w)));
}

#[test]
fn fetch_is_deterministic_and_ignores_epoch_times() {
    let ws = vec![witness(ADDR1, "h1"), witness(ADDR2, "h2")];
    let mut other = epoch_with(ws.clone(), 2);
    other.timestamp_start = 999;
    other.timestamp_end = 1999;
    let a = fetch_witness_for_claim(epoch_with(ws, 2), "id".to_string(), 5);
    let b = fetch_witness_for_claim(other, "id".to_string(), 5);
    assert_eq!(a, b);
}

#[test]
fn epoch_end_is_one_day_later() {
    assert_eq!(calculate_epoch_end(0), 86_400_000_000_000);
    assert_eq!(calculate_epoch_end(5), 5 + EPOCH_DURATION_NANOS);
}

#[test]
fn instantiate_sets_owner_and_epoch_zero() {
    let (config, resp) = instantiate("owner");
    assert_eq!(config, Config { owner: "owner".to_string(), current_epoch: 0 });
    assert_eq!(resp.attributes, vec![attr("action", "instantiate"), attr("owner", "owner")]);
    assert_eq!(resp.events, vec![Event { ty: "instantiate".to_string(), attributes: vec![attr("owner", "owner")] }]);
}

fn owner_config() -> Config {
    Config { owner: "owner".to_string(), current_epoch: 4 }
}

#[test]
fn add_epoch_by_owner() {
    let ws = vec![witness(ADDR1, "https://w1"), witness(ADDR2, "https://w2")];
    let added = add_epoch(owner_config(), 1000, ws.clone(), 2, "owner").unwrap();
    assert_eq!(added.epoch.id, 5);
    assert_eq!(added.epoch.timestamp_start, 1000);
    assert_eq!(added.epoch.timestamp_end, 1000 + 86_400_000_000_000);
    assert_eq!(added.epoch.minimum_witness_for_claim_creation, 2);
    assert_eq!(added.epoch.witness, ws);
    assert_eq!(added.config, Config { owner: "owner".to_string(), current_epoch: 5 });
    assert_eq!(added.response.attributes, vec![attr("action", "add_epoch"), attr("epoch_id", "5")]);
    assert_eq!(
        added.response.events,
        vec![Event {
            ty: "add_epoch".to_string(),
            attributes: vec![attr("epoch_id", "5"), attr("minimum_witness", "2")]
        }]
    );
}

#[test]
fn add_epoch_refuses_other_sender() {
    let ws = vec![witness(ADDR1, "h")];
    assert_eq!(add_epoch(owner_config(), 0, ws, 1, "mallory").unwrap_err(), ContractError::Unauthorized {});
}

#[test]
fn add_epoch_refuses_empty_witness_list() {
    assert_eq!(
        add_epoch(owner_config(), 0, vec![], 1, "owner").unwrap_err(),
        ContractError::InvalidWitnessConfig { reason: "At least one witness is required".to_string() }
    );
}

#[test]
fn add_epoch_refuses_zero_minimum() {
    assert_eq!(
        add_epoch(owner_config(), 0, vec![witness(ADDR1, "h")], 0, "owner").unwrap_err(),
        ContractError::InvalidWitnessConfig { reason: "Minimum witness must be greater than zero".to_string() }
    );
}

#[test]
fn add_epoch_refuses_minimum_above_count() {
    assert_eq!(
        add_epoch(owner_config(), 0, vec![witness(ADDR1, "h")], 2, "owner").unwrap_err(),
        ContractError::InvalidWitnessConfig { reason: "Minimum witness cannot exceed total witness count".to_string() }
    );
}

#[test]
fn add_epoch_refuses_bad_address() {
    let ws = vec![witness(ADDR1, "h"), witness("0x12", "h")];
    assert_eq!(
        add_epoch(owner_config(), 0, ws, 1, "owner").unwrap_err(),
        ContractError::InvalidAddressLength { expected: 40, actual: 2 }
    );
}

#[test]
fn add_epoch_refuses_empty_host() {
    let ws = vec![witness(ADDR1, "h"), witness(ADDR2, "")];
    assert_eq!(
        add_epoch(owner_config(), 0, ws, 1, "owner").unwrap_err(),
        ContractError::InvalidWitnessConfig { reason: "Witness host cannot be empty".to_string() }
    );
}

#[test]
fn add_epoch_reports_first_bad_witness() {
    let ws = vec![witness(ADDR1, ""), witness("0x12", "h")];
    assert_eq!(
        add_epoch(owner_config(), 0, ws, 1, "owner").unwrap_err(),
        ContractError::InvalidWitnessConfig { reason: "Witness host cannot be empty".to_string() }
    );
}

#[test]
fn verify_proof_accepts_selected_witness_signature() {
    let info = sample_info();
    let proof = proof_signed_by(&[1], info.clone(), info.hash());
    let epoch = epoch_with(vec![witness(ADDR1, "h1")], 1);
    let resp = verify_proof(epoch, ProofMsg { proof }, 42).unwrap();
    assert_eq!(resp.attributes, vec![attr("action", "verify_proof")]);
    assert_eq!(
        resp.events,
        vec![
            Event { ty: "signer".to_string(), attributes: vec![attr("address", ADDR1)] },
            Event {
                ty: "verify_proof".to_string(),
                attributes: vec![attr("result", "success"), attr("epoch_id", "1")]
            },
        ]
    );
}

#[test]
fn verify_proof_refuses_hash_mismatch() {
    let proof = proof_signed_by(&[1], sample_info(), "0xnot-the-hash".to_string());
    let epoch = epoch_with(vec![witness(ADDR1, "h1")], 1);
    assert_eq!(verify_proof(epoch, ProofMsg { proof }, 42).unwrap_err(), ContractError::HashMismatchErr {});
}

#[test]
fn verify_proof_refuses_wrong_signer_count() {
    let info = sample_info();
    let proof = proof_signed_by(&[1, 1], info.clone(), info.hash());
    let epoch = epoch_with(vec![witness(ADDR1, "h1")], 1);
    assert_eq!(verify_proof(epoch, ProofMsg { proof }, 42).unwrap_err(), ContractError::WitnessMismatchErr {});
}

#[test]
fn verify_proof_refuses_unexpected_signer() {
    let info = sample_info();
    let proof = proof_signed_by(&[2], info.clone(), info.hash());
    let epoch = epoch_with(vec![witness(ADDR1, "h1")], 1);
    assert_eq!(verify_proof(epoch, ProofMsg { proof }, 42).unwrap_err(), ContractError::SignatureErr {});
}

#[test]
fn verify_proof_passes_on_signature_errors() {
    let info = sample_info();
    let mut proof = proof_signed_by(&[1], info.clone(), info.hash());
    proof.signedClaim.signatures = vec!["0x00".to_string()];
    let epoch = epoch_with(vec![witness(ADDR1, "h1")], 1);
    assert_eq!(
        verify_proof(epoch, ProofMsg { proof }, 42).unwrap_err(),
        ContractError::InvalidSignatureFormat {
            reason: "Signature too short: expected at least 130 hex chars, got 2".to_string()
        }
    );
}

#[test]
fn checked_verification_agrees_on_ordinary_input() {
    let info = sample_info();
    let proof = proof_signed_by(&[1], info.clone(), info.hash());
    let epoch = epoch_with(vec![witness(ADDR1, "h1")], 1);
    let checked = reclaim_cosmwasm::contract::verify_proof_checked(epoch.clone(), ProofMsg { proof: proof.clone() }, 42);
    assert_eq!(checked, Some(verify_proof(epoch, ProofMsg { proof }, 42)));
}

#[test]
fn checked_verification_refuses_empty_epoch_with_minimum() {
    let info = sample_info();
    let proof = proof_signed_by(&[1], info.clone(), info.hash());
    let epoch = epoch_with(vec![], 1);
    assert_eq!(reclaim_cosmwasm::contract::verify_proof_checked(epoch, ProofMsg { proof }, 42), None);
}

#[test]
fn checked_verification_of_mismatched_hash_never_panics() {
    let proof = proof_signed_by(&[1], sample_info(), "0xother".to_string());
    let epoch = epoch_with(vec![], 1);
    assert_eq!(
        reclaim_cosmwasm::contract::verify_proof_checked(epoch, ProofMsg { proof }, 42),
        Some(Err(ContractError::HashMismatchErr {}))
    );
}

#[test]
fn verification_reports_recovery_error_unchanged() {
    let info = sample_info();
    let mut proof = proof_signed_by(&[1], info.clone(), info.hash());
    proof.signedClaim.signatures.push(format!("0x{}1b", "00".repeat(65)));
    let expected = proof.signedClaim.clone().recover_signers_of_signed_claim().unwrap_err();
    assert_eq!(expected, ContractError::SignatureConversionError {});
    let epoch = epoch_with(vec![witness(ADDR1, "h1")], 1);
    assert_eq!(
        reclaim_cosmwasm::contract::verify_proof_checked(epoch, ProofMsg { proof }, 42),
        Some(Err(expected))
    );
}

#[test]
fn added_epoch_feeds_witness_selection() {
    let ws = vec![witness(ADDR1, "https://w1"), witness(ADDR2, "https://w2")];
    let added = add_epoch(owner_config(), 1000, ws.clone(), 2, "owner").unwrap();
    let selected = fetch_witness_for_claim(added.epoch.clone(), "claim".to_string(), 7);
    assert_eq!(selected.len(), 2);
    assert!(selected.iter().all(|w| ws.contains(w)));
    assert_eq!(added.config.current_epoch, added.epoch.id);
}

#[test]
fn request_acceptance_matches_add_epoch() {
    let ws = vec![witness(ADDR1, "h")];
    assert!(epoch_request_is_accepted(&owner_config(), &ws, 1, "owner"));
    assert!(!epoch_request_is_accepted(&owner_config(), &ws, 1, "other"));
    assert!(!epoch_request_is_accepted(&owner_config(), &ws, 2, "owner"));
    assert!(!epoch_request_is_accepted(&owner_config(), &vec![witness("0x1", "h")], 1, "owner"));
    assert!(!epoch_request_is_accepted(&owner_config(), &vec![witness(ADDR1, "")], 1, "owner"));
}

#[test]
fn successive_epochs_get_consecutive_ids() {
    let ws = vec![witness(ADDR1, "https://w1")];
    let (config, _) = instantiate("owner");
    let first = add_epoch(config, 100, ws.clone(), 1, "owner").unwrap();
    let second = add_epoch(first.config.clone(), 200, ws.clone(), 1, "owner").unwrap();
    assert_eq!(first.epoch.id, 1);
    assert_eq!(second.epoch.id, 2);
    assert_eq!(second.config.current_epoch, 2);
    assert_eq!(second.epoch.timestamp_end - second.epoch.timestamp_start, EPOCH_DURATION_NANOS);
    // A refused request leaves the configuration as it was.
    assert!(add_epoch(second.config.clone(), 300, vec![], 1, "owner").is_err());
}
