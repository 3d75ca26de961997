//! The decisions of the contract's entry points: witness selection for a claim,
//! proof verification, adding epochs and instantiation.

use crate::claims::{
    all_signers_recovered, claim_info_hash, claim_message_hash, first_signer_error, recovered_signer, Proof,
};
use crate::event_builder::{
    add_epoch_event, add_instantiate_event, add_signer_event, add_verify_event, epoch_event,
    instantiate_event, signer_event, verify_event, AttributeView, EventView, Response,
};
use crate::hashing::{sha256_digest, sha256_of};
use crate::msg::ProofMsg;
use crate::state::{eth_address_verdict, valid_eth_address, Config, Epoch, Witness};
use crate::text::{decimal, hex_encode, hex_lower, push_decimal, to_decimal};
use crate::ContractError;
use vstd::arithmetic::div_mod::{lemma_fundamental_div_mod, lemma_fundamental_div_mod_converse};
use vstd::prelude::*;
use vstd::utf8::*;

verus! {

/// The unsigned 32-bit integer stored little-endian in the four bytes at `offset`.
pub open spec fn le_u32_at(bytes: Seq<u8>, offset: int) -> int {
    bytes[offset] + bytes[offset + 1] * 256 + bytes[offset + 2] * 65536 + bytes[offset + 3] * 16777216
}

/// Generates a pseudo-random u32 from the four hash bytes at `offset`, little-endian.
pub fn generate_random_seed(bytes: &[u8], offset: usize) -> (seed: u32)
    requires
        offset + 4 <= bytes@.len(),
    ensures
        seed == le_u32_at(bytes@, offset as int),
{
    let b0 = bytes[offset] as u32;
    let b1 = bytes[offset + 1] as u32;
    let b2 = bytes[offset + 2] as u32;
    let b3 = bytes[offset + 3] as u32;
    let seed = b0 | (b1 << 8u32) | (b2 << 16u32) | (b3 << 24u32);
    assert(seed == b0 + b1 * 256 + b2 * 65536 + b3 * 16777216) by (bit_vector)
        requires
            b0 < 256,
            b1 < 256,
            b2 < 256,
            b3 < 256,
            seed == b0 | (b1 << 8u32) | (b2 << 16u32) | (b3 << 24u32),
    ;
    seed
}

/// The byte offset at which the seed of the `k`-th selected witness is read:
/// offsets advance by four bytes and wrap around the hash.
pub open spec fn seed_offset(k: int, hash_len: int) -> int {
    (4 * k) % hash_len
}

/// The witnesses selected from `witnesses` by `hash`: the `k`-th is the one at the
/// index given by the seed at `seed_offset(k)`, modulo the number of witnesses.
pub open spec fn selected_witnesses(witnesses: Seq<Witness>, hash: Seq<u8>, count: nat) -> Seq<Witness> {
    Seq::new(
        count,
        |k: int| witnesses[le_u32_at(hash, seed_offset(k, hash.len() as int)) % (witnesses.len() as int)],
    )
}

proof fn lemma_next_seed_offset(k: int, len: int)
    requires
        k >= 0,
        len >= 4,
        len % 4 == 0,
    ensures
        0 <= seed_offset(k, len),
        seed_offset(k, len) + 4 <= len,
        (seed_offset(k, len) + 4) % len == seed_offset(k + 1, len),
{
    let q = (4 * k) / len;
    let o = (4 * k) % len;
    lemma_fundamental_div_mod(4 * k, len);
    let b = len / 4;
    assert(len == 4 * b);
    assert(len * q == 4 * (b * q)) by (nonlinear_arith)
        requires
            len == 4 * b,
    ;
    assert(0 <= o < len);
    assert(o % 4 == 0);
    assert(4 * (k + 1) == len * q + (o + 4)) by (nonlinear_arith)
        requires
            4 * k == len * q + o,
    ;
    assert(len * q == q * len) by (nonlinear_arith);
    if o + 4 < len {
        lemma_fundamental_div_mod_converse(4 * (k + 1), len, q, o + 4);
        lemma_fundamental_div_mod_converse(o + 4, len, 0, o + 4);
    } else {
        assert(4 * (k + 1) == (q + 1) * len + 0) by (nonlinear_arith)
            requires
                4 * (k + 1) == len * q + (o + 4),
                o + 4 == len,
        ;
        lemma_fundamental_div_mod_converse(4 * (k + 1), len, q + 1, 0);
        lemma_fundamental_div_mod_converse(o + 4, len, 1, 0);
    }
}

/// Picks `count` witnesses, each by a seed read from `hash`.
pub fn select_witnesses(witnesses: &Vec<Witness>, hash: &[u8], count: u128) -> (selected: Vec<Witness>)
    requires
        hash@.len() >= 4,
        hash@.len() % 4 == 0,
        count == 0 || witnesses@.len() > 0,
    ensures
        selected@ == selected_witnesses(witnesses@, hash@, count as nat),
{
    let mut selected: Vec<Witness> = Vec::new();
    let witnesses_count = witnesses.len();
    let hash_len = hash.len();
    let mut byte_offset: usize = 0;
    let mut k: u128 = 0;
    proof {
        lemma_fundamental_div_mod_converse(0, hash_len as int, 0, 0);
    }
    while k < count
        invariant
            witnesses_count == witnesses@.len(),
            hash_len == hash@.len(),
            hash_len >= 4,
            hash_len % 4 == 0,
            count == 0 || witnesses_count > 0,
            k <= count,
            byte_offset == seed_offset(k as int, hash_len as int),
            selected@.len() == k,
            forall|j: int| 0 <= j < k ==> #[trigger] selected@[j] == selected_witnesses(witnesses@, hash@, count as nat)[j],
        decreases count - k,
    {
        proof {
            lemma_next_seed_offset(k as int, hash_len as int);
        }
        let random_seed = generate_random_seed(hash, byte_offset) as usize;
        let witness_index = random_seed % witnesses_count;
        let witness = witnesses[witness_index].clone();
        selected.push(witness);
        byte_offset = (byte_offset + 4) % hash_len;
        k = k + 1;
    }
    assert(selected@ =~= selected_witnesses(witnesses@, hash@, count as nat));
    selected
}

/// The text whose SHA-256 seeds the selection of a claim's witnesses: the hex of the
/// identifier's bytes, the epoch's minimum witness count, the block time (nanoseconds)
/// and the epoch's id, one per line.
pub open spec fn witness_seed_text(identifier: Seq<char>, minimum: u128, timestamp_nanos: u64, epoch_id: u128) -> Seq<char> {
    hex_lower(encode_utf8(identifier)) + "\n"@ + decimal(minimum as nat) + "\n"@ + decimal(timestamp_nanos as nat)
        + "\n"@ + decimal(epoch_id as nat)
}

/// The witnesses expected to sign a claim with `identifier` in `epoch` at `timestamp_nanos`.
pub open spec fn expected_witnesses(epoch: Epoch, identifier: Seq<char>, timestamp_nanos: u64) -> Seq<Witness> {
    selected_witnesses(
        epoch.witness@,
        sha256_of(
            encode_utf8(
                witness_seed_text(identifier, epoch.minimum_witness_for_claim_creation, timestamp_nanos, epoch.id),
            ),
        ),
        epoch.minimum_witness_for_claim_creation as nat,
    )
}

/// Fetches the witnesses expected to sign a claim, selected deterministically from the
/// epoch's witness list by a hash of the identifier, the epoch and the block time.
pub fn fetch_witness_for_claim(epoch: Epoch, identifier: String, timestamp_nanos: u64) -> (selected: Vec<Witness>)
    requires
        epoch.minimum_witness_for_claim_creation == 0 || epoch.witness@.len() > 0,
    ensures
        selected@ == expected_witnesses(epoch, identifier@, timestamp_nanos),
{
    let mut hash_str = hex_encode(identifier.as_str().as_bytes());
    hash_str.append("\n");
    push_decimal(&mut hash_str, epoch.minimum_witness_for_claim_creation);
    hash_str.append("\n");
    push_decimal(&mut hash_str, timestamp_nanos as u128);
    hash_str.append("\n");
    push_decimal(&mut hash_str, epoch.id);
    assert(hash_str@ =~= witness_seed_text(
        identifier@,
        epoch.minimum_witness_for_claim_creation,
        timestamp_nanos,
        epoch.id,
    ));
    let hash_result = sha256_digest(hash_str.as_str().as_bytes());
    select_witnesses(&epoch.witness, hash_result.as_slice(), epoch.minimum_witness_for_claim_creation)
}


/// The addresses of a list of witnesses.
pub open spec fn witness_addresses(witnesses: Seq<Witness>) -> Seq<Seq<char>> {
    witnesses.map_values(|w: Witness| w.address@)
}

/// The addresses recovered from the signatures, in order (meaningful where all are recovered).
pub open spec fn recovered_signers(sigs: Seq<String>, message_hash: Seq<u8>) -> Seq<Seq<char>> {
    Seq::new(sigs.len(), |i: int| recovered_signer(encode_utf8(sigs[i]@), message_hash).unwrap())
}

/// The response to a verified proof: the action, a signer event per signer, and the success event.
pub open spec fn verify_response(signers: Seq<Seq<char>>, epoch_id: u64) -> (Seq<AttributeView>, Seq<EventView>) {
    (seq![("action"@, "verify_proof"@)], signers.map_values(|s: Seq<char>| signer_event(s)).push(verify_event(epoch_id)))
}

/// What `verify_proof` answers for a proof checked against `epoch` at `now_nanos`.
pub open spec fn verification_outcome(res: Result<Response, ContractError>, epoch: Epoch, proof: Proof, now_nanos: u64) -> bool {
    let claim = proof.signedClaim.claim;
    let sigs = proof.signedClaim.signatures@;
    let message_hash = claim_message_hash(claim);
    let expected = witness_addresses(expected_witnesses(epoch, claim.identifier@, now_nanos));
    let signers = recovered_signers(sigs, message_hash);
    if claim.identifier@ != claim_info_hash(proof.claimInfo) {
        res matches Err(ContractError::HashMismatchErr { })
    } else if !all_signers_recovered(sigs, message_hash) {
        res matches Err(e) && first_signer_error(e, sigs, message_hash)
    } else if expected.len() != signers.len() {
        res matches Err(ContractError::WitnessMismatchErr { })
    } else if exists|i: int| 0 <= i < signers.len() && !expected.contains(#[trigger] signers[i]) {
        res matches Err(ContractError::SignatureErr { })
    } else {
        res matches Ok(response) && response@ == verify_response(signers, claim.epoch)
    }
}

/// The inputs on which `verify_proof` does not panic: where the claim's hash matches, the
/// epoch has a witness to select from (or none to select).
pub open spec fn verification_is_panic_free(epoch: Epoch, proof: Proof, now_nanos: u64) -> bool {
    proof.signedClaim.claim.identifier@ == claim_info_hash(proof.claimInfo) ==> (
    epoch.minimum_witness_for_claim_creation == 0 || epoch.witness@.len() > 0)
}

/// Whether `address` is in the list.
fn contains_address(addresses: &Vec<String>, address: &String) -> (found: bool)
    ensures
        found == exists|i: int| 0 <= i < addresses@.len() && #[trigger] addresses@[i]@ == address@,
{
    let mut i: usize = 0;
    while i < addresses.len()
        invariant
            i <= addresses@.len(),
            forall|k: int| 0 <= k < i ==> #[trigger] addresses@[k]@ != address@,
        decreases addresses@.len() - i,
    {
        if addresses[i] == *address {
            return true;
        }
        i = i + 1;
    }
    false
}

/// Verifies a proof against the epoch its claim names, at the block time `block_time_nanos`:
/// the claim's hash must equal its identifier, and the recovered signers must be exactly
/// as many as the witnesses selected for the claim, each of them among those witnesses.
pub fn verify_proof(epoch: Epoch, msg: ProofMsg, block_time_nanos: u64) -> (res: Result<Response, ContractError>)
    requires
        verification_is_panic_free(epoch, msg.proof, block_time_nanos),
    ensures
        verification_outcome(res, epoch, msg.proof, block_time_nanos),
{
    let ghost proof = msg.proof;
    let ghost sigs = proof.signedClaim.signatures@;
    let ghost message_hash = claim_message_hash(proof.signedClaim.claim);
    let ghost expected = witness_addresses(expected_witnesses(epoch, proof.signedClaim.claim.identifier@, block_time_nanos));
    let ghost signers = recovered_signers(sigs, message_hash);
    let ProofMsg { proof: Proof { claimInfo: claim_info, signedClaim: signed_claim } } = msg;
    let claim_epoch = signed_claim.claim.epoch;
    let claim_identifier = signed_claim.claim.identifier.clone();
    let hashed = claim_info.hash();
    if !(claim_identifier == hashed) {
        return Err(ContractError::HashMismatchErr {});
    }
    let expected_witness = fetch_witness_for_claim(epoch, claim_identifier, block_time_nanos);
    let expected_witness_addresses = Witness::get_addresses(expected_witness);
    assert(expected_witness_addresses@.map_values(|a: String| a@) =~= expected);
    let signed_witness = match signed_claim.recover_signers_of_signed_claim() {
        Ok(signed) => signed,
        Err(e) => return Err(e),
    };
    assert(signed_witness@.map_values(|a: String| a@) =~= signers) by {
        assert forall|i: int| 0 <= i < signers.len() implies signed_witness@.map_values(|a: String| a@)[i] == #[trigger] signers[i] by {
            assert(Some(signed_witness@[i]@) == recovered_signer(encode_utf8(sigs[i]@), message_hash));
        }
    }
    if expected_witness_addresses.len() != signed_witness.len() {
        return Err(ContractError::WitnessMismatchErr {});
    }
    let mut resp = Response::new().add_attribute("action", "verify_proof");
    let mut i: usize = 0;
    #[verifier::loop_isolation(false)]
    while i < signed_witness.len()
        invariant
            i <= signed_witness@.len(),
            signed_witness@.map_values(|a: String| a@) == signers,
            expected_witness_addresses@.map_values(|a: String| a@) == expected,
            expected.len() == signers.len(),
            resp@ == (seq![("action"@, "verify_proof"@)], signers.take(i as int).map_values(|s: Seq<char>| signer_event(s))),
            forall|k: int| 0 <= k < i ==> expected.contains(#[trigger] signers[k]),
        decreases signed_witness@.len() - i,
    {
        let signed = &signed_witness[i];
        resp = add_signer_event(resp, signed.as_str());
        assert(signers.take(i + 1).map_values(|s: Seq<char>| signer_event(s)) =~= signers.take(i as int).map_values(
            |s: Seq<char>| signer_event(s),
        ).push(signer_event(signers[i as int])));
        if !contains_address(&expected_witness_addresses, signed) {
            assert forall|k: int| 0 <= k < expected.len() implies expected[k] != signers[i as int] by {
                assert(expected_witness_addresses@.map_values(|a: String| a@)[k] == expected_witness_addresses@[k]@);
            }
            assert(!expected.contains(signers[i as int]));
            return Err(ContractError::SignatureErr {});
        }
        assert(expected.contains(signers[i as int])) by {
            let k = choose|k: int| 0 <= k < expected_witness_addresses@.len() && #[trigger] expected_witness_addresses@[k]@ == signed@;
            assert(expected_witness_addresses@.map_values(|a: String| a@)[k] == expected_witness_addresses@[k]@);
        }
        i = i + 1;
    }
    resp = add_verify_event(resp, claim_epoch);
    assert(signers.take(signers.len() as int) =~= signers);
    Ok(resp)
}

/// Verifies a proof as `verify_proof` does, on the inputs on which that does not panic;
/// `None` on the others (those outside `verification_is_panic_free`).
pub fn verify_proof_checked(epoch: Epoch, msg: ProofMsg, block_time_nanos: u64) -> (res: Option<Result<Response, ContractError>>)
    ensures
        res is None <==> !verification_is_panic_free(epoch, msg.proof, block_time_nanos),
        res matches Some(r) ==> verification_outcome(r, epoch, msg.proof, block_time_nanos),
{
    let hashed = msg.proof.claimInfo.hash();
    if msg.proof.signedClaim.claim.identifier == hashed && epoch.minimum_witness_for_claim_creation > 0
        && epoch.witness.len() == 0 {
        return None;
    }
    Some(verify_proof(epoch, msg, block_time_nanos))
}

/// How long an epoch lasts: one day, in nanoseconds.
pub const EPOCH_DURATION_NANOS: u64 = 86400000000000;

/// Calculates the epoch end timestamp: 24 hours after `now_nanos`.
pub fn calculate_epoch_end(now_nanos: u64) -> (end: u64)
    requires
        now_nanos + EPOCH_DURATION_NANOS <= u64::MAX,
    ensures
        end == now_nanos + EPOCH_DURATION_NANOS,
{
    now_nanos + EPOCH_DURATION_NANOS
}

/// Whether a witness may be listed in an epoch: a valid Ethereum address and a host.
pub open spec fn witness_accepted(w: Witness) -> bool {
    valid_eth_address(encode_utf8(w.address@)) && w.host@.len() > 0
}

/// The error a refused witness is reported with.
pub open spec fn witness_error(e: ContractError, w: Witness) -> bool {
    if !valid_eth_address(encode_utf8(w.address@)) {
        eth_address_verdict(Err(e), encode_utf8(w.address@))
    } else {
        e matches ContractError::InvalidWitnessConfig { reason } && reason@ == "Witness host cannot be empty"@
    }
}

/// Whether a request to add an epoch passes all checks.
pub open spec fn epoch_request_accepted(config: Config, witness: Seq<Witness>, minimum_witness: u128, sender: Seq<char>) -> bool {
    &&& config.owner@ == sender
    &&& witness.len() > 0
    &&& minimum_witness > 0
    &&& minimum_witness <= witness.len()
    &&& forall|i: int| 0 <= i < witness.len() ==> witness_accepted(#[trigger] witness[i])
}

/// Whether `add_epoch` accepts the request: callers outside the verified code test this
/// to know whether the epoch counter and the epoch's end will be computed.
pub fn epoch_request_is_accepted(config: &Config, witness: &Vec<Witness>, minimum_witness: u128, sender: &str) -> (ok: bool)
    ensures
        ok == epoch_request_accepted(*config, witness@, minimum_witness, sender@),
{
    let sender_text = String::from_str(sender);
    if !(config.owner == sender_text) || witness.len() == 0 || minimum_witness == 0
        || minimum_witness > witness.len() as u128 {
        return false;
    }
    let mut i: usize = 0;
    while i < witness.len()
        invariant
            i <= witness@.len(),
            forall|j: int| 0 <= j < i ==> witness_accepted(#[trigger] witness@[j]),
        decreases witness@.len() - i,
    {
        let wit = &witness[i];
        if Witness::validate_eth_address(wit.address.as_str()).is_err() || wit.host.as_str().is_empty() {
            assert(!witness_accepted(witness@[i as int]));
            return false;
        }
        i = i + 1;
    }
    true
}

/// The response to an added epoch.
pub open spec fn add_epoch_response(epoch_id: u128, minimum_witness: u128) -> (Seq<AttributeView>, Seq<EventView>) {
    (seq![("action"@, "add_epoch"@), ("epoch_id"@, decimal(epoch_id as nat))], seq![epoch_event(epoch_id, minimum_witness)])
}

/// The new epoch, the updated configuration and the response of an accepted request.
#[derive(Debug, Clone, PartialEq, Eq)]
pub struct EpochAddition {
    pub epoch: Epoch,
    pub config: Config,
    pub response: Response,
}

/// What `add_epoch` answers.
pub open spec fn epoch_addition_outcome(
    res: Result<EpochAddition, ContractError>,
    config: Config,
    now_nanos: u64,
    witness: Seq<Witness>,
    minimum_witness: u128,
    sender: Seq<char>,
) -> bool {
    if config.owner@ != sender {
        res matches Err(ContractError::Unauthorized { })
    } else if witness.len() == 0 {
        res matches Err(ContractError::InvalidWitnessConfig { reason }) && reason@ == "At least one witness is required"@
    } else if minimum_witness == 0 {
        res matches Err(ContractError::InvalidWitnessConfig { reason }) && reason@ == "Minimum witness must be greater than zero"@
    } else if minimum_witness > witness.len() {
        res matches Err(ContractError::InvalidWitnessConfig { reason }) && reason@ == "Minimum witness cannot exceed total witness count"@
    } else if !(forall|i: int| 0 <= i < witness.len() ==> witness_accepted(#[trigger] witness[i])) {
        res matches Err(e) && exists|i: int|
            0 <= i < witness.len() && (forall|j: int| 0 <= j < i ==> witness_accepted(#[trigger] witness[j]))
                && !witness_accepted(#[trigger] witness[i]) && witness_error(e, witness[i])
    } else {
        res matches Ok(added) && {
            &&& added.epoch.id == config.current_epoch + 1
            &&& added.epoch.timestamp_start == now_nanos
            &&& added.epoch.timestamp_end == now_nanos + EPOCH_DURATION_NANOS
            &&& added.epoch.minimum_witness_for_claim_creation == minimum_witness
            &&& added.epoch.witness@ == witness
            &&& added.config.owner@ == config.owner@
            &&& added.config.current_epoch == config.current_epoch + 1
            &&& added.response@ == add_epoch_response((config.current_epoch + 1) as u128, minimum_witness)
        }
    }
}

/// Adds a new epoch with the given witnesses. Only the contract's owner may do so.
pub fn add_epoch(config: Config, now_nanos: u64, witness: Vec<Witness>, minimum_witness: u128, sender: &str) -> (res: Result<EpochAddition, ContractError>)
    requires
        epoch_request_accepted(config, witness@, minimum_witness, sender@) ==> {
            &&& config.current_epoch < u128::MAX
            &&& now_nanos + EPOCH_DURATION_NANOS <= u64::MAX
        },
    ensures
        epoch_addition_outcome(res, config, now_nanos, witness@, minimum_witness, sender@),
{
    let sender_text = String::from_str(sender);
    if !(config.owner == sender_text) {
        return Err(ContractError::Unauthorized {});
    }
    if witness.len() == 0 {
        return Err(ContractError::InvalidWitnessConfig { reason: String::from_str("At least one witness is required") });
    }
    if minimum_witness == 0 {
        return Err(ContractError::InvalidWitnessConfig {
            reason: String::from_str("Minimum witness must be greater than zero"),
        });
    }
    if minimum_witness > witness.len() as u128 {
        return Err(ContractError::InvalidWitnessConfig {
            reason: String::from_str("Minimum witness cannot exceed total witness count"),
        });
    }
    let mut i: usize = 0;
    #[verifier::loop_isolation(false)]
    while i < witness.len()
        invariant
            i <= witness@.len(),
            forall|j: int| 0 <= j < i ==> witness_accepted(#[trigger] witness@[j]),
        decreases witness@.len() - i,
    {
        let wit = &witness[i];
        match Witness::validate_eth_address(wit.address.as_str()) {
            Ok(()) => {},
            Err(e) => {
                assert(!witness_accepted(witness@[i as int]));
                assert(witness_error(e, witness@[i as int]));
                return Err(e);
            },
        }
        if wit.host.as_str().is_empty() {
            assert(!witness_accepted(witness@[i as int]));
            let e = ContractError::InvalidWitnessConfig { reason: String::from_str("Witness host cannot be empty") };
            assert(witness_error(e, witness@[i as int]));
            return Err(e);
        }
        i = i + 1;
    }
    let new_epoch = config.current_epoch + 1;
    let timestamp_end = calculate_epoch_end(now_nanos);
    let epoch = Epoch {
        id: new_epoch,
        witness,
        timestamp_start: now_nanos,
        timestamp_end,
        minimum_witness_for_claim_creation: minimum_witness,
    };
    let new_config = Config { owner: config.owner, current_epoch: new_epoch };
    let id_text = to_decimal(new_epoch);
    let resp = Response::new().add_attribute("action", "add_epoch").add_attribute("epoch_id", id_text.as_str());
    let resp = add_epoch_event(resp, new_epoch, minimum_witness);
    assert(resp@.0 =~= add_epoch_response(new_epoch, minimum_witness).0);
    assert(resp@.1 =~= add_epoch_response(new_epoch, minimum_witness).1);
    Ok(EpochAddition { epoch, config: new_config, response: resp })
}

/// The response to the contract's instantiation.
pub open spec fn instantiate_response(owner: Seq<char>) -> (Seq<AttributeView>, Seq<EventView>) {
    (seq![("action"@, "instantiate"@), ("owner"@, owner)], seq![instantiate_event(owner)])
}

/// The initial configuration and the response of instantiating the contract with a
/// (validated) owner address: no epoch yet.
pub fn instantiate(owner: &str) -> (out: (Config, Response))
    ensures
        out.0.owner@ == owner@,
        out.0.current_epoch == 0,
        out.1@ == instantiate_response(owner@),
{
    let config = Config { owner: String::from_str(owner), current_epoch: 0 };
    let resp = Response::new().add_attribute("action", "instantiate").add_attribute("owner", owner);
    let resp = add_instantiate_event(resp, owner);
    assert(resp@.0 =~= instantiate_response(owner@).0);
    assert(resp@.1 =~= instantiate_response(owner@).1);
    (config, resp)
}

} // verus!
