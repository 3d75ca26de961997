//! Properties that relate the contract's operations to each other.

use crate::claims::{
    all_signers_recovered, claim_info_hash, claim_message_hash, eth_signed_message, first_signer_error,
    recovered_signer, serialised_claim, signer_error, signers_outcome, CompleteClaimData, Proof,
};
use crate::event_builder::{signer_event, verify_event};
use crate::contract::{
    epoch_addition_outcome, expected_witnesses, instantiate_response, le_u32_at, recovered_signers,
    selected_witnesses, verification_is_panic_free, verification_outcome, witness_accepted, witness_addresses,
    EpochAddition, EPOCH_DURATION_NANOS,
};
use crate::event_builder::Response;
use crate::state::{valid_eth_address, Config, Epoch, Witness};
use crate::error::same_error;
use crate::text::{
    decimal, decimal_value, lemma_decimal_digits, lemma_decimal_injective, lemma_decimal_value,
    lemma_encode_utf8_concat,
};
use crate::ContractError;
use vstd::prelude::*;
use vstd::utf8::*;

verus! {

/// Witness selection picks exactly the requested number of witnesses, every one of
/// them from the given list.
pub proof fn selected_witnesses_come_from_the_list(witnesses: Seq<Witness>, hash: Seq<u8>, count: nat)
    requires
        count == 0 || witnesses.len() > 0,
    ensures
        selected_witnesses(witnesses, hash, count).len() == count,
        forall|k: int| 0 <= k < count ==> witnesses.contains(#[trigger] selected_witnesses(witnesses, hash, count)[k]),
{
    assert forall|k: int| 0 <= k < count implies witnesses.contains(#[trigger] selected_witnesses(witnesses, hash, count)[k]) by {
        let offset = (4 * k) % (hash.len() as int);
        let index = le_u32_at(hash, offset) % (witnesses.len() as int);
        assert(le_u32_at(hash, offset) >= 0);
        assert(0 <= index < witnesses.len());
        assert(selected_witnesses(witnesses, hash, count)[k] == witnesses[index]);
    }
}

/// The witnesses expected for a claim depend only on the epoch's id, witness list and
/// minimum, the claim's identifier and the block time: the epoch's start and end do not
/// matter, and the same inputs always give the same witnesses.
pub proof fn expected_witnesses_depend_only_on_their_inputs(e1: Epoch, e2: Epoch, identifier: Seq<char>, timestamp_nanos: u64)
    requires
        e1.id == e2.id,
        e1.witness@ == e2.witness@,
        e1.minimum_witness_for_claim_creation == e2.minimum_witness_for_claim_creation,
    ensures
        expected_witnesses(e1, identifier, timestamp_nanos) == expected_witnesses(e2, identifier, timestamp_nanos),
{
}

/// An epoch that `add_epoch` accepts can be used to verify proofs: it has at least one
/// witness, requires between one and all of them to sign, lists only valid addresses
/// and hosts, and its id is the configuration's new current epoch.
pub proof fn added_epochs_are_usable(
    added: EpochAddition,
    config: Config,
    now_nanos: u64,
    witness: Seq<Witness>,
    minimum_witness: u128,
    sender: Seq<char>,
)
    requires
        epoch_addition_outcome(Ok(added), config, now_nanos, witness, minimum_witness, sender),
    ensures
        added.epoch.witness@.len() > 0,
        1 <= added.epoch.minimum_witness_for_claim_creation <= added.epoch.witness@.len(),
        forall|i: int| 0 <= i < added.epoch.witness@.len() ==> witness_accepted(#[trigger] added.epoch.witness@[i]),
        forall|i: int| 0 <= i < added.epoch.witness@.len() ==> valid_eth_address(
            encode_utf8(#[trigger] added.epoch.witness@[i].address@),
        ),
        added.config.current_epoch == added.epoch.id,
        added.config.owner@ == sender,
{
    assert forall|i: int| 0 <= i < added.epoch.witness@.len() implies valid_eth_address(
        encode_utf8(#[trigger] added.epoch.witness@[i].address@),
    ) by {
        assert(witness_accepted(added.epoch.witness@[i]));
    }
}

/// Only the owner can add an epoch: any other sender is refused as unauthorised.
pub proof fn only_the_owner_adds_epochs(
    res: Result<EpochAddition, ContractError>,
    config: Config,
    now_nanos: u64,
    witness: Seq<Witness>,
    minimum_witness: u128,
    sender: Seq<char>,
)
    requires
        epoch_addition_outcome(res, config, now_nanos, witness, minimum_witness, sender),
        sender != config.owner@,
    ensures
        res matches Err(ContractError::Unauthorized { }),
{
}

/// A verified proof was signed by exactly as many signers as the epoch's minimum, every
/// one of them a witness selected for the claim from the epoch's list.
pub proof fn verified_proofs_are_signed_by_selected_witnesses(
    response: Response,
    epoch: Epoch,
    proof: Proof,
    now_nanos: u64,
)
    requires
        verification_is_panic_free(epoch, proof, now_nanos),
        verification_outcome(Ok(response), epoch, proof, now_nanos),
    ensures
        ({
            let sigs = proof.signedClaim.signatures@;
            let signers = recovered_signers(sigs, claim_message_hash(proof.signedClaim.claim));
            let expected = expected_witnesses(epoch, proof.signedClaim.claim.identifier@, now_nanos);
            &&& all_signers_recovered(sigs, claim_message_hash(proof.signedClaim.claim))
            &&& signers.len() == epoch.minimum_witness_for_claim_creation
            &&& forall|i: int| 0 <= i < signers.len() ==> witness_addresses(expected).contains(#[trigger] signers[i])
            &&& forall|k: int| 0 <= k < expected.len() ==> epoch.witness@.contains(#[trigger] expected[k])
        }),
{
    let expected = expected_witnesses(epoch, proof.signedClaim.claim.identifier@, now_nanos);
    let hash = crate::hashing::sha256_of(
        encode_utf8(
            crate::contract::witness_seed_text(
                proof.signedClaim.claim.identifier@,
                epoch.minimum_witness_for_claim_creation,
                now_nanos,
                epoch.id,
            ),
        ),
    );
    selected_witnesses_come_from_the_list(epoch.witness@, hash, epoch.minimum_witness_for_claim_creation as nat);
}


/// Where recovery from a signature fails, it fails with one error, whatever the call.
pub proof fn signer_errors_are_determined(e1: ContractError, e2: ContractError, sig: Seq<u8>, message_hash: Seq<u8>)
    requires
        signer_error(e1, sig, message_hash),
        signer_error(e2, sig, message_hash),
    ensures
        same_error(e1, e2),
{
}

/// Recovering a claim's signers fails with the error of its first failing signature, so
/// two calls on the same signatures fail with the same error.
pub proof fn first_signer_errors_are_determined(e1: ContractError, e2: ContractError, sigs: Seq<String>, message_hash: Seq<u8>)
    requires
        first_signer_error(e1, sigs, message_hash),
        first_signer_error(e2, sigs, message_hash),
    ensures
        same_error(e1, e2),
{
    let i1 = choose|i: int|
        0 <= i < sigs.len() && (forall|j: int|
            0 <= j < i ==> (#[trigger] recovered_signer(encode_utf8(sigs[j]@), message_hash)) is Some)
            && recovered_signer(encode_utf8(sigs[i]@), message_hash) is None
            && signer_error(e1, encode_utf8(sigs[i]@), message_hash);
    let i2 = choose|i: int|
        0 <= i < sigs.len() && (forall|j: int|
            0 <= j < i ==> (#[trigger] recovered_signer(encode_utf8(sigs[j]@), message_hash)) is Some)
            && recovered_signer(encode_utf8(sigs[i]@), message_hash) is None
            && signer_error(e2, encode_utf8(sigs[i]@), message_hash);
    if i1 < i2 {
        assert(recovered_signer(encode_utf8(sigs[i1]@), message_hash) is Some);
    }
    if i2 < i1 {
        assert(recovered_signer(encode_utf8(sigs[i2]@), message_hash) is Some);
    }
    signer_errors_are_determined(e1, e2, encode_utf8(sigs[i1]@), message_hash);
}

/// Where a claim's hash matches but its signers cannot all be recovered, `verify_proof`
/// fails with the error that recovering the signers fails with.
pub proof fn verification_reports_the_recovery_error(
    verified: Result<Response, ContractError>,
    recovered: Result<Vec<String>, ContractError>,
    epoch: Epoch,
    proof: Proof,
    now_nanos: u64,
)
    requires
        verification_outcome(verified, epoch, proof, now_nanos),
        signers_outcome(recovered, proof.signedClaim),
        proof.signedClaim.claim.identifier@ == claim_info_hash(proof.claimInfo),
        recovered is Err,
    ensures
        verified matches Err(e) && same_error(e, recovered->Err_0),
{
    let sigs = proof.signedClaim.signatures@;
    let h = claim_message_hash(proof.signedClaim.claim);
    let ev = verified->Err_0;
    first_signer_errors_are_determined(ev, recovered->Err_0, sigs, h);
}

/// The epochs stored beside a configuration: one under each id from 1 to the current
/// epoch, each carrying its own id, requiring between one and all of its witnesses,
/// listing valid witnesses only and lasting one day.
pub open spec fn stored_epochs_valid(config: Config, epochs: Map<u128, Epoch>) -> bool {
    &&& forall|id: u128| epochs.dom().contains(id) <==> 1 <= id <= config.current_epoch
    &&& forall|id: u128| #[trigger] epochs.dom().contains(id) ==> {
        let e = epochs[id];
        &&& e.id == id
        &&& 1 <= e.minimum_witness_for_claim_creation <= e.witness@.len()
        &&& forall|i: int| 0 <= i < e.witness@.len() ==> witness_accepted(#[trigger] e.witness@[i])
        &&& e.timestamp_end == e.timestamp_start + EPOCH_DURATION_NANOS
    }
}

/// A freshly instantiated contract stores no epoch, validly.
pub proof fn instantiation_starts_with_valid_epochs(config: Config, response: Response, owner: Seq<char>)
    requires
        config.owner@ == owner,
        config.current_epoch == 0,
        response@ == instantiate_response(owner),
    ensures
        stored_epochs_valid(config, Map::<u128, Epoch>::empty()),
{
}

/// Adding an epoch keeps the stored epochs valid: the new id is not stored yet (so saving
/// it as a new epoch succeeds), and storing the epoch under its id beside the updated
/// configuration gives valid stored epochs again. Refused requests and proof verifications
/// store nothing.
pub proof fn adding_an_epoch_keeps_stored_epochs_valid(
    config: Config,
    epochs: Map<u128, Epoch>,
    added: EpochAddition,
    now_nanos: u64,
    witness: Seq<Witness>,
    minimum_witness: u128,
    sender: Seq<char>,
)
    requires
        stored_epochs_valid(config, epochs),
        epoch_addition_outcome(Ok(added), config, now_nanos, witness, minimum_witness, sender),
    ensures
        !epochs.dom().contains(added.epoch.id),
        stored_epochs_valid(added.config, epochs.insert(added.epoch.id, added.epoch)),
{
    let new_epochs = epochs.insert(added.epoch.id, added.epoch);
    assert forall|id: u128| #[trigger] new_epochs.dom().contains(id) implies {
        let e = new_epochs[id];
        &&& e.id == id
        &&& 1 <= e.minimum_witness_for_claim_creation <= e.witness@.len()
        &&& forall|i: int| 0 <= i < e.witness@.len() ==> witness_accepted(#[trigger] e.witness@[i])
        &&& e.timestamp_end == e.timestamp_start + EPOCH_DURATION_NANOS
    } by {
        if id != added.epoch.id {
            assert(epochs.dom().contains(id));
        }
    }
}

/// A serialised claim whose identifier and owner hold no line break splits back into its
/// fields: two such claims serialise alike only if identifier, owner, timestamp and epoch agree.
pub proof fn serialised_claims_split_into_their_fields(c1: CompleteClaimData, c2: CompleteClaimData)
    requires
        !c1.identifier@.contains('\n'),
        !c1.owner@.contains('\n'),
        !c2.identifier@.contains('\n'),
        !c2.owner@.contains('\n'),
        serialised_claim(c1) == serialised_claim(c2),
    ensures
        c1.identifier@ == c2.identifier@,
        c1.owner@ == c2.owner@,
        c1.timestampS == c2.timestampS,
        c1.epoch == c2.epoch,
{
    reveal_strlit("\n");
    let t1 = decimal(c1.timestampS as nat);
    let t2 = decimal(c2.timestampS as nat);
    let d1 = decimal(c1.epoch as nat);
    let d2 = decimal(c2.epoch as nat);
    lemma_decimal_digits(c1.timestampS as nat);
    lemma_decimal_digits(c2.timestampS as nat);
    assert(!t1.contains('\n'));
    assert(!t2.contains('\n'));
    assert("\n"@ =~= seq!['\n']);
    assert(serialised_claim(c1) =~= c1.identifier@ + seq!['\n'] + (c1.owner@ + "\n"@ + t1 + "\n"@ + d1));
    assert(serialised_claim(c2) =~= c2.identifier@ + seq!['\n'] + (c2.owner@ + "\n"@ + t2 + "\n"@ + d2));
    lemma_split_at_line_break(
        c1.identifier@,
        c1.owner@ + "\n"@ + t1 + "\n"@ + d1,
        c2.identifier@,
        c2.owner@ + "\n"@ + t2 + "\n"@ + d2,
    );
    assert(c1.owner@ + "\n"@ + t1 + "\n"@ + d1 =~= c1.owner@ + seq!['\n'] + (t1 + "\n"@ + d1));
    assert(c2.owner@ + "\n"@ + t2 + "\n"@ + d2 =~= c2.owner@ + seq!['\n'] + (t2 + "\n"@ + d2));
    lemma_split_at_line_break(c1.owner@, t1 + "\n"@ + d1, c2.owner@, t2 + "\n"@ + d2);
    lemma_split_at_line_break(t1, d1, t2, d2);
    lemma_decimal_injective(c1.timestampS as nat, c2.timestampS as nat);
    lemma_decimal_injective(c1.epoch as nat, c2.epoch as nat);
}

/// Two texts that start with a line-break-free part and a line break agree on both parts.
proof fn lemma_split_at_line_break(a1: Seq<char>, r1: Seq<char>, a2: Seq<char>, r2: Seq<char>)
    requires
        !a1.contains('\n'),
        !a2.contains('\n'),
        a1 + seq!['\n'] + r1 == a2 + seq!['\n'] + r2,
    ensures
        a1 == a2,
        r1 == r2,
{
    let s = a1 + seq!['\n'] + r1;
    if a1.len() < a2.len() {
        assert(s[a1.len() as int] == '\n');
        assert((a2 + seq!['\n'] + r2)[a1.len() as int] == a2[a1.len() as int]);
        assert(a2.contains(a2[a1.len() as int]));
    } else if a2.len() < a1.len() {
        assert((a2 + seq!['\n'] + r2)[a2.len() as int] == '\n');
        assert(s[a2.len() as int] == a1[a2.len() as int]);
        assert(a1.contains(a1[a2.len() as int]));
    }
    assert(a1 =~= s.subrange(0, a1.len() as int));
    assert(a2 =~= (a2 + seq!['\n'] + r2).subrange(0, a2.len() as int));
    assert(r1 =~= s.subrange(a1.len() as int + 1, s.len() as int));
    assert(r2 =~= (a2 + seq!['\n'] + r2).subrange(a2.len() as int + 1, s.len() as int));
}


/// Whether the recovered address `a` is one of the selected witnesses' addresses.
pub open spec fn is_selected_address(expected: Seq<Witness>, a: Option<Seq<char>>) -> bool {
    exists|k: int| 0 <= k < expected.len() && a == Some(#[trigger] expected[k].address@)
}

/// `verify_proof` accepts a proof exactly when the claim's hash matches its identifier, every
/// signature yields a signer, there are as many signatures as selected witnesses, and the
/// signer of each signature is one of the selected witnesses, in whatever order.
pub proof fn verification_accepts_exactly_selected_signers(
    res: Result<Response, ContractError>,
    epoch: Epoch,
    proof: Proof,
    now_nanos: u64,
)
    requires
        verification_outcome(res, epoch, proof, now_nanos),
    ensures
        res is Ok <==> {
            let sigs = proof.signedClaim.signatures@;
            let h = claim_message_hash(proof.signedClaim.claim);
            let expected = expected_witnesses(epoch, proof.signedClaim.claim.identifier@, now_nanos);
            &&& proof.signedClaim.claim.identifier@ == claim_info_hash(proof.claimInfo)
            &&& forall|i: int| 0 <= i < sigs.len() ==> (#[trigger] recovered_signer(encode_utf8(sigs[i]@), h)) is Some
            &&& sigs.len() == expected.len()
            &&& forall|i: int| 0 <= i < sigs.len() ==> is_selected_address(expected, #[trigger] recovered_signer(encode_utf8(sigs[i]@), h))
        },
{
    let sigs = proof.signedClaim.signatures@;
    let h = claim_message_hash(proof.signedClaim.claim);
    let expected = expected_witnesses(epoch, proof.signedClaim.claim.identifier@, now_nanos);
    let addresses = witness_addresses(expected);
    let signers = recovered_signers(sigs, h);
    if proof.signedClaim.claim.identifier@ == claim_info_hash(proof.claimInfo) && all_signers_recovered(sigs, h)
        && sigs.len() == expected.len() {
        assert forall|i: int| 0 <= i < sigs.len() implies (addresses.contains(#[trigger] signers[i])
            <==> is_selected_address(expected, recovered_signer(encode_utf8(sigs[i]@), h))) by {
            assert(recovered_signer(encode_utf8(sigs[i]@), h) is Some);
            assert(signers[i] == recovered_signer(encode_utf8(sigs[i]@), h).unwrap());
            if addresses.contains(signers[i]) {
                let k = choose|k: int| 0 <= k < addresses.len() && addresses[k] == signers[i];
                assert(recovered_signer(encode_utf8(sigs[i]@), h) == Some(expected[k].address@));
            }
            if is_selected_address(expected, recovered_signer(encode_utf8(sigs[i]@), h)) {
                let k = choose|k: int| 0 <= k < expected.len() && recovered_signer(encode_utf8(sigs[i]@), h)
                    == Some(#[trigger] expected[k].address@);
                assert(addresses[k] == expected[k].address@);
            }
        }
        if res is Ok {
            assert forall|i: int| 0 <= i < sigs.len() implies is_selected_address(
                expected,
                #[trigger] recovered_signer(encode_utf8(sigs[i]@), h),
            ) by {
                assert(addresses.contains(signers[i]));
            }
        } else {
            let i = choose|i: int| 0 <= i < signers.len() && !addresses.contains(#[trigger] signers[i]);
            assert(!is_selected_address(expected, recovered_signer(encode_utf8(sigs[i]@), h)));
        }
    }
}

/// `verify_proof` does not depend on the order of the signatures: two proofs of one claim
/// with the same number of signatures, each signature of one found in the other, are both
/// accepted or both refused.
pub proof fn verification_ignores_signature_order(
    r1: Result<Response, ContractError>,
    r2: Result<Response, ContractError>,
    epoch: Epoch,
    p1: Proof,
    p2: Proof,
    now_nanos: u64,
)
    requires
        verification_outcome(r1, epoch, p1, now_nanos),
        verification_outcome(r2, epoch, p2, now_nanos),
        p1.claimInfo == p2.claimInfo,
        p1.signedClaim.claim == p2.signedClaim.claim,
        p1.signedClaim.signatures@.len() == p2.signedClaim.signatures@.len(),
        forall|i: int| 0 <= i < p2.signedClaim.signatures@.len() ==> exists|j: int|
            0 <= j < p1.signedClaim.signatures@.len() && #[trigger] p2.signedClaim.signatures@[i]@
                == p1.signedClaim.signatures@[j]@,
        forall|j: int| 0 <= j < p1.signedClaim.signatures@.len() ==> exists|i: int|
            0 <= i < p2.signedClaim.signatures@.len() && #[trigger] p1.signedClaim.signatures@[j]@
                == p2.signedClaim.signatures@[i]@,
    ensures
        r1 is Ok <==> r2 is Ok,
{
    verification_accepts_exactly_selected_signers(r1, epoch, p1, now_nanos);
    verification_accepts_exactly_selected_signers(r2, epoch, p2, now_nanos);
    let s1 = p1.signedClaim.signatures@;
    let s2 = p2.signedClaim.signatures@;
    let h = claim_message_hash(p1.signedClaim.claim);
    let expected = expected_witnesses(epoch, p1.signedClaim.claim.identifier@, now_nanos);
    if r1 is Ok {
        assert forall|i: int| 0 <= i < s2.len() implies (#[trigger] recovered_signer(encode_utf8(s2[i]@), h)) is Some
            && is_selected_address(expected, recovered_signer(encode_utf8(s2[i]@), h)) by {
            let j = choose|j: int| 0 <= j < s1.len() && s2[i]@ == #[trigger] s1[j]@;
            assert(recovered_signer(encode_utf8(s1[j]@), h) is Some);
            assert(is_selected_address(expected, recovered_signer(encode_utf8(s1[j]@), h)));
        }
    }
    if r2 is Ok {
        assert forall|j: int| 0 <= j < s1.len() implies (#[trigger] recovered_signer(encode_utf8(s1[j]@), h)) is Some
            && is_selected_address(expected, recovered_signer(encode_utf8(s1[j]@), h)) by {
            let i = choose|i: int| 0 <= i < s2.len() && s1[j]@ == #[trigger] s2[i]@;
            assert(recovered_signer(encode_utf8(s2[i]@), h) is Some);
            assert(is_selected_address(expected, recovered_signer(encode_utf8(s2[i]@), h)));
        }
    }
}

/// When `verify_proof` accepts a proof, the signers it reports are those that recovering the
/// claim's signers gives, signature by signature: each one of the selected witnesses, and the
/// response carries a signer event for each, in the order of the signatures, then the success event.
pub proof fn verified_signers_are_the_recovered_signers(
    response: Response,
    recovered: Result<Vec<String>, ContractError>,
    epoch: Epoch,
    proof: Proof,
    now_nanos: u64,
)
    requires
        verification_outcome(Ok(response), epoch, proof, now_nanos),
        signers_outcome(recovered, proof.signedClaim),
    ensures
        recovered matches Ok(signers) && {
            let expected = expected_witnesses(epoch, proof.signedClaim.claim.identifier@, now_nanos);
            &&& signers@.len() == expected.len()
            &&& forall|i: int| 0 <= i < signers@.len() ==> is_selected_address(expected, Some(#[trigger] signers@[i]@))
            &&& response@.1 == signers@.map_values(|s: String| signer_event(s@)).push(
                verify_event(proof.signedClaim.claim.epoch),
            )
        },
{
    verification_accepts_exactly_selected_signers(Ok(response), epoch, proof, now_nanos);
    let sigs = proof.signedClaim.signatures@;
    let h = claim_message_hash(proof.signedClaim.claim);
    let expected = expected_witnesses(epoch, proof.signedClaim.claim.identifier@, now_nanos);
    assert(all_signers_recovered(sigs, h));
    let signers = recovered->Ok_0;
    assert forall|i: int| 0 <= i < signers@.len() implies is_selected_address(expected, Some(#[trigger] signers@[i]@)) by {
        assert(Some(signers@[i]@) == recovered_signer(encode_utf8(sigs[i]@), h));
        assert(is_selected_address(expected, recovered_signer(encode_utf8(sigs[i]@), h)));
    }
    let from_recovery = recovered_signers(sigs, h);
    assert(from_recovery.map_values(|s: Seq<char>| signer_event(s)) =~= signers@.map_values(
        |s: String| signer_event(s@),
    )) by {
        assert forall|i: int| 0 <= i < signers@.len() implies from_recovery[i] == signers@[i]@ by {
            assert(Some(signers@[i]@) == recovered_signer(encode_utf8(sigs[i]@), h));
        }
    }
}

/// An accepted `add_epoch` records the request as it was made: the requested minimum and
/// witnesses, the next id, and a one-day span starting at the block time.
pub proof fn added_epoch_records_the_request(
    added: EpochAddition,
    config: Config,
    now_nanos: u64,
    witness: Seq<Witness>,
    minimum_witness: u128,
    sender: Seq<char>,
)
    requires
        epoch_addition_outcome(Ok(added), config, now_nanos, witness, minimum_witness, sender),
    ensures
        added.epoch.minimum_witness_for_claim_creation == minimum_witness,
        added.epoch.witness@ == witness,
        added.epoch.id == config.current_epoch + 1,
        added.epoch.timestamp_start == now_nanos,
        added.epoch.timestamp_end == now_nanos + 86_400_000_000_000,
{
}

/// Witness selection reads each seed little-endian: the `k`-th selected witness is the one at
/// the index given by the four hash bytes at offset `4k` (wrapping around the hash), the first
/// of them least significant, modulo the number of witnesses.
pub proof fn selection_reads_seeds_little_endian(witnesses: Seq<Witness>, hash: Seq<u8>, count: nat, k: int)
    requires
        0 <= k < count,
        hash.len() > 0,
    ensures
        ({
            let o = (4 * k) % (hash.len() as int);
            selected_witnesses(witnesses, hash, count)[k] == witnesses[(hash[o] + hash[o + 1] * 256 + hash[o + 2]
                * 65536 + hash[o + 3] * 16777216) % (witnesses.len() as int)]
        }),
{
}

/// The EIP-191 frame carries the message's full byte length: the prefix, then the length in
/// ASCII decimal digits (which read back as the length), then the message, for every length.
pub proof fn eth_frame_carries_the_full_length(message: Seq<u8>)
    ensures
        eth_signed_message(message) == encode_utf8("\x19Ethereum Signed Message:\n"@) + encode_utf8(
            decimal(message.len()),
        ) + message,
        decimal_value(decimal(message.len())) == message.len(),
        forall|i: int| 0 <= i < decimal(message.len()).len() ==> '0' <= #[trigger] decimal(message.len())[i] <= '9',
{
    lemma_encode_utf8_concat("\x19Ethereum Signed Message:\n"@, decimal(message.len()));
    lemma_decimal_value(message.len());
    lemma_decimal_digits(message.len());
}

} // verus!
