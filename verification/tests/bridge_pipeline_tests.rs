use sp_core::Pair as SpPair;
use vectorx::bridge::{
    verify_simple_justification, HintSimpleJustification, RotateCircuit, RotateHint,
    SimpleJustificationData,
};
use vectorx::commitment::compute_authority_set_commitment;
use vectorx::encoding::encode_signed_message;
use vectorx::justification::verify_justification;
use vectorx::pipeline::{
    process_event, EventOutcome, SubscriptionMessage, SubscriptionMessageResult,
};
use vectorx::rotate::extract_rotation;
use vectorx::types::{
    Authority, AuthoritySet, Commit, GrandpaJustification, Precommit, SignedPrecommit,
    VerificationError, VerifiedJustificationRecord,
};

const ROUND: u64 = 1;
const SET_ID: u64 = 5;

fn pair(seed_byte: u8) -> sp_core::ed25519::Pair {
    sp_core::ed25519::Pair::from_seed(&[seed_byte; 32])
}

fn authority_set(pairs: &[sp_core::ed25519::Pair]) -> AuthoritySet {
    let authorities: Vec<Authority> = pairs
        .iter()
        .map(|p| Authority { public_key: p.public().0.to_vec(), weight: 1 })
        .collect();
    AuthoritySet::new(SET_ID, authorities).unwrap()
}

fn signed_by(
    p: &sp_core::ed25519::Pair,
    target_hash: &[u8],
    target_number: u32,
) -> SignedPrecommit {
    let pc = Precommit { target_hash: target_hash.to_vec(), target_number };
    let msg = encode_signed_message(&pc, ROUND, SET_ID);
    let signature = p.sign(&msg).0.to_vec();
    SignedPrecommit { precommit: pc, signature, signer: p.public().0.to_vec() }
}

fn justification_for(
    pairs: &[sp_core::ed25519::Pair],
    target_hash: &[u8],
    target_number: u32,
) -> GrandpaJustification {
    GrandpaJustification {
        round: ROUND,
        commit: Commit {
            target_hash: target_hash.to_vec(),
            target_number,
            precommits: pairs.iter().map(|p| signed_by(p, target_hash, target_number)).collect(),
        },
        votes_ancestries: Vec::new(),
    }
}

/// An accepted record for `target_hash` at `target_number` under
/// [A, B, C], signed by A and C.
fn accepted_record_for(
    target_hash: &[u8],
    target_number: u32,
) -> (VerifiedJustificationRecord, AuthoritySet) {
    let (a, b, c) = (pair(1), pair(2), pair(3));
    let set = authority_set(&[a.clone(), b, c.clone()]);
    let j = justification_for(&[a, c], target_hash, target_number);
    let rec = verify_justification(&j, SET_ID, &set).unwrap();
    (rec, set)
}

/// An accepted record for block `target_number` under [A, B, C], signed by
/// A and C.
fn accepted_record(target_number: u32) -> (VerifiedJustificationRecord, AuthoritySet) {
    accepted_record_for(&[0x11u8; 32], target_number)
}

#[test]
fn bridge_accepts_consistent_response() {
    let (rec, _set) = accepted_record(100);
    let request = HintSimpleJustification { block_number: 100, authority_set_id: SET_ID };
    let data = SimpleJustificationData { authority_set_id: SET_ID, record: rec };
    assert!(request.check_response(&data).is_ok());
}

#[test]
fn bridge_rejects_other_set_id() {
    // The supplier answering for another authority set fails the whole
    // computation; nothing is silently substituted.
    let (rec, _set) = accepted_record(100);
    let request = HintSimpleJustification { block_number: 100, authority_set_id: SET_ID + 1 };
    let data = SimpleJustificationData { authority_set_id: SET_ID, record: rec };
    assert!(matches!(
        request.check_response(&data),
        Err(VerificationError::MalformedEvidence)
    ));
}

#[test]
fn bridge_rejects_tampered_spot_signature() {
    let (mut rec, _set) = accepted_record(100);
    // The first flagged slot is authority A; corrupt its signature.
    assert!(rec.validator_signed[0]);
    rec.signatures[0][0] ^= 0x01;
    let request = HintSimpleJustification { block_number: 100, authority_set_id: SET_ID };
    let data = SimpleJustificationData { authority_set_id: SET_ID, record: rec };
    assert!(matches!(
        request.check_response(&data),
        Err(VerificationError::MalformedEvidence)
    ));
}

#[test]
fn full_witness_verification_accepts_and_binds_commitment() {
    let (rec, set) = accepted_record(100);
    let data = SimpleJustificationData { authority_set_id: SET_ID, record: rec };
    assert!(verify_simple_justification(100, SET_ID, &set.commitment, &data).is_ok());

    // Another set hash does not verify.
    let wrong = vec![0u8; 32];
    assert!(matches!(
        verify_simple_justification(100, SET_ID, &wrong, &data),
        Err(VerificationError::MalformedEvidence)
    ));

    // Another requested block number does not verify.
    assert!(matches!(
        verify_simple_justification(101, SET_ID, &set.commitment, &data),
        Err(VerificationError::MalformedEvidence)
    ));
}

#[test]
fn full_witness_verification_enforces_quorum() {
    let (rec, set) = accepted_record(100);
    let mut below = rec;
    // Rewrite the witness to claim only A signed: 3 * 1 < 2 * 3.
    below.validator_signed = vec![true, false, false];
    below.signatures[2] = vec![0u8; 64];
    let data = SimpleJustificationData { authority_set_id: SET_ID, record: below };
    assert!(matches!(
        verify_simple_justification(100, SET_ID, &set.commitment, &data),
        Err(VerificationError::QuorumNotMet)
    ));
}

#[test]
fn rotate_hint_checks_shape() {
    let hint = RotateHint { block_number: 9 };
    let keys = vec![vec![0xA1u8; 32], vec![0xB2u8; 32]];
    let header = rotation_header(&keys);
    let rd = extract_rotation(&header, 512).unwrap();
    assert!(hint.check_response(&rd).is_ok());

    let mut bad = extract_rotation(&header, 512).unwrap();
    bad.consensus_log_end += 1;
    assert!(matches!(
        hint.check_response(&bad),
        Err(VerificationError::MalformedEvidence)
    ));
}

fn rotation_header(keys: &[Vec<u8>]) -> Vec<u8> {
    let mut payload = vec![1u8];
    payload.push((keys.len() as u8) << 2);
    for key in keys {
        payload.extend_from_slice(key);
        payload.extend_from_slice(&[1, 0, 0, 0, 0, 0, 0, 0]);
    }
    payload.extend_from_slice(&[0, 0, 0, 0]);

    let mut h = vec![0u8; 32];
    h.push(5 << 2);
    h.extend_from_slice(&[0u8; 64]);
    h.push(1 << 2); // one digest item
    h.push(4u8); // consensus item
    h.extend_from_slice(b"FRNK");
    let plen = (payload.len() as u32) << 2 | 1;
    h.push((plen & 0xff) as u8);
    h.push((plen >> 8) as u8);
    h.extend_from_slice(&payload);
    h
}

#[test]
fn rotate_circuit_produces_new_set_commitment() {
    // The quorum signs the epoch-end header's own hash; the rotation
    // witness carries that exact header, so the computation yields the
    // new set's commitment.
    let new_keys = vec![vec![0xD4u8; 32], vec![0xE5u8; 32]];
    let header = rotation_header(&new_keys);
    let header_hash: Vec<u8> =
        <blake2::Blake2b256 as blake2::Digest>::digest(header.as_slice()).to_vec();
    let (rec, set) = accepted_record_for(&header_hash, 180);
    let data = SimpleJustificationData { authority_set_id: SET_ID, record: rec };
    let rd = extract_rotation(&header, 512).unwrap();

    let circuit = RotateCircuit {
        authority_set_id: SET_ID,
        authority_set_hash: set.commitment.clone(),
        epoch_end_block_number: 180,
    };
    let new_hash = circuit.process(&rd, &data).unwrap();
    assert_eq!(new_hash, compute_authority_set_commitment(&new_keys, 2));

    // A witness for another set id fails the whole computation.
    let circuit_other = RotateCircuit {
        authority_set_id: SET_ID + 1,
        authority_set_hash: set.commitment.clone(),
        epoch_end_block_number: 180,
    };
    assert!(matches!(
        circuit_other.process(&rd, &data),
        Err(VerificationError::MalformedEvidence)
    ));
}

#[test]
fn rotate_circuit_rejects_header_the_quorum_did_not_sign() {
    // A shape-valid rotation witness whose header hashes to something
    // other than the hash inside the quorum's signed message fails the
    // request: the new commitment must never come from supplier-chosen
    // bytes.
    let (rec, set) = accepted_record(180);
    let data = SimpleJustificationData { authority_set_id: SET_ID, record: rec };

    let new_keys = vec![vec![0xD4u8; 32], vec![0xE5u8; 32]];
    let header = rotation_header(&new_keys);
    let rd = extract_rotation(&header, 512).unwrap();

    let circuit = RotateCircuit {
        authority_set_id: SET_ID,
        authority_set_hash: set.commitment.clone(),
        epoch_end_block_number: 180,
    };
    assert!(matches!(
        circuit.process(&rd, &data),
        Err(VerificationError::HeaderMismatch)
    ));
}

#[test]
fn bridge_rejects_forged_block_number_field() {
    // The supplier-claimed block number field matches the request, but
    // the signed message — the bytes the quorum covered — encodes
    // another block: the decode check rejects the replay.
    let (mut rec, set) = accepted_record(100);
    rec.block_number = 101;
    let data = SimpleJustificationData { authority_set_id: SET_ID, record: rec };
    assert!(matches!(
        verify_simple_justification(101, SET_ID, &set.commitment, &data),
        Err(VerificationError::MalformedEvidence)
    ));
}

#[test]
fn hint_rejects_response_for_other_block() {
    let (rec, _set) = accepted_record(100);
    let request = HintSimpleJustification { block_number: 101, authority_set_id: SET_ID };
    let data = SimpleJustificationData { authority_set_id: SET_ID, record: rec };
    assert!(matches!(
        request.check_response(&data),
        Err(VerificationError::MalformedEvidence)
    ));
}

#[test]
fn subscription_envelope_carries_its_fields() {
    let msg = SubscriptionMessage {
        jsonrpc: String::from("2.0"),
        params: SubscriptionMessageResult {
            result: String::from("0xdeadbeef"),
            subscription: String::from("sub-1"),
        },
        method: String::from("grandpa_justifications"),
    };
    assert_eq!(msg.jsonrpc, "2.0");
    assert_eq!(msg.params.result, "0xdeadbeef");
    assert_eq!(msg.params.subscription, "sub-1");
    assert_eq!(msg.method, "grandpa_justifications");
}

#[test]
fn pipeline_skips_blocks_off_the_cadence() {
    let (a, b, c) = (pair(1), pair(2), pair(3));
    let set = authority_set(&[a.clone(), b, c.clone()]);
    let j = justification_for(&[a, c], &[0x11u8; 32], 91);
    let out = process_event(&j, &vec![1, 2, 3], &vec![0u8; 32], SET_ID, &set, 90);
    assert!(matches!(out, EventOutcome::NotDue));
}

#[test]
fn pipeline_drops_event_on_header_mismatch_and_continues() {
    let (a, b, c) = (pair(1), pair(2), pair(3));
    let set = authority_set(&[a.clone(), b, c.clone()]);

    let header_bytes = vec![7u8; 40];
    let header_hash: Vec<u8> =
        <blake2::Blake2b256 as blake2::Digest>::digest(header_bytes.as_slice()).to_vec();

    // The commit claims a target hash that is not the recomputed hash.
    let j_bad = justification_for(&[a.clone(), c.clone()], &[0x11u8; 32], 180);
    let out = process_event(&j_bad, &header_bytes, &header_hash, SET_ID, &set, 90);
    assert!(matches!(out, EventOutcome::Dropped(VerificationError::HeaderMismatch)));

    // The pipeline goes on: the next, consistent event is saved.
    let j_good = justification_for(&[a, c], &header_hash, 180);
    let out2 = process_event(&j_good, &header_bytes, &header_hash, SET_ID, &set, 90);
    match out2 {
        EventOutcome::Saved(rec) => {
            assert_eq!(rec.block_number, 180);
            assert_eq!(rec.validator_signed, vec![true, false, true]);
        },
        _ => panic!("expected the consistent event to be saved"),
    }
}

#[test]
fn pipeline_drops_event_below_quorum() {
    let (a, b, c) = (pair(1), pair(2), pair(3));
    let set = authority_set(&[a.clone(), b, c]);

    let header_bytes: Vec<u8> = Vec::new();
    // BLAKE2b-256 of the empty input.
    let header_hash = vec![
        0x0eu8, 0x57, 0x51, 0xc0, 0x26, 0xe5, 0x43, 0xb2, 0xe8, 0xab, 0x2e, 0xb0, 0x60, 0x99,
        0xda, 0xa1, 0xd1, 0xe5, 0xdf, 0x47, 0x77, 0x8f, 0x77, 0x87, 0xfa, 0xab, 0x45, 0xcd,
        0xf1, 0x2f, 0xe3, 0xa8,
    ];
    let j = justification_for(&[a], &header_hash, 270);
    let out = process_event(&j, &header_bytes, &header_hash, SET_ID, &set, 90);
    assert!(matches!(out, EventOutcome::Dropped(VerificationError::QuorumNotMet)));
}
