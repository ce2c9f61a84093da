use sp_core::Pair as SpPair;
use vectorx::encoding::encode_signed_message;
use vectorx::justification::{build_justification_record, verify_justification};
use vectorx::types::{
    Authority, AuthoritySet, Commit, GrandpaJustification, Precommit, SignedPrecommit,
    VerificationError,
};

const ROUND: u64 = 1;
const SET_ID: u64 = 0;

fn pair(seed_byte: u8) -> sp_core::ed25519::Pair {
    sp_core::ed25519::Pair::from_seed(&[seed_byte; 32])
}

fn authority_set(pairs: &[sp_core::ed25519::Pair]) -> AuthoritySet {
    let authorities: Vec<Authority> = pairs
        .iter()
        .map(|p| Authority { public_key: p.public().0.to_vec(), weight: 1 })
        .collect();
    AuthoritySet::new(0, authorities).unwrap()
}

fn precommit(target_number: u32) -> Precommit {
    Precommit { target_hash: vec![0x11u8; 32], target_number }
}

fn signed_by(p: &sp_core::ed25519::Pair, target_number: u32, round: u64, set_id: u64) -> SignedPrecommit {
    let pc = precommit(target_number);
    let msg = encode_signed_message(&pc, round, set_id);
    let signature = p.sign(&msg).0.to_vec();
    SignedPrecommit { precommit: pc, signature, signer: p.public().0.to_vec() }
}

fn justification(entries: Vec<SignedPrecommit>, target_number: u32, round: u64) -> GrandpaJustification {
    GrandpaJustification {
        round,
        commit: Commit {
            target_hash: vec![0x11u8; 32],
            target_number,
            precommits: entries,
        },
        votes_ancestries: Vec::new(),
    }
}

#[test]
fn two_of_three_signers_reach_quorum() {
    // Authority set [A, B, C]; A and C sign validly for target 100:
    // 3 * 2 = 6 >= 2 * 3 = 6 accepts, and the record is authority-ordered.
    let (a, b, c) = (pair(1), pair(2), pair(3));
    let set = authority_set(&[a.clone(), b.clone(), c.clone()]);
    let j = justification(
        vec![signed_by(&a, 100, ROUND, SET_ID), signed_by(&c, 100, ROUND, SET_ID)],
        100,
        ROUND,
    );
    let rec = verify_justification(&j, SET_ID, &set).unwrap();
    assert_eq!(rec.block_number, 100);
    assert_eq!(rec.num_authorities, 3);
    assert_eq!(rec.pubkeys.len(), 3);
    assert_eq!(rec.signatures.len(), 3);
    assert_eq!(rec.validator_signed, vec![true, false, true]);
    assert_eq!(rec.pubkeys[0], a.public().0.to_vec());
    assert_eq!(rec.pubkeys[1], b.public().0.to_vec());
    assert_eq!(rec.pubkeys[2], c.public().0.to_vec());
    // The non-signer's slot carries the fixed placeholder.
    assert_eq!(rec.signatures[1], vec![0u8; 64]);
    assert_eq!(rec.signed_message, encode_signed_message(&precommit(100), ROUND, SET_ID));
}

#[test]
fn one_of_three_signers_is_rejected() {
    // Only A signs validly: 3 * 1 = 3 < 2 * 3 = 6.
    let (a, b, c) = (pair(1), pair(2), pair(3));
    let set = authority_set(&[a.clone(), b, c]);
    let j = justification(vec![signed_by(&a, 100, ROUND, SET_ID)], 100, ROUND);
    assert!(matches!(verify_justification(&j, SET_ID, &set), Err(VerificationError::QuorumNotMet)));
}

#[test]
fn empty_precommit_list_is_malformed() {
    let (a, b, c) = (pair(1), pair(2), pair(3));
    let set = authority_set(&[a, b, c]);
    let j = justification(Vec::new(), 100, ROUND);
    assert!(matches!(verify_justification(&j, SET_ID, &set), Err(VerificationError::MalformedEvidence)));
}

#[test]
fn duplicate_signer_counts_once() {
    // A voting twice is one distinct signer: still below quorum.
    let (a, b, c) = (pair(1), pair(2), pair(3));
    let set = authority_set(&[a.clone(), b, c.clone()]);
    let j = justification(
        vec![signed_by(&a, 100, ROUND, SET_ID), signed_by(&a, 100, ROUND, SET_ID)],
        100,
        ROUND,
    );
    assert!(matches!(verify_justification(&j, SET_ID, &set), Err(VerificationError::QuorumNotMet)));

    // A twice plus C is two distinct signers: quorum.
    let j2 = justification(
        vec![
            signed_by(&a, 100, ROUND, SET_ID),
            signed_by(&a, 100, ROUND, SET_ID),
            signed_by(&c, 100, ROUND, SET_ID),
        ],
        100,
        ROUND,
    );
    assert!(verify_justification(&j2, SET_ID, &set).is_ok());
}

#[test]
fn signature_over_other_set_id_is_rejected() {
    // Domain separation: signatures cover (precommit, round, set id); the
    // same votes presented under another set id carry no valid signer.
    let (a, b, c) = (pair(1), pair(2), pair(3));
    let set = authority_set(&[a.clone(), b, c.clone()]);
    let entries = vec![signed_by(&a, 100, ROUND, SET_ID), signed_by(&c, 100, ROUND, SET_ID)];
    let j = justification(entries, 100, ROUND);
    assert!(matches!(verify_justification(&j, SET_ID + 1, &set), Err(VerificationError::QuorumNotMet)));
}

#[test]
fn signature_over_other_round_is_rejected() {
    let (a, b, c) = (pair(1), pair(2), pair(3));
    let set = authority_set(&[a.clone(), b, c.clone()]);
    // Signed for round 1 but presented in a round-2 justification.
    let entries = vec![signed_by(&a, 100, 1, SET_ID), signed_by(&c, 100, 1, SET_ID)];
    let j = justification(entries, 100, 2);
    assert!(matches!(verify_justification(&j, SET_ID, &set), Err(VerificationError::QuorumNotMet)));
}

#[test]
fn tampered_signature_is_not_counted() {
    let (a, b, c) = (pair(1), pair(2), pair(3));
    let set = authority_set(&[a.clone(), b, c.clone()]);
    let mut bad = signed_by(&a, 100, ROUND, SET_ID);
    bad.signature[0] ^= 0x01;
    let j = justification(vec![bad, signed_by(&c, 100, ROUND, SET_ID)], 100, ROUND);
    // Only C's signature stands: 3 * 1 < 6.
    assert!(matches!(verify_justification(&j, SET_ID, &set), Err(VerificationError::QuorumNotMet)));
}

#[test]
fn four_of_six_is_exact_quorum() {
    // 3 * 4 = 12 >= 2 * 6 = 12: the threshold is inclusive.
    let pairs: Vec<sp_core::ed25519::Pair> = (1u8..=6).map(pair).collect();
    let set = authority_set(&pairs);
    let entries: Vec<SignedPrecommit> =
        pairs.iter().take(4).map(|p| signed_by(p, 90, ROUND, SET_ID)).collect();
    let j = justification(entries, 90, ROUND);
    let rec = verify_justification(&j, SET_ID, &set).unwrap();
    assert_eq!(rec.validator_signed, vec![true, true, true, true, false, false]);

    // One fewer signer fails: 3 * 3 = 9 < 12.
    let entries3: Vec<SignedPrecommit> =
        pairs.iter().take(3).map(|p| signed_by(p, 90, ROUND, SET_ID)).collect();
    let j3 = justification(entries3, 90, ROUND);
    assert!(matches!(verify_justification(&j3, SET_ID, &set), Err(VerificationError::QuorumNotMet)));
}

#[test]
fn record_shape_is_fixed_even_with_no_signers() {
    // The normalized record is always padded to the authority-set size.
    let (a, b, c) = (pair(1), pair(2), pair(3));
    let authorities: Vec<Authority> = [a, b, c]
        .iter()
        .map(|p| Authority { public_key: p.public().0.to_vec(), weight: 1 })
        .collect();
    let signers: Vec<(Vec<u8>, Vec<u8>)> = Vec::new();
    let rec = build_justification_record(&authorities, &signers, vec![0u8; 53], 7);
    assert_eq!(rec.pubkeys.len(), 3);
    assert_eq!(rec.signatures.len(), 3);
    assert_eq!(rec.validator_signed, vec![false, false, false]);
    assert_eq!(rec.num_authorities, 3);
    assert_eq!(rec.block_number, 7);
    for s in &rec.signatures {
        assert_eq!(s, &vec![0u8; 64]);
    }
}
