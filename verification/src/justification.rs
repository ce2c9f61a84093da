//! Justification verifier: validates the signatures of a claimed commit
//! against a known authority set, deduplicates signers, enforces the
//! two-thirds quorum rule, and emits the fixed-arity normalized record.

use vstd::prelude::*;

use crate::crypto;
use crate::encoding;
use crate::types::{
    Authority, AuthoritySet, GrandpaJustification, SignedPrecommit, VerificationError,
    VerifiedJustificationRecord,
};
use crate::util;

verus! {

/// The reserved placeholder emitted where an authority did not sign; it is
/// a fixed all-zero value, never a signature that could verify.
pub open spec fn placeholder_signature_spec() -> Seq<u8> {
    Seq::new(64, |i: int| 0u8)
}

/// The 64-byte placeholder signature.
pub fn placeholder_signature() -> (r: Vec<u8>)
    ensures
        r@ == placeholder_signature_spec(),
        r@.len() == 64,
{
    util::zero_bytes(64)
}

/// The message every signature of the justification must cover: the wire
/// encoding of the first precommit, the round and the authority set id.
pub open spec fn justification_message(j: GrandpaJustification, authority_set_id: u64) -> Seq<u8>
    recommends
        j.commit.precommits@.len() > 0,
{
    encoding::signed_message_spec(
        j.commit.precommits@[0].precommit.target_hash@,
        j.commit.precommits@[0].precommit.target_number,
        j.round,
        authority_set_id,
    )
}

/// The signature of the last precommit entry signed by `pk` whose
/// signature verifies over `msg`, if there is one. Later occurrences of a
/// signer overwrite earlier ones.
pub open spec fn last_valid_sig(pcs: Seq<SignedPrecommit>, msg: Seq<u8>, pk: Seq<u8>) -> Option<
    Seq<u8>,
>
    decreases pcs.len(),
{
    if pcs.len() == 0 {
        None
    } else {
        let l = pcs.last();
        if l.signer@ == pk && crypto::ed25519_verify_spec(pk, msg, l.signature@) {
            Some(l.signature@)
        } else {
            last_valid_sig(pcs.drop_last(), msg, pk)
        }
    }
}

/// Whether `pk` contributed at least one verifying signature.
pub open spec fn is_valid_signer(pcs: Seq<SignedPrecommit>, msg: Seq<u8>, pk: Seq<u8>) -> bool {
    last_valid_sig(pcs, msg, pk) is Some
}

/// How many distinct public keys contributed a verifying signature.
pub open spec fn distinct_valid_signers(pcs: Seq<SignedPrecommit>, msg: Seq<u8>) -> nat
    decreases pcs.len(),
{
    if pcs.len() == 0 {
        0
    } else {
        let l = pcs.last();
        let rest = pcs.drop_last();
        distinct_valid_signers(rest, msg) + (
        if crypto::ed25519_verify_spec(l.signer@, msg, l.signature@) && !is_valid_signer(
            rest,
            msg,
            l.signer@,
        ) {
            1nat
        } else {
            0nat
        })
    }
}

/// Quorum rule: at least two thirds of the authority set, by count, with
/// equal weighting.
pub open spec fn quorum_met(signers: nat, num_authorities: nat) -> bool {
    3 * signers >= 2 * num_authorities
}

/// Law: the quorum threshold is inclusive — exactly two thirds of the
/// authorities signing is accepted.
pub proof fn lemma_quorum_boundary(signers: nat, num_authorities: nat)
    requires
        3 * signers == 2 * num_authorities,
    ensures
        quorum_met(signers, num_authorities),
{
}

/// Whether a justification is accepted against a set of `num_authorities`
/// authorities under a given set id: it carries at least one precommit and
/// its distinct valid signers reach quorum.
pub open spec fn justification_accepted(
    j: GrandpaJustification,
    authority_set_id: u64,
    num_authorities: nat,
) -> bool {
    &&& j.commit.precommits@.len() > 0
    &&& quorum_met(
        distinct_valid_signers(j.commit.precommits@, justification_message(j, authority_set_id)),
        num_authorities,
    )
}

/// Whether a pair list holds an entry for key `pk`.
pub open spec fn has_key(signers: Seq<(Vec<u8>, Vec<u8>)>, pk: Seq<u8>) -> bool {
    exists|j: int| 0 <= j < signers.len() && (#[trigger] signers[j]).0@ == pk
}

/// What the normalized record of an accepted justification holds: all
/// authority keys in authority order, the signed message, and for every
/// authority either its last verifying signature or the placeholder.
pub open spec fn record_matches(
    rec: VerifiedJustificationRecord,
    j: GrandpaJustification,
    authority_set_id: u64,
    authorities: Seq<Authority>,
) -> bool {
    let pcs = j.commit.precommits@;
    let msg = justification_message(j, authority_set_id);
    &&& rec.block_number == j.commit.target_number
    &&& rec.signed_message@ == msg
    &&& rec.num_authorities == authorities.len()
    &&& rec.pubkeys@.len() == authorities.len()
    &&& rec.signatures@.len() == authorities.len()
    &&& rec.validator_signed@.len() == authorities.len()
    &&& forall|k: int|
        0 <= k < authorities.len() ==> (#[trigger] rec.pubkeys@[k])@ == authorities[k].public_key@
    &&& forall|k: int|
        0 <= k < authorities.len() ==> rec.validator_signed@[k] == is_valid_signer(
            pcs,
            msg,
            authorities[k].public_key@,
        )
    &&& forall|k: int|
        0 <= k < authorities.len() ==> (#[trigger] rec.signatures@[k])@ == (
        match last_valid_sig(pcs, msg, authorities[k].public_key@) {
            Some(s) => s,
            None => placeholder_signature_spec(),
        })
}

/// Index of an entry for `pk` in a signer → signature pair list, if any.
fn find_signer(signers: &Vec<(Vec<u8>, Vec<u8>)>, pk: &Vec<u8>) -> (r: Option<usize>)
    ensures
        match r {
            Some(j) => j < signers@.len() && signers@[j as int].0@ == pk@,
            None => !has_key(signers@, pk@),
        },
{
    let n = signers.len();
    for i in 0..n
        invariant
            n == signers@.len(),
            forall|j: int| 0 <= j < i ==> (#[trigger] signers@[j]).0@ != pk@,
    {
        if util::bytes_eq(&signers[i].0, pk) {
            return Some(i);
        }
    }
    None
}

/// Normalize a signer → signature mapping to the fixed-arity shape:
/// iterate the authorities in order and emit, for each, its key, whether
/// it signed, and either its recorded signature or the placeholder.
///
/// Law: the output arrays are always exactly as long as the authority
/// list, however many authorities signed — including none of them.
pub fn build_justification_record(
    authorities: &Vec<Authority>,
    signers: &Vec<(Vec<u8>, Vec<u8>)>,
    signed_message: Vec<u8>,
    block_number: u32,
) -> (rec: VerifiedJustificationRecord)
    requires
        forall|i: int| 0 <= i < authorities@.len() ==> (#[trigger] authorities@[i]).wf(),
        forall|j: int| 0 <= j < signers@.len() ==> (#[trigger] signers@[j]).1@.len() == 64,
    ensures
        rec.block_number == block_number,
        rec.signed_message@ == signed_message@,
        rec.num_authorities == authorities@.len(),
        rec.pubkeys@.len() == authorities@.len(),
        rec.signatures@.len() == authorities@.len(),
        rec.validator_signed@.len() == authorities@.len(),
        rec.wf(),
        forall|k: int|
            0 <= k < authorities@.len() ==> (#[trigger] rec.pubkeys@[k])@
                == authorities@[k].public_key@,
        forall|k: int|
            0 <= k < authorities@.len() ==> (#[trigger] rec.validator_signed@[k]) == has_key(
                signers@,
                authorities@[k].public_key@,
            ),
        forall|k: int|
            0 <= k < authorities@.len() && (#[trigger] rec.validator_signed@[k]) ==> exists|j: int|
                0 <= j < signers@.len() && (#[trigger] signers@[j]).0@
                    == authorities@[k].public_key@ && rec.signatures@[k as int]@ == signers@[j].1@,
        forall|k: int|
            0 <= k < authorities@.len() && !rec.validator_signed@[k]
                ==> (#[trigger] rec.signatures@[k])@ == placeholder_signature_spec(),
{
    let n = authorities.len();
    let mut pubkeys: Vec<Vec<u8>> = Vec::new();
    let mut signatures: Vec<Vec<u8>> = Vec::new();
    let mut validator_signed: Vec<bool> = Vec::new();
    for k in 0..n
        invariant
            n == authorities@.len(),
            forall|i: int| 0 <= i < authorities@.len() ==> (#[trigger] authorities@[i]).wf(),
            forall|j: int| 0 <= j < signers@.len() ==> (#[trigger] signers@[j]).1@.len() == 64,
            pubkeys@.len() == k && signatures@.len() == k && validator_signed@.len() == k,
            forall|i: int|
                0 <= i < k ==> (#[trigger] pubkeys@[i])@ == authorities@[i].public_key@,
            forall|i: int|
                0 <= i < k ==> validator_signed@[i] == has_key(
                    signers@,
                    authorities@[i].public_key@,
                ),
            forall|i: int|
                0 <= i < k && validator_signed@[i] ==> exists|j: int|
                    0 <= j < signers@.len() && (#[trigger] signers@[j]).0@
                        == authorities@[i].public_key@ && signatures@[i]@ == signers@[j].1@,
            forall|i: int|
                0 <= i < k && !validator_signed@[i] ==> (#[trigger] signatures@[i])@
                    == placeholder_signature_spec(),
            forall|i: int| 0 <= i < k ==> (#[trigger] pubkeys@[i])@.len() == 32,
            forall|i: int| 0 <= i < k ==> (#[trigger] signatures@[i])@.len() == 64,
    {
        let key = &authorities[k].public_key;
        match find_signer(signers, key) {
            Some(j) => {
                pubkeys.push(util::clone_bytes(key));
                signatures.push(util::clone_bytes(&signers[j].1));
                validator_signed.push(true);
            },
            None => {
                pubkeys.push(util::clone_bytes(key));
                signatures.push(placeholder_signature());
                validator_signed.push(false);
            },
        }
    }
    VerifiedJustificationRecord {
        block_number,
        signed_message,
        pubkeys,
        signatures,
        num_authorities: n,
        validator_signed,
    }
}

/// Verify a claimed justification against a known authority set.
///
/// An empty precommit list is malformed evidence. Otherwise every entry's
/// signature is checked over the signed message, entries that fail are
/// discarded, signers are deduplicated (later occurrences overwrite
/// earlier ones), and the claim is accepted exactly when the distinct
/// valid signers reach the inclusive two-thirds quorum; acceptance yields
/// the normalized fixed-arity record.
pub fn verify_justification(
    justification: &GrandpaJustification,
    authority_set_id: u64,
    authority_set: &AuthoritySet,
) -> (r: Result<VerifiedJustificationRecord, VerificationError>)
    requires
        justification.wf(),
        authority_set.wf(),
    ensures
        r is Ok <==> justification_accepted(
            *justification,
            authority_set_id,
            authority_set.authorities@.len(),
        ),
        ({
            let pcs = justification.commit.precommits@;
            let msg = justification_message(*justification, authority_set_id);
            let n = authority_set.authorities@.len();
            match r {
                Ok(rec) => record_matches(
                    rec,
                    *justification,
                    authority_set_id,
                    authority_set.authorities@,
                ) && rec.wf(),
                Err(e) => {
                    &&& (e == VerificationError::MalformedEvidence <==> pcs.len() == 0)
                    &&& (e == VerificationError::QuorumNotMet <==> pcs.len() > 0 && !quorum_met(
                        distinct_valid_signers(pcs, msg),
                        n,
                    ))
                    &&& (e == VerificationError::MalformedEvidence || e
                        == VerificationError::QuorumNotMet)
                },
            }
        }),
{
    let ghost pcs = justification.commit.precommits@;
    let pcs_len = justification.commit.precommits.len();
    if pcs_len == 0 {
        return Err(VerificationError::MalformedEvidence);
    }
    assert(justification.commit.precommits@[0].wf());
    let msg = encoding::encode_signed_message(
        &justification.commit.precommits[0].precommit,
        justification.round,
        authority_set_id,
    );
    let ghost msgv = msg@;
    assert(msgv == justification_message(*justification, authority_set_id));

    let mut valid: Vec<(Vec<u8>, Vec<u8>)> = Vec::new();
    let mut t: usize = 0;
    while t < pcs_len
        invariant
            pcs == justification.commit.precommits@,
            msgv == msg@,
            t <= pcs_len,
            pcs_len == pcs.len(),
            forall|i: int| 0 <= i < pcs.len() ==> (#[trigger] pcs[i]).wf(),
            forall|jj: int|
                0 <= jj < valid@.len() ==> last_valid_sig(
                    pcs.take(t as int),
                    msgv,
                    (#[trigger] valid@[jj]).0@,
                ) == Some(valid@[jj].1@),
            forall|pk: Seq<u8>|
                #[trigger] is_valid_signer(pcs.take(t as int), msgv, pk) ==> has_key(valid@, pk),
            forall|j1: int, j2: int|
                0 <= j1 < j2 < valid@.len() ==> (#[trigger] valid@[j1]).0@ != (
                #[trigger] valid@[j2]).0@,
            valid@.len() == distinct_valid_signers(pcs.take(t as int), msgv),
            forall|jj: int|
                0 <= jj < valid@.len() ==> (#[trigger] valid@[jj]).0@.len() == 32
                    && valid@[jj].1@.len() == 64,
        decreases pcs_len - t,
    {
        let entry = &justification.commit.precommits[t];
        let ok = crypto::ed25519_verify(&entry.signer, &msg, &entry.signature);
        proof {
            assert(pcs.take(t + 1).drop_last() =~= pcs.take(t as int));
            assert(pcs.take(t + 1).last() == pcs[t as int]);
        }
        let ghost prefix = pcs.take(t as int);
        let ghost prefix1 = pcs.take(t + 1);
        if ok {
            match find_signer(&valid, &entry.signer) {
                Some(j) => {
                    let ghost old_valid = valid@;
                    proof {
                        assert(last_valid_sig(prefix, msgv, old_valid[j as int].0@) == Some(
                            old_valid[j as int].1@,
                        ));
                        assert(is_valid_signer(prefix, msgv, entry.signer@));
                    }
                    valid.remove(j);
                    valid.push((util::clone_bytes(&entry.signer), util::clone_bytes(&entry.signature)));
                    proof {
                        let new_valid = valid@;
                        assert(new_valid.len() == old_valid.len());
                        assert forall|jj: int| 0 <= jj < new_valid.len() implies last_valid_sig(
                            prefix1,
                            msgv,
                            (#[trigger] new_valid[jj]).0@,
                        ) == Some(new_valid[jj].1@) by {
                            if jj == new_valid.len() - 1 {
                                assert(new_valid[jj].0@ == pcs[t as int].signer@);
                            } else {
                                let orig = if jj < j { jj } else { jj + 1 };
                                assert(new_valid[jj] == old_valid[orig]);
                                assert(old_valid[orig].0@ != old_valid[j as int].0@);
                                assert(last_valid_sig(prefix1, msgv, new_valid[jj].0@)
                                    == last_valid_sig(prefix, msgv, new_valid[jj].0@));
                            }
                        }
                        assert forall|pk: Seq<u8>| #[trigger]
                            is_valid_signer(prefix1, msgv, pk) implies has_key(new_valid, pk) by {
                            if pk == pcs[t as int].signer@ {
                                assert(new_valid[new_valid.len() - 1].0@ == pk);
                            } else {
                                assert(is_valid_signer(prefix, msgv, pk));
                                let kk = choose|kk: int|
                                    0 <= kk < old_valid.len() && (#[trigger] old_valid[kk]).0@
                                        == pk;
                                if kk < j {
                                    assert(new_valid[kk].0@ == pk);
                                } else {
                                    assert(kk != j);
                                    assert(new_valid[kk - 1].0@ == pk);
                                }
                            }
                        }
                        assert forall|j1: int, j2: int|
                            0 <= j1 < j2 < new_valid.len() implies (#[trigger] new_valid[j1]).0@
                            != (#[trigger] new_valid[j2]).0@ by {
                            let o1 = if j1 < j { j1 } else { j1 + 1 };
                            if j2 == new_valid.len() - 1 {
                                assert(new_valid[j1] == old_valid[o1]);
                                assert(new_valid[j2].0@ == old_valid[j as int].0@);
                                assert(o1 != j);
                            } else {
                                let o2 = if j2 < j { j2 } else { j2 + 1 };
                                assert(new_valid[j1] == old_valid[o1]);
                                assert(new_valid[j2] == old_valid[o2]);
                            }
                        }
                        assert(distinct_valid_signers(prefix1, msgv) == distinct_valid_signers(
                            prefix,
                            msgv,
                        ));
                    }
                },
                None => {
                    proof {
                        if is_valid_signer(prefix, msgv, pcs[t as int].signer@) {
                            assert(has_key(valid@, pcs[t as int].signer@));
                        }
                    }
                    let ghost old_valid = valid@;
                    valid.push((util::clone_bytes(&entry.signer), util::clone_bytes(&entry.signature)));
                    proof {
                        let new_valid = valid@;
                        assert forall|jj: int| 0 <= jj < new_valid.len() implies last_valid_sig(
                            prefix1,
                            msgv,
                            (#[trigger] new_valid[jj]).0@,
                        ) == Some(new_valid[jj].1@) by {
                            if jj == new_valid.len() - 1 {
                                assert(new_valid[jj].0@ == pcs[t as int].signer@);
                            } else {
                                assert(new_valid[jj] == old_valid[jj]);
                                assert(!has_key(old_valid, pcs[t as int].signer@));
                                assert(new_valid[jj].0@ != pcs[t as int].signer@);
                                assert(last_valid_sig(prefix1, msgv, new_valid[jj].0@)
                                    == last_valid_sig(prefix, msgv, new_valid[jj].0@));
                            }
                        }
                        assert forall|pk: Seq<u8>| #[trigger]
                            is_valid_signer(prefix1, msgv, pk) implies has_key(new_valid, pk) by {
                            if pk == pcs[t as int].signer@ {
                                assert(new_valid[new_valid.len() - 1].0@ == pk);
                            } else {
                                assert(is_valid_signer(prefix, msgv, pk));
                                let kk = choose|kk: int|
                                    0 <= kk < old_valid.len() && (#[trigger] old_valid[kk]).0@
                                        == pk;
                                assert(new_valid[kk].0@ == pk);
                            }
                        }
                        assert(!is_valid_signer(prefix, msgv, pcs[t as int].signer@));
                        assert(distinct_valid_signers(prefix1, msgv) == distinct_valid_signers(
                            prefix,
                            msgv,
                        ) + 1);
                    }
                },
            }
        } else {
            proof {
                assert forall|pk: Seq<u8>|
                    #[trigger] last_valid_sig(prefix1, msgv, pk) == last_valid_sig(
                        prefix,
                        msgv,
                        pk,
                    ) by {
                    if pcs[t as int].signer@ == pk {
                        assert(!crypto::ed25519_verify_spec(pk, msgv, pcs[t as int].signature@));
                    }
                }
                assert forall|pk: Seq<u8>| #[trigger]
                    is_valid_signer(prefix1, msgv, pk) implies has_key(valid@, pk) by {
                    assert(last_valid_sig(prefix1, msgv, pk) == last_valid_sig(prefix, msgv, pk));
                    assert(is_valid_signer(prefix, msgv, pk));
                }
                assert(distinct_valid_signers(prefix1, msgv) == distinct_valid_signers(
                    prefix,
                    msgv,
                ));
            }
        }
        t += 1;
    }
    proof {
        assert(pcs.take(pcs_len as int) =~= pcs);
    }

    let n_valid = valid.len();
    let n_auth = authority_set.authorities.len();
    if 3 * (n_valid as u128) < 2 * (n_auth as u128) {
        return Err(VerificationError::QuorumNotMet);
    }

    let rec = build_justification_record(
        &authority_set.authorities,
        &valid,
        msg,
        justification.commit.target_number,
    );
    proof {
        let authorities = authority_set.authorities@;
        assert forall|k: int| 0 <= k < authorities.len() implies rec.validator_signed@[k]
            == is_valid_signer(pcs, msgv, authorities[k].public_key@) && (
        #[trigger] rec.signatures@[k])@ == (match last_valid_sig(
            pcs,
            msgv,
            authorities[k].public_key@,
        ) {
            Some(s) => s,
            None => placeholder_signature_spec(),
        }) by {
            let pk = authorities[k].public_key@;
            assert(rec.validator_signed@[k] == has_key(valid@, pk));
            if has_key(valid@, pk) {
                assert(rec.validator_signed@[k]);
                let j = choose|j: int| 0 <= j < valid@.len() && (#[trigger] valid@[j]).0@ == pk;
                assert(last_valid_sig(pcs, msgv, pk) == Some(valid@[j].1@));
                let j2 = choose|j2: int|
                    0 <= j2 < valid@.len() && (#[trigger] valid@[j2]).0@ == pk
                        && rec.signatures@[k]@ == valid@[j2].1@;
                assert(last_valid_sig(pcs, msgv, pk) == Some(valid@[j2].1@));
            } else {
                if is_valid_signer(pcs, msgv, pk) {
                    assert(has_key(valid@, pk));
                }
            }
        }
    }
    Ok(rec)
}

} // verus!
