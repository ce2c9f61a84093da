//! External-data bridge: the request/response contract through which the
//! verification computation receives off-chain witness data. The supplier
//! is untrusted, so every response is re-validated here — by the same
//! rules as the justification verifier and the rotation extractor — before
//! anything downstream trusts it.

use vstd::prelude::*;

use crate::commitment;
use crate::crypto;
use crate::encoding;
use crate::justification::quorum_met;
use crate::types::{RotationData, VerificationError, VerifiedJustificationRecord};
use crate::util;

verus! {

/// A justification witness as supplied by the bridge: the authority set id
/// the supplier claims it belongs to, and the normalized record.
pub struct SimpleJustificationData {
    pub authority_set_id: u64,
    pub record: VerifiedJustificationRecord,
}

/// How many authorities are flagged as having signed.
pub open spec fn count_signed(signed: Seq<bool>) -> nat
    decreases signed.len(),
{
    if signed.len() == 0 {
        0
    } else {
        count_signed(signed.drop_last()) + (if signed.last() {
            1nat
        } else {
            0nat
        })
    }
}

/// Every signature flagged as counted verifies over the record's signed
/// message under the aligned public key.
pub open spec fn all_flagged_valid(rec: VerifiedJustificationRecord) -> bool {
    forall|k: int|
        0 <= k < rec.validator_signed@.len() && rec.validator_signed@[k]
            ==> crypto::ed25519_verify_spec(
            (#[trigger] rec.pubkeys@[k])@,
            rec.signed_message@,
            rec.signatures@[k]@,
        )
}

/// The spot check a bridge response must pass: the first flagged
/// signature verifies over the signed message.
pub open spec fn spot_check_ok(rec: VerifiedJustificationRecord) -> bool {
    exists|k: int|
        0 <= k < rec.validator_signed@.len() && rec.validator_signed@[k] && (forall|j: int|
            0 <= j < k ==> !rec.validator_signed@[j]) && crypto::ed25519_verify_spec(
            (#[trigger] rec.pubkeys@[k])@,
            rec.signed_message@,
            rec.signatures@[k]@,
        )
}

/// Exec check that a record has the fixed-arity well-formed shape.
fn check_record_shape(rec: &VerifiedJustificationRecord) -> (r: bool)
    ensures
        r == rec.wf(),
{
    if rec.pubkeys.len() != rec.num_authorities || rec.signatures.len() != rec.num_authorities
        || rec.validator_signed.len() != rec.num_authorities {
        return false;
    }
    let n = rec.num_authorities;
    for k in 0..n
        invariant
            n == rec.pubkeys@.len() && n == rec.signatures@.len() && n
                == rec.validator_signed@.len(),
            n == rec.num_authorities,
            forall|i: int| 0 <= i < k ==> (#[trigger] rec.pubkeys@[i])@.len() == 32,
            forall|i: int| 0 <= i < k ==> (#[trigger] rec.signatures@[i])@.len() == 64,
    {
        if rec.pubkeys[k].len() != 32 || rec.signatures[k].len() != 64 {
            return false;
        }
    }
    true
}

/// A request for the justification witness of one block under one
/// authority set.
pub struct HintSimpleJustification {
    pub block_number: u32,
    pub authority_set_id: u64,
}

impl HintSimpleJustification {
    /// Re-validate a bridge response before trusting it: the supplier's
    /// claimed authority set id and block number must equal the requested
    /// ones, the record must have the fixed-arity shape with a 53-byte
    /// signed message, and the first flagged signature must verify (the
    /// spot check). The transport grants no trust: any failure is
    /// malformed evidence.
    pub fn check_response(&self, data: &SimpleJustificationData) -> (r: Result<
        (),
        VerificationError,
    >)
        ensures
            r is Ok <==> data.authority_set_id == self.authority_set_id
                && data.record.block_number == self.block_number && data.record.wf()
                && data.record.signed_message@.len() == 53 && spot_check_ok(data.record),
            r is Err ==> r == Err::<(), VerificationError>(VerificationError::MalformedEvidence),
    {
        if data.authority_set_id != self.authority_set_id {
            return Err(VerificationError::MalformedEvidence);
        }
        if data.record.block_number != self.block_number {
            return Err(VerificationError::MalformedEvidence);
        }
        if !check_record_shape(&data.record) {
            return Err(VerificationError::MalformedEvidence);
        }
        if data.record.signed_message.len() != 53 {
            return Err(VerificationError::MalformedEvidence);
        }
        let n = data.record.num_authorities;
        let mut k: usize = 0;
        while k < n
            invariant
                data.record.wf(),
                data.authority_set_id == self.authority_set_id,
                data.record.block_number == self.block_number,
                data.record.signed_message@.len() == 53,
                n == data.record.num_authorities,
                k <= n,
                forall|j: int| 0 <= j < k ==> !data.record.validator_signed@[j],
            decreases n - k,
        {
            if data.record.validator_signed[k] {
                let ok = crypto::ed25519_verify(
                    &data.record.pubkeys[k],
                    &data.record.signed_message,
                    &data.record.signatures[k],
                );
                if ok {
                    proof {
                        assert(spot_check_ok(data.record)) by {
                            assert(0 <= k < data.record.validator_signed@.len()
                                && data.record.validator_signed@[k as int] && (forall|j: int|
                                0 <= j < k ==> !data.record.validator_signed@[j])
                                && crypto::ed25519_verify_spec(
                                (data.record.pubkeys@[k as int])@,
                                data.record.signed_message@,
                                data.record.signatures@[k as int]@,
                            ));
                        }
                    }
                    return Ok(());
                } else {
                    return Err(VerificationError::MalformedEvidence);
                }
            }
            k += 1;
        }
        Err(VerificationError::MalformedEvidence)
    }
}

/// A request for the rotation witness of one epoch-end block.
pub struct RotateHint {
    pub block_number: u32,
}

impl RotateHint {
    /// Re-validate a rotation witness: the located byte range must lie
    /// inside the header, hold exactly 40 bytes per listed authority, and
    /// list at least one authority.
    pub fn check_response(&self, data: &RotationData) -> (r: Result<(), VerificationError>)
        ensures
            r is Ok <==> data.wf(),
            r is Err ==> r == Err::<(), VerificationError>(VerificationError::MalformedEvidence),
    {
        if data.header_size > data.header_bytes.len() {
            return Err(VerificationError::MalformedEvidence);
        }
        if data.num_authorities < 1 {
            return Err(VerificationError::MalformedEvidence);
        }
        if data.consensus_log_end > data.header_size {
            return Err(VerificationError::MalformedEvidence);
        }
        if data.consensus_log_start > data.consensus_log_end {
            return Err(VerificationError::MalformedEvidence);
        }
        let span = data.consensus_log_end - data.consensus_log_start;
        if data.num_authorities > usize::MAX / 40 {
            return Err(VerificationError::MalformedEvidence);
        }
        if span != 40 * data.num_authorities {
            return Err(VerificationError::MalformedEvidence);
        }
        Ok(())
    }
}

/// Everything a justification witness must satisfy besides the quorum:
/// it answers the requested block and set id, has the fixed-arity shape
/// and a 53-byte signed message, the signed message itself — the bytes
/// the quorum actually covered — decodes under the wire layout to the
/// requested block number and set id, at least one authority is listed,
/// the authority keys commit to the trusted authority set hash, and
/// every flagged signature verifies. The supplier-claimed fields alone
/// are never enough: the decode check means a witness answering another
/// request cannot be replayed for this one.
pub open spec fn response_consistent(
    block_number: u32,
    authority_set_id: u64,
    authority_set_hash: Seq<u8>,
    data: SimpleJustificationData,
) -> bool {
    &&& data.authority_set_id == authority_set_id
    &&& data.record.block_number == block_number
    &&& data.record.wf()
    &&& data.record.signed_message@.len() == 53
    &&& data.record.signed_message@.subrange(33, 37) == encoding::u32_le(block_number)
    &&& data.record.signed_message@.subrange(45, 53) == encoding::u64_le(authority_set_id)
    &&& data.record.num_authorities >= 1
    &&& commitment::commitment_matches(
        commitment::keys_view(data.record.pubkeys@),
        data.record.num_authorities as int,
        authority_set_hash,
    )
    &&& all_flagged_valid(data.record)
}

/// Re-validate a complete justification witness against the trusted
/// authority set hash, and enforce the quorum rule over the flagged
/// signers: the witness is accepted exactly when it is consistent and the
/// flagged signers reach the inclusive two-thirds quorum.
pub fn verify_simple_justification(
    block_number: u32,
    authority_set_id: u64,
    authority_set_hash: &Vec<u8>,
    data: &SimpleJustificationData,
) -> (r: Result<(), VerificationError>)
    ensures
        r is Ok <==> response_consistent(block_number, authority_set_id, authority_set_hash@, *data)
            && quorum_met(
            count_signed(data.record.validator_signed@),
            data.record.num_authorities as nat,
        ),
        r == Err::<(), VerificationError>(VerificationError::QuorumNotMet) <==> response_consistent(
            block_number,
            authority_set_id,
            authority_set_hash@,
            *data,
        ) && !quorum_met(
            count_signed(data.record.validator_signed@),
            data.record.num_authorities as nat,
        ),
        r == Err::<(), VerificationError>(VerificationError::MalformedEvidence)
            <==> !response_consistent(block_number, authority_set_id, authority_set_hash@, *data),
{
    if data.authority_set_id != authority_set_id {
        return Err(VerificationError::MalformedEvidence);
    }
    if data.record.block_number != block_number {
        return Err(VerificationError::MalformedEvidence);
    }
    if !check_record_shape(&data.record) {
        return Err(VerificationError::MalformedEvidence);
    }
    if data.record.signed_message.len() != 53 {
        return Err(VerificationError::MalformedEvidence);
    }

    // Decode the signed message: the block number and set id the quorum
    // actually covered must be the requested ones.
    let mut number_expected: Vec<u8> = Vec::new();
    encoding::push_u32_le(&mut number_expected, block_number);
    proof {
        assert(number_expected@ =~= encoding::u32_le(block_number));
    }
    let number_signed = util::subrange_bytes(&data.record.signed_message, 33, 37);
    if !util::bytes_eq(&number_signed, &number_expected) {
        return Err(VerificationError::MalformedEvidence);
    }
    let mut set_id_expected: Vec<u8> = Vec::new();
    encoding::push_u64_le(&mut set_id_expected, authority_set_id);
    proof {
        assert(set_id_expected@ =~= encoding::u64_le(authority_set_id));
    }
    let set_id_signed = util::subrange_bytes(&data.record.signed_message, 45, 53);
    if !util::bytes_eq(&set_id_signed, &set_id_expected) {
        return Err(VerificationError::MalformedEvidence);
    }

    let n = data.record.num_authorities;
    if n < 1 {
        return Err(VerificationError::MalformedEvidence);
    }
    if !commitment::verify_authority_set_commitment(&data.record.pubkeys, n, authority_set_hash) {
        return Err(VerificationError::MalformedEvidence);
    }

    let mut signed_count: usize = 0;
    let mut k: usize = 0;
    while k < n
        invariant
            data.record.wf(),
            n == data.record.num_authorities,
            k <= n,
            signed_count == count_signed(data.record.validator_signed@.take(k as int)),
            signed_count <= k,
            forall|j: int|
                0 <= j < k && data.record.validator_signed@[j] ==> crypto::ed25519_verify_spec(
                    (#[trigger] data.record.pubkeys@[j])@,
                    data.record.signed_message@,
                    data.record.signatures@[j]@,
                ),
        decreases n - k,
    {
        proof {
            assert(data.record.validator_signed@.take(k + 1).drop_last()
                =~= data.record.validator_signed@.take(k as int));
            assert(data.record.validator_signed@.take(k + 1).last()
                == data.record.validator_signed@[k as int]);
        }
        if data.record.validator_signed[k] {
            let ok = crypto::ed25519_verify(
                &data.record.pubkeys[k],
                &data.record.signed_message,
                &data.record.signatures[k],
            );
            if !ok {
                return Err(VerificationError::MalformedEvidence);
            }
            signed_count += 1;
        }
        k += 1;
    }
    proof {
        assert(data.record.validator_signed@.take(n as int) =~= data.record.validator_signed@);
    }

    if 3 * (signed_count as u128) < 2 * (n as u128) {
        return Err(VerificationError::QuorumNotMet);
    }
    Ok(())
}

/// Law: under a consistent response, acceptance of a justification
/// witness is decided by the inclusive two-thirds rule alone — the bridge
/// accepts exactly when three times the number of flagged signer slots
/// reaches twice the authority count, and exactly two thirds is accepted.
pub proof fn lemma_witness_quorum(data: SimpleJustificationData)
    ensures
        quorum_met(count_signed(data.record.validator_signed@), data.record.num_authorities as nat)
            <==> 3 * count_signed(data.record.validator_signed@) >= 2 * (
        data.record.num_authorities as nat),
        3 * count_signed(data.record.validator_signed@) == 2 * (
        data.record.num_authorities as nat) ==> quorum_met(
            count_signed(data.record.validator_signed@),
            data.record.num_authorities as nat,
        ),
{
}

/// Whether the rotation witness's header is the very block the quorum
/// finalized: its recomputed hash must equal the 32-byte target hash
/// inside the justification's signed message.
pub open spec fn rotation_header_endorsed(
    rotation: RotationData,
    justification: SimpleJustificationData,
) -> bool {
    crypto::blake2_256_of(rotation.header_bytes@.take(rotation.header_size as int))
        == justification.record.signed_message@.subrange(1, 33)
}

/// The rotation computation for one epoch boundary. Its trusted inputs
/// are the id and commitment of the current authority set and the epoch
/// end block number; fed the two bridge witnesses, it re-validates both
/// and produces the commitment of the newly advertised authority set.
pub struct RotateCircuit {
    pub authority_set_id: u64,
    /// 32-byte commitment of the current authority set.
    pub authority_set_hash: Vec<u8>,
    pub epoch_end_block_number: u32,
}

impl RotateCircuit {
    /// Re-validate the rotation witness and the justification witness of
    /// the epoch end block, assert that the rotation header's recomputed
    /// hash is the very hash the quorum signed for — supplier-chosen
    /// bytes that hash to anything else fail the request with
    /// `HeaderMismatch` — and only then return the chained commitment of
    /// the new authority set read from the witness's located byte range.
    pub fn process(&self, rotation: &RotationData, justification: &SimpleJustificationData) -> (r:
        Result<Vec<u8>, VerificationError>)
        ensures
            r is Ok <==> rotation.wf() && response_consistent(
                self.epoch_end_block_number,
                self.authority_set_id,
                self.authority_set_hash@,
                *justification,
            ) && quorum_met(
                count_signed(justification.record.validator_signed@),
                justification.record.num_authorities as nat,
            ) && rotation_header_endorsed(*rotation, *justification),
            r matches Ok(h) ==> h@ == commitment::chained_hash(
                crate::rotate::rotation_keys(
                    rotation.header_bytes@,
                    rotation.consensus_log_start as int,
                    rotation.num_authorities as int,
                ),
                rotation.num_authorities as int,
            ) && h@.len() == 32,
            r == Err::<Vec<u8>, VerificationError>(VerificationError::MalformedEvidence)
                <==> !rotation.wf() || !response_consistent(
                self.epoch_end_block_number,
                self.authority_set_id,
                self.authority_set_hash@,
                *justification,
            ),
            r == Err::<Vec<u8>, VerificationError>(VerificationError::QuorumNotMet)
                <==> rotation.wf() && response_consistent(
                self.epoch_end_block_number,
                self.authority_set_id,
                self.authority_set_hash@,
                *justification,
            ) && !quorum_met(
                count_signed(justification.record.validator_signed@),
                justification.record.num_authorities as nat,
            ),
            r == Err::<Vec<u8>, VerificationError>(VerificationError::HeaderMismatch)
                <==> rotation.wf() && response_consistent(
                self.epoch_end_block_number,
                self.authority_set_id,
                self.authority_set_hash@,
                *justification,
            ) && quorum_met(
                count_signed(justification.record.validator_signed@),
                justification.record.num_authorities as nat,
            ) && !rotation_header_endorsed(*rotation, *justification),
            r is Err ==> r == Err::<Vec<u8>, VerificationError>(
                VerificationError::MalformedEvidence,
            ) || r == Err::<Vec<u8>, VerificationError>(VerificationError::QuorumNotMet) || r
                == Err::<Vec<u8>, VerificationError>(VerificationError::HeaderMismatch),
    {
        let hint = RotateHint { block_number: self.epoch_end_block_number };
        match hint.check_response(rotation) {
            Err(e) => {
                return Err(e);
            },
            Ok(_) => {},
        }
        let hashes = crate::rotate::rotate(rotation);
        match verify_simple_justification(
            self.epoch_end_block_number,
            self.authority_set_id,
            &self.authority_set_hash,
            justification,
        ) {
            Err(e) => {
                return Err(e);
            },
            Ok(_) => {},
        }
        // The quorum signed the target hash at bytes 1..33 of the signed
        // message; the rotation header must be that exact block.
        let endorsed_hash = util::subrange_bytes(&justification.record.signed_message, 1, 33);
        if !util::bytes_eq(&hashes.0, &endorsed_hash) {
            return Err(VerificationError::HeaderMismatch);
        }
        Ok(hashes.1)
    }
}

} // verus!
