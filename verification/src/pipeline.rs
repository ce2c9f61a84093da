//! Ingestion pipeline: for each justification received from the live
//! subscription, apply the save-cadence filter, cross-check the header
//! hash, verify the justification, and emit the normalized record for
//! storage. A failed event is dropped; the subscription itself lives on.

use vstd::prelude::*;

use crate::crypto;
use crate::justification;
use crate::types::{
    AuthoritySet, GrandpaJustification, VerificationError, VerifiedJustificationRecord,
};
use crate::util;

verus! {

/// Subscription acknowledgement payload of the upstream event source.
pub struct SubscriptionMessageResult {
    pub result: String,
    pub subscription: String,
}

/// Envelope of one message on the upstream subscription.
pub struct SubscriptionMessage {
    pub jsonrpc: String,
    pub params: SubscriptionMessageResult,
    pub method: String,
}

/// What the pipeline did with one received justification.
pub enum EventOutcome {
    /// The block number is not on the save cadence; deliberately skipped.
    NotDue,
    /// Accepted: the normalized record to append to storage.
    Saved(VerifiedJustificationRecord),
    /// Dropped with a diagnostic; the subscription continues.
    Dropped(VerificationError),
}

/// Whether the independently fetched header bytes match the event: their
/// recomputed hash must equal both the independently obtained header hash
/// and the hash the commit claims to target.
pub open spec fn header_consistent(
    j: GrandpaJustification,
    header_bytes: Seq<u8>,
    header_hash: Seq<u8>,
) -> bool {
    &&& crypto::blake2_256_of(header_bytes) == header_hash
    &&& crypto::blake2_256_of(header_bytes) == j.commit.target_hash@
}

/// Process one received justification.
///
/// Only every `save_interval`-th block (by target number) is processed; a
/// header hash mismatch drops the event with `HeaderMismatch`; otherwise
/// the justification verifier decides, and acceptance yields the record
/// to persist. Every failure is an explicit outcome, distinguishable from
/// the deliberate cadence skip.
pub fn process_event(
    justification: &GrandpaJustification,
    header_bytes: &Vec<u8>,
    header_hash: &Vec<u8>,
    authority_set_id: u64,
    authority_set: &AuthoritySet,
    save_interval: u32,
) -> (r: EventOutcome)
    requires
        justification.wf(),
        authority_set.wf(),
        save_interval >= 1,
    ensures
        ({
            let due = justification.commit.target_number as int % save_interval as int == 0;
            let header_ok = header_consistent(*justification, header_bytes@, header_hash@);
            let pcs = justification.commit.precommits@;
            let msg = justification::justification_message(*justification, authority_set_id);
            let n = authority_set.authorities@.len();
            let accepted = justification::justification_accepted(
                *justification,
                authority_set_id,
                n,
            );
            match r {
                EventOutcome::NotDue => !due,
                EventOutcome::Saved(rec) => due && header_ok && accepted
                    && justification::record_matches(
                    rec,
                    *justification,
                    authority_set_id,
                    authority_set.authorities@,
                ) && rec.wf(),
                EventOutcome::Dropped(e) => {
                    &&& due
                    &&& (e == VerificationError::HeaderMismatch <==> !header_ok)
                    &&& (e == VerificationError::MalformedEvidence <==> header_ok && pcs.len()
                        == 0)
                    &&& (e == VerificationError::QuorumNotMet <==> header_ok && pcs.len() > 0
                        && !justification::quorum_met(
                        justification::distinct_valid_signers(pcs, msg),
                        n,
                    ))
                },
            }
        }),
        r is Saved <==> justification.commit.target_number as int % save_interval as int == 0
            && header_consistent(*justification, header_bytes@, header_hash@)
            && justification::justification_accepted(
            *justification,
            authority_set_id,
            authority_set.authorities@.len(),
        ),
{
    if justification.commit.target_number % save_interval != 0 {
        return EventOutcome::NotDue;
    }
    let computed = crypto::blake2_256(header_bytes);
    let hash_matches = util::bytes_eq(&computed, header_hash);
    let target_matches = util::bytes_eq(&computed, &justification.commit.target_hash);
    if !hash_matches || !target_matches {
        return EventOutcome::Dropped(VerificationError::HeaderMismatch);
    }
    match justification::verify_justification(justification, authority_set_id, authority_set) {
        Ok(rec) => EventOutcome::Saved(rec),
        Err(e) => EventOutcome::Dropped(e),
    }
}

} // verus!
