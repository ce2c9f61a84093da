//! Data model: votes, commits, justifications, authority sets and the
//! normalized records the pipeline emits.
//!
//! All byte-array fields (hashes, public keys, signatures) are byte vectors
//! with well-formedness predicates fixing their lengths; contracts speak of
//! the views of those fields.

use vstd::prelude::*;

use crate::commitment;

verus! {

/// Error taxonomy of the verification core.
///
/// `MalformedEvidence` marks structurally invalid input that must not be
/// retried as-is; `QuorumNotMet` marks well-formed evidence with too few
/// valid signatures; `HeaderMismatch` marks a recomputed header hash that
/// disagrees with the claimed one; `NoRotationLog` marks a header that was
/// expected to carry a rotation log entry and does not;
/// `UpstreamFetchFailure` marks a failure of an external collaborator.
#[derive(Clone, Copy, Debug, PartialEq, Eq, Structural)]
pub enum VerificationError {
    MalformedEvidence,
    QuorumNotMet,
    HeaderMismatch,
    NoRotationLog,
    UpstreamFetchFailure,
}

/// A vote for finalizing a specific block.
pub struct Precommit {
    /// 32-byte hash of the target block.
    pub target_hash: Vec<u8>,
    /// The target block's number.
    pub target_number: u32,
}

impl Precommit {
    /// The target hash is exactly 32 bytes.
    pub open spec fn wf(&self) -> bool {
        self.target_hash@.len() == 32
    }
}

/// A precommit together with the signature and the signer's public key.
pub struct SignedPrecommit {
    pub precommit: Precommit,
    /// 64-byte Ed25519 signature over the signed message.
    pub signature: Vec<u8>,
    /// 32-byte Ed25519 public key of the signer.
    pub signer: Vec<u8>,
}

impl SignedPrecommit {
    pub open spec fn wf(&self) -> bool {
        &&& self.precommit.wf()
        &&& self.signature@.len() == 64
        &&& self.signer@.len() == 32
    }
}

/// A raw, untrusted claim that a set of validators voted to finalize
/// `target_hash`.
pub struct Commit {
    /// 32-byte hash of the target block.
    pub target_hash: Vec<u8>,
    /// The target block's number.
    pub target_number: u32,
    /// Precommits for the target block.
    pub precommits: Vec<SignedPrecommit>,
}

impl Commit {
    pub open spec fn wf(&self) -> bool {
        &&& self.target_hash@.len() == 32
        &&& forall|i: int| 0 <= i < self.precommits@.len() ==> self.precommits@[i].wf()
    }
}

/// The full untrusted evidence object for one finalized block, as received
/// from the network.
pub struct GrandpaJustification {
    pub round: u64,
    pub commit: Commit,
    /// Raw bytes of the ancestry headers carried with the commit.
    pub votes_ancestries: Vec<Vec<u8>>,
}

impl GrandpaJustification {
    pub open spec fn wf(&self) -> bool {
        self.commit.wf()
    }
}

/// One authority: an Ed25519 public key and its voting weight. Current
/// policy weights all authorities equally; the field permits weighted
/// schemes.
pub struct Authority {
    /// 32-byte Ed25519 public key.
    pub public_key: Vec<u8>,
    pub weight: u64,
}

impl Authority {
    pub open spec fn wf(&self) -> bool {
        self.public_key@.len() == 32
    }
}

/// The ordered public keys of a sequence of authorities.
pub open spec fn authority_keys(authorities: Seq<Authority>) -> Seq<Seq<u8>> {
    Seq::new(authorities.len(), |i: int| authorities[i].public_key@)
}

/// An epoch's authority set: an id, the ordered authorities, and the
/// chained-hash commitment binding them.
pub struct AuthoritySet {
    pub id: u64,
    pub authorities: Vec<Authority>,
    /// 32-byte chained-hash digest over all authority keys.
    pub commitment: Vec<u8>,
}

impl AuthoritySet {
    /// At least one authority, every key 32 bytes, and the commitment is
    /// the chained hash of the full ordered key list.
    pub open spec fn wf(&self) -> bool {
        &&& self.authorities@.len() >= 1
        &&& forall|i: int| 0 <= i < self.authorities@.len() ==> self.authorities@[i].wf()
        &&& commitment::commitment_matches(
            authority_keys(self.authorities@),
            self.authorities@.len() as int,
            self.commitment@,
        )
    }

    /// Build an epoch's authority set, computing the commitment over the
    /// full ordered key list; an empty list is rejected.
    pub fn new(id: u64, authorities: Vec<Authority>) -> (r: Result<
        AuthoritySet,
        VerificationError,
    >)
        requires
            forall|i: int| 0 <= i < authorities@.len() ==> (#[trigger] authorities@[i]).wf(),
        ensures
            r is Ok <==> authorities@.len() >= 1,
            r matches Ok(s) ==> s.wf() && s.id == id && s.authorities@ == authorities@,
            r is Err ==> r == Err::<AuthoritySet, VerificationError>(
                VerificationError::MalformedEvidence,
            ),
    {
        if authorities.len() == 0 {
            return Err(VerificationError::MalformedEvidence);
        }
        let n = authorities.len();
        let mut keys: Vec<Vec<u8>> = Vec::new();
        for i in 0..n
            invariant
                n == authorities@.len(),
                keys@.len() == i,
                forall|j: int|
                    0 <= j < i ==> (#[trigger] keys@[j])@ == authorities@[j].public_key@,
        {
            keys.push(crate::util::clone_bytes(&authorities[i].public_key));
        }
        proof {
            assert(commitment::keys_view(keys@) =~= authority_keys(authorities@));
        }
        let digest = commitment::compute_authority_set_commitment(&keys, n);
        Ok(AuthoritySet { id, authorities, commitment: digest })
    }
}

/// The durable, fixed-arity output for one accepted justification: padded
/// to the full authority-set size so downstream consumers can iterate by
/// fixed authority index.
pub struct VerifiedJustificationRecord {
    pub block_number: u32,
    /// The exact byte encoding every counted signature covers.
    pub signed_message: Vec<u8>,
    /// All authority keys, in authority-set order.
    pub pubkeys: Vec<Vec<u8>>,
    /// Real signature where the authority signed, placeholder elsewhere.
    pub signatures: Vec<Vec<u8>>,
    pub num_authorities: usize,
    /// Aligned to `pubkeys`: whether that authority's signature was counted.
    pub validator_signed: Vec<bool>,
}

impl VerifiedJustificationRecord {
    pub open spec fn wf(&self) -> bool {
        &&& self.pubkeys@.len() == self.num_authorities
        &&& self.signatures@.len() == self.num_authorities
        &&& self.validator_signed@.len() == self.num_authorities
        &&& forall|i: int| 0 <= i < self.pubkeys@.len() ==> (#[trigger] self.pubkeys@[i])@.len() == 32
        &&& forall|i: int| 0 <= i < self.signatures@.len() ==> (#[trigger] self.signatures@[i])@.len() == 64
    }
}

/// The located rotation advertisement inside an epoch-end header: the raw
/// header bytes padded to a fixed capacity, and the byte range holding the
/// new authority set's encoded entries.
pub struct RotationData {
    /// Header bytes, zero-padded to the capacity they were requested at.
    pub header_bytes: Vec<u8>,
    /// The actual header length.
    pub header_size: usize,
    /// How many authorities the rotation entry lists.
    pub num_authorities: usize,
    /// Start of the encoded authority list inside `header_bytes`.
    pub consensus_log_start: usize,
    /// End of the encoded authority list inside `header_bytes`.
    pub consensus_log_end: usize,
}

impl RotationData {
    pub open spec fn wf(&self) -> bool {
        &&& self.header_size <= self.header_bytes@.len()
        &&& self.num_authorities >= 1
        &&& self.consensus_log_end <= self.header_size
        &&& self.consensus_log_end == self.consensus_log_start + 40 * self.num_authorities
    }
}

} // verus!
