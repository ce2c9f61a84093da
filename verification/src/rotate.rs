//! Rotation extractor: locates, inside the raw bytes of an epoch-end
//! header, the consensus log entry that schedules the next authority set,
//! and recomputes the commitment of the advertised new set directly from
//! the located bytes.
//!
//! The header layout is the chain's wire format: a 32-byte parent hash, a
//! compact-encoded block number, two 32-byte roots, then a digest given as
//! a compact-encoded item count followed by the items. A scheduled-change
//! entry is a consensus item under the GRANDPA engine id whose payload
//! lists the new authorities as 40-byte entries (32-byte key, 8-byte
//! weight) followed by a 4-byte delay.

use vstd::prelude::*;

use crate::commitment;
use crate::crypto;
use crate::types::{RotationData, VerificationError};
use crate::util;

verus! {

/// Value and end position of the SCALE compact-encoded integer at `pos`,
/// or nothing where the bytes do not hold one. Only the canonical,
/// minimal form of each value is accepted, as the chain's codec insists:
/// a longer mode than the value needs is malformed. Values needing the
/// big-integer mode (at least 2^30) are rejected as malformed too.
pub open spec fn compact_u32_at(b: Seq<u8>, pos: int) -> Option<(u32, int)> {
    if !(0 <= pos < b.len()) {
        None
    } else {
        let b0 = b[pos];
        if b0 & 3 == 0 {
            Some((((b0 >> 2) as u32, pos + 1)))
        } else if b0 & 3 == 1 {
            if pos + 2 <= b.len() {
                let v = ((b[pos] as u32) | ((b[pos + 1] as u32) << 8)) >> 2;
                if v >= 64 {
                    Some(((v, pos + 2)))
                } else {
                    None
                }
            } else {
                None
            }
        } else if b0 & 3 == 2 {
            if pos + 4 <= b.len() {
                let v = ((b[pos] as u32) | ((b[pos + 1] as u32) << 8) | ((b[pos + 2] as u32) << 16)
                    | ((b[pos + 3] as u32) << 24)) >> 2;
                if v >= 16384 {
                    Some(((v, pos + 4)))
                } else {
                    None
                }
            } else {
                None
            }
        } else {
            None
        }
    }
}

/// Outcome of scanning for a scheduled authority-set change: the byte
/// offset where the encoded authority list starts and how many entries it
/// has, or the absence of such an entry, or a malformed header.
pub enum RotationScan {
    Found { start: int, count: int },
    Absent,
    Malformed,
}

/// What the GRANDPA consensus payload at `[pos, pos + len)` advertises.
/// A scheduled change is tag 1: a compact count of authorities, then
/// exactly 40 bytes per authority, then the 4-byte delay; the payload must
/// be exactly consumed. Other GRANDPA log tags carry no rotation.
pub open spec fn grandpa_log_at(b: Seq<u8>, pos: int, len: int) -> RotationScan {
    if len < 1 || pos < 0 || pos + len > b.len() {
        RotationScan::Malformed
    } else if b[pos] == 1 {
        match compact_u32_at(b, pos + 1) {
            None => RotationScan::Malformed,
            Some((k, q)) => {
                if k >= 1 && q + 40 * (k as int) + 4 == pos + len {
                    RotationScan::Found { start: q, count: k as int }
                } else {
                    RotationScan::Malformed
                }
            },
        }
    } else if b[pos] == 2 || b[pos] == 3 || b[pos] == 4 || b[pos] == 5 {
        RotationScan::Absent
    } else {
        RotationScan::Malformed
    }
}

/// Scan up to `remaining` digest items starting at `pos`. Consensus, seal
/// and pre-runtime items carry a 4-byte engine id and a compact-length
/// payload; opaque items carry a compact-length payload alone; the
/// runtime-environment marker carries nothing. Only a consensus item under
/// the GRANDPA engine id (`"FRNK"`) can hold the scheduled change.
pub open spec fn scan_items(b: Seq<u8>, pos: int, remaining: nat) -> RotationScan
    decreases remaining,
{
    if remaining == 0 {
        RotationScan::Absent
    } else if !(0 <= pos < b.len()) {
        RotationScan::Malformed
    } else {
        let v = b[pos];
        if v == 4 || v == 5 || v == 6 {
            if pos + 5 > b.len() {
                RotationScan::Malformed
            } else {
                match compact_u32_at(b, pos + 5) {
                    None => RotationScan::Malformed,
                    Some((plen, q)) => {
                        if q + plen > b.len() {
                            RotationScan::Malformed
                        } else if v == 4 && b[pos + 1] == 0x46 && b[pos + 2] == 0x52 && b[pos + 3]
                            == 0x4e && b[pos + 4] == 0x4b {
                            match grandpa_log_at(b, q, plen as int) {
                                RotationScan::Found { start, count } => RotationScan::Found {
                                    start,
                                    count,
                                },
                                RotationScan::Absent => scan_items(
                                    b,
                                    q + plen,
                                    (remaining - 1) as nat,
                                ),
                                RotationScan::Malformed => RotationScan::Malformed,
                            }
                        } else {
                            scan_items(b, q + plen, (remaining - 1) as nat)
                        }
                    },
                }
            }
        } else if v == 0 {
            match compact_u32_at(b, pos + 1) {
                None => RotationScan::Malformed,
                Some((plen, q)) => {
                    if q + plen > b.len() {
                        RotationScan::Malformed
                    } else {
                        scan_items(b, q + plen, (remaining - 1) as nat)
                    }
                },
            }
        } else if v == 8 {
            scan_items(b, pos + 1, (remaining - 1) as nat)
        } else {
            RotationScan::Malformed
        }
    }
}

/// The rotation advertisement of a whole encoded header: parent hash,
/// compact block number, state root, extrinsics root, then the digest
/// items.
pub open spec fn header_rotation(b: Seq<u8>) -> RotationScan {
    if b.len() < 33 {
        RotationScan::Malformed
    } else {
        match compact_u32_at(b, 32) {
            None => RotationScan::Malformed,
            Some((num, p)) => {
                if p + 64 > b.len() {
                    RotationScan::Malformed
                } else {
                    match compact_u32_at(b, p + 64) {
                        None => RotationScan::Malformed,
                        Some((cnt, q)) => scan_items(b, q, cnt as nat),
                    }
                }
            },
        }
    }
}

/// A located authority list always lies, with its 4-byte delay, inside
/// the scanned bytes.
proof fn lemma_scan_items_found_bounds(b: Seq<u8>, pos: int, remaining: nat)
    ensures
        scan_items(b, pos, remaining) matches RotationScan::Found { start, count } ==> 1 <= count
            && 0 <= start && start + 40 * count + 4 <= b.len(),
    decreases remaining,
{
    if remaining == 0 {
    } else if !(0 <= pos < b.len()) {
    } else {
        let v = b[pos];
        if v == 4 || v == 5 || v == 6 {
            if pos + 5 <= b.len() {
                match compact_u32_at(b, pos + 5) {
                    None => {},
                    Some((plen, q)) => {
                        if q + plen <= b.len() {
                            lemma_scan_items_found_bounds(b, q + plen, (remaining - 1) as nat);
                        }
                    },
                }
            }
        } else if v == 0 {
            match compact_u32_at(b, pos + 1) {
                None => {},
                Some((plen, q)) => {
                    if q + plen <= b.len() {
                        lemma_scan_items_found_bounds(b, q + plen, (remaining - 1) as nat);
                    }
                },
            }
        } else if v == 8 {
            lemma_scan_items_found_bounds(b, pos + 1, (remaining - 1) as nat);
        }
    }
}

/// Exec-side scan outcome, mirroring `RotationScan` with machine integers.
pub enum ScanResult {
    Found { start: usize, count: u32 },
    Absent,
    Malformed,
}

/// Whether an exec scan outcome denotes a spec scan outcome.
pub open spec fn scan_result_matches(r: ScanResult, s: RotationScan) -> bool {
    match r {
        ScanResult::Found { start, count } => s == (RotationScan::Found {
            start: start as int,
            count: count as int,
        }),
        ScanResult::Absent => s is Absent,
        ScanResult::Malformed => s is Malformed,
    }
}

/// Decode the compact integer at `pos`.
fn compact_u32(b: &Vec<u8>, pos: usize) -> (r: Option<(u32, usize)>)
    ensures
        match r {
            Some(vq) => compact_u32_at(b@, pos as int) == Some((vq.0, vq.1 as int)) && pos < vq.1
                <= b@.len(),
            None => compact_u32_at(b@, pos as int) is None,
        },
{
    if pos >= b.len() {
        return None;
    }
    let b0 = b[pos];
    let mode = b0 & 3;
    if mode == 0 {
        Some(((b0 >> 2) as u32, pos + 1))
    } else if mode == 1 {
        if b.len() - pos >= 2 {
            let v = ((b[pos] as u32) | ((b[pos + 1] as u32) << 8)) >> 2;
            if v >= 64 {
                Some((v, pos + 2))
            } else {
                None
            }
        } else {
            None
        }
    } else if mode == 2 {
        if b.len() - pos >= 4 {
            let v = ((b[pos] as u32) | ((b[pos + 1] as u32) << 8) | ((b[pos + 2] as u32) << 16) | ((
            b[pos + 3] as u32) << 24)) >> 2;
            if v >= 16384 {
                Some((v, pos + 4))
            } else {
                None
            }
        } else {
            None
        }
    } else {
        None
    }
}

/// Parse a GRANDPA consensus payload at `[pos, pos + len)`.
fn grandpa_log(b: &Vec<u8>, pos: usize, len: u32) -> (r: ScanResult)
    requires
        pos + len <= b@.len(),
    ensures
        scan_result_matches(r, grandpa_log_at(b@, pos as int, len as int)),
{
    if len < 1 {
        return ScanResult::Malformed;
    }
    let n = b.len();
    assert(pos < n);
    let tag = b[pos];
    if tag == 1 {
        match compact_u32(b, pos + 1) {
            None => ScanResult::Malformed,
            Some((k, q)) => {
                if k >= 1 && (q as u128) + 40u128 * (k as u128) + 4u128 == (pos as u128) + (
                len as u128) {
                    ScanResult::Found { start: q, count: k }
                } else {
                    ScanResult::Malformed
                }
            },
        }
    } else if tag == 2 || tag == 3 || tag == 4 || tag == 5 {
        ScanResult::Absent
    } else {
        ScanResult::Malformed
    }
}

/// Scan up to `remaining` digest items starting at `pos`.
fn scan_digest_items(b: &Vec<u8>, pos: usize, remaining: u32) -> (r: ScanResult)
    ensures
        scan_result_matches(r, scan_items(b@, pos as int, remaining as nat)),
    decreases remaining,
{
    if remaining == 0 {
        return ScanResult::Absent;
    }
    if pos >= b.len() {
        return ScanResult::Malformed;
    }
    let v = b[pos];
    if v == 4 || v == 5 || v == 6 {
        if b.len() - pos < 5 {
            return ScanResult::Malformed;
        }
        match compact_u32(b, pos + 5) {
            None => ScanResult::Malformed,
            Some((plen, q)) => {
                if plen as usize > b.len() - q {
                    return ScanResult::Malformed;
                }
                let next = q + plen as usize;
                if v == 4 && b[pos + 1] == 0x46 && b[pos + 2] == 0x52 && b[pos + 3] == 0x4e && b[pos
                    + 4] == 0x4b {
                    match grandpa_log(b, q, plen) {
                        ScanResult::Found { start, count } => ScanResult::Found { start, count },
                        ScanResult::Absent => scan_digest_items(b, next, remaining - 1),
                        ScanResult::Malformed => ScanResult::Malformed,
                    }
                } else {
                    scan_digest_items(b, next, remaining - 1)
                }
            },
        }
    } else if v == 0 {
        match compact_u32(b, pos + 1) {
            None => ScanResult::Malformed,
            Some((plen, q)) => {
                if plen as usize > b.len() - q {
                    ScanResult::Malformed
                } else {
                    scan_digest_items(b, q + plen as usize, remaining - 1)
                }
            },
        }
    } else if v == 8 {
        scan_digest_items(b, pos + 1, remaining - 1)
    } else {
        ScanResult::Malformed
    }
}

/// Extract the scheduled authority-set rotation from the raw bytes of an
/// epoch-end header.
///
/// On success the returned data locates the encoded authority list: the
/// byte range is exactly 40 bytes per listed authority, and the header
/// bytes are returned zero-padded to the requested capacity. A header
/// whose digest holds no scheduled change is `NoRotationLog`; bytes that
/// do not parse as a header are `MalformedEvidence`.
pub fn extract_rotation(header: &Vec<u8>, max_header_len: usize) -> (r: Result<
    RotationData,
    VerificationError,
>)
    requires
        header@.len() <= max_header_len,
    ensures
        r is Ok <==> header_rotation(header@) is Found,
        match r {
            Ok(rd) => {
                &&& header_rotation(header@) == (RotationScan::Found {
                    start: rd.consensus_log_start as int,
                    count: rd.num_authorities as int,
                })
                &&& rd.wf()
                &&& rd.header_size == header@.len()
                &&& rd.consensus_log_end == rd.consensus_log_start + 40 * rd.num_authorities
                &&& rd.header_bytes@.len() == max_header_len
                &&& rd.header_bytes@.take(header@.len() as int) == header@
                &&& forall|i: int|
                    header@.len() <= i < max_header_len ==> rd.header_bytes@[i] == 0u8
            },
            Err(e) => {
                &&& (e == VerificationError::NoRotationLog <==> header_rotation(header@) is Absent)
                &&& (e == VerificationError::MalformedEvidence <==> header_rotation(
                    header@,
                ) is Malformed)
                &&& (e == VerificationError::NoRotationLog || e
                    == VerificationError::MalformedEvidence)
            },
        },
{
    if header.len() < 33 {
        return Err(VerificationError::MalformedEvidence);
    }
    match compact_u32(header, 32) {
        None => Err(VerificationError::MalformedEvidence),
        Some((_num, p)) => {
            if header.len() - p < 64 {
                return Err(VerificationError::MalformedEvidence);
            }
            match compact_u32(header, p + 64) {
                None => Err(VerificationError::MalformedEvidence),
                Some((cnt, q)) => {
                    match scan_digest_items(header, q, cnt) {
                        ScanResult::Found { start, count } => {
                            proof {
                                lemma_scan_items_found_bounds(header@, q as int, cnt as nat);
                            }
                            let mut header_bytes = util::clone_bytes(header);
                            let zeros = util::zero_bytes(max_header_len - header.len());
                            util::push_bytes(&mut header_bytes, &zeros);
                            let count_us = count as usize;
                            let rd = RotationData {
                                header_bytes,
                                header_size: header.len(),
                                num_authorities: count_us,
                                consensus_log_start: start,
                                consensus_log_end: start + 40 * count_us,
                            };
                            proof {
                                assert(rd.header_bytes@.take(header@.len() as int) =~= header@);
                            }
                            Ok(rd)
                        },
                        ScanResult::Absent => Err(VerificationError::NoRotationLog),
                        ScanResult::Malformed => Err(VerificationError::MalformedEvidence),
                    }
                },
            }
        },
    }
}

/// The 32-byte keys laid out at 40-byte stride from `start`.
pub open spec fn rotation_keys(b: Seq<u8>, start: int, count: int) -> Seq<Seq<u8>> {
    Seq::new(count as nat, |i: int| b.subrange(start + 40 * i, start + 40 * i + 32))
}

/// Recompute, from located rotation data, the hash of the header and the
/// chained commitment of the advertised new authority set. Trust in the
/// rotation is established by these two values alone: the header hash
/// binds the exact bytes, and the commitment binds the keys read from the
/// reported range of those same bytes.
pub fn rotate(rotation: &RotationData) -> (r: (Vec<u8>, Vec<u8>))
    requires
        rotation.wf(),
    ensures
        r.0@ == crypto::blake2_256_of(rotation.header_bytes@.take(rotation.header_size as int)),
        r.1@ == commitment::chained_hash(
            rotation_keys(
                rotation.header_bytes@,
                rotation.consensus_log_start as int,
                rotation.num_authorities as int,
            ),
            rotation.num_authorities as int,
        ),
        r.0@.len() == 32,
        r.1@.len() == 32,
{
    let hdr = util::subrange_bytes(&rotation.header_bytes, 0, rotation.header_size);
    proof {
        assert(hdr@ =~= rotation.header_bytes@.take(rotation.header_size as int));
    }
    let header_hash = crypto::blake2_256(&hdr);

    let start = rotation.consensus_log_start;
    let k = rotation.num_authorities;
    let mut keys: Vec<Vec<u8>> = Vec::new();
    for i in 0..k
        invariant
            rotation.wf(),
            start == rotation.consensus_log_start,
            k == rotation.num_authorities,
            keys@.len() == i,
            forall|j: int|
                0 <= j < i ==> (#[trigger] keys@[j])@ == rotation.header_bytes@.subrange(
                    start + 40 * j,
                    start + 40 * j + 32,
                ),
    {
        let off = start + 40 * i;
        let key = util::subrange_bytes(&rotation.header_bytes, off, off + 32);
        keys.push(key);
    }
    proof {
        assert(commitment::keys_view(keys@) =~= rotation_keys(
            rotation.header_bytes@,
            start as int,
            k as int,
        ));
    }
    let new_commitment = commitment::compute_authority_set_commitment(&keys, k);
    (header_hash, new_commitment)
}

} // verus!
