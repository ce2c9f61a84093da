//! The exact byte layout of the signed message: the wire contract shared
//! with the validator nodes. A signature covers the concatenated encoding
//! of `(precommit message, round, authority set id)`; any change to this
//! layout invalidates all signatures.

use vstd::prelude::*;

use crate::types::Precommit;

verus! {

/// The four little-endian bytes of a `u32`.
pub open spec fn u32_le(x: u32) -> Seq<u8> {
    seq![
        (x & 0xff) as u8,
        ((x >> 8) & 0xff) as u8,
        ((x >> 16) & 0xff) as u8,
        ((x >> 24) & 0xff) as u8,
    ]
}

/// The eight little-endian bytes of a `u64`.
pub open spec fn u64_le(x: u64) -> Seq<u8> {
    seq![
        (x & 0xff) as u8,
        ((x >> 8) & 0xff) as u8,
        ((x >> 16) & 0xff) as u8,
        ((x >> 24) & 0xff) as u8,
        ((x >> 32) & 0xff) as u8,
        ((x >> 40) & 0xff) as u8,
        ((x >> 48) & 0xff) as u8,
        ((x >> 56) & 0xff) as u8,
    ]
}

/// Append the little-endian bytes of a `u32`.
pub fn push_u32_le(out: &mut Vec<u8>, x: u32)
    ensures
        final(out)@ == old(out)@ + u32_le(x),
{
    proof {
        assert(x & 0xff < 256 && (x >> 8) & 0xff < 256 && (x >> 16) & 0xff < 256 && (x >> 24)
            & 0xff < 256) by (bit_vector);
    }
    out.push((x & 0xff) as u8);
    out.push(((x >> 8) & 0xff) as u8);
    out.push(((x >> 16) & 0xff) as u8);
    out.push(((x >> 24) & 0xff) as u8);
    assert(out@ =~= old(out)@ + u32_le(x));
}

/// Append the little-endian bytes of a `u64`.
pub fn push_u64_le(out: &mut Vec<u8>, x: u64)
    ensures
        final(out)@ == old(out)@ + u64_le(x),
{
    proof {
        assert(x & 0xff < 256 && (x >> 8) & 0xff < 256 && (x >> 16) & 0xff < 256 && (x >> 24)
            & 0xff < 256 && (x >> 32) & 0xff < 256 && (x >> 40) & 0xff < 256 && (x >> 48) & 0xff
            < 256 && (x >> 56) & 0xff < 256) by (bit_vector);
    }
    out.push((x & 0xff) as u8);
    out.push(((x >> 8) & 0xff) as u8);
    out.push(((x >> 16) & 0xff) as u8);
    out.push(((x >> 24) & 0xff) as u8);
    out.push(((x >> 32) & 0xff) as u8);
    out.push(((x >> 40) & 0xff) as u8);
    out.push(((x >> 48) & 0xff) as u8);
    out.push(((x >> 56) & 0xff) as u8);
    assert(out@ =~= old(out)@ + u64_le(x));
}

/// The message a signer covers when voting in a round: the precommit
/// message tag, the target hash and number, then the round and the
/// authority set id, all in their wire order.
pub open spec fn signed_message_spec(
    target_hash: Seq<u8>,
    target_number: u32,
    round: u64,
    authority_set_id: u64,
) -> Seq<u8> {
    seq![1u8] + target_hash + u32_le(target_number) + u64_le(round) + u64_le(authority_set_id)
}

/// Build the exact signed-message bytes for a precommit vote. For a 32-byte
/// target hash the encoding is always 53 bytes long.
pub fn encode_signed_message(precommit: &Precommit, round: u64, authority_set_id: u64) -> (r: Vec<
    u8,
>)
    requires
        precommit.wf(),
    ensures
        r@ == signed_message_spec(
            precommit.target_hash@,
            precommit.target_number,
            round,
            authority_set_id,
        ),
        r@.len() == 53,
{
    let mut out: Vec<u8> = Vec::new();
    out.push(1u8);
    crate::util::push_bytes(&mut out, &precommit.target_hash);
    push_u32_le(&mut out, precommit.target_number);
    push_u64_le(&mut out, round);
    push_u64_le(&mut out, authority_set_id);
    assert(out@ =~= signed_message_spec(
        precommit.target_hash@,
        precommit.target_number,
        round,
        authority_set_id,
    ));
    out
}

/// The two kinds of message a signer can cover; justification votes are
/// precommit messages.
pub enum SignerMessage {
    DummyMessage(u32),
    PrecommitMessage(Precommit),
}

/// The wire encoding of a signer message: a one-byte tag, then the body.
pub open spec fn encoded_signer_message(m: SignerMessage) -> Seq<u8> {
    match m {
        SignerMessage::DummyMessage(x) => seq![0u8] + u32_le(x),
        SignerMessage::PrecommitMessage(p) => seq![1u8] + p.target_hash@ + u32_le(p.target_number),
    }
}

/// Encode a signer message to its wire bytes.
pub fn encode_signer_message(m: &SignerMessage) -> (r: Vec<u8>)
    ensures
        r@ == encoded_signer_message(*m),
{
    let mut out: Vec<u8> = Vec::new();
    match m {
        SignerMessage::DummyMessage(x) => {
            out.push(0u8);
            push_u32_le(&mut out, *x);
            assert(out@ =~= encoded_signer_message(*m));
        },
        SignerMessage::PrecommitMessage(p) => {
            out.push(1u8);
            crate::util::push_bytes(&mut out, &p.target_hash);
            push_u32_le(&mut out, p.target_number);
            assert(out@ =~= encoded_signer_message(*m));
        },
    }
    out
}

/// Law (domain separation): two signed messages built for a different round
/// or a different authority set id are different byte strings, whatever
/// their precommits are, so a signature over one never covers the other.
pub proof fn lemma_signed_message_domain_separation(
    h1: Seq<u8>,
    n1: u32,
    r1: u64,
    id1: u64,
    h2: Seq<u8>,
    n2: u32,
    r2: u64,
    id2: u64,
)
    requires
        h1.len() == 32,
        h2.len() == 32,
        r1 != r2 || id1 != id2,
    ensures
        signed_message_spec(h1, n1, r1, id1) != signed_message_spec(h2, n2, r2, id2),
{
    let m1 = signed_message_spec(h1, n1, r1, id1);
    let m2 = signed_message_spec(h2, n2, r2, id2);
    if m1 == m2 {
        assert(m1.subrange(37, 45) =~= u64_le(r1));
        assert(m2.subrange(37, 45) =~= u64_le(r2));
        assert(m1.subrange(45, 53) =~= u64_le(id1));
        assert(m2.subrange(45, 53) =~= u64_le(id2));
        assert(u64_le(r1) =~= u64_le(r2));
        assert(u64_le(id1) =~= u64_le(id2));
        assert(u64_le(r1)[0] == u64_le(r2)[0]);
        assert(r1 == r2) by (bit_vector)
            requires
                (r1 & 0xff) as u8 == (r2 & 0xff) as u8,
                ((r1 >> 8) & 0xff) as u8 == ((r2 >> 8) & 0xff) as u8,
                ((r1 >> 16) & 0xff) as u8 == ((r2 >> 16) & 0xff) as u8,
                ((r1 >> 24) & 0xff) as u8 == ((r2 >> 24) & 0xff) as u8,
                ((r1 >> 32) & 0xff) as u8 == ((r2 >> 32) & 0xff) as u8,
                ((r1 >> 40) & 0xff) as u8 == ((r2 >> 40) & 0xff) as u8,
                ((r1 >> 48) & 0xff) as u8 == ((r2 >> 48) & 0xff) as u8,
                ((r1 >> 56) & 0xff) as u8 == ((r2 >> 56) & 0xff) as u8,
        ;
        assert(id1 == id2) by (bit_vector)
            requires
                (id1 & 0xff) as u8 == (id2 & 0xff) as u8,
                ((id1 >> 8) & 0xff) as u8 == ((id2 >> 8) & 0xff) as u8,
                ((id1 >> 16) & 0xff) as u8 == ((id2 >> 16) & 0xff) as u8,
                ((id1 >> 24) & 0xff) as u8 == ((id2 >> 24) & 0xff) as u8,
                ((id1 >> 32) & 0xff) as u8 == ((id2 >> 32) & 0xff) as u8,
                ((id1 >> 40) & 0xff) as u8 == ((id2 >> 40) & 0xff) as u8,
                ((id1 >> 48) & 0xff) as u8 == ((id2 >> 48) & 0xff) as u8,
                ((id1 >> 56) & 0xff) as u8 == ((id2 >> 56) & 0xff) as u8,
        ;
    }
}

} // verus!
