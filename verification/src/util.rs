//! Small verified helpers over byte vectors.

use vstd::prelude::*;

verus! {

/// Copy of a byte vector.
pub fn clone_bytes(src: &Vec<u8>) -> (r: Vec<u8>)
    ensures
        r@ == src@,
{
    let mut r: Vec<u8> = Vec::new();
    let n = src.len();
    for i in 0..n
        invariant
            n == src@.len(),
            r@ == src@.take(i as int),
    {
        r.push(src[i]);
        assert(r@ =~= src@.take(i + 1));
    }
    assert(r@ =~= src@);
    r
}

/// Append the bytes of `src` to `dst`.
pub fn push_bytes(dst: &mut Vec<u8>, src: &Vec<u8>)
    ensures
        final(dst)@ == old(dst)@ + src@,
{
    let n = src.len();
    for i in 0..n
        invariant
            n == src@.len(),
            dst@ == old(dst)@ + src@.take(i as int),
    {
        dst.push(src[i]);
        assert(dst@ =~= old(dst)@ + src@.take(i + 1));
    }
    assert(dst@ =~= old(dst)@ + src@);
}

/// Byte-for-byte equality of two vectors.
pub fn bytes_eq(a: &Vec<u8>, b: &Vec<u8>) -> (r: bool)
    ensures
        r == (a@ == b@),
{
    if a.len() != b.len() {
        return false;
    }
    let n = a.len();
    for i in 0..n
        invariant
            n == a@.len() && n == b@.len(),
            a@.take(i as int) == b@.take(i as int),
    {
        if a[i] != b[i] {
            assert(a@[i as int] != b@[i as int]);
            return false;
        }
        assert(a@.take(i + 1) =~= b@.take(i + 1));
    }
    assert(a@.take(n as int) =~= a@);
    assert(b@.take(n as int) =~= b@);
    true
}

/// The bytes of `src` from `from` (inclusive) to `to` (exclusive).
pub fn subrange_bytes(src: &Vec<u8>, from: usize, to: usize) -> (r: Vec<u8>)
    requires
        from <= to <= src@.len(),
    ensures
        r@ == src@.subrange(from as int, to as int),
{
    let mut r: Vec<u8> = Vec::new();
    let mut i = from;
    while i < to
        invariant
            from <= i <= to <= src@.len(),
            r@ == src@.subrange(from as int, i as int),
        decreases to - i,
    {
        r.push(src[i]);
        assert(r@ =~= src@.subrange(from as int, i + 1));
        i += 1;
    }
    r
}

/// A vector of `n` zero bytes.
pub fn zero_bytes(n: usize) -> (r: Vec<u8>)
    ensures
        r@ == Seq::new(n as nat, |i: int| 0u8),
{
    let mut r: Vec<u8> = Vec::new();
    for i in 0..n
        invariant
            r@ == Seq::new(i as nat, |j: int| 0u8),
    {
        r.push(0u8);
        assert(r@ =~= Seq::new((i + 1) as nat, |j: int| 0u8));
    }
    r
}

} // verus!
