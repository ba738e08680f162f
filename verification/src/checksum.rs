//! The XOR checksum that closes every frame of the iiyama protocol.
use vstd::prelude::*;

verus! {

/// XOR of all bytes of `s`, folded from the left starting at 0.
pub open spec fn xor_all(s: Seq<u8>) -> u8
    decreases s.len(),
{
    if s.len() == 0 {
        0
    } else {
        xor_all(s.drop_last()) ^ s.last()
    }
}

/// Computes `xor_all` of the bytes in `data`.
pub fn xor_of(data: &[u8]) -> (r: u8)
    ensures
        r == xor_all(data@),
{
    let mut acc: u8 = 0;
    let mut i: usize = 0;
    while i < data.len()
        invariant
            i <= data@.len(),
            acc == xor_all(data@.take(i as int)),
        decreases data@.len() - i,
    {
        assert(data@.take(i as int + 1).drop_last() == data@.take(i as int));
        acc = acc ^ data[i];
        i = i + 1;
    }
    assert(data@.take(i as int) == data@);
    acc
}

/// XOR over a concatenation is the XOR of the XORs of the parts.
pub proof fn lemma_xor_all_concat(a: Seq<u8>, b: Seq<u8>)
    ensures
        xor_all(a + b) == xor_all(a) ^ xor_all(b),
    decreases b.len(),
{
    if b.len() == 0 {
        assert(a + b == a);
        let x = xor_all(a);
        assert(x ^ 0u8 == x) by (bit_vector);
    } else {
        lemma_xor_all_concat(a, b.drop_last());
        assert((a + b).drop_last() == a + b.drop_last());
        assert((a + b).last() == b.last());
        let x = xor_all(a);
        let y = xor_all(b.drop_last());
        let z = b.last();
        assert((x ^ y) ^ z == x ^ (y ^ z)) by (bit_vector);
    }
}

/// The XOR of no bytes is 0, and of a single byte is that byte.
pub proof fn lemma_xor_all_small(a: u8)
    ensures
        xor_all(Seq::<u8>::empty()) == 0,
        xor_all(seq![a]) == a,
{
    assert(seq![a].drop_last() == Seq::<u8>::empty());
    assert(0u8 ^ a == a) by (bit_vector);
}

} // verus!
