use vstd::prelude::*;

verus! {

/// The unsigned 16-bit pattern of a sample, as two's complement stores it.
pub open spec fn sample_bits(s: i16) -> int {
    if s < 0 {
        s + 65536
    } else {
        s as int
    }
}

/// The two bytes of one sample, low byte first.
pub open spec fn sample_bytes(s: i16) -> Seq<u8> {
    seq![(sample_bits(s) % 256) as u8, (sample_bits(s) / 256) as u8]
}

/// The byte stream of a run of samples: each sample's two bytes, in order.
pub open spec fn le_bytes(s: Seq<i16>) -> Seq<u8>
    decreases s.len(),
{
    if s.len() == 0 {
        Seq::empty()
    } else {
        le_bytes(s.drop_last()) + sample_bytes(s.last())
    }
}

/// Every sample takes exactly two bytes.
pub proof fn lemma_le_bytes_len(s: Seq<i16>)
    ensures
        le_bytes(s).len() == 2 * s.len(),
    decreases s.len(),
{
    if s.len() > 0 {
        lemma_le_bytes_len(s.drop_last());
    }
}

/// Framing two buffers written one after the other gives the bytes of the first,
/// unchanged, followed by the bytes of the second, unchanged.
pub proof fn lemma_le_bytes_concat(a: Seq<i16>, b: Seq<i16>)
    ensures
        le_bytes(a + b) == le_bytes(a) + le_bytes(b),
    decreases b.len(),
{
    if b.len() == 0 {
        assert(a + b =~= a);
        assert(le_bytes(a) + le_bytes(b) =~= le_bytes(a));
    } else {
        lemma_le_bytes_concat(a, b.drop_last());
        assert((a + b).drop_last() =~= a + b.drop_last());
        assert((a + b).last() == b.last());
        assert(le_bytes(a + b) =~= le_bytes(a) + le_bytes(b));
    }
}

/// The bytes that a pooled pipeline buffer receives for one block of samples
/// (signed 16-bit, little-endian).
pub fn samples_to_bytes(data: &[i16]) -> (r: Vec<u8>)
    requires
        data@.len() <= usize::MAX / 2,
    ensures
        r@ == le_bytes(data@),
{
    let mut r: Vec<u8> = Vec::with_capacity(data.len() * 2);
    let mut i: usize = 0;
    while i < data.len()
        invariant
            i <= data@.len(),
            r@ == le_bytes(data@.subrange(0, i as int)),
        decreases data@.len() - i,
    {
        let s: i16 = data[i];
        let bits: u32 = if s < 0 {
            (s as i32 + 65536) as u32
        } else {
            s as u32
        };
        r.push((bits % 256) as u8);
        r.push((bits / 256) as u8);
        proof {
            let next = data@.subrange(0, i + 1);
            assert(next.drop_last() =~= data@.subrange(0, i as int));
            assert(next.last() == s);
            assert(r@ =~= le_bytes(next));
        }
        i = i + 1;
    }
    assert(data@.subrange(0, data@.len() as int) =~= data@);
    r
}

} // verus!
