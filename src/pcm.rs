use vstd::prelude::*;

verus! {

/// The two little-endian bytes of a 16-bit sample.
pub open spec fn le_pair(s: i16) -> Seq<u8> {
    let u = s as u16;
    seq![(u % 256) as u8, (u / 256) as u8]
}

/// Samples as consecutive little-endian byte pairs.
pub open spec fn le_bytes(samples: Seq<i16>) -> Seq<u8>
    decreases samples.len(),
{
    if samples.len() == 0 {
        Seq::empty()
    } else {
        le_bytes(samples.drop_last()) + le_pair(samples.last())
    }
}

/// Appends each sample of `samples` to `out` as a little-endian byte pair.
pub fn append_le(out: &mut Vec<u8>, samples: &[i16])
    ensures
        final(out)@ == old(out)@ + le_bytes(samples@),
{
    let ghost before = out@;
    let mut i: usize = 0;
    while i < samples.len()
        invariant
            i <= samples@.len(),
            out@ == before + le_bytes(samples@.take(i as int)),
        decreases samples@.len() - i,
    {
        let u = samples[i] as u16;
        out.push((u % 256) as u8);
        out.push((u / 256) as u8);
        proof {
            assert(samples@.take(i + 1int).drop_last() =~= samples@.take(i as int));
        }
        assert(out@ =~= before + le_bytes(samples@.take(i + 1int)));
        i = i + 1;
    }
    assert(samples@.take(i as int) =~= samples@);
}

} // verus!
