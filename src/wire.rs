use vstd::prelude::*;

verus! {

/// The little-endian bytes of a 16-bit value.
pub open spec fn le16(v: u16) -> Seq<u8> {
    seq![(v % 256) as u8, (v / 256) as u8]
}

/// The 16-bit value stored little-endian at `at`.
pub open spec fn read_le16(b: Seq<u8>, at: int) -> u16 {
    (b[at] + 256 * b[at + 1]) as u16
}

pub fn push_le16(out: &mut Vec<u8>, v: u16)
    ensures
        final(out)@ == old(out)@ + le16(v),
{
    out.push((v % 256) as u8);
    out.push((v / 256) as u8);
    assert(out@ =~= old(out)@ + le16(v));
}

/// Reading back the bytes of a value gives the value.
pub proof fn lemma_le16_round_trip(v: u16)
    ensures
        read_le16(le16(v), 0) == v,
{
    assert(v % 256 + 256 * (v / 256) == v) by (nonlinear_arith);
}

} // verus!
