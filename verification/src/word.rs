//! A 16-bit value stored as two independently addressable 8-bit lanes.

use vstd::prelude::*;

verus! {

/// High byte of a 16-bit value.
pub open spec fn hi(v: u16) -> u8 {
    (v / 256) as u8
}

/// Low byte of a 16-bit value.
pub open spec fn lo(v: u16) -> u8 {
    (v % 256) as u8
}

/// The 16-bit value whose high byte is `h` and low byte is `l`.
pub open spec fn combine(h: u8, l: u8) -> u16 {
    ((h as int) * 256 + (l as int)) as u16
}

/// Splitting a 16-bit value into bytes and recombining them round-trips,
/// in both directions.
pub proof fn lemma_combine_split(v: u16, h: u8, l: u8)
    ensures
        combine(hi(v), lo(v)) == v,
        hi(combine(h, l)) == h,
        lo(combine(h, l)) == l,
{
    assert(combine(hi(v), lo(v)) == v) by (nonlinear_arith);
    assert(hi(combine(h, l)) == h) by (nonlinear_arith);
    assert(lo(combine(h, l)) == l) by (nonlinear_arith);
}

/// Two 8-bit lanes forming one 16-bit register: field 0 is the high lane,
/// field 1 the low lane.
#[derive(Clone)]
pub struct Word(pub u8, pub u8);

impl Word {
    /// The combined 16-bit value of the two lanes.
    pub fn get16(&self) -> (v: u16)
        ensures
            v == combine(self.0, self.1),
    {
        (self.0 as u16) * 256 + (self.1 as u16)
    }

    /// Replace both lanes with the bytes of `v`.
    pub fn set16(&mut self, v: u16)
        ensures
            *final(self) == (Word(hi(v), lo(v))),
            final(self).0 == hi(v),
            final(self).1 == lo(v),
            combine(final(self).0, final(self).1) == v,
    {
        self.0 = (v / 256) as u8;
        self.1 = (v % 256) as u8;
        proof {
            lemma_combine_split(v, 0, 0);
        }
    }
}

} // verus!
