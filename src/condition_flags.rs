use vstd::prelude::*;

verus! {

/// The four condition flags of the 8080 that this core models. The auxiliary
/// carry is left out.
#[derive(Debug, Clone, Copy, PartialEq, Eq, Structural)]
pub struct ConditionFlags {
    pub zero: bool,
    pub sign: bool,
    pub parity: bool,
    pub carry: bool,
}

impl ConditionFlags {
    pub fn new() -> (r: Self)
        ensures
            !r.zero && !r.sign && !r.parity && !r.carry,
    {
        Self { zero: false, sign: false, parity: false, carry: false }
    }
}

/// How many of the eight bits of `b` are set.
pub open spec fn count_ones(b: u8) -> nat {
    ((b & 1) + ((b >> 1) & 1) + ((b >> 2) & 1) + ((b >> 3) & 1) + ((b >> 4) & 1) + ((b >> 5) & 1)
        + ((b >> 6) & 1) + ((b >> 7) & 1)) as nat
}

/// Whether `b` has an even number of set bits: what the parity flag records.
pub open spec fn even_parity(b: u8) -> bool {
    count_ones(b) % 2 == 0
}

/// Even parity of a byte, looked up in a 16-entry table of nibble parities
/// after folding the high nibble onto the low one.
pub fn parity(a: u8) -> (r: bool)
    ensures
        r == even_parity(a),
{
    let folded: u8 = (a ^ (a >> 4)) & 0x0F;
    assert(folded < 16) by (bit_vector)
        requires
            folded == (a ^ (a >> 4)) & 0x0F,
    ;
    assert(((0x6996u16 >> (((a ^ (a >> 4)) & 0x0F) as u16)) & 1 == 0) == (((a & 1) + ((a >> 1)
        & 1) + ((a >> 2) & 1) + ((a >> 3) & 1) + ((a >> 4) & 1) + ((a >> 5) & 1) + ((a >> 6) & 1)
        + ((a >> 7) & 1)) % 2 == 0)) by (bit_vector);
    (0x6996u16 >> (folded as u16)) & 1 == 0
}

} // verus!
