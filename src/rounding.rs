use vstd::prelude::*;

verus! {

/// The four IEEE-754 rounding directions that the hardware offers.
#[derive(Clone, Copy, Debug, PartialEq, Eq, Structural)]
pub enum Rounding {
    /// Rounds towards zero.
    Zero,
    /// Rounds towards positive infinity.
    Up,
    /// Rounds towards negative infinity.
    Down,
    /// Rounds towards nearest, ties to even.
    Nearest,
}

/// The rounding-control field of the MXCSR register (bits 13 and 14) that
/// selects `m`.
pub open spec fn rounding_bits(m: Rounding) -> u32 {
    match m {
        Rounding::Zero => 0x6000,
        Rounding::Up => 0x4000,
        Rounding::Down => 0x2000,
        Rounding::Nearest => 0,
    }
}

/// The mode that the rounding-control field of the word `w` selects. Each of
/// the four bit patterns names one mode.
pub open spec fn decode_rounding(w: u32) -> Rounding {
    let b = w & 0x6000;
    if b == 0x6000 {
        Rounding::Zero
    } else if b == 0x4000 {
        Rounding::Up
    } else if b == 0x2000 {
        Rounding::Down
    } else {
        Rounding::Nearest
    }
}

/// The rounding-control field holds no bit outside bits 13 and 14, and
/// decoding it gives back the mode.
pub proof fn lemma_rounding_bits(m: Rounding)
    ensures
        rounding_bits(m) & 0x6000 == rounding_bits(m),
        decode_rounding(rounding_bits(m)) == m,
{
    assert(0x6000u32 & 0x6000 == 0x6000u32) by (bit_vector);
    assert(0x4000u32 & 0x6000 == 0x4000u32) by (bit_vector);
    assert(0x2000u32 & 0x6000 == 0x2000u32) by (bit_vector);
    assert(0u32 & 0x6000 == 0u32) by (bit_vector);
}

/// Every word's rounding-control field is the field of the mode it decodes to.
pub proof fn lemma_decode_rounding(w: u32)
    ensures
        rounding_bits(decode_rounding(w)) == w & 0x6000,
{
    let b = w & 0x6000;
    assert(b == 0x6000 || b == 0x4000 || b == 0x2000 || b == 0) by (bit_vector)
        requires
            b == w & 0x6000,
    ;
}

impl Rounding {
    /// The rounding-control bits that select this mode.
    pub(crate) fn bits(self) -> (r: u32)
        ensures
            r == rounding_bits(self),
    {
        match self {
            Rounding::Zero => 0x6000,
            Rounding::Up => 0x4000,
            Rounding::Down => 0x2000,
            Rounding::Nearest => 0,
        }
    }

    /// The mode that the rounding-control field of `w` selects.
    pub(crate) fn decode(w: u32) -> (r: Rounding)
        ensures
            r == decode_rounding(w),
    {
        let b = w & 0x6000;
        if b == 0x6000 {
            Rounding::Zero
        } else if b == 0x4000 {
            Rounding::Up
        } else if b == 0x2000 {
            Rounding::Down
        } else {
            Rounding::Nearest
        }
    }
}

} // verus!
