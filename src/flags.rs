use vstd::prelude::*;
use crate::rounding::{decode_rounding, lemma_decode_rounding, lemma_rounding_bits, rounding_bits, Rounding};

verus! {

/// The rounding-control field of the MXCSR register.
pub const ROUND_MASK: u32 = 0x6000;

/// The flush-to-zero bit of the MXCSR register.
pub const FLUSH_ZERO: u32 = 0x8000;

/// The six exception-mask bits of the MXCSR register, all set: no exception
/// traps, every one is only recorded in the status bits.
pub const TRAPS_MASKED: u32 = 0x1F80;

/// What a control configuration means: a rounding mode and whether subnormal
/// results are flushed to zero.
pub struct FlagsView {
    pub rounding: Rounding,
    pub ftz: bool,
}

impl FlagsView {
    /// The same configuration with the rounding mode replaced.
    pub open spec fn with_rounding(self, m: Rounding) -> FlagsView {
        FlagsView { rounding: m, ..self }
    }

    /// The same configuration with flush-to-zero set to `b`.
    pub open spec fn with_ftz(self, b: bool) -> FlagsView {
        FlagsView { ftz: b, ..self }
    }
}

/// The MXCSR control word that installs the configuration `v`: all exception
/// traps masked, the rounding-control field of `v.rounding`, and the
/// flush-to-zero bit when `v.ftz` holds. The status bits are clear.
pub open spec fn encode(v: FlagsView) -> u32 {
    TRAPS_MASKED | rounding_bits(v.rounding) | (if v.ftz {
        FLUSH_ZERO
    } else {
        0
    })
}

/// A control configuration for one operation, held as the MXCSR word that
/// installs it.
#[derive(Clone, Copy)]
pub struct Flags {
    inner: u32,
}

impl View for Flags {
    type V = FlagsView;

    closed spec fn view(&self) -> FlagsView {
        FlagsView { rounding: decode_rounding(self.inner), ftz: self.inner & FLUSH_ZERO != 0 }
    }
}

/// The word always installs exactly the configuration that it decodes to.
proof fn lemma_encode_view(w: u32)
    requires
        w & !0xE000u32 == TRAPS_MASKED,
    ensures
        w == encode(FlagsView { rounding: decode_rounding(w), ftz: w & FLUSH_ZERO != 0 }),
{
    lemma_decode_rounding(w);
    let rb = w & 0x6000;
    let fb: u32 = if w & FLUSH_ZERO != 0 {
        FLUSH_ZERO
    } else {
        0
    };
    assert(fb == w & 0x8000) by (bit_vector)
        requires
            fb == (if w & 0x8000 != 0 {
                0x8000u32
            } else {
                0u32
            }),
    ;
    assert(w == 0x1F80 | rb | fb) by (bit_vector)
        requires
            w & !0xE000u32 == 0x1F80,
            rb == w & 0x6000,
            fb == w & 0x8000,
    ;
}

impl Flags {
    #[verifier::type_invariant]
    spec fn wf(self) -> bool {
        self.inner & !0xE000u32 == TRAPS_MASKED
    }

    /// The default configuration: round to nearest, no flush to zero, all
    /// exception traps masked.
    pub fn new() -> (r: Self)
        ensures
            r@ == (FlagsView { rounding: Rounding::Nearest, ftz: false }),
    {
        let w = TRAPS_MASKED;
        assert(w & !0xE000u32 == 0x1F80u32 && w & 0x6000 == 0 && w & 0x8000 == 0) by (bit_vector)
            requires
                w == 0x1F80u32,
        ;
        Flags { inner: w }
    }

    /// This configuration with the rounding mode replaced.
    pub fn with_rounding(self, rounding: Rounding) -> (r: Self)
        ensures
            r@ == self@.with_rounding(rounding),
    {
        let mut f = self;
        f.set_rounding(rounding);
        f
    }

    /// This configuration with flush-to-zero set to `enabled`.
    pub fn with_ftz(self, enabled: bool) -> (r: Self)
        ensures
            r@ == self@.with_ftz(enabled),
    {
        let mut f = self;
        f.set_ftz(enabled);
        f
    }

    /// Replaces the rounding mode and leaves everything else as it was.
    pub fn set_rounding(&mut self, rounding: Rounding)
        ensures
            final(self)@ == old(self)@.with_rounding(rounding),
    {
        proof {
            use_type_invariant(&*self);
            lemma_rounding_bits(rounding);
        }
        let old_w = self.inner;
        let rb = rounding.bits();
        let w = (old_w & !ROUND_MASK) | rb;
        assert(w & !0xE000u32 == 0x1F80 && w & 0x6000 == rb && w & 0x8000 == old_w & 0x8000)
            by (bit_vector)
            requires
                old_w & !0xE000u32 == 0x1F80,
                rb & 0x6000 == rb,
                w == (old_w & !0x6000u32) | rb,
        ;
        self.inner = w;
    }

    /// The rounding mode of this configuration.
    pub fn rounding(self) -> (r: Rounding)
        ensures
            r == self@.rounding,
    {
        Rounding::decode(self.inner)
    }

    /// Sets whether subnormal results are flushed to zero, and leaves
    /// everything else as it was.
    pub fn set_ftz(&mut self, enabled: bool)
        ensures
            final(self)@ == old(self)@.with_ftz(enabled),
    {
        proof {
            use_type_invariant(&*self);
        }
        let old_w = self.inner;
        let fb: u32 = if enabled {
            FLUSH_ZERO
        } else {
            0
        };
        let w = (old_w & !FLUSH_ZERO) | fb;
        assert(w & !0xE000u32 == 0x1F80 && w & 0x6000 == old_w & 0x6000 && (w & 0x8000 != 0)
            == (fb != 0)) by (bit_vector)
            requires
                old_w & !0xE000u32 == 0x1F80,
                fb == 0x8000 || fb == 0,
                w == (old_w & !0x8000u32) | fb,
        ;
        self.inner = w;
    }

    /// Whether this configuration flushes subnormal results to zero.
    pub fn ftz(self) -> (r: bool)
        ensures
            r == self@.ftz,
    {
        self.inner & FLUSH_ZERO != 0
    }

    /// The MXCSR word to install for an operation under this configuration.
    pub fn control_word(self) -> (r: u32)
        ensures
            r == encode(self@),
    {
        proof {
            use_type_invariant(&self);
            lemma_encode_view(self.inner);
        }
        self.inner
    }
}

/// Setting the rounding mode and reading it back gives that mode; the
/// flush-to-zero policy and the exception masks stay as they were.
pub proof fn lemma_rounding_round_trip(f: Flags, m: Rounding)
    ensures
        f@.with_rounding(m).rounding == m,
        f@.with_rounding(m).ftz == f@.ftz,
        encode(f@.with_rounding(m)) & !ROUND_MASK == encode(f@) & !ROUND_MASK,
{
    let a = rounding_bits(m);
    let b = rounding_bits(f@.rounding);
    let z: u32 = if f@.ftz {
        FLUSH_ZERO
    } else {
        0
    };
    lemma_rounding_bits(m);
    lemma_rounding_bits(f@.rounding);
    assert((0x1F80u32 | a | z) & !0x6000u32 == (0x1F80u32 | b | z) & !0x6000u32) by (bit_vector)
        requires
            a & 0x6000 == a,
            b & 0x6000 == b,
    ;
}

/// Setting flush-to-zero and reading it back gives that setting; the rounding
/// mode and the exception masks stay as they were.
pub proof fn lemma_ftz_round_trip(f: Flags, b: bool)
    ensures
        f@.with_ftz(b).ftz == b,
        f@.with_ftz(b).rounding == f@.rounding,
        encode(f@.with_ftz(b)) & !FLUSH_ZERO == encode(f@) & !FLUSH_ZERO,
        encode(f@.with_ftz(b)) & TRAPS_MASKED == TRAPS_MASKED,
{
    let r = rounding_bits(f@.rounding);
    let y: u32 = if b {
        FLUSH_ZERO
    } else {
        0
    };
    let z: u32 = if f@.ftz {
        FLUSH_ZERO
    } else {
        0
    };
    lemma_rounding_bits(f@.rounding);
    assert((0x1F80u32 | r | y) & !0x8000u32 == (0x1F80u32 | r | z) & !0x8000u32 && (0x1F80u32 | r
        | y) & 0x1F80u32 == 0x1F80u32) by (bit_vector)
        requires
            r & 0x6000 == r,
            y == 0x8000 || y == 0,
            z == 0x8000 || z == 0,
    ;
}

impl Default for Flags {
    /// The same configuration as [`Flags::new`].
    fn default() -> (r: Self)
        ensures
            r@ == (FlagsView { rounding: Rounding::Nearest, ftz: false }),
    {
        Self::new()
    }
}

} // verus!
