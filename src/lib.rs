//! Per-operation control of the SSE floating-point environment.
//!
//! A [`Flags`] value encodes the control half of the MXCSR register (rounding
//! mode, flush-to-zero, exception masks); a [`Status`] value holds the set of
//! exceptions that one operation raised. Both are plain bit-encoded values
//! whose meaning is given by their views.

mod flags;
mod rounding;
mod status;

pub use flags::{encode, lemma_ftz_round_trip, lemma_rounding_round_trip, Flags, FlagsView, ROUND_MASK, FLUSH_ZERO, TRAPS_MASKED};
pub use rounding::{decode_rounding, rounding_bits, Rounding};
pub use status::{exception_bit, lemma_combine, lemma_single_flags, register_exceptions, Exception, Status, EXCEPT_FLAGS};

