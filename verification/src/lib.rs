//! A 32-bit logarithmic number system (LNS) value type.
//!
//! A value is a single 32-bit word: an outer sign bit and a 31-bit
//! two's-complement fixed-point field holding the base-2 logarithm of the
//! magnitude. Multiplication, division and square root reduce to integer
//! arithmetic on the log field; two reserved codes stand for the real value
//! zero and for "not a real" (NaR), the propagating error sentinel.

pub mod l32;
pub mod laws;

pub use l32::L32;
