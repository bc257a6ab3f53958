//! Special-function evaluation over IEEE-754 bit patterns: the sign of the
//! Gamma function, the Pochhammer (rising factorial) ratio, Chebyshev series
//! evaluation, and the modified Bessel function I0 with its scaled variant.
//!
//! Real values are carried as their raw bit patterns (`u64` for binary64,
//! `u32` for binary32). All classification, comparison and branching logic is
//! verified; correctly-rounded arithmetic goes through named, trusted
//! operations; transcendental values a caller must supply (exp, sqrt, powers,
//! log-Gamma) enter the contracts as plain arguments.

pub mod arith;
pub mod bessel;
pub mod bits32;
pub mod bits64;
pub mod chebyshev;
pub mod gamma;
pub mod poch;
pub mod poch32;

