//! State-feedback controller vocabulary.
//!
//! The LQR law `u = -Kx` is a floating-point dot product; its error
//! vocabulary is shared here.
use vstd::prelude::*;

verus! {

#[derive(Debug, Clone, Copy, PartialEq, Eq, Structural)]
pub enum LqrConfigError {
    NonFiniteGain,
}

#[derive(Debug, Clone, Copy, PartialEq, Eq, Structural)]
pub enum LqrError {
    InvalidState,
    Numeric,
}

} // verus!
