//! Furuta pendulum dynamics vocabulary.
use vstd::prelude::*;

verus! {

#[derive(Debug, Clone, Copy, PartialEq, Eq, Structural)]
pub enum DynamicsError {
    InvalidParameters,
    NonFiniteState,
    NonFiniteInput,
    InvalidStep,
    SingularMassMatrix,
}

} // verus!
