use vstd::prelude::*;

verus! {

/// Why circuit generation stopped. None of these is retried: generation is
/// deterministic, so a second attempt would fail the same way.
#[derive(Clone, Copy, Debug, PartialEq, Eq, Structural)]
pub enum CircuitError {
    /// A declared variable could not be bound to the constraint system.
    AllocationFailure,
    /// The statement and the witness disagree on the number of terms.
    PreconditionViolation,
    /// The constraint system rejected a gadget or a constraint.
    ConstraintSynthesisFailure,
}

} // verus!
