//! Constraint generation for aggregated KZG commitment checks.
//!
//! The circuit binds a public statement (random scalar challenges, the
//! claimed aggregate point and an aggregate scalar) and a private list of
//! commitment points to a rank-1 constraint system, and enforces that the
//! aggregate point is the scalar-weighted sum of the commitment points.
//!
//! - `step` fixes the steps of the circuit and their order.
//! - `machine` decides, step by step, what a generation pass does next and
//!   how it ends.
//! - `backend` is the boundary to the arkworks gadgets for BLS12-377.
//! - `system` holds a constraint system and carries single steps out on it.
//! - `pass` says which gadget a step calls on which values.
//! - `circuit` holds the statement, the witness and the generation itself.
//! - `relation` and `meaning` say what the emitted constraints enforce.

pub mod backend;
pub mod circuit;
pub mod error;
pub mod machine;
pub mod meaning;
pub mod pass;
pub mod relation;
pub mod step;
pub mod system;

pub use backend::{Point, Scalar};
pub use circuit::{AggKZGCircuit, AggKZGInstances, AggKZGWitness};
pub use error::CircuitError;
pub use machine::Synthesis;
pub use step::{Phase, Step};
pub use system::ConstraintSystem;
