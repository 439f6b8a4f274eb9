//! The boundary to the arkworks gadget library, fixed to the BLS12-377 `G1`
//! group with constraints over its base field.
//!
//! The types of this file are opaque to the verifier, and the functions
//! marked `external_body` are trusted: their contracts restate what the
//! arkworks sources do and are not proved. The proofs in the rest of the
//! crate rest on them.
//!
//! A gadget changes the constraint system that its arguments belong to. So
//! every function that calls one takes that system as `cs`, and its contract
//! says what becomes of it. What a call returns and what it leaves of the
//! system are named rather than spelled out: the names stand for the
//! arkworks functions, which compute both from their arguments alone.

use vstd::prelude::*;
use ark_bls12_377::constraints::G1Var;
use ark_bls12_377::{Fq, G1Affine, G1Projective};
use ark_r1cs_std::alloc::AllocVar;
use ark_r1cs_std::boolean::Boolean;
use ark_r1cs_std::convert::ToBitsGadget;
use ark_r1cs_std::eq::EqGadget;
use ark_r1cs_std::fields::fp::FpVar;
use ark_r1cs_std::groups::CurveVar;
use ark_relations::r1cs::{ConstraintSystem, ConstraintSystemRef, SynthesisError};
use ark_serialize::CanonicalDeserialize;

verus! {

/// The error type of `ark_relations`, carried through without being read.
#[verifier::external_type_specification]
#[verifier::external_body]
pub struct ExSynthesisError(SynthesisError);

/// An element of the base field of BLS12-377 (`ark_bls12_377::Fq`).
#[verifier::external_body]
#[derive(Debug)]
pub struct Scalar {
    inner: Fq,
}

/// A point of the prime-order group `G1` of BLS12-377, in affine form
/// (`ark_bls12_377::G1Affine`).
#[verifier::external_body]
#[derive(Debug)]
pub struct Point {
    inner: G1Affine,
}

/// A field element bound to a constraint system (`FpVar<Fq>`).
#[verifier::external_body]
pub struct ScalarVar {
    inner: FpVar<Fq>,
}

/// A group element bound to a constraint system (`G1Var`).
#[verifier::external_body]
pub struct PointVar {
    inner: G1Var,
}

/// The little-endian bits of a bound field element (`Vec<Boolean<Fq>>`).
#[verifier::external_body]
pub struct ScalarBits {
    inner: Vec<Boolean<Fq>>,
}

/// A handle to a rank-1 constraint system (`ConstraintSystemRef<Fq>`). It
/// refers to a system, or to none.
#[verifier::external_body]
pub struct CsHandle {
    inner: ConstraintSystemRef<Fq>,
}

impl Clone for Scalar {
    /// Copies the field element; `Fq` is a `Copy` type.
    #[verifier::external_body]
    fn clone(&self) -> (r: Self)
        ensures
            r == *self,
    {
        Scalar { inner: self.inner }
    }
}

impl Clone for Point {
    /// Copies the point; `G1Affine` is a `Copy` type.
    #[verifier::external_body]
    fn clone(&self) -> (r: Self)
        ensures
            r == *self,
    {
        Point { inner: self.inner }
    }
}

/// The field element that `Fq::deserialize_compressed` reads from `bytes`,
/// or `None` where it reports an error.
pub uninterp spec fn decoded_scalar(bytes: Seq<u8>) -> Option<Scalar>;

/// The point that `G1Affine::deserialize_compressed` reads from `bytes`, or
/// `None` where it reports an error.
pub uninterp spec fn decoded_point(bytes: Seq<u8>) -> Option<Point>;

/// The number of instance variables of the system, as
/// `ConstraintSystemRef::num_instance_variables` reports it.
pub uninterp spec fn instance_count(cs: CsHandle) -> nat;

/// The number of witness variables of the system, as
/// `ConstraintSystemRef::num_witness_variables` reports it.
pub uninterp spec fn witness_count(cs: CsHandle) -> nat;

/// The number of constraints of the system, as
/// `ConstraintSystemRef::num_constraints` reports it.
pub uninterp spec fn constraint_count(cs: CsHandle) -> nat;

/// What `ConstraintSystemRef::is_satisfied` answers for the system `cs`:
/// whether the values bound so far meet every constraint, or `None` where
/// the call reports an error.
pub uninterp spec fn satisfaction(cs: CsHandle) -> Option<bool>;

/// Whether `cs` refers to a system, as opposed to
/// `ConstraintSystemRef::None`.
pub uninterp spec fn attached(cs: CsHandle) -> bool;

/// Whether `var` can be used with `cs`: it is a constant, or a variable of
/// the system that `cs` refers to.
pub uninterp spec fn scalar_in(cs: CsHandle, var: ScalarVar) -> bool;

/// Whether `var` can be used with `cs`: it is a constant, or made of
/// variables of the system that `cs` refers to.
pub uninterp spec fn point_in(cs: CsHandle, var: PointVar) -> bool;

/// Whether `bits` can be used with `cs`: each bit is a constant or a variable
/// of the system that `cs` refers to.
pub uninterp spec fn bits_in(cs: CsHandle, bits: ScalarBits) -> bool;

/// What `FpVar::new_input` with `value` returns on the system `cs`, and the
/// system it leaves.
pub uninterp spec fn input_scalar_effect(cs: CsHandle, value: Scalar) -> (
    Result<ScalarVar, SynthesisError>,
    CsHandle,
);

/// What `G1Var::new_input` with `value` returns on the system `cs`, and the
/// system it leaves.
pub uninterp spec fn input_point_effect(cs: CsHandle, value: Point) -> (
    Result<PointVar, SynthesisError>,
    CsHandle,
);

/// What `G1Var::new_witness` with `value` returns on the system `cs`, and the
/// system it leaves.
pub uninterp spec fn witness_point_effect(cs: CsHandle, value: Point) -> (
    Result<PointVar, SynthesisError>,
    CsHandle,
);

/// The constant that `G1Var::zero` returns for use with the system `cs`.
pub uninterp spec fn identity_variable(cs: CsHandle) -> PointVar;

/// What `FpVar::to_bits_le` returns for `scalar` on the system `cs`, and the
/// system it leaves.
pub uninterp spec fn scalar_bits_effect(cs: CsHandle, scalar: ScalarVar) -> (
    Result<ScalarBits, SynthesisError>,
    CsHandle,
);

/// What `G1Var::scalar_mul_le` returns for `point` and `bits` on the system
/// `cs`, and the system it leaves.
pub uninterp spec fn scale_point_effect(cs: CsHandle, point: PointVar, bits: ScalarBits) -> (
    Result<PointVar, SynthesisError>,
    CsHandle,
);

/// What the `+` of `G1Var` returns for `left` and `right` on the system `cs`,
/// and the system it leaves.
pub uninterp spec fn add_points_effect(cs: CsHandle, left: PointVar, right: PointVar) -> (
    PointVar,
    CsHandle,
);

/// What `G1Var::enforce_equal` returns for `left` and `right` on the system
/// `cs`, and the system it leaves.
pub uninterp spec fn enforce_equal_effect(cs: CsHandle, left: PointVar, right: PointVar) -> (
    Result<(), SynthesisError>,
    CsHandle,
);

/// Whether `after` refers to the same system as `before`, at the same or a
/// later time: whatever could be used with `before` can be used with `after`.
pub open spec fn same_system(before: CsHandle, after: CsHandle) -> bool {
    &&& forall|var: ScalarVar| #[trigger] scalar_in(before, var) ==> scalar_in(after, var)
    &&& forall|var: PointVar| #[trigger] point_in(before, var) ==> point_in(after, var)
    &&& forall|bits: ScalarBits| #[trigger] bits_in(before, bits) ==> bits_in(after, bits)
}

/// Calls `Fq::deserialize_compressed` on `bytes`. The result depends on the
/// bytes alone; an error of the decoder becomes `None`.
#[verifier::external_body]
fn decode_scalar(bytes: &[u8]) -> (r: Option<Scalar>)
    ensures
        r == decoded_scalar(bytes@),
{
    Fq::deserialize_compressed(bytes).ok().map(|inner| Scalar { inner })
}

/// Calls `G1Affine::deserialize_compressed` on `bytes`, which also checks
/// that the point lies on the curve and in the prime-order subgroup. The
/// result depends on the bytes alone; an error of the decoder becomes `None`.
#[verifier::external_body]
fn decode_point(bytes: &[u8]) -> (r: Option<Point>)
    ensures
        r == decoded_point(bytes@),
{
    G1Affine::deserialize_compressed(bytes).ok().map(|inner| Point { inner })
}

impl Scalar {
    /// Reads a field element from its canonical compressed encoding, or
    /// returns `None` where the bytes are not one.
    pub fn from_bytes(bytes: &[u8]) -> (r: Option<Scalar>)
        ensures
            r == decoded_scalar(bytes@),
    {
        decode_scalar(bytes)
    }
}

impl Point {
    /// Reads a point from its canonical compressed encoding, or returns
    /// `None` where the bytes are not the encoding of a point of the group.
    pub fn from_bytes(bytes: &[u8]) -> (r: Option<Point>)
        ensures
            r == decoded_point(bytes@),
    {
        decode_point(bytes)
    }
}

/// Calls `ConstraintSystem::new_ref`: a fresh system in proving mode, which
/// holds the constant one as its only instance variable, no witness and no
/// constraint.
#[verifier::external_body]
pub(crate) fn open_system() -> (cs: CsHandle)
    ensures
        attached(cs),
        instance_count(cs) == 1,
        witness_count(cs) == 0,
        constraint_count(cs) == 0,
{
    CsHandle { inner: ConstraintSystem::<Fq>::new_ref() }
}

/// Makes `ConstraintSystemRef::None`, the handle that refers to no system.
/// Its counters read zero.
#[verifier::external_body]
pub(crate) fn no_system() -> (cs: CsHandle)
    ensures
        !attached(cs),
        instance_count(cs) == 0,
        witness_count(cs) == 0,
        constraint_count(cs) == 0,
{
    CsHandle { inner: ConstraintSystemRef::None }
}

/// Calls `ConstraintSystemRef::num_instance_variables`.
#[verifier::external_body]
pub(crate) fn count_instance_variables(cs: &CsHandle) -> (r: usize)
    ensures
        r == instance_count(*cs),
{
    cs.inner.num_instance_variables()
}

/// Calls `ConstraintSystemRef::num_witness_variables`.
#[verifier::external_body]
pub(crate) fn count_witness_variables(cs: &CsHandle) -> (r: usize)
    ensures
        r == witness_count(*cs),
{
    cs.inner.num_witness_variables()
}

/// Calls `ConstraintSystemRef::num_constraints`.
#[verifier::external_body]
pub(crate) fn count_constraints(cs: &CsHandle) -> (r: usize)
    ensures
        r == constraint_count(*cs),
{
    cs.inner.num_constraints()
}

/// Calls `ConstraintSystemRef::is_satisfied`: whether the current assignment
/// meets every constraint. An error of the call becomes `None`. The answer
/// depends on the system alone; a handle that refers to no system gets an
/// error (`SynthesisError::AssignmentMissing`).
#[verifier::external_body]
pub(crate) fn check_satisfied(cs: &CsHandle) -> (r: Option<bool>)
    ensures
        r == satisfaction(*cs),
        !attached(*cs) ==> r is None,
{
    cs.inner.is_satisfied().ok()
}

/// Calls `FpVar::new_input` with `value`. What comes back and what becomes
/// of the system depend on the system and the value alone. On a handle that
/// refers to no system the call fails (`SynthesisError::MissingCS`). Where
/// it succeeds, the new variable belongs to the system, which has one more
/// instance variable and no other counter moved: the call reaches
/// `new_input_variable` once and emits no constraint.
#[verifier::external_body]
pub(crate) fn input_scalar(cs: &mut CsHandle, value: &Scalar) -> (r: Result<
    ScalarVar,
    SynthesisError,
>)
    ensures
        (r, *final(cs)) == input_scalar_effect(*old(cs), *value),
        same_system(*old(cs), *final(cs)),
        !attached(*old(cs)) ==> r is Err,
        r matches Ok(var) ==> scalar_in(*final(cs), var),
        r is Ok ==> instance_count(*final(cs)) == instance_count(*old(cs)) + 1,
        r is Ok ==> witness_count(*final(cs)) == witness_count(*old(cs)),
        r is Ok ==> constraint_count(*final(cs)) == constraint_count(*old(cs)),
{
    FpVar::<Fq>::new_input(cs.inner.clone(), || Ok(value.inner)).map(|inner| ScalarVar { inner })
}

/// Calls `G1Var::new_input` with `value`. What comes back and what becomes
/// of the system depend on the system and the value alone. On a handle that
/// refers to no system the call fails, at its first coordinate. Where it
/// succeeds, the new variable belongs to the system, which has three more
/// instance variables, the projective coordinates of the point; the curve
/// check that follows adds witnesses and constraints only.
#[verifier::external_body]
pub(crate) fn input_point(cs: &mut CsHandle, value: &Point) -> (r: Result<
    PointVar,
    SynthesisError,
>)
    ensures
        (r, *final(cs)) == input_point_effect(*old(cs), *value),
        same_system(*old(cs), *final(cs)),
        !attached(*old(cs)) ==> r is Err,
        r matches Ok(var) ==> point_in(*final(cs), var),
        r is Ok ==> instance_count(*final(cs)) == instance_count(*old(cs)) + 3,
        r is Ok ==> witness_count(*final(cs)) >= witness_count(*old(cs)),
        r is Ok ==> constraint_count(*final(cs)) >= constraint_count(*old(cs)),
{
    <G1Var as AllocVar<G1Affine, Fq>>::new_input(cs.inner.clone(), || Ok(value.inner)).map(
        |inner| PointVar { inner },
    )
}

/// Calls `G1Var::new_witness` with `value`. What comes back and what becomes
/// of the system depend on the system and the value alone. Where the call
/// succeeds, the new variable belongs to the system, whose number of
/// instance variables is as before; the coordinates and the subgroup check
/// add witnesses and constraints only.
#[verifier::external_body]
pub(crate) fn witness_point(cs: &mut CsHandle, value: &Point) -> (r: Result<
    PointVar,
    SynthesisError,
>)
    ensures
        (r, *final(cs)) == witness_point_effect(*old(cs), *value),
        same_system(*old(cs), *final(cs)),
        r matches Ok(var) ==> point_in(*final(cs), var),
        r is Ok ==> instance_count(*final(cs)) == instance_count(*old(cs)),
        r is Ok ==> witness_count(*final(cs)) >= witness_count(*old(cs)) + 3,
        r is Ok ==> constraint_count(*final(cs)) >= constraint_count(*old(cs)),
{
    <G1Var as AllocVar<G1Affine, Fq>>::new_witness(cs.inner.clone(), || Ok(value.inner)).map(
        |inner| PointVar { inner },
    )
}

/// Calls `G1Var::zero`: the identity of the group as a constant, which binds
/// no variable and can be used with `cs` as with any system.
#[allow(unused_variables)]
#[verifier::external_body]
pub(crate) fn identity_point(cs: &CsHandle) -> (r: PointVar)
    ensures
        r == identity_variable(*cs),
        point_in(*cs, r),
{
    PointVar { inner: <G1Var as CurveVar<G1Projective, Fq>>::zero() }
}

/// Calls `FpVar::to_bits_le` on `scalar`, which reaches the system through
/// the variable. What comes back and what becomes of the system depend on
/// the system and the variable alone. The gadget adds witnesses and
/// constraints only, and its bits belong to the system.
#[allow(unused_variables)]
#[verifier::external_body]
pub(crate) fn scalar_bits(cs: &mut CsHandle, scalar: &ScalarVar) -> (r: Result<
    ScalarBits,
    SynthesisError,
>)
    requires
        scalar_in(*old(cs), *scalar),
    ensures
        (r, *final(cs)) == scalar_bits_effect(*old(cs), *scalar),
        same_system(*old(cs), *final(cs)),
        r matches Ok(bits) ==> bits_in(*final(cs), bits),
        instance_count(*final(cs)) == instance_count(*old(cs)),
        witness_count(*final(cs)) >= witness_count(*old(cs)),
        constraint_count(*final(cs)) >= constraint_count(*old(cs)),
{
    scalar.inner.to_bits_le().map(|inner| ScalarBits { inner })
}

/// Calls `G1Var::scalar_mul_le` on `point` with `bits`, which reaches the
/// system through them. What comes back and what becomes of the system
/// depend on the system and the two arguments alone. The gadget adds
/// witnesses and constraints only, and its result belongs to the system.
#[allow(unused_variables)]
#[verifier::external_body]
pub(crate) fn scale_point(cs: &mut CsHandle, point: &PointVar, bits: &ScalarBits) -> (r: Result<
    PointVar,
    SynthesisError,
>)
    requires
        point_in(*old(cs), *point),
        bits_in(*old(cs), *bits),
    ensures
        (r, *final(cs)) == scale_point_effect(*old(cs), *point, *bits),
        same_system(*old(cs), *final(cs)),
        r matches Ok(var) ==> point_in(*final(cs), var),
        instance_count(*final(cs)) == instance_count(*old(cs)),
        witness_count(*final(cs)) >= witness_count(*old(cs)),
        constraint_count(*final(cs)) >= constraint_count(*old(cs)),
{
    point.inner.scalar_mul_le(bits.inner.iter()).map(|inner| PointVar { inner })
}

/// Adds `left` and `right` with the `+` of `G1Var`, which reaches the system
/// through them. What comes back and what becomes of the system depend on
/// the system and the two arguments alone. The gadget adds witnesses and
/// constraints only, and its result belongs to the system.
#[allow(unused_variables)]
#[verifier::external_body]
pub(crate) fn add_points(cs: &mut CsHandle, left: &PointVar, right: &PointVar) -> (r: PointVar)
    requires
        point_in(*old(cs), *left),
        point_in(*old(cs), *right),
    ensures
        (r, *final(cs)) == add_points_effect(*old(cs), *left, *right),
        same_system(*old(cs), *final(cs)),
        point_in(*final(cs), r),
        instance_count(*final(cs)) == instance_count(*old(cs)),
        witness_count(*final(cs)) >= witness_count(*old(cs)),
        constraint_count(*final(cs)) >= constraint_count(*old(cs)),
{
    PointVar { inner: &left.inner + &right.inner }
}

/// Calls `G1Var::enforce_equal` on `left` and `right`, which reaches the
/// system through them. What comes back and what becomes of the system
/// depend on the system and the two arguments alone. The gadget adds
/// witnesses and constraints only.
#[allow(unused_variables)]
#[verifier::external_body]
pub(crate) fn enforce_equal_points(cs: &mut CsHandle, left: &PointVar, right: &PointVar) -> (r:
    Result<(), SynthesisError>)
    requires
        point_in(*old(cs), *left),
        point_in(*old(cs), *right),
    ensures
        (r, *final(cs)) == enforce_equal_effect(*old(cs), *left, *right),
        same_system(*old(cs), *final(cs)),
        instance_count(*final(cs)) == instance_count(*old(cs)),
        witness_count(*final(cs)) >= witness_count(*old(cs)),
        constraint_count(*final(cs)) >= constraint_count(*old(cs)),
{
    left.inner.enforce_equal(&right.inner)
}

} // verus!
