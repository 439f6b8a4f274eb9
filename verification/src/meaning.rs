//! What a generation pass enforces, if the gadgets compute what their
//! documentation says.
//!
//! The contracts of the gadget library say which call is made on which
//! arguments, not what the call computes. This file names that assumption,
//! `gadgets_compute`, and proves from it that the one equality a pass
//! enforces is between the weighted sum of the witness points and the
//! aggregate point of the statement.

use vstd::prelude::*;
use crate::backend::{
    add_points_effect, enforce_equal_effect, identity_variable, input_point_effect,
    input_scalar_effect, scalar_bits_effect, scale_point_effect, witness_point_effect, CsHandle,
    Point, PointVar, Scalar, ScalarBits, ScalarVar,
};
use crate::circuit::{AggKZGCircuit, AggKZGInstances, AggKZGWitness};
use crate::pass::{pass_after, PassState};
use crate::relation::{accepts, weighted_sum, Assignment, GroupModel};
use crate::step::step_count;
use crate::system::witness_points;

verus! {

/// A reading of the gadget variables: the value that each stands for.
pub struct Reading {
    pub scalar_of: spec_fn(ScalarVar) -> Scalar,
    pub bits_of: spec_fn(ScalarBits) -> Scalar,
    pub point_of: spec_fn(PointVar) -> Point,
}

/// Whether, under `reading`, every gadget computes in `group` what its
/// documentation says: an allocated variable stands for the value it was
/// given, the identity constant for the identity, the bits of a scalar for
/// that scalar, a scalar multiple for the product and a sum for the sum.
pub open spec fn gadgets_compute(group: GroupModel<Scalar, Point>, reading: Reading) -> bool {
    &&& forall|cs: CsHandle, value: Scalar|
        (#[trigger] input_scalar_effect(cs, value)).0 matches Ok(var) ==> (reading.scalar_of)(
            var,
        ) == value
    &&& forall|cs: CsHandle, value: Point|
        (#[trigger] input_point_effect(cs, value)).0 matches Ok(var) ==> (reading.point_of)(var)
            == value
    &&& forall|cs: CsHandle, value: Point|
        (#[trigger] witness_point_effect(cs, value)).0 matches Ok(var) ==> (reading.point_of)(
            var,
        ) == value
    &&& forall|cs: CsHandle|
        (reading.point_of)(#[trigger] identity_variable(cs)) == group.identity
    &&& forall|cs: CsHandle, scalar: ScalarVar|
        (#[trigger] scalar_bits_effect(cs, scalar)).0 matches Ok(bits) ==> (reading.bits_of)(
            bits,
        ) == (reading.scalar_of)(scalar)
    &&& forall|cs: CsHandle, point: PointVar, bits: ScalarBits|
        (#[trigger] scale_point_effect(cs, point, bits)).0 matches Ok(var) ==> (
        reading.point_of)(var) == (group.scale)(
            (reading.bits_of)(bits),
            (reading.point_of)(point),
        )
    &&& forall|cs: CsHandle, left: PointVar, right: PointVar|
        (reading.point_of)((#[trigger] add_points_effect(cs, left, right)).0) == (group.add)(
            (reading.point_of)(left),
            (reading.point_of)(right),
        )
}

/// The number of terms that the first `k` steps of a circuit with `n` terms
/// have added to the accumulator.
pub open spec fn terms_added(n: nat, k: nat) -> nat {
    if k <= 2 * n + 3 {
        0
    } else if k <= 3 * n + 3 {
        (k - 2 * n - 3) as nat
    } else {
        n
    }
}

/// Whether `state` holds what the first `k` steps of the circuit bind and
/// compute: each variable stands for the value of the statement or of the
/// witness at its index, and the accumulator for the sum of the terms added
/// so far.
pub open spec fn tracks(
    group: GroupModel<Scalar, Point>,
    reading: Reading,
    instance: AggKZGInstances,
    witness: AggKZGWitness,
    state: PassState,
    k: nat,
) -> bool {
    let n = instance.random_scalars.len() as nat;
    &&& state.performed == k
    &&& state.scalars.len() == if k <= n { k } else { n }
    &&& forall|i: int|
        0 <= i < state.scalars.len() ==> (reading.scalar_of)(#[trigger] state.scalars[i])
            == instance.random_scalars@[i]
    &&& k > n ==> state.aggregated_point is Some && (reading.point_of)(
        state.aggregated_point->Some_0,
    ) == instance.y
    &&& state.points.len() == witness_points(n, k)
    &&& forall|i: int|
        0 <= i < state.points.len() ==> (reading.point_of)(#[trigger] state.points[i])
            == witness.group_points@[i]
    &&& k > 2 * n + 2 ==> state.accumulator is Some && (reading.point_of)(
        state.accumulator->Some_0,
    ) == weighted_sum(group, instance.random_scalars@, witness.group_points@, terms_added(n, k))
}

/// As long as no step has failed, the variables of a pass stand for the
/// values of the statement and of the witness, and the accumulator for the
/// weighted sum of the terms added so far.
pub proof fn lemma_pass_tracks_the_weighted_sum(
    group: GroupModel<Scalar, Point>,
    reading: Reading,
    system: CsHandle,
    instance: AggKZGInstances,
    witness: AggKZGWitness,
    k: nat,
)
    requires
        gadgets_compute(group, reading),
        instance.random_scalars.len() == witness.group_points.len(),
        k <= step_count(instance.random_scalars.len() as nat),
        !pass_after(system, instance, witness, k).failed,
    ensures
        tracks(group, reading, instance, witness, pass_after(system, instance, witness, k), k),
    decreases k,
{
    let n = instance.random_scalars.len() as nat;
    if k > 0 {
        let j = (k - 1) as nat;
        lemma_pass_tracks_the_weighted_sum(group, reading, system, instance, witness, j);
        crate::step::lemma_step_at_inverts_position(n, j);
    }
}

/// What the last step of a pass enforces, if the gadgets compute what their
/// documentation says: where no step fails, the pass ends with one call of
/// the equality gadget, on a variable that stands for the weighted sum of
/// the witness points and a variable that stands for the aggregate point.
/// By `lemma_accepts_exactly_the_weighted_sum` the two are equal exactly for
/// the statements that the circuit is meant to accept.
pub proof fn lemma_pass_enforces_the_relation(
    group: GroupModel<Scalar, Point>,
    reading: Reading,
    circuit: AggKZGCircuit,
    system: CsHandle,
) -> (enforced: (CsHandle, PointVar, PointVar))
    requires
        gadgets_compute(group, reading),
        circuit.balanced(),
        !circuit.pass(system).failed,
    ensures
        circuit.pass(system).system == enforce_equal_effect(
            enforced.0,
            enforced.1,
            enforced.2,
        ).1,
        enforce_equal_effect(enforced.0, enforced.1, enforced.2).0 is Ok,
        (reading.point_of)(enforced.1) == weighted_sum(
            group,
            circuit.instance.random_scalars@,
            circuit.witness.group_points@,
            circuit.terms(),
        ),
        (reading.point_of)(enforced.2) == circuit.instance.y,
        (reading.point_of)(enforced.1) == (reading.point_of)(enforced.2) <==> accepts(
            group,
            Assignment {
                random_scalars: circuit.instance.random_scalars@,
                aggregated_point: circuit.instance.y,
                aggregate_scalar: circuit.instance.commitments,
                group_points: circuit.witness.group_points@,
            },
        ),
{
    let n = circuit.terms();
    let last = (step_count(n) - 1) as nat;
    let before = pass_after(system, circuit.instance, circuit.witness, last);
    lemma_pass_tracks_the_weighted_sum(
        group,
        reading,
        system,
        circuit.instance,
        circuit.witness,
        last,
    );
    crate::relation::lemma_accepts_exactly_the_weighted_sum(
        group,
        Assignment {
            random_scalars: circuit.instance.random_scalars@,
            aggregated_point: circuit.instance.y,
            aggregate_scalar: circuit.instance.commitments,
            group_points: circuit.witness.group_points@,
        },
    );
    (before.system, before.accumulator->Some_0, before.aggregated_point->Some_0)
}

} // verus!
