//! What the steps of the circuit mean: a model of the gadgets over an
//! arbitrary group, and the proof that the circuit accepts exactly the
//! statements whose aggregate point is the weighted sum of the witness.
//!
//! The model takes each gadget at its word: loading the identity yields the
//! identity, accumulating a term adds the scalar multiple of the point to the
//! accumulator, and the final constraint holds exactly when the accumulator
//! equals the aggregate point.

use vstd::prelude::*;
use crate::step::{circuit_steps, step_count, Step};

verus! {

/// A group, as far as the aggregation uses it: an identity, an addition and
/// a multiplication of an element by a scalar. No law is asked of them.
#[verifier::reject_recursive_types(S)]
#[verifier::reject_recursive_types(G)]
pub struct GroupModel<S, G> {
    pub identity: G,
    pub add: spec_fn(G, G) -> G,
    pub scale: spec_fn(S, G) -> G,
}

/// The values bound by the allocation steps.
pub struct Assignment<S, G> {
    pub random_scalars: Seq<S>,
    pub aggregated_point: G,
    pub aggregate_scalar: S,
    pub group_points: Seq<G>,
}

/// What the constraint steps have computed and enforced so far.
pub struct Evaluation<G> {
    /// The value of the accumulator, once it has been loaded.
    pub accumulator: Option<G>,
    /// Whether every constraint emitted so far holds.
    pub satisfied: bool,
}

/// The sum of `scalars[i] * points[i]` over `i < k`, added up in index order
/// starting from the identity.
pub open spec fn weighted_sum<S, G>(
    group: GroupModel<S, G>,
    scalars: Seq<S>,
    points: Seq<G>,
    k: nat,
) -> G
    decreases k,
{
    if k == 0 {
        group.identity
    } else {
        (group.add)(
            weighted_sum(group, scalars, points, (k - 1) as nat),
            (group.scale)(scalars[k - 1], points[k - 1]),
        )
    }
}

/// The effect of one step. Allocation steps bind values and compute nothing.
pub open spec fn apply<S, G>(
    group: GroupModel<S, G>,
    values: Assignment<S, G>,
    state: Evaluation<G>,
    step: Step,
) -> Evaluation<G> {
    match step {
        Step::LoadIdentity => Evaluation { accumulator: Some(group.identity), ..state },
        Step::Accumulate { index } => Evaluation {
            accumulator: match state.accumulator {
                Some(sum) => Some(
                    (group.add)(
                        sum,
                        (group.scale)(
                            values.random_scalars[index as int],
                            values.group_points[index as int],
                        ),
                    ),
                ),
                None => None,
            },
            ..state
        },
        Step::EnforceAggregate => Evaluation {
            satisfied: state.satisfied && state.accumulator == Some(values.aggregated_point),
            ..state
        },
        _ => state,
    }
}

/// The effect of `steps`, carried out in order on an empty system.
pub open spec fn evaluate<S, G>(
    group: GroupModel<S, G>,
    values: Assignment<S, G>,
    steps: Seq<Step>,
) -> Evaluation<G>
    decreases steps.len(),
{
    if steps.len() == 0 {
        Evaluation { accumulator: None, satisfied: true }
    } else {
        apply(group, values, evaluate(group, values, steps.drop_last()), steps.last())
    }
}

/// Whether the circuit for `values` is satisfied: whether every constraint
/// that its steps emit holds.
pub open spec fn accepts<S, G>(group: GroupModel<S, G>, values: Assignment<S, G>) -> bool {
    evaluate(group, values, circuit_steps(values.random_scalars.len())).satisfied
}

/// The state after the first `k` steps: nothing is enforced before the last
/// step, and from the load of the identity on the accumulator holds the sum
/// of the terms folded in so far.
proof fn lemma_evaluate_prefix<S, G>(group: GroupModel<S, G>, values: Assignment<S, G>, k: nat)
    requires
        values.random_scalars.len() == values.group_points.len(),
        values.random_scalars.len() <= usize::MAX,
        k < step_count(values.random_scalars.len()),
    ensures
        evaluate(
            group,
            values,
            circuit_steps(values.random_scalars.len()).take(k as int),
        ).satisfied,
        evaluate(
            group,
            values,
            circuit_steps(values.random_scalars.len()).take(k as int),
        ).accumulator == if k <= 2 * values.random_scalars.len() + 2 {
            None
        } else {
            Some(
                weighted_sum(
                    group,
                    values.random_scalars,
                    values.group_points,
                    (k - 2 * values.random_scalars.len() - 3) as nat,
                ),
            )
        },
    decreases k,
{
    let n = values.random_scalars.len();
    let steps = circuit_steps(n).take(k as int);
    if k > 0 {
        lemma_evaluate_prefix(group, values, (k - 1) as nat);
        assert(steps.drop_last() =~= circuit_steps(n).take(k - 1));
    }
}

/// The circuit accepts a statement exactly when its aggregate point is the
/// weighted sum of the witness points: a statement with any other aggregate
/// point leaves the constraint system unsatisfied.
pub proof fn lemma_accepts_exactly_the_weighted_sum<S, G>(
    group: GroupModel<S, G>,
    values: Assignment<S, G>,
)
    requires
        values.random_scalars.len() == values.group_points.len(),
        values.random_scalars.len() <= usize::MAX,
    ensures
        accepts(group, values) <==> values.aggregated_point == weighted_sum(
            group,
            values.random_scalars,
            values.group_points,
            values.random_scalars.len(),
        ),
{
    let n = values.random_scalars.len();
    lemma_evaluate_prefix(group, values, (step_count(n) - 1) as nat);
}

/// Without terms the circuit accepts exactly the statements whose aggregate
/// point is the identity.
pub proof fn lemma_empty_accepts_exactly_the_identity<S, G>(
    group: GroupModel<S, G>,
    values: Assignment<S, G>,
)
    requires
        values.random_scalars.len() == 0,
        values.group_points.len() == 0,
    ensures
        accepts(group, values) <==> values.aggregated_point == group.identity,
{
    lemma_accepts_exactly_the_weighted_sum(group, values);
}

/// A term whose scalar multiple is the identity leaves the sum as it was,
/// in a group whose identity is neutral on the right.
pub proof fn lemma_identity_term_adds_nothing<S, G>(
    group: GroupModel<S, G>,
    scalars: Seq<S>,
    points: Seq<G>,
    k: nat,
)
    requires
        k < scalars.len(),
        k < points.len(),
        (group.scale)(scalars[k as int], points[k as int]) == group.identity,
        forall|g: G| #[trigger] (group.add)(g, group.identity) == g,
    ensures
        weighted_sum(group, scalars, points, k + 1) == weighted_sum(group, scalars, points, k),
{
}

} // verus!
