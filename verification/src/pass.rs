use vstd::prelude::*;
use crate::backend::{
    add_points_effect, enforce_equal_effect, identity_variable, input_point_effect,
    input_scalar_effect, scalar_bits_effect, scale_point_effect, witness_point_effect, CsHandle,
    PointVar, ScalarVar,
};
use crate::circuit::{AggKZGInstances, AggKZGWitness};
use crate::error::CircuitError;
use crate::machine::failure_of;
use crate::step::{allocation_count, step_at, step_count, Step};

verus! {

/// The mathematical state of a generation pass: the constraint system, the
/// variables bound so far, the number of steps carried out, and whether the
/// step after them failed.
pub struct PassState {
    pub system: CsHandle,
    pub scalars: Seq<ScalarVar>,
    pub aggregated_point: Option<PointVar>,
    pub aggregate_scalar: Option<ScalarVar>,
    pub points: Seq<PointVar>,
    pub accumulator: Option<PointVar>,
    pub performed: nat,
    pub failed: bool,
}

impl PassState {
    /// The state before the first step of a pass over `system`.
    pub open spec fn initial(system: CsHandle) -> PassState {
        PassState {
            system,
            scalars: Seq::empty(),
            aggregated_point: None,
            aggregate_scalar: None,
            points: Seq::empty(),
            accumulator: None,
            performed: 0,
            failed: false,
        }
    }

    /// The state in which a step failed and left the system as `system`.
    pub open spec fn fail(self, system: CsHandle) -> PassState {
        PassState { system, failed: true, ..self }
    }

    /// The state in which a step succeeded and left the system as `system`.
    pub open spec fn succeed(self, system: CsHandle) -> PassState {
        PassState { system, performed: self.performed + 1, ..self }
    }

    /// How a pass for `n` terms that ended in this state is reported: a
    /// failure by the error of the step that failed, anything else as success.
    pub open spec fn outcome(self, n: nat) -> Result<(), CircuitError> {
        if self.failed {
            Err(failure_of(step_at(n, self.performed)))
        } else {
            Ok(())
        }
    }
}

/// The state after `step` was carried out on `state`: which gadget is called
/// on which values and variables, where its result is kept, and what a
/// failure leaves behind.
pub open spec fn carry_out(
    state: PassState,
    instance: AggKZGInstances,
    witness: AggKZGWitness,
    step: Step,
) -> PassState {
    match step {
        Step::AllocateScalar { index } => {
            let effect = input_scalar_effect(state.system, instance.random_scalars@[index as int]);
            match effect.0 {
                Ok(var) => PassState { scalars: state.scalars.push(var), ..state.succeed(effect.1) },
                Err(_) => state.fail(effect.1),
            }
        },
        Step::AllocateAggregatedPoint => {
            let effect = input_point_effect(state.system, instance.y);
            match effect.0 {
                Ok(var) => PassState { aggregated_point: Some(var), ..state.succeed(effect.1) },
                Err(_) => state.fail(effect.1),
            }
        },
        Step::AllocateAggregateScalar => {
            let effect = input_scalar_effect(state.system, instance.commitments);
            match effect.0 {
                Ok(var) => PassState { aggregate_scalar: Some(var), ..state.succeed(effect.1) },
                Err(_) => state.fail(effect.1),
            }
        },
        Step::AllocatePoint { index } => {
            let effect = witness_point_effect(state.system, witness.group_points@[index as int]);
            match effect.0 {
                Ok(var) => PassState { points: state.points.push(var), ..state.succeed(effect.1) },
                Err(_) => state.fail(effect.1),
            }
        },
        Step::LoadIdentity => PassState {
            accumulator: Some(identity_variable(state.system)),
            ..state.succeed(state.system)
        },
        Step::Accumulate { index } => {
            let bits = scalar_bits_effect(state.system, state.scalars[index as int]);
            match bits.0 {
                Ok(bits_of_scalar) => {
                    let term = scale_point_effect(
                        bits.1,
                        state.points[index as int],
                        bits_of_scalar,
                    );
                    match term.0 {
                        Ok(scaled) => {
                            let sum = add_points_effect(
                                term.1,
                                state.accumulator->Some_0,
                                scaled,
                            );
                            PassState { accumulator: Some(sum.0), ..state.succeed(sum.1) }
                        },
                        Err(_) => state.fail(term.1),
                    }
                },
                Err(_) => state.fail(bits.1),
            }
        },
        Step::EnforceAggregate => {
            let effect = enforce_equal_effect(
                state.system,
                state.accumulator->Some_0,
                state.aggregated_point->Some_0,
            );
            match effect.0 {
                Ok(_) => state.succeed(effect.1),
                Err(_) => state.fail(effect.1),
            }
        },
    }
}

/// The state of a pass over `system` after its first `k` steps, or after the
/// step that failed if one of them did: a failure ends the pass.
pub open spec fn pass_after(
    system: CsHandle,
    instance: AggKZGInstances,
    witness: AggKZGWitness,
    k: nat,
) -> PassState
    decreases k,
{
    if k == 0 {
        PassState::initial(system)
    } else {
        let before = pass_after(system, instance, witness, (k - 1) as nat);
        if before.failed {
            before
        } else {
            carry_out(
                before,
                instance,
                witness,
                step_at(instance.random_scalars.len() as nat, (k - 1) as nat),
            )
        }
    }
}

/// A pass over `system` has carried out at most `k` steps after `k` steps,
/// and exactly `k` unless one of them failed.
pub proof fn lemma_pass_counts_its_steps(
    system: CsHandle,
    instance: AggKZGInstances,
    witness: AggKZGWitness,
    k: nat,
)
    ensures
        pass_after(system, instance, witness, k).performed <= k,
        !pass_after(system, instance, witness, k).failed ==> pass_after(
            system,
            instance,
            witness,
            k,
        ).performed == k,
        pass_after(system, instance, witness, k).failed ==> pass_after(
            system,
            instance,
            witness,
            k,
        ).performed < k,
    decreases k,
{
    if k > 0 {
        lemma_pass_counts_its_steps(system, instance, witness, (k - 1) as nat);
    }
}

/// A pass is reported as a success exactly if no step failed, as an
/// allocation failure exactly if a step failed before every variable was
/// bound, and as a failure to synthesise constraints exactly if a later step
/// failed. It is never reported as a violated precondition.
pub proof fn lemma_outcome_names_the_phase(state: PassState, n: nat)
    requires
        n <= usize::MAX,
        state.failed ==> state.performed < step_count(n),
    ensures
        state.outcome(n) is Ok <==> !state.failed,
        state.outcome(n) == Err::<(), CircuitError>(CircuitError::AllocationFailure)
            <==> state.failed && state.performed < allocation_count(n),
        state.outcome(n) == Err::<(), CircuitError>(CircuitError::ConstraintSynthesisFailure)
            <==> state.failed && state.performed >= allocation_count(n),
        state.outcome(n) != Err::<(), CircuitError>(CircuitError::PreconditionViolation),
{
    if state.failed {
        crate::step::lemma_step_at_inverts_position(n, state.performed);
    }
}

/// Once a step has failed the pass is over: no later step changes its state.
pub proof fn lemma_failed_pass_stays(
    system: CsHandle,
    instance: AggKZGInstances,
    witness: AggKZGWitness,
    k: nat,
    later: nat,
)
    requires
        k <= later,
        pass_after(system, instance, witness, k).failed,
    ensures
        pass_after(system, instance, witness, later) == pass_after(system, instance, witness, k),
    decreases later,
{
    if k < later {
        lemma_failed_pass_stays(system, instance, witness, k, (later - 1) as nat);
    }
}

} // verus!
