use vstd::prelude::*;
use vstd::pervasive::unreached;
use crate::backend::{CsHandle, Point, Scalar};
use crate::error::CircuitError;
use crate::machine::{failure_of, Synthesis};
use crate::pass::{lemma_failed_pass_stays, pass_after, PassState};
use crate::step::{
    allocation_count, circuit_steps, constraint_steps, public_input_count, public_input_steps,
    step_at, step_count, witness_steps,
};
use crate::system::{instance_columns, witness_points, ConstraintSystem, Registers};

verus! {

/// The public statement: one random scalar per commitment point, the claimed
/// aggregate `y`, and the aggregate scalar `commitments`.
#[derive(Clone, Debug)]
pub struct AggKZGInstances {
    pub random_scalars: Vec<Scalar>,
    pub y: Point,
    pub commitments: Scalar,
}

/// The private data: the commitment points, in the order of the scalars.
#[derive(Clone, Debug)]
pub struct AggKZGWitness {
    pub group_points: Vec<Point>,
}

/// A statement together with its witness, ready to be turned into
/// constraints once.
#[derive(Clone, Debug)]
pub struct AggKZGCircuit {
    pub instance: AggKZGInstances,
    pub witness: AggKZGWitness,
}

/// Whether `after` is `before` with the first `k` steps of a circuit with `n`
/// terms carried out on it, and nothing else.
pub open spec fn ran_steps(before: ConstraintSystem, after: ConstraintSystem, n: nat, k: nat)
    -> bool {
    after.performed() == before.performed() + circuit_steps(n).take(k as int)
}

/// What a pass that succeeded has done to the system: every step of a
/// circuit with `n` terms was carried out, the system holds `n + 4` more
/// instance variables (one per scalar, three for the coordinates of the
/// aggregate point), at least three more witness variables per commitment
/// point, and no fewer constraints than before.
pub open spec fn completed(before: ConstraintSystem, after: ConstraintSystem, n: nat) -> bool {
    &&& ran_steps(before, after, n, step_count(n))
    &&& after.instance_variables() == before.instance_variables() + n + 4
    &&& after.witness_variables() >= before.witness_variables() + 3 * n
    &&& after.constraints() >= before.constraints()
}

impl AggKZGCircuit {
    /// The number of terms of the aggregation: the number of random scalars.
    pub open spec fn terms(&self) -> nat {
        self.instance.random_scalars.len() as nat
    }

    /// Whether the statement and the witness have one scalar per point.
    pub open spec fn balanced(&self) -> bool {
        self.instance.random_scalars.len() == self.witness.group_points.len()
    }

    /// The state in which a pass for this circuit over `system` ends: after
    /// its last step, or after the step that failed.
    pub open spec fn pass(&self, system: CsHandle) -> PassState {
        pass_after(system, self.instance, self.witness, step_count(self.terms()))
    }

    /// Binds the statement and the witness to `cs` and emits the constraints
    /// of the aggregation, step by step in the order of `circuit_steps`.
    ///
    /// A statement and a witness of different lengths are rejected before
    /// anything is done to `cs`. Otherwise the steps are carried out until one
    /// fails: a failed allocation is reported as `AllocationFailure`, a
    /// failed gadget or constraint as `ConstraintSynthesisFailure`, and the
    /// steps before it stay recorded in `cs`. Whether a step fails is for the
    /// constraint system to decide, except on a handle without a system
    /// behind it, where the first allocation fails.
    pub fn generate_constraints(self, cs: &mut ConstraintSystem) -> (r: Result<(), CircuitError>)
        ensures
            r == Err::<(), CircuitError>(CircuitError::PreconditionViolation)
                <==> !self.balanced(),
            !self.balanced() ==> *final(cs) == *old(cs),
            self.balanced() ==> {
                &&& final(cs).system() == self.pass(old(cs).system()).system
                &&& ran_steps(
                    *old(cs),
                    *final(cs),
                    self.terms(),
                    self.pass(old(cs).system()).performed,
                )
                &&& r == self.pass(old(cs).system()).outcome(self.terms())
            },
            r is Ok ==> completed(*old(cs), *final(cs), self.terms()),
            self.balanced() && !old(cs).is_attached() ==> r == Err::<(), CircuitError>(
                CircuitError::AllocationFailure,
            ) && final(cs).performed() == old(cs).performed(),
    {
        let scalars = self.instance.random_scalars.len();
        let mut machine = match Synthesis::begin(scalars, self.witness.group_points.len()) {
            Ok(machine) => machine,
            Err(e) => {
                return Err(e);
            },
        };
        let mut registers = Registers::new();
        let ghost n = scalars as nat;
        let ghost before = *cs;
        loop
            invariant
                n == self.terms(),
                self.balanced(),
                machine@.terms == n,
                machine@.performed <= step_count(n),
                machine@.failure is None ==> registers.ready(n, machine@.performed),
                machine@.failure is None && !before.is_attached() ==> machine@.performed == 0
                    && cs.system() == before.system(),
                machine@.failure is Some && !before.is_attached() ==> machine@.performed == 0,
                machine@.failure is None ==> registers.owned(cs.system()),
                machine@.failure is None ==> registers.state(
                    cs.system(),
                    machine@.performed,
                    false,
                ) == pass_after(before.system(), self.instance, self.witness, machine@.performed),
                machine@.failure is Some ==> registers.state(
                    cs.system(),
                    machine@.performed,
                    true,
                ) == pass_after(
                    before.system(),
                    self.instance,
                    self.witness,
                    machine@.performed + 1,
                ),
                machine@.failure matches Some(e) ==> machine@.performed < step_count(n) && e
                    == failure_of(step_at(n, machine@.performed)),
                ran_steps(before, *cs, n, machine@.performed),
                machine@.failure is None ==> cs.instance_variables()
                    == before.instance_variables() + instance_columns(n, machine@.performed),
                machine@.failure is None ==> cs.witness_variables()
                    >= before.witness_variables() + 3 * witness_points(n, machine@.performed),
                machine@.failure is None ==> cs.constraints() >= before.constraints(),
            ensures
                machine@.pending() is None,
            decreases
                step_count(n) - machine@.performed + if machine@.failure is None {
                    1int
                } else {
                    0int
                },
        {
            let step = match machine.pending() {
                Some(step) => step,
                None => {
                    break ;
                },
            };
            let ghost k = machine@.performed;
            proof {
                crate::step::lemma_step_at_inverts_position(n, k);
            }
            let ok = cs.perform(&mut registers, &self.instance, &self.witness, step);
            machine.advance(ok);
            proof {
                if ok {
                    assert(circuit_steps(n).take(k as int + 1) =~= circuit_steps(n).take(
                        k as int,
                    ).push(step));
                }
            }
        }
        proof {
            if machine@.failure is Some {
                crate::step::lemma_step_at_inverts_position(n, machine@.performed);
                lemma_failed_pass_stays(
                    before.system(),
                    self.instance,
                    self.witness,
                    machine@.performed + 1,
                    step_count(n),
                );
            }
        }
        match machine.outcome() {
            Some(outcome) => outcome,
            None => unreached(),
        }
    }
}

/// A pass that succeeded has bound exactly `n + 2` public inputs, in the
/// order scalars, aggregate point, aggregate scalar, and after them exactly
/// `n` private witnesses, the commitment points in order; every step after
/// those emits constraints and binds nothing.
pub proof fn lemma_completed_pass_follows_the_layout(
    before: ConstraintSystem,
    after: ConstraintSystem,
    n: nat,
)
    requires
        n <= usize::MAX,
        completed(before, after, n),
    ensures
        after.performed().len() == before.performed().len() + step_count(n),
        after.performed().subrange(
            before.performed().len() as int,
            (before.performed().len() + public_input_count(n)) as int,
        ) == public_input_steps(n),
        after.performed().subrange(
            (before.performed().len() + public_input_count(n)) as int,
            (before.performed().len() + allocation_count(n)) as int,
        ) == witness_steps(n),
        after.performed().subrange(
            (before.performed().len() + allocation_count(n)) as int,
            after.performed().len() as int,
        ) == constraint_steps(n),
        forall|i: int|
            before.performed().len() + allocation_count(n) <= i < after.performed().len()
                ==> !(#[trigger] after.performed()[i]).is_allocation(),
{
    let base = before.performed().len() as int;
    assert forall|i: int|
        base + allocation_count(n) <= i < after.performed().len() implies !(
    #[trigger] after.performed()[i]).is_allocation() by {
        crate::step::lemma_step_at_inverts_position(n, (i - base) as nat);
    }
}

/// The shape of the constraint system depends on the statement alone: two
/// passes that succeeded for the same statement, on systems that agreed
/// before, have carried out the same steps in the same order and bound the
/// same number of instance variables, whatever their witnesses hold.
pub proof fn lemma_shape_ignores_the_witness(
    first: AggKZGCircuit,
    second: AggKZGCircuit,
    before_first: ConstraintSystem,
    after_first: ConstraintSystem,
    before_second: ConstraintSystem,
    after_second: ConstraintSystem,
)
    requires
        first.instance.random_scalars@ == second.instance.random_scalars@,
        first.instance.y == second.instance.y,
        first.instance.commitments == second.instance.commitments,
        before_first.performed() == before_second.performed(),
        before_first.instance_variables() == before_second.instance_variables(),
        completed(before_first, after_first, first.terms()),
        completed(before_second, after_second, second.terms()),
    ensures
        after_first.performed() == after_second.performed(),
        after_first.instance_variables() == after_second.instance_variables(),
{
}

} // verus!
