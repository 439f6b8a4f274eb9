use vstd::prelude::*;
use vstd::pervasive::unreached;
use crate::backend::{
    add_points, attached, check_satisfied, constraint_count, count_constraints,
    count_instance_variables, count_witness_variables, enforce_equal_points, identity_point,
    input_point, input_scalar, instance_count, no_system, open_system, point_in, satisfaction,
    scalar_bits, scalar_in, scale_point, witness_count, witness_point, CsHandle, PointVar,
    ScalarVar,
};
use crate::circuit::{AggKZGInstances, AggKZGWitness};
use crate::pass::{carry_out, PassState};
use crate::step::Step;

verus! {

/// A rank-1 constraint system together with the record of the steps that
/// were carried out on it.
pub struct ConstraintSystem {
    handle: CsHandle,
    steps: Vec<Step>,
}

/// The variables a generation pass has bound so far.
pub(crate) struct Registers {
    pub(crate) scalars: Vec<ScalarVar>,
    pub(crate) aggregated_point: Option<PointVar>,
    pub(crate) aggregate_scalar: Option<ScalarVar>,
    pub(crate) points: Vec<PointVar>,
    pub(crate) accumulator: Option<PointVar>,
}

/// Instance variables that the first `k` steps of a circuit with `n` terms
/// add to the system: one per scalar and three for the aggregate point.
pub open spec fn instance_columns(n: nat, k: nat) -> nat {
    if k <= n {
        k
    } else if k == n + 1 {
        n + 3
    } else {
        n + 4
    }
}

/// Commitment points that the first `k` steps of a circuit with `n` terms
/// bind as witnesses.
pub open spec fn witness_points(n: nat, k: nat) -> nat {
    if k <= n + 2 {
        0
    } else if k <= 2 * n + 2 {
        (k - n - 2) as nat
    } else {
        n
    }
}

impl Registers {
    /// What is bound once the first `k` steps of a circuit with `n` terms
    /// have been carried out.
    pub(crate) open spec fn ready(&self, n: nat, k: nat) -> bool {
        &&& self.scalars.len() == if k <= n { k } else { n }
        &&& self.aggregated_point is Some <==> k > n
        &&& self.aggregate_scalar is Some <==> k > n + 1
        &&& self.points.len() == witness_points(n, k)
        &&& self.accumulator is Some <==> k > 2 * n + 2
    }

    /// Whether every variable bound so far can be used with `system`.
    pub(crate) open spec fn owned(&self, system: CsHandle) -> bool {
        &&& forall|i: int|
            0 <= i < self.scalars.len() ==> scalar_in(system, #[trigger] self.scalars@[i])
        &&& forall|i: int|
            0 <= i < self.points.len() ==> point_in(system, #[trigger] self.points@[i])
        &&& self.aggregated_point matches Some(var) ==> point_in(system, var)
        &&& self.aggregate_scalar matches Some(var) ==> scalar_in(system, var)
        &&& self.accumulator matches Some(var) ==> point_in(system, var)
    }

    /// The state of a pass that holds these variables.
    pub(crate) open spec fn state(&self, system: CsHandle, performed: nat, failed: bool) -> PassState {
        PassState {
            system,
            scalars: self.scalars@,
            aggregated_point: self.aggregated_point,
            aggregate_scalar: self.aggregate_scalar,
            points: self.points@,
            accumulator: self.accumulator,
            performed,
            failed,
        }
    }

    pub(crate) fn new() -> (r: Registers)
        ensures
            forall|n: nat| r.ready(n, 0),
            forall|system: CsHandle| r.owned(system),
            forall|system: CsHandle| #[trigger]
                r.state(system, 0, false) == PassState::initial(system),
    {
        Registers {
            scalars: Vec::new(),
            aggregated_point: None,
            aggregate_scalar: None,
            points: Vec::new(),
            accumulator: None,
        }
    }
}

impl ConstraintSystem {
    /// The constraint system itself, without the record.
    pub closed spec fn system(&self) -> CsHandle {
        self.handle
    }

    /// The number of instance variables of the system.
    pub open spec fn instance_variables(&self) -> nat {
        instance_count(self.system())
    }

    /// The number of witness variables of the system.
    pub open spec fn witness_variables(&self) -> nat {
        witness_count(self.system())
    }

    /// The number of constraints of the system.
    pub open spec fn constraints(&self) -> nat {
        constraint_count(self.system())
    }

    /// The steps carried out on the system so far, oldest first.
    pub closed spec fn performed(&self) -> Seq<Step> {
        self.steps@
    }

    /// What the system answers when asked whether the values bound so far
    /// meet every constraint; `None` where it cannot tell.
    pub open spec fn satisfied(&self) -> Option<bool> {
        satisfaction(self.system())
    }

    /// Whether variables can be bound: whether there is a system behind the
    /// handle.
    pub open spec fn is_attached(&self) -> bool {
        attached(self.system())
    }

    /// A handle without a system behind it. Constants can be used with it,
    /// but every allocation fails.
    pub fn detached() -> (cs: ConstraintSystem)
        ensures
            !cs.is_attached(),
            cs.instance_variables() == 0,
            cs.witness_variables() == 0,
            cs.constraints() == 0,
            cs.performed() == Seq::<Step>::empty(),
    {
        ConstraintSystem { handle: no_system(), steps: Vec::new() }
    }

    /// A fresh system in proving mode. It holds the constant one as its only
    /// instance variable, and nothing has been carried out on it.
    pub fn new() -> (cs: ConstraintSystem)
        ensures
            cs.is_attached(),
            cs.instance_variables() == 1,
            cs.witness_variables() == 0,
            cs.constraints() == 0,
            cs.performed() == Seq::<Step>::empty(),
    {
        ConstraintSystem { handle: open_system(), steps: Vec::new() }
    }

    /// The number of instance variables of the system.
    pub fn num_instance_variables(&self) -> (r: usize)
        ensures
            r == self.instance_variables(),
    {
        count_instance_variables(&self.handle)
    }

    /// The number of witness variables of the system.
    pub fn num_witness_variables(&self) -> (r: usize)
        ensures
            r == self.witness_variables(),
    {
        count_witness_variables(&self.handle)
    }

    /// The number of constraints of the system.
    pub fn num_constraints(&self) -> (r: usize)
        ensures
            r == self.constraints(),
    {
        count_constraints(&self.handle)
    }

    /// The steps carried out on the system so far, oldest first.
    pub fn steps(&self) -> (r: &Vec<Step>)
        ensures
            r@ == self.performed(),
    {
        &self.steps
    }

    /// Whether the values bound so far meet every constraint, or `None`
    /// where the system cannot tell. Without a system behind the handle
    /// there is nothing to tell.
    pub fn is_satisfied(&self) -> (r: Option<bool>)
        ensures
            r == self.satisfied(),
            !self.is_attached() ==> r is None,
    {
        check_satisfied(&self.handle)
    }

    /// Carries out `step` of the circuit for `instance` and `witness`, and
    /// records it if it succeeded. A step that failed is not recorded.
    pub(crate) fn perform(
        &mut self,
        registers: &mut Registers,
        instance: &AggKZGInstances,
        witness: &AggKZGWitness,
        step: Step,
    ) -> (ok: bool)
        requires
            instance.random_scalars.len() == witness.group_points.len(),
            step.in_circuit(instance.random_scalars.len() as nat),
            old(registers).ready(
                instance.random_scalars.len() as nat,
                step.position(instance.random_scalars.len() as nat),
            ),
            old(registers).owned(old(self).system()),
        ensures
            final(registers).state(
                final(self).system(),
                step.position(instance.random_scalars.len() as nat) + if ok {
                    1nat
                } else {
                    0nat
                },
                !ok,
            ) == carry_out(
                old(registers).state(
                    old(self).system(),
                    step.position(instance.random_scalars.len() as nat),
                    false,
                ),
                *instance,
                *witness,
                step,
            ),
            ok ==> final(registers).owned(final(self).system()),
            !old(self).is_attached() && (step is AllocateScalar || step is AllocateAggregatedPoint)
                ==> !ok,
            !ok ==> final(self).performed() == old(self).performed(),
            ok ==> final(self).performed() == old(self).performed().push(step),
            ok ==> final(registers).ready(
                instance.random_scalars.len() as nat,
                step.position(instance.random_scalars.len() as nat) + 1,
            ),
            ok ==> final(self).instance_variables() - old(self).instance_variables()
                == instance_columns(
                instance.random_scalars.len() as nat,
                step.position(instance.random_scalars.len() as nat) + 1,
            ) - instance_columns(
                instance.random_scalars.len() as nat,
                step.position(instance.random_scalars.len() as nat),
            ),
            ok ==> final(self).witness_variables() >= old(self).witness_variables() + if step
                is AllocatePoint {
                3nat
            } else {
                0nat
            },
            ok ==> final(self).constraints() >= old(self).constraints(),
    {
        let ok = match step {
            Step::AllocateScalar { index } => {
                match input_scalar(&mut self.handle, &instance.random_scalars[index]) {
                    Ok(var) => {
                        registers.scalars.push(var);
                        true
                    },
                    Err(_) => false,
                }
            },
            Step::AllocateAggregatedPoint => {
                match input_point(&mut self.handle, &instance.y) {
                    Ok(var) => {
                        registers.aggregated_point = Some(var);
                        true
                    },
                    Err(_) => false,
                }
            },
            Step::AllocateAggregateScalar => {
                match input_scalar(&mut self.handle, &instance.commitments) {
                    Ok(var) => {
                        registers.aggregate_scalar = Some(var);
                        true
                    },
                    Err(_) => false,
                }
            },
            Step::AllocatePoint { index } => {
                match witness_point(&mut self.handle, &witness.group_points[index]) {
                    Ok(var) => {
                        registers.points.push(var);
                        true
                    },
                    Err(_) => false,
                }
            },
            Step::LoadIdentity => {
                registers.accumulator = Some(identity_point(&self.handle));
                true
            },
            Step::Accumulate { index } => {
                match scalar_bits(&mut self.handle, &registers.scalars[index]) {
                    Ok(bits) => {
                        match scale_point(&mut self.handle, &registers.points[index], &bits) {
                            Ok(term) => {
                                let sum = match &registers.accumulator {
                                    Some(accumulator) => add_points(
                                        &mut self.handle,
                                        accumulator,
                                        &term,
                                    ),
                                    None => unreached(),
                                };
                                registers.accumulator = Some(sum);
                                true
                            },
                            Err(_) => false,
                        }
                    },
                    Err(_) => false,
                }
            },
            Step::EnforceAggregate => {
                match (&registers.accumulator, &registers.aggregated_point) {
                    (Some(accumulator), Some(aggregate)) => {
                        enforce_equal_points(&mut self.handle, accumulator, aggregate).is_ok()
                    },
                    _ => unreached(),
                }
            },
        };
        if ok {
            self.steps.push(step);
        }
        ok
    }
}

} // verus!
