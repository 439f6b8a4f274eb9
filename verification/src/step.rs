use vstd::prelude::*;

verus! {

/// One unit of work on the constraint system. A circuit with `n` terms is the
/// fixed sequence `circuit_steps(n)` of these, carried out in order.
#[derive(Clone, Copy, Debug, PartialEq, Eq, Structural)]
pub enum Step {
    /// Bind random scalar `index` as a public input.
    AllocateScalar { index: usize },
    /// Bind the claimed aggregate point as a public input.
    AllocateAggregatedPoint,
    /// Bind the aggregate scalar as a public input. No step constrains it:
    /// how it relates to the other values is for the batching scheme that
    /// uses the circuit to say.
    AllocateAggregateScalar,
    /// Bind commitment point `index` as a private witness.
    AllocatePoint { index: usize },
    /// Set the accumulator to the group identity.
    LoadIdentity,
    /// Add `scalar[index] * point[index]` to the accumulator.
    Accumulate { index: usize },
    /// Constrain the accumulator to equal the claimed aggregate point.
    EnforceAggregate,
}

/// Where a generation pass stands.
#[derive(Clone, Copy, Debug, PartialEq, Eq, Structural)]
pub enum Phase {
    /// Variables are still being bound.
    Allocating,
    /// All variables are bound; constraints are being emitted.
    Constraining,
    /// Nothing is left to do, because the pass completed or failed.
    Done,
}

/// Number of steps of a circuit with `n` terms.
pub open spec fn step_count(n: nat) -> nat {
    3 * n + 4
}

/// Number of allocation steps of a circuit with `n` terms; they come first.
pub open spec fn allocation_count(n: nat) -> nat {
    2 * n + 2
}

/// Number of public inputs of a circuit with `n` terms; they are allocated
/// before any witness.
pub open spec fn public_input_count(n: nat) -> nat {
    n + 2
}

/// The step carried out at position `k` of a circuit with `n` terms.
pub open spec fn step_at(n: nat, k: nat) -> Step {
    if k < n {
        Step::AllocateScalar { index: k as usize }
    } else if k == n {
        Step::AllocateAggregatedPoint
    } else if k == n + 1 {
        Step::AllocateAggregateScalar
    } else if k < 2 * n + 2 {
        Step::AllocatePoint { index: (k - n - 2) as usize }
    } else if k == 2 * n + 2 {
        Step::LoadIdentity
    } else if k < 3 * n + 3 {
        Step::Accumulate { index: (k - 2 * n - 3) as usize }
    } else {
        Step::EnforceAggregate
    }
}

/// Every step of a circuit with `n` terms, in the order it is carried out.
pub open spec fn circuit_steps(n: nat) -> Seq<Step> {
    Seq::new(step_count(n), |k: int| step_at(n, k as nat))
}

/// The steps that bind public inputs: the random scalars in order, then the
/// aggregate point, then the aggregate scalar.
pub open spec fn public_input_steps(n: nat) -> Seq<Step> {
    circuit_steps(n).subrange(0, public_input_count(n) as int)
}

/// The steps that bind private witnesses: the commitment points in order.
pub open spec fn witness_steps(n: nat) -> Seq<Step> {
    circuit_steps(n).subrange(public_input_count(n) as int, allocation_count(n) as int)
}

/// The steps that emit constraints; they follow every allocation.
pub open spec fn constraint_steps(n: nat) -> Seq<Step> {
    circuit_steps(n).subrange(allocation_count(n) as int, step_count(n) as int)
}

impl Step {
    /// Whether the step binds a variable.
    pub open spec fn is_allocation(self) -> bool {
        self is AllocateScalar || self is AllocateAggregatedPoint
            || self is AllocateAggregateScalar || self is AllocatePoint
    }

    /// Whether the step binds a public input.
    pub open spec fn is_public_input(self) -> bool {
        self is AllocateScalar || self is AllocateAggregatedPoint
            || self is AllocateAggregateScalar
    }

    /// Whether the step binds a private witness.
    pub open spec fn is_witness(self) -> bool {
        self is AllocatePoint
    }

    /// Whether the step belongs to a circuit with `n` terms.
    pub open spec fn in_circuit(self, n: nat) -> bool {
        match self {
            Step::AllocateScalar { index } => index < n,
            Step::AllocatePoint { index } => index < n,
            Step::Accumulate { index } => index < n,
            _ => true,
        }
    }

    /// The position of the step in a circuit with `n` terms.
    pub open spec fn position(self, n: nat) -> nat {
        match self {
            Step::AllocateScalar { index } => index as nat,
            Step::AllocateAggregatedPoint => n,
            Step::AllocateAggregateScalar => n + 1,
            Step::AllocatePoint { index } => (n + 2 + index) as nat,
            Step::LoadIdentity => 2 * n + 2,
            Step::Accumulate { index } => (2 * n + 3 + index) as nat,
            Step::EnforceAggregate => 3 * n + 3,
        }
    }

    /// The phase in which the step is carried out.
    pub open spec fn phase(self) -> Phase {
        if self.is_allocation() {
            Phase::Allocating
        } else {
            Phase::Constraining
        }
    }

    /// Tells allocation steps from constraint steps.
    pub fn allocates(&self) -> (r: bool)
        ensures
            r == self.is_allocation(),
    {
        match self {
            Step::AllocateScalar { .. } => true,
            Step::AllocateAggregatedPoint => true,
            Step::AllocateAggregateScalar => true,
            Step::AllocatePoint { .. } => true,
            _ => false,
        }
    }

    /// The first step of a circuit with `n` terms.
    pub fn first(n: usize) -> (r: Step)
        ensures
            r == step_at(n as nat, 0),
            r.in_circuit(n as nat),
    {
        if n > 0 {
            Step::AllocateScalar { index: 0 }
        } else {
            Step::AllocateAggregatedPoint
        }
    }

    /// The step that follows this one in a circuit with `n` terms, or `None`
    /// after the last.
    pub fn successor(&self, n: usize) -> (r: Option<Step>)
        ensures
            r is None <==> *self == Step::EnforceAggregate,
            self.in_circuit(n as nat) ==> (r matches Some(s) ==> s == step_at(
                n as nat,
                self.position(n as nat) + 1,
            ) && s.in_circuit(n as nat)),
    {
        match *self {
            Step::AllocateScalar { index } => {
                if index < n && index + 1 < n {
                    Some(Step::AllocateScalar { index: index + 1 })
                } else {
                    Some(Step::AllocateAggregatedPoint)
                }
            },
            Step::AllocateAggregatedPoint => Some(Step::AllocateAggregateScalar),
            Step::AllocateAggregateScalar => {
                if n > 0 {
                    Some(Step::AllocatePoint { index: 0 })
                } else {
                    Some(Step::LoadIdentity)
                }
            },
            Step::AllocatePoint { index } => {
                if index < n && index + 1 < n {
                    Some(Step::AllocatePoint { index: index + 1 })
                } else {
                    Some(Step::LoadIdentity)
                }
            },
            Step::LoadIdentity => {
                if n > 0 {
                    Some(Step::Accumulate { index: 0 })
                } else {
                    Some(Step::EnforceAggregate)
                }
            },
            Step::Accumulate { index } => {
                if index < n && index + 1 < n {
                    Some(Step::Accumulate { index: index + 1 })
                } else {
                    Some(Step::EnforceAggregate)
                }
            },
            Step::EnforceAggregate => None,
        }
    }
}

/// A step of the circuit stands at its own position, and positions run from
/// zero to the step count.
pub proof fn lemma_position_inverts_step_at(n: nat, step: Step)
    requires
        step.in_circuit(n),
        n <= usize::MAX,
    ensures
        step.position(n) < step_count(n),
        step_at(n, step.position(n)) == step,
        circuit_steps(n)[step.position(n) as int] == step,
{
}

/// Every position below the step count holds a step of the circuit, and that
/// step reports the position it stands at.
pub proof fn lemma_step_at_inverts_position(n: nat, k: nat)
    requires
        k < step_count(n),
        n <= usize::MAX,
    ensures
        step_at(n, k).in_circuit(n),
        step_at(n, k).position(n) == k,
        step_at(n, k).is_allocation() <==> k < allocation_count(n),
        step_at(n, k).is_public_input() <==> k < public_input_count(n),
{
}

/// A circuit with `n` terms binds exactly `n + 2` public inputs, in the order
/// scalars, aggregate point, aggregate scalar, then exactly `n` private
/// witnesses, the commitment points in order; no later step binds a variable.
pub proof fn lemma_allocation_layout(n: nat)
    requires
        n <= usize::MAX,
    ensures
        public_input_steps(n).len() == n + 2,
        forall|i: int| 0 <= i < n ==> public_input_steps(n)[i] == (Step::AllocateScalar {
            index: i as usize,
        }),
        public_input_steps(n)[n as int] == Step::AllocateAggregatedPoint,
        public_input_steps(n)[n as int + 1] == Step::AllocateAggregateScalar,
        witness_steps(n).len() == n,
        forall|i: int| 0 <= i < n ==> witness_steps(n)[i] == (Step::AllocatePoint {
            index: i as usize,
        }),
        forall|i: int| 0 <= i < constraint_steps(n).len() ==> !(#[trigger] constraint_steps(
            n,
        )[i]).is_allocation(),
        circuit_steps(n) == public_input_steps(n) + witness_steps(n) + constraint_steps(n),
{
}

/// After the allocations a circuit with `n` terms loads the identity, folds in
/// the `n` terms in index order, and ends with the one equality constraint.
pub proof fn lemma_constraint_layout(n: nat)
    requires
        n <= usize::MAX,
    ensures
        constraint_steps(n).len() == n + 2,
        constraint_steps(n)[0] == Step::LoadIdentity,
        forall|i: int| 1 <= i <= n ==> constraint_steps(n)[i] == (Step::Accumulate {
            index: (i - 1) as usize,
        }),
        constraint_steps(n)[n as int + 1] == Step::EnforceAggregate,
{
}

/// A circuit without terms binds the aggregate point and the aggregate
/// scalar, loads the identity and constrains the two points to be equal.
pub proof fn lemma_empty_circuit()
    ensures
        circuit_steps(0) == seq![
            Step::AllocateAggregatedPoint,
            Step::AllocateAggregateScalar,
            Step::LoadIdentity,
            Step::EnforceAggregate,
        ],
{
}

} // verus!
