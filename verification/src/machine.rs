use vstd::prelude::*;
use crate::error::CircuitError;
use crate::step::{step_at, step_count, Phase, Step};

verus! {

/// The mathematical state of a generation pass: how many terms the circuit
/// has, how many steps have been carried out, and the failure that ended the
/// pass, if one did.
pub struct SynthesisState {
    pub terms: nat,
    pub performed: nat,
    pub failure: Option<CircuitError>,
}

/// The error reported when `step` cannot be carried out.
pub open spec fn failure_of(step: Step) -> CircuitError {
    if step.is_allocation() {
        CircuitError::AllocationFailure
    } else {
        CircuitError::ConstraintSynthesisFailure
    }
}

impl SynthesisState {
    /// The state before the first step of a circuit with `terms` terms.
    pub open spec fn initial(terms: nat) -> SynthesisState {
        SynthesisState { terms, performed: 0, failure: None }
    }

    /// The step to carry out next, or `None` once the pass is over.
    pub open spec fn pending(self) -> Option<Step> {
        if self.failure is None && self.performed < step_count(self.terms) {
            Some(step_at(self.terms, self.performed))
        } else {
            None
        }
    }

    /// The phase the pass is in.
    pub open spec fn phase(self) -> Phase {
        match self.pending() {
            Some(step) => step.phase(),
            None => Phase::Done,
        }
    }

    /// The state after the pending step succeeded or failed. A pass that is
    /// over stays as it is.
    pub open spec fn advance(self, success: bool) -> SynthesisState {
        match self.pending() {
            None => self,
            Some(step) => if success {
                SynthesisState { performed: self.performed + 1, ..self }
            } else {
                SynthesisState { failure: Some(failure_of(step)), ..self }
            },
        }
    }

    /// How the pass ended, or `None` while steps are pending.
    pub open spec fn outcome(self) -> Option<Result<(), CircuitError>> {
        if self.pending() is Some {
            None
        } else {
            match self.failure {
                Some(e) => Some(Err(e)),
                None => Some(Ok(())),
            }
        }
    }

    /// The state after `k` steps in a row succeeded.
    pub open spec fn after_successes(terms: nat, k: nat) -> SynthesisState
        decreases k,
    {
        if k == 0 {
            Self::initial(terms)
        } else {
            Self::after_successes(terms, (k - 1) as nat).advance(true)
        }
    }
}

/// Drives one generation pass: it names each step to carry out and takes
/// note of how the step went. Whoever holds it carries the steps out.
pub struct Synthesis {
    terms: usize,
    next: Option<Step>,
    error: Option<CircuitError>,
}

impl View for Synthesis {
    type V = SynthesisState;

    closed spec fn view(&self) -> SynthesisState {
        SynthesisState {
            terms: self.terms as nat,
            performed: match self.next {
                Some(step) => step.position(self.terms as nat),
                None => step_count(self.terms as nat),
            },
            failure: self.error,
        }
    }
}

impl Synthesis {
    /// The recorded step belongs to the circuit.
    #[verifier::type_invariant]
    spec fn wf(&self) -> bool {
        match self.next {
            Some(step) => step.in_circuit(self.terms as nat),
            None => true,
        }
    }

    /// Starts a pass for `scalars` random scalars and `points` commitment
    /// points. The two counts must agree; nothing has been carried out yet.
    pub fn begin(scalars: usize, points: usize) -> (r: Result<Synthesis, CircuitError>)
        ensures
            r is Err <==> scalars != points,
            r matches Err(e) ==> e == CircuitError::PreconditionViolation,
            r matches Ok(m) ==> m@ == SynthesisState::initial(scalars as nat),
    {
        if scalars != points {
            return Err(CircuitError::PreconditionViolation);
        }
        Ok(Synthesis { terms: scalars, next: Some(Step::first(scalars)), error: None })
    }

    /// The number of terms of the circuit.
    pub fn terms(&self) -> (r: usize)
        ensures
            r == self@.terms,
    {
        self.terms
    }

    /// The step to carry out next, or `None` once the pass is over.
    pub fn pending(&self) -> (r: Option<Step>)
        ensures
            r == self@.pending(),
            r matches Some(step) ==> step.in_circuit(self@.terms),
    {
        proof {
            use_type_invariant(self);
        }
        if self.error.is_some() {
            return None;
        }
        proof {
            if let Some(step) = self.next {
                crate::step::lemma_position_inverts_step_at(self.terms as nat, step);
            }
        }
        self.next
    }

    /// The phase the pass is in.
    pub fn phase(&self) -> (r: Phase)
        ensures
            r == self@.phase(),
    {
        match self.pending() {
            Some(step) => if step.allocates() {
                Phase::Allocating
            } else {
                Phase::Constraining
            },
            None => Phase::Done,
        }
    }

    /// Takes note that the pending step succeeded or failed. A failure ends
    /// the pass; so does the success of the last step. Once the pass is over
    /// nothing changes any more.
    pub fn advance(&mut self, success: bool)
        ensures
            final(self)@ == old(self)@.advance(success),
    {
        proof {
            use_type_invariant(&*self);
        }
        match self.pending() {
            None => {},
            Some(step) => {
                if success {
                    let next = step.successor(self.terms);
                    self.next = next;
                } else if step.allocates() {
                    self.error = Some(CircuitError::AllocationFailure);
                } else {
                    self.error = Some(CircuitError::ConstraintSynthesisFailure);
                }
            },
        }
    }

    /// How the pass ended: `Ok` if every step succeeded, the error of the
    /// step that failed otherwise, or `None` while steps are pending.
    pub fn outcome(&self) -> (r: Option<Result<(), CircuitError>>)
        ensures
            r == self@.outcome(),
    {
        if self.pending().is_some() {
            return None;
        }
        match self.error {
            Some(e) => Some(Err(e)),
            None => Some(Ok(())),
        }
    }
}

/// While every step succeeds, the pass carries out the steps of the circuit
/// in order, each in its phase.
pub proof fn lemma_successes_follow_the_circuit(terms: nat, k: nat)
    requires
        terms <= usize::MAX,
        k <= step_count(terms),
    ensures
        SynthesisState::after_successes(terms, k) == (SynthesisState {
            terms,
            performed: k,
            failure: None,
        }),
        k < step_count(terms) ==> SynthesisState::after_successes(terms, k).pending() == Some(
            step_at(terms, k),
        ),
    decreases k,
{
    if k > 0 {
        lemma_successes_follow_the_circuit(terms, (k - 1) as nat);
    }
}

/// A pass in which every step succeeds ends with success after exactly
/// `step_count(terms)` steps, and not before.
pub proof fn lemma_all_successes_complete(terms: nat)
    requires
        terms <= usize::MAX,
    ensures
        SynthesisState::after_successes(terms, step_count(terms)).outcome() == Some(
            Ok::<(), CircuitError>(()),
        ),
        SynthesisState::after_successes(terms, step_count(terms)).phase() == Phase::Done,
        forall|k: nat|
            k < step_count(terms) ==> (#[trigger] SynthesisState::after_successes(
                terms,
                k,
            )).outcome() is None,
{
    lemma_successes_follow_the_circuit(terms, step_count(terms));
    assert forall|k: nat| k < step_count(terms) implies (#[trigger] SynthesisState::after_successes(
        terms,
        k,
    )).outcome() is None by {
        lemma_successes_follow_the_circuit(terms, k);
    }
}

/// A failure ends the pass at once, with the error of the phase it happened
/// in, and leaves the count of completed steps as it was.
pub proof fn lemma_failure_ends_the_pass(state: SynthesisState)
    requires
        state.terms <= usize::MAX,
        state.pending() is Some,
    ensures
        state.advance(false).phase() == Phase::Done,
        state.advance(false).performed == state.performed,
        state.phase() == Phase::Allocating ==> state.advance(false).outcome() == Some(
            Err::<(), CircuitError>(CircuitError::AllocationFailure),
        ),
        state.phase() == Phase::Constraining ==> state.advance(false).outcome() == Some(
            Err::<(), CircuitError>(CircuitError::ConstraintSynthesisFailure),
        ),
{
}

/// A pass that is over cannot be entered again: neither a success nor a
/// failure changes it.
pub proof fn lemma_done_is_final(state: SynthesisState, success: bool)
    requires
        state.phase() == Phase::Done,
    ensures
        state.advance(success) == state,
{
}

/// The phases follow each other in one direction: a pass never returns from
/// constraining to allocating.
pub proof fn lemma_phases_do_not_go_back(state: SynthesisState, success: bool)
    requires
        state.terms <= usize::MAX,
        state.performed <= step_count(state.terms),
    ensures
        state.phase() == Phase::Constraining ==> state.advance(success).phase()
            != Phase::Allocating,
        state.advance(success).performed <= step_count(state.terms),
{
}

} // verus!
