use ark_circuit::{CircuitError, Phase, Step, Synthesis};

fn run(pass: &mut Synthesis, fail_at: Option<usize>) -> Vec<(Phase, Step)> {
    let mut seen = Vec::new();
    while let Some(step) = pass.pending() {
        let ok = fail_at != Some(seen.len());
        seen.push((pass.phase(), step));
        pass.advance(ok);
    }
    seen
}

#[test]
fn begin_rejects_different_lengths() {
    assert!(matches!(Synthesis::begin(2, 3), Err(CircuitError::PreconditionViolation)));
    assert!(matches!(Synthesis::begin(1, 0), Err(CircuitError::PreconditionViolation)));
    assert!(matches!(Synthesis::begin(0, 0), Ok(_)));
    assert!(matches!(Synthesis::begin(4, 4), Ok(_)));
}

#[test]
fn a_pass_starts_allocating_with_nothing_decided() {
    let pass = Synthesis::begin(2, 2).unwrap();
    assert_eq!(pass.terms(), 2);
    assert_eq!(pass.phase(), Phase::Allocating);
    assert_eq!(pass.pending(), Some(Step::AllocateScalar { index: 0 }));
    assert_eq!(pass.outcome(), None);
}

#[test]
fn successes_walk_through_every_step_in_order() {
    let mut pass = Synthesis::begin(2, 2).unwrap();
    let seen = run(&mut pass, None);
    assert_eq!(
        seen,
        vec![
            (Phase::Allocating, Step::AllocateScalar { index: 0 }),
            (Phase::Allocating, Step::AllocateScalar { index: 1 }),
            (Phase::Allocating, Step::AllocateAggregatedPoint),
            (Phase::Allocating, Step::AllocateAggregateScalar),
            (Phase::Allocating, Step::AllocatePoint { index: 0 }),
            (Phase::Allocating, Step::AllocatePoint { index: 1 }),
            (Phase::Constraining, Step::LoadIdentity),
            (Phase::Constraining, Step::Accumulate { index: 0 }),
            (Phase::Constraining, Step::Accumulate { index: 1 }),
            (Phase::Constraining, Step::EnforceAggregate),
        ]
    );
    assert_eq!(pass.phase(), Phase::Done);
    assert_eq!(pass.pending(), None);
    assert_eq!(pass.outcome(), Some(Ok(())));
}

#[test]
fn a_pass_without_terms_has_four_steps() {
    let mut pass = Synthesis::begin(0, 0).unwrap();
    let seen = run(&mut pass, None);
    assert_eq!(
        seen,
        vec![
            (Phase::Allocating, Step::AllocateAggregatedPoint),
            (Phase::Allocating, Step::AllocateAggregateScalar),
            (Phase::Constraining, Step::LoadIdentity),
            (Phase::Constraining, Step::EnforceAggregate),
        ]
    );
    assert_eq!(pass.outcome(), Some(Ok(())));
}

#[test]
fn the_number_of_steps_is_three_per_term_and_four() {
    for n in [0usize, 1, 2, 5, 17] {
        let mut pass = Synthesis::begin(n, n).unwrap();
        let seen = run(&mut pass, None);
        assert_eq!(seen.len(), 3 * n + 4);
        let allocations = seen.iter().filter(|(phase, _)| *phase == Phase::Allocating).count();
        assert_eq!(allocations, 2 * n + 2);
    }
}

#[test]
fn a_failed_allocation_ends_the_pass() {
    let mut pass = Synthesis::begin(2, 2).unwrap();
    let seen = run(&mut pass, Some(4));
    assert_eq!(seen.len(), 5);
    assert_eq!(seen[4], (Phase::Allocating, Step::AllocatePoint { index: 0 }));
    assert_eq!(pass.phase(), Phase::Done);
    assert_eq!(pass.pending(), None);
    assert_eq!(pass.outcome(), Some(Err(CircuitError::AllocationFailure)));
}

#[test]
fn a_failure_of_the_first_step_is_an_allocation_failure() {
    let mut pass = Synthesis::begin(1, 1).unwrap();
    pass.advance(false);
    assert_eq!(pass.outcome(), Some(Err(CircuitError::AllocationFailure)));
}

#[test]
fn a_failed_constraint_ends_the_pass() {
    for fail_at in [6usize, 7, 8, 9] {
        let mut pass = Synthesis::begin(2, 2).unwrap();
        let seen = run(&mut pass, Some(fail_at));
        assert_eq!(seen.len(), fail_at + 1);
        assert_eq!(seen[fail_at].0, Phase::Constraining);
        assert_eq!(pass.phase(), Phase::Done);
        assert_eq!(pass.outcome(), Some(Err(CircuitError::ConstraintSynthesisFailure)));
    }
}

#[test]
fn a_finished_pass_cannot_be_entered_again() {
    let mut pass = Synthesis::begin(1, 1).unwrap();
    run(&mut pass, None);
    assert_eq!(pass.outcome(), Some(Ok(())));
    pass.advance(true);
    assert_eq!(pass.pending(), None);
    assert_eq!(pass.outcome(), Some(Ok(())));
    pass.advance(false);
    assert_eq!(pass.phase(), Phase::Done);
    assert_eq!(pass.outcome(), Some(Ok(())));

    let mut failed = Synthesis::begin(1, 1).unwrap();
    run(&mut failed, Some(1));
    assert_eq!(failed.outcome(), Some(Err(CircuitError::AllocationFailure)));
    failed.advance(true);
    assert_eq!(failed.pending(), None);
    assert_eq!(failed.outcome(), Some(Err(CircuitError::AllocationFailure)));
}

#[test]
fn steps_know_their_successor() {
    assert_eq!(Step::first(0), Step::AllocateAggregatedPoint);
    assert_eq!(Step::first(3), Step::AllocateScalar { index: 0 });
    assert_eq!(
        Step::AllocateScalar { index: 0 }.successor(2),
        Some(Step::AllocateScalar { index: 1 })
    );
    assert_eq!(Step::AllocateScalar { index: 1 }.successor(2), Some(Step::AllocateAggregatedPoint));
    assert_eq!(Step::AllocateAggregatedPoint.successor(2), Some(Step::AllocateAggregateScalar));
    assert_eq!(
        Step::AllocateAggregateScalar.successor(2),
        Some(Step::AllocatePoint { index: 0 })
    );
    assert_eq!(Step::AllocateAggregateScalar.successor(0), Some(Step::LoadIdentity));
    assert_eq!(Step::AllocatePoint { index: 1 }.successor(2), Some(Step::LoadIdentity));
    assert_eq!(Step::LoadIdentity.successor(2), Some(Step::Accumulate { index: 0 }));
    assert_eq!(Step::LoadIdentity.successor(0), Some(Step::EnforceAggregate));
    assert_eq!(Step::Accumulate { index: 0 }.successor(2), Some(Step::Accumulate { index: 1 }));
    assert_eq!(Step::Accumulate { index: 1 }.successor(2), Some(Step::EnforceAggregate));
    assert_eq!(Step::EnforceAggregate.successor(2), None);
}

#[test]
fn steps_tell_allocations_from_constraints() {
    assert!(Step::AllocateScalar { index: 3 }.allocates());
    assert!(Step::AllocateAggregatedPoint.allocates());
    assert!(Step::AllocateAggregateScalar.allocates());
    assert!(Step::AllocatePoint { index: 0 }.allocates());
    assert!(!Step::LoadIdentity.allocates());
    assert!(!Step::Accumulate { index: 0 }.allocates());
    assert!(!Step::EnforceAggregate.allocates());
}

#[test]
fn a_step_outside_the_circuit_still_has_a_successor() {
    assert_eq!(
        Step::AllocateScalar { index: usize::MAX }.successor(3),
        Some(Step::AllocateAggregatedPoint)
    );
    assert_eq!(Step::AllocatePoint { index: 7 }.successor(3), Some(Step::LoadIdentity));
    assert_eq!(
        Step::Accumulate { index: usize::MAX }.successor(0),
        Some(Step::EnforceAggregate)
    );
}
