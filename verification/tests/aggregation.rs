use ark_bls12_377::{Fq, Fr, G1Affine, G1Projective};
use ark_circuit::{
    AggKZGCircuit, AggKZGInstances, AggKZGWitness, CircuitError, ConstraintSystem, Point, Scalar,
    Step,
};
use ark_ec::{AffineRepr, CurveGroup};
use ark_ff::{PrimeField, Zero};
use ark_serialize::CanonicalSerialize;

fn scalar(value: Fq) -> Scalar {
    let mut bytes = Vec::new();
    value.serialize_compressed(&mut bytes).unwrap();
    Scalar::from_bytes(&bytes).unwrap()
}

fn point(value: G1Affine) -> Point {
    let mut bytes = Vec::new();
    value.serialize_compressed(&mut bytes).unwrap();
    Point::from_bytes(&bytes).unwrap()
}

fn multiple(k: u64) -> G1Affine {
    (G1Affine::generator() * Fr::from(k)).into_affine()
}

fn weighted(scalar: Fq, point: G1Affine) -> G1Projective {
    point.mul_bigint(scalar.into_bigint())
}

fn circuit(scalars: &[Fq], y: G1Affine, points: &[G1Affine]) -> AggKZGCircuit {
    AggKZGCircuit {
        instance: AggKZGInstances {
            random_scalars: scalars.iter().map(|s| scalar(*s)).collect(),
            y: point(y),
            commitments: scalar(Fq::from(11u64)),
        },
        witness: AggKZGWitness { group_points: points.iter().map(|p| point(*p)).collect() },
    }
}

fn expected_steps(n: usize) -> Vec<Step> {
    let mut steps = Vec::new();
    for index in 0..n {
        steps.push(Step::AllocateScalar { index });
    }
    steps.push(Step::AllocateAggregatedPoint);
    steps.push(Step::AllocateAggregateScalar);
    for index in 0..n {
        steps.push(Step::AllocatePoint { index });
    }
    steps.push(Step::LoadIdentity);
    for index in 0..n {
        steps.push(Step::Accumulate { index });
    }
    steps.push(Step::EnforceAggregate);
    steps
}

#[test]
fn two_terms_with_the_right_aggregate_are_satisfied() {
    let (scalar_a, scalar_b) = (Fq::from(5u64), -Fq::from(3u64));
    let (point_a, point_b) = (multiple(2), multiple(9));
    let y = (weighted(scalar_a, point_a) + weighted(scalar_b, point_b)).into_affine();
    let mut cs = ConstraintSystem::new();
    let result = circuit(&[scalar_a, scalar_b], y, &[point_a, point_b]).generate_constraints(&mut cs);
    assert_eq!(result, Ok(()));
    assert_eq!(cs.is_satisfied(), Some(true));
    assert_eq!(
        cs.steps(),
        &vec![
            Step::AllocateScalar { index: 0 },
            Step::AllocateScalar { index: 1 },
            Step::AllocateAggregatedPoint,
            Step::AllocateAggregateScalar,
            Step::AllocatePoint { index: 0 },
            Step::AllocatePoint { index: 1 },
            Step::LoadIdentity,
            Step::Accumulate { index: 0 },
            Step::Accumulate { index: 1 },
            Step::EnforceAggregate,
        ]
    );
}

#[test]
fn two_terms_with_one_extra_addition_are_unsatisfied() {
    let (scalar_a, scalar_b) = (Fq::from(5u64), -Fq::from(3u64));
    let (point_a, point_b) = (multiple(2), multiple(9));
    let y = (weighted(scalar_a, point_a) + weighted(scalar_b, point_b) + point_a).into_affine();
    let mut cs = ConstraintSystem::new();
    let result = circuit(&[scalar_a, scalar_b], y, &[point_a, point_b]).generate_constraints(&mut cs);
    assert_eq!(result, Ok(()));
    assert_eq!(cs.is_satisfied(), Some(false));
}

#[test]
fn swapped_scalars_are_unsatisfied() {
    let (scalar_a, scalar_b) = (Fq::from(5u64), Fq::from(8u64));
    let (point_a, point_b) = (multiple(2), multiple(9));
    let y = (weighted(scalar_a, point_a) + weighted(scalar_b, point_b)).into_affine();
    let mut cs = ConstraintSystem::new();
    let result = circuit(&[scalar_b, scalar_a], y, &[point_a, point_b]).generate_constraints(&mut cs);
    assert_eq!(result, Ok(()));
    assert_eq!(cs.is_satisfied(), Some(false));
}

#[test]
fn mismatched_lengths_are_rejected_before_anything_is_emitted() {
    let mut cs = ConstraintSystem::new();
    let result = circuit(&[Fq::from(1u64), Fq::from(2u64)], multiple(1), &[multiple(1)])
        .generate_constraints(&mut cs);
    assert_eq!(result, Err(CircuitError::PreconditionViolation));
    assert_eq!(cs.num_instance_variables(), 1);
    assert_eq!(cs.num_witness_variables(), 0);
    assert_eq!(cs.num_constraints(), 0);
    assert!(cs.steps().is_empty());
}

#[test]
fn a_witness_without_scalars_is_rejected() {
    let mut cs = ConstraintSystem::new();
    let result = circuit(&[], G1Affine::zero(), &[multiple(1)]).generate_constraints(&mut cs);
    assert_eq!(result, Err(CircuitError::PreconditionViolation));
    assert_eq!(cs.num_instance_variables(), 1);
    assert!(cs.steps().is_empty());
}

#[test]
fn no_terms_accept_the_identity() {
    let mut cs = ConstraintSystem::new();
    let result = circuit(&[], G1Affine::zero(), &[]).generate_constraints(&mut cs);
    assert_eq!(result, Ok(()));
    assert_eq!(cs.is_satisfied(), Some(true));
    assert_eq!(
        cs.steps(),
        &vec![
            Step::AllocateAggregatedPoint,
            Step::AllocateAggregateScalar,
            Step::LoadIdentity,
            Step::EnforceAggregate,
        ]
    );
    assert_eq!(cs.num_instance_variables(), 1 + 4);
}

#[test]
fn no_terms_reject_any_other_point() {
    let mut cs = ConstraintSystem::new();
    let result = circuit(&[], multiple(1), &[]).generate_constraints(&mut cs);
    assert_eq!(result, Ok(()));
    assert_eq!(cs.is_satisfied(), Some(false));
}

#[test]
fn a_zero_scalar_contributes_the_identity() {
    let (scalar_a, scalar_b) = (Fq::zero(), Fq::from(6u64));
    let (point_a, point_b) = (multiple(4), multiple(7));
    let y = weighted(scalar_b, point_b).into_affine();
    assert_eq!(y, multiple(42));
    let mut cs = ConstraintSystem::new();
    let result = circuit(&[scalar_a, scalar_b], y, &[point_a, point_b]).generate_constraints(&mut cs);
    assert_eq!(result, Ok(()));
    assert_eq!(cs.is_satisfied(), Some(true));
}

#[test]
fn all_zero_scalars_aggregate_to_the_identity() {
    let mut cs = ConstraintSystem::new();
    let result = circuit(&[Fq::zero()], G1Affine::zero(), &[multiple(3)])
        .generate_constraints(&mut cs);
    assert_eq!(result, Ok(()));
    assert_eq!(cs.is_satisfied(), Some(true));
}

#[test]
fn an_identity_point_contributes_nothing() {
    let (scalar_a, scalar_b) = (Fq::from(9u64), Fq::from(2u64));
    let (point_a, point_b) = (G1Affine::zero(), multiple(5));
    let mut cs = ConstraintSystem::new();
    let result = circuit(&[scalar_a, scalar_b], multiple(10), &[point_a, point_b]).generate_constraints(&mut cs);
    assert_eq!(result, Ok(()));
    assert_eq!(cs.is_satisfied(), Some(true));
}

#[test]
fn three_terms_bind_five_public_inputs_and_three_witnesses() {
    let scalars = [Fq::from(2u64), Fq::from(3u64), Fq::from(4u64)];
    let points = [multiple(1), multiple(2), multiple(3)];
    let mut cs = ConstraintSystem::new();
    let result = circuit(&scalars, multiple(20), &points).generate_constraints(&mut cs);
    assert_eq!(result, Ok(()));
    assert_eq!(cs.is_satisfied(), Some(true));
    let steps = cs.steps();
    assert_eq!(steps, &expected_steps(3));
    assert_eq!(steps.len(), 3 * 3 + 4);
    let public: Vec<&Step> = steps
        .iter()
        .filter(|s| {
            matches!(
                s,
                Step::AllocateScalar { .. }
                    | Step::AllocateAggregatedPoint
                    | Step::AllocateAggregateScalar
            )
        })
        .collect();
    assert_eq!(
        public,
        vec![
            &Step::AllocateScalar { index: 0 },
            &Step::AllocateScalar { index: 1 },
            &Step::AllocateScalar { index: 2 },
            &Step::AllocateAggregatedPoint,
            &Step::AllocateAggregateScalar,
        ]
    );
    let private = steps.iter().filter(|s| matches!(s, Step::AllocatePoint { .. })).count();
    assert_eq!(private, 3);
    // The constant one, three scalars, three coordinates of `y`, `commitments`.
    assert_eq!(cs.num_instance_variables(), 1 + 3 + 3 + 1);
    assert!(cs.num_witness_variables() >= 3 * 3);
    assert!(cs.num_constraints() > 0);
}

#[test]
fn the_shape_does_not_depend_on_the_witness() {
    let scalars = [Fq::from(2u64), Fq::from(3u64)];
    let y = multiple(8);
    let mut first = ConstraintSystem::new();
    let mut second = ConstraintSystem::new();
    assert_eq!(
        circuit(&scalars, y, &[multiple(1), multiple(2)]).generate_constraints(&mut first),
        Ok(())
    );
    assert_eq!(
        circuit(&scalars, y, &[multiple(77), multiple(1234)]).generate_constraints(&mut second),
        Ok(())
    );
    assert_eq!(first.is_satisfied(), Some(true));
    assert_eq!(second.is_satisfied(), Some(false));
    assert_eq!(first.steps(), second.steps());
    assert_eq!(first.num_instance_variables(), second.num_instance_variables());
    assert_eq!(first.num_witness_variables(), second.num_witness_variables());
    assert_eq!(first.num_constraints(), second.num_constraints());
}

#[test]
fn a_fresh_system_holds_only_the_constant_one() {
    let cs = ConstraintSystem::new();
    assert_eq!(cs.num_instance_variables(), 1);
    assert_eq!(cs.num_witness_variables(), 0);
    assert_eq!(cs.num_constraints(), 0);
    assert!(cs.steps().is_empty());
    assert_eq!(cs.is_satisfied(), Some(true));
}

#[test]
fn a_second_pass_appends_to_the_record() {
    let scalars = [Fq::from(2u64)];
    let built = circuit(&scalars, multiple(6), &[multiple(3)]);
    let again = built.clone();
    let mut cs = ConstraintSystem::new();
    assert_eq!(built.generate_constraints(&mut cs), Ok(()));
    let after_one = cs.num_instance_variables();
    assert_eq!(after_one, 1 + 1 + 4);
    assert_eq!(again.generate_constraints(&mut cs), Ok(()));
    assert_eq!(cs.num_instance_variables(), after_one + 1 + 4);
    let mut twice = expected_steps(1);
    twice.extend(expected_steps(1));
    assert_eq!(cs.steps(), &twice);
    assert_eq!(cs.is_satisfied(), Some(true));
}

#[test]
fn canonical_bytes_decode_and_others_do_not() {
    let mut bytes = Vec::new();
    Fq::from(5u64).serialize_compressed(&mut bytes).unwrap();
    assert_eq!(bytes.len(), 48);
    assert!(Scalar::from_bytes(&bytes).is_some());
    assert!(Scalar::from_bytes(&bytes[..47]).is_none());
    assert!(Scalar::from_bytes(&[]).is_none());
    assert!(Scalar::from_bytes(&[0xff; 48]).is_none());

    let mut encoded = Vec::new();
    multiple(3).serialize_compressed(&mut encoded).unwrap();
    assert!(Point::from_bytes(&encoded).is_some());
    assert!(Point::from_bytes(&encoded[..10]).is_none());
    assert!(Point::from_bytes(&[0xff; 48]).is_none());
}

#[test]
fn a_decoded_value_is_the_encoded_one() {
    // The aggregate is accepted only if each decoded value is the value
    // that was encoded.
    let r = Fq::from(123_456_789u64);
    let p = multiple(31);
    let y = weighted(r, p).into_affine();
    let mut cs = ConstraintSystem::new();
    assert_eq!(circuit(&[r], y, &[p]).generate_constraints(&mut cs), Ok(()));
    assert_eq!(cs.is_satisfied(), Some(true));
    let mut other = ConstraintSystem::new();
    assert_eq!(
        circuit(&[r + Fq::from(1u64)], y, &[p]).generate_constraints(&mut other),
        Ok(())
    );
    assert_eq!(other.is_satisfied(), Some(false));
}

#[test]
fn a_handle_without_a_system_fails_the_first_allocation() {
    let mut cs = ConstraintSystem::detached();
    assert_eq!(cs.num_instance_variables(), 0);
    let result = circuit(&[Fq::from(2u64)], multiple(6), &[multiple(3)])
        .generate_constraints(&mut cs);
    assert_eq!(result, Err(CircuitError::AllocationFailure));
    assert!(cs.steps().is_empty());
    assert_eq!(cs.num_instance_variables(), 0);
    assert_eq!(cs.num_witness_variables(), 0);
    assert_eq!(cs.num_constraints(), 0);
    assert_eq!(cs.is_satisfied(), None);

    let mut empty = ConstraintSystem::detached();
    let result = circuit(&[], G1Affine::zero(), &[]).generate_constraints(&mut empty);
    assert_eq!(result, Err(CircuitError::AllocationFailure));
    assert!(empty.steps().is_empty());
}

#[test]
fn different_lengths_are_rejected_before_the_handle_is_used() {
    let mut cs = ConstraintSystem::detached();
    let result = circuit(&[Fq::from(2u64)], multiple(6), &[]).generate_constraints(&mut cs);
    assert_eq!(result, Err(CircuitError::PreconditionViolation));
    assert!(cs.steps().is_empty());
}
