use bellman::gadgets::test::TestConstraintSystem;
use bellman::groth16::{create_random_proof, generate_random_parameters, Parameters};
use bellman::{Circuit, ConstraintSystem, Index, SynthesisError as BackendError};
use bls12_381::{Bls12, G1Affine, G2Affine, Scalar};
use rand::rngs::StdRng;
use rand::SeedableRng;
use zk_redact::circuit::{
    Provided, RedactionCircuit, Request, Response, Synthesis, Variable, Witness,
};
use zk_redact::error::{Error, SynthesisError, VerificationError};
use zk_redact::field::{encode, FieldElement};
use zk_redact::pipeline::{
    build_witness, finish_generation, finish_proving, finish_verification, public_inputs, verify,
    Proof, VerifyingKey,
};

const INVALID_PROOF: Error = Error::VerificationFailed(VerificationError::InvalidProof);

struct Driven(RedactionCircuit);

fn backend_error(e: SynthesisError) -> BackendError {
    match e {
        SynthesisError::AssignmentMissing => BackendError::AssignmentMissing,
        SynthesisError::DivisionByZero => BackendError::DivisionByZero,
        SynthesisError::Unsatisfiable => BackendError::Unsatisfiable,
        SynthesisError::PolynomialDegreeTooLarge => BackendError::PolynomialDegreeTooLarge,
        SynthesisError::UnexpectedIdentity => BackendError::UnexpectedIdentity,
        SynthesisError::IoError => BackendError::IoError(std::io::ErrorKind::Other.into()),
        SynthesisError::UnconstrainedVariable => BackendError::UnconstrainedVariable,
    }
}

fn library_error(e: BackendError) -> SynthesisError {
    match e {
        BackendError::AssignmentMissing => SynthesisError::AssignmentMissing,
        BackendError::DivisionByZero => SynthesisError::DivisionByZero,
        BackendError::Unsatisfiable => SynthesisError::Unsatisfiable,
        BackendError::PolynomialDegreeTooLarge => SynthesisError::PolynomialDegreeTooLarge,
        BackendError::UnexpectedIdentity => SynthesisError::UnexpectedIdentity,
        BackendError::IoError(_) => SynthesisError::IoError,
        BackendError::UnconstrainedVariable => SynthesisError::UnconstrainedVariable,
    }
}

fn backend_variable(v: Variable) -> bellman::Variable {
    match v {
        Variable::Public(i) => bellman::Variable::new_unchecked(Index::Input(i)),
        Variable::Private(i) => bellman::Variable::new_unchecked(Index::Aux(i)),
    }
}

fn library_variable(v: bellman::Variable) -> Variable {
    match v.get_unchecked() {
        Index::Input(i) => Variable::Public(i),
        Index::Aux(i) => Variable::Private(i),
    }
}

fn scalar(element: &FieldElement) -> Scalar {
    Scalar::from_bytes(&element.to_bytes()).unwrap()
}

fn provide(value: Provided) -> Result<Scalar, BackendError> {
    match value {
        Ok(element) => Ok(scalar(&element)),
        Err(e) => Err(backend_error(e)),
    }
}

fn answer(allocated: Result<bellman::Variable, BackendError>) -> Response {
    match allocated {
        Ok(v) => Response::Allocated(library_variable(v)),
        Err(e) => Response::Failed(library_error(e)),
    }
}

impl Circuit<Scalar> for Driven {
    fn synthesize<CS: ConstraintSystem<Scalar>>(self, cs: &mut CS) -> Result<(), BackendError> {
        let mut synthesis = Synthesis::new(self.0);
        let mut served: usize = 0;
        loop {
            let response = match synthesis.pending() {
                Request::AllocatePrivate(value) => {
                    answer(cs.alloc(|| format!("private {served}"), || provide(value)))
                }
                Request::AllocatePublic(value) => {
                    answer(cs.alloc_input(|| format!("public {served}"), || provide(value)))
                }
                Request::Enforce(constraint) => {
                    cs.enforce(
                        || format!("product {served}"),
                        |lc| lc + backend_variable(constraint.a),
                        |lc| lc + backend_variable(constraint.b),
                        |lc| lc + backend_variable(constraint.c),
                    );
                    Response::Enforced
                }
                Request::Finished(result) => return result.map_err(backend_error),
            };
            synthesis.resume(response);
            served += 1;
        }
    }
}

struct Square(Option<Scalar>);

impl Circuit<Scalar> for Square {
    fn synthesize<CS: ConstraintSystem<Scalar>>(self, cs: &mut CS) -> Result<(), BackendError> {
        let root = self.0;
        let square = root.map(|r| r * r);
        let x = cs.alloc(|| "root", || root.ok_or(BackendError::AssignmentMissing))?;
        let y = cs.alloc_input(|| "square", || square.ok_or(BackendError::AssignmentMissing))?;
        cs.enforce(|| "squaring", |lc| lc + x, |lc| lc + x, |lc| lc + y);
        Ok(())
    }
}

fn library_key(key: &bellman::groth16::VerifyingKey<Bls12>) -> VerifyingKey {
    VerifyingKey {
        alpha_g1: key.alpha_g1,
        beta_g1: key.beta_g1,
        beta_g2: key.beta_g2,
        gamma_g2: key.gamma_g2,
        delta_g1: key.delta_g1,
        delta_g2: key.delta_g2,
        ic: key.ic.clone(),
    }
}

fn library_proof(proof: bellman::groth16::Proof<Bls12>) -> Proof {
    Proof { a: proof.a, b: proof.b, c: proof.c }
}

fn generate(seed: u64) -> Result<(Parameters<Bls12>, VerifyingKey), Error> {
    let mut rng = StdRng::seed_from_u64(seed);
    let circuit = Driven(RedactionCircuit::Unassigned);
    let outcome = generate_random_parameters::<Bls12, _, _>(circuit, &mut rng);
    let outcome = outcome.map(|parameters| {
        let key = library_key(&parameters.vk);
        (parameters, key)
    });
    finish_generation(outcome.map_err(library_error))
}

fn prove(
    parameters: &Parameters<Bls12>,
    circuit: RedactionCircuit,
    rng: &mut StdRng,
) -> Result<Proof, Error> {
    let outcome = create_random_proof(Driven(circuit), parameters, rng);
    finish_proving(outcome.map(library_proof).map_err(library_error))
}

fn bad_g1() -> G1Affine {
    G1Affine::from_uncompressed_unchecked(&[0u8; 96]).unwrap()
}

fn bad_g2() -> G2Affine {
    G2Affine::from_uncompressed_unchecked(&[0u8; 192]).unwrap()
}

fn outside_the_subgroup() -> G1Affine {
    for x in 1..=255u8 {
        let mut bytes = [0u8; 48];
        bytes[0] = 0x80;
        bytes[47] = x;
        let point = G1Affine::from_compressed_unchecked(&bytes);
        if bool::from(point.is_some()) {
            let point = point.unwrap();
            if !bool::from(point.is_torsion_free()) {
                return point;
            }
        }
    }
    panic!("no point outside the subgroup was found");
}

const INVALID_KEY: Error = Error::VerificationFailed(VerificationError::InvalidVerifyingKey);

fn honest(document: [u8; 2], mask: [u8; 2]) -> Witness {
    build_witness(&document, &mask).unwrap()
}

fn synthesized(circuit: RedactionCircuit) -> TestConstraintSystem<Scalar> {
    let mut cs = TestConstraintSystem::<Scalar>::new();
    Driven(circuit).synthesize(&mut cs).unwrap();
    cs
}

#[test]
fn witness_holds_the_encodings() {
    let witness = honest([20, 20], [1, 0]);
    assert_eq!(witness.document, [encode(20), encode(20)]);
    assert_eq!(witness.redactor, [encode(1), encode(0)]);
    assert_eq!(witness.redacted, [encode(20), encode(0)]);
}

#[test]
fn witness_holds_products_above_a_byte() {
    let witness = honest([255, 16], [255, 16]);
    assert_eq!(witness.redacted, [encode(65025), encode(256)]);
}

#[test]
fn witness_needs_vectors_of_the_fixed_length() {
    assert_eq!(build_witness(&[20], &[1, 0]), Err(Error::LengthMismatch));
    assert_eq!(build_witness(&[20, 20], &[1, 0, 1]), Err(Error::LengthMismatch));
    assert_eq!(build_witness(&[], &[]), Err(Error::LengthMismatch));
}

#[test]
fn witness_is_repeatable() {
    assert_eq!(build_witness(&[20, 20], &[1, 0]), build_witness(&[20, 20], &[1, 0]));
}

#[test]
fn public_inputs_are_mask_then_redacted() {
    let witness = honest([20, 30], [1, 2]);
    let inputs = public_inputs(&witness.redactor, &witness.redacted);
    assert_eq!(inputs, vec![encode(1), encode(2), encode(20), encode(60)]);
}

#[test]
fn generation_failure_is_reported_as_such() {
    let failures = [
        SynthesisError::AssignmentMissing,
        SynthesisError::DivisionByZero,
        SynthesisError::Unsatisfiable,
        SynthesisError::PolynomialDegreeTooLarge,
        SynthesisError::UnexpectedIdentity,
        SynthesisError::IoError,
        SynthesisError::UnconstrainedVariable,
    ];
    for failure in failures.iter() {
        let result: Result<u8, Error> = finish_generation(Err(*failure));
        assert_eq!(result, Err(Error::ParameterGenerationFailed(*failure)));
    }
    assert_eq!(finish_generation(Ok(7u8)), Ok(7u8));
}

#[test]
fn proving_failure_keeps_a_missing_assignment() {
    let result = finish_proving(Err(SynthesisError::AssignmentMissing));
    assert!(matches!(result, Err(Error::AssignmentMissing)));
}

#[test]
fn proving_failure_of_the_backend_is_reported_as_such() {
    let failures = [
        SynthesisError::DivisionByZero,
        SynthesisError::Unsatisfiable,
        SynthesisError::PolynomialDegreeTooLarge,
        SynthesisError::UnexpectedIdentity,
        SynthesisError::IoError,
        SynthesisError::UnconstrainedVariable,
    ];
    for failure in failures.iter() {
        match finish_proving(Err(*failure)) {
            Err(e) => assert_eq!(e, Error::ProvingFailed(*failure)),
            Ok(_) => panic!("a failed proving gave a proof"),
        }
    }
}

#[test]
fn accepted_proof_is_a_successful_verification() {
    assert_eq!(finish_verification(Ok(())), Ok(()));
}

#[test]
fn rejected_proof_is_a_failed_verification_with_its_reason() {
    assert_eq!(
        finish_verification(Err(VerificationError::InvalidProof)),
        Err(Error::VerificationFailed(VerificationError::InvalidProof)),
    );
    assert_eq!(
        finish_verification(Err(VerificationError::InvalidVerifyingKey)),
        Err(Error::VerificationFailed(VerificationError::InvalidVerifyingKey)),
    );
}

#[test]
fn constraint_system_has_the_circuit_shape() {
    let cs = synthesized(RedactionCircuit::Assigned(honest([20, 20], [1, 0])));
    assert_eq!(cs.num_constraints(), 2);
    assert_eq!(cs.num_inputs(), 5);
}

#[test]
fn constraint_system_declares_public_inputs_in_order() {
    let witness = honest([20, 30], [1, 2]);
    let cs = synthesized(RedactionCircuit::Assigned(witness));
    let inputs = public_inputs(&witness.redactor, &witness.redacted);
    let inputs: Vec<Scalar> = inputs.iter().map(scalar).collect();
    assert!(cs.verify(&inputs));
    let swapped = public_inputs(&witness.redacted, &witness.redactor);
    let swapped: Vec<Scalar> = swapped.iter().map(scalar).collect();
    assert!(!cs.verify(&swapped));
}

#[test]
fn honest_witness_satisfies_the_constraints() {
    assert!(synthesized(RedactionCircuit::Assigned(honest([20, 20], [1, 0]))).is_satisfied());
    assert!(synthesized(RedactionCircuit::Assigned(honest([255, 255], [255, 3]))).is_satisfied());
    assert!(synthesized(RedactionCircuit::Assigned(honest([0, 0], [0, 0]))).is_satisfied());
}

#[test]
fn altered_redacted_element_violates_its_constraint() {
    let mut first = honest([20, 20], [1, 0]);
    first.redacted[0] = encode(21);
    let cs = synthesized(RedactionCircuit::Assigned(first));
    assert_eq!(cs.which_is_unsatisfied(), Some("product 6"));

    let mut second = honest([20, 20], [1, 0]);
    second.redacted[1] = encode(20);
    let cs = synthesized(RedactionCircuit::Assigned(second));
    assert_eq!(cs.which_is_unsatisfied(), Some("product 7"));
}

#[test]
fn synthesis_without_witness_fails_where_values_are_asked() {
    let mut cs = TestConstraintSystem::<Scalar>::new();
    let result = Driven(RedactionCircuit::Unassigned).synthesize(&mut cs);
    assert!(matches!(result, Err(BackendError::AssignmentMissing)));
}

#[test]
fn honest_proof_verifies() {
    let (parameters, key) = generate(1).unwrap();
    let witness = honest([20, 20], [1, 0]);
    let mut rng = StdRng::seed_from_u64(2);
    let proof = prove(&parameters, RedactionCircuit::Assigned(witness), &mut rng).unwrap();
    assert_eq!(witness.redacted, [encode(20), encode(0)]);
    assert_eq!(verify(&key, &proof, &witness.redactor, &witness.redacted), Ok(()));
}

#[test]
fn honest_proof_verifies_for_other_documents() {
    let (parameters, key) = generate(3).unwrap();
    let mut rng = StdRng::seed_from_u64(4);
    let cases: [([u8; 2], [u8; 2]); 3] =
        [([0, 0], [0, 0]), ([255, 255], [255, 1]), ([7, 9], [3, 5])];
    for (document, mask) in cases.iter() {
        let witness = honest(*document, *mask);
        let proof = prove(&parameters, RedactionCircuit::Assigned(witness), &mut rng).unwrap();
        assert_eq!(verify(&key, &proof, &witness.redactor, &witness.redacted), Ok(()));
    }
}

#[test]
fn verification_is_repeatable() {
    let (parameters, key) = generate(5).unwrap();
    let witness = honest([20, 20], [1, 0]);
    let mut rng = StdRng::seed_from_u64(6);
    let proof = prove(&parameters, RedactionCircuit::Assigned(witness), &mut rng).unwrap();
    assert_eq!(verify(&key, &proof, &witness.redactor, &witness.redacted), Ok(()));
    assert_eq!(verify(&key, &proof, &witness.redactor, &witness.redacted), Ok(()));
}

#[test]
fn altered_redacted_element_fails_verification() {
    let (parameters, key) = generate(7).unwrap();
    let witness = honest([20, 20], [1, 0]);
    let mut rng = StdRng::seed_from_u64(8);
    let proof = prove(&parameters, RedactionCircuit::Assigned(witness), &mut rng).unwrap();

    let mut first = witness.redacted;
    first[0] = encode(21);
    assert_eq!(verify(&key, &proof, &witness.redactor, &first), Err(INVALID_PROOF));

    let mut second = witness.redacted;
    second[1] = encode(20);
    assert_eq!(verify(&key, &proof, &witness.redactor, &second), Err(INVALID_PROOF));
}

#[test]
fn altered_mask_fails_verification() {
    let (parameters, key) = generate(9).unwrap();
    let witness = honest([20, 20], [1, 0]);
    let mut rng = StdRng::seed_from_u64(10);
    let proof = prove(&parameters, RedactionCircuit::Assigned(witness), &mut rng).unwrap();
    let mask = [encode(1), encode(1)];
    assert_eq!(verify(&key, &proof, &mask, &witness.redacted), Err(INVALID_PROOF));
}

#[test]
fn proof_of_a_false_redaction_fails_verification() {
    let (parameters, key) = generate(11).unwrap();
    let mut witness = honest([20, 20], [1, 0]);
    witness.redacted[1] = encode(20);
    let mut rng = StdRng::seed_from_u64(12);
    let proof = prove(&parameters, RedactionCircuit::Assigned(witness), &mut rng).unwrap();
    assert_eq!(
        verify(&key, &proof, &witness.redactor, &witness.redacted),
        Err(INVALID_PROOF),
    );
}

#[test]
fn swapped_public_inputs_fail_verification() {
    let (parameters, key) = generate(13).unwrap();
    let witness = honest([20, 20], [1, 0]);
    let mut rng = StdRng::seed_from_u64(14);
    let proof = prove(&parameters, RedactionCircuit::Assigned(witness), &mut rng).unwrap();
    assert_eq!(verify(&key, &proof, &witness.redactor, &witness.redacted), Ok(()));
    assert_eq!(
        verify(&key, &proof, &witness.redacted, &witness.redactor),
        Err(INVALID_PROOF),
    );
}

#[test]
fn proof_fails_against_the_key_of_other_parameters() {
    let (parameters, key) = generate(15).unwrap();
    let (_, other_key) = generate(16).unwrap();
    let witness = honest([20, 20], [1, 0]);
    let mut rng = StdRng::seed_from_u64(17);
    let proof = prove(&parameters, RedactionCircuit::Assigned(witness), &mut rng).unwrap();
    assert_eq!(verify(&key, &proof, &witness.redactor, &witness.redacted), Ok(()));
    assert_eq!(
        verify(&other_key, &proof, &witness.redactor, &witness.redacted),
        Err(INVALID_PROOF),
    );
}

#[test]
fn key_of_another_circuit_does_not_fit_the_public_inputs() {
    let mut rng = StdRng::seed_from_u64(24);
    let parameters = generate_random_parameters::<Bls12, _, _>(Square(None), &mut rng).unwrap();
    let proof = create_random_proof(Square(Some(Scalar::from(3))), &parameters, &mut rng).unwrap();
    let key = library_key(&parameters.vk);
    let witness = honest([20, 20], [1, 0]);
    assert_eq!(
        verify(&key, &library_proof(proof), &witness.redactor, &witness.redacted),
        Err(INVALID_KEY),
    );
}

#[test]
fn two_proofs_of_one_witness_differ_and_both_verify() {
    let (parameters, key) = generate(18).unwrap();
    let witness = honest([20, 20], [1, 0]);
    let mut rng = StdRng::seed_from_u64(19);
    let first = prove(&parameters, RedactionCircuit::Assigned(witness), &mut rng).unwrap();
    let second = prove(&parameters, RedactionCircuit::Assigned(witness), &mut rng).unwrap();
    assert!(first != second);
    assert_eq!(verify(&key, &first, &witness.redactor, &witness.redacted), Ok(()));
    assert_eq!(verify(&key, &second, &witness.redactor, &witness.redacted), Ok(()));
}

#[test]
fn proving_without_witness_misses_its_assignment() {
    let (parameters, _) = generate(20).unwrap();
    let mut rng = StdRng::seed_from_u64(21);
    let result = prove(&parameters, RedactionCircuit::Unassigned, &mut rng);
    assert!(matches!(result, Err(Error::AssignmentMissing)));
}

#[test]
fn generated_points_are_valid() {
    let (parameters, key) = generate(22).unwrap();
    assert!(key.check_points());
    assert_eq!(key.ic.len(), 5);
    let witness = honest([20, 20], [1, 0]);
    let mut rng = StdRng::seed_from_u64(23);
    let proof = prove(&parameters, RedactionCircuit::Assigned(witness), &mut rng).unwrap();
    assert!(proof.check_points());
}

#[test]
fn points_off_the_curve_are_not_valid() {
    let good =
        Proof { a: G1Affine::generator(), b: G2Affine::generator(), c: G1Affine::identity() };
    assert!(good.check_points());
    assert!(!Proof { a: bad_g1(), ..good }.check_points());
    assert!(!Proof { b: bad_g2(), ..good }.check_points());
    assert!(!Proof { c: bad_g1(), ..good }.check_points());
}

#[test]
fn points_outside_the_subgroup_are_not_valid() {
    let point = outside_the_subgroup();
    assert!(bool::from(point.is_on_curve()));
    let good =
        Proof { a: G1Affine::generator(), b: G2Affine::generator(), c: G1Affine::generator() };
    assert!(!Proof { a: point, ..good }.check_points());
    assert!(!Proof { c: point, ..good }.check_points());
}

#[test]
fn proof_with_a_point_off_the_curve_is_an_invalid_proof() {
    let (parameters, key) = generate(25).unwrap();
    let witness = honest([20, 20], [1, 0]);
    let mut rng = StdRng::seed_from_u64(26);
    let proof = prove(&parameters, RedactionCircuit::Assigned(witness), &mut rng).unwrap();
    let forged = [
        Proof { a: G1Affine::generator(), b: bad_g2(), c: G1Affine::generator() },
        Proof { a: bad_g1(), ..proof },
        Proof { b: bad_g2(), ..proof },
        Proof { c: bad_g1(), ..proof },
        Proof { a: outside_the_subgroup(), ..proof },
    ];
    for proof in forged.iter() {
        assert_eq!(
            verify(&key, proof, &witness.redactor, &witness.redacted),
            Err(INVALID_PROOF),
        );
    }
}

#[test]
fn key_with_a_point_off_the_curve_is_an_invalid_key() {
    let (parameters, _) = generate(27).unwrap();
    let witness = honest([20, 20], [1, 0]);
    let mut rng = StdRng::seed_from_u64(28);
    let proof = prove(&parameters, RedactionCircuit::Assigned(witness), &mut rng).unwrap();
    let mut forged = Vec::new();
    forged.push(VerifyingKey { alpha_g1: bad_g1(), ..library_key(&parameters.vk) });
    forged.push(VerifyingKey { beta_g1: bad_g1(), ..library_key(&parameters.vk) });
    forged.push(VerifyingKey { beta_g2: bad_g2(), ..library_key(&parameters.vk) });
    forged.push(VerifyingKey { gamma_g2: bad_g2(), ..library_key(&parameters.vk) });
    forged.push(VerifyingKey { delta_g1: bad_g1(), ..library_key(&parameters.vk) });
    forged.push(VerifyingKey { delta_g2: bad_g2(), ..library_key(&parameters.vk) });
    let stray = outside_the_subgroup();
    forged.push(VerifyingKey { alpha_g1: stray, ..library_key(&parameters.vk) });
    for i in 0..5 {
        let mut key = library_key(&parameters.vk);
        key.ic[i] = bad_g1();
        forged.push(key);
    }
    for key in forged.iter() {
        assert!(!key.check_points());
        assert_eq!(verify(key, &proof, &witness.redactor, &witness.redacted), Err(INVALID_KEY));
    }
}

#[test]
fn bad_key_is_reported_before_a_bad_proof() {
    let (parameters, _) = generate(29).unwrap();
    let witness = honest([20, 20], [1, 0]);
    let key = VerifyingKey { gamma_g2: bad_g2(), ..library_key(&parameters.vk) };
    let proof = Proof { a: bad_g1(), b: bad_g2(), c: bad_g1() };
    assert_eq!(verify(&key, &proof, &witness.redactor, &witness.redacted), Err(INVALID_KEY));
}

#[test]
fn key_without_points_for_the_inputs_does_not_fit() {
    let (parameters, _) = generate(30).unwrap();
    let witness = honest([20, 20], [1, 0]);
    let mut rng = StdRng::seed_from_u64(31);
    let proof = prove(&parameters, RedactionCircuit::Assigned(witness), &mut rng).unwrap();
    let key = VerifyingKey { ic: Vec::new(), ..library_key(&parameters.vk) };
    assert_eq!(verify(&key, &proof, &witness.redactor, &witness.redacted), Err(INVALID_KEY));
}
