//! The proof pipeline around the circuit: the witness of a redaction, the
//! public inputs in the order of their declaration, what becomes of the
//! backend's answers, and the verification of a proof.
//!
//! Parameter generation and proving call the circuit back through the
//! backend's own traits, so whoever drives the backend makes those two
//! calls; this module prepares what goes in and decides on what comes out.
//!
//! A verifying key and a proof are held as the curve points they are made
//! of. Anyone can build such points, also points that lie on no curve, and
//! the backend's pairing does not survive those. So verification tests every
//! point first, and reports a key or a proof with a bad point as invalid.

use crate::circuit::{congruent, RedactionCircuit, Request, Witness};
use crate::error::{Error, SynthesisError, VerificationError};
use crate::field::{encode, FieldElement};
use crate::redaction::{is_constrained, redact, LEN};
use bellman::groth16::{prepare_verifying_key, verify_proof};
use bellman::VerificationError as Rejection;
use bls12_381::{Bls12, G1Affine, G2Affine, Scalar};
use vstd::prelude::*;

verus! {

/// `bls12_381::G1Affine`, a point of the first group in affine coordinates.
/// Nothing is known of what it holds.
#[verifier::external_type_specification]
#[verifier::external_body]
pub struct ExG1Affine(G1Affine);

/// `bls12_381::G2Affine`, a point of the second group in affine coordinates.
/// Nothing is known of what it holds.
#[verifier::external_type_specification]
#[verifier::external_body]
pub struct ExG2Affine(G2Affine);

/// A Groth16 verifying key, as the points that `bellman` makes it of.
#[derive(Debug, PartialEq, Eq)]
pub struct VerifyingKey {
    /// Alpha, in the first group.
    pub alpha_g1: G1Affine,
    /// Beta, in the first group.
    pub beta_g1: G1Affine,
    /// Beta, in the second group.
    pub beta_g2: G2Affine,
    /// Gamma, in the second group.
    pub gamma_g2: G2Affine,
    /// Delta, in the first group.
    pub delta_g1: G1Affine,
    /// Delta, in the second group.
    pub delta_g2: G2Affine,
    /// One point for the constant one, then one for each public input.
    pub ic: Vec<G1Affine>,
}

/// A Groth16 proof, as the three points that `bellman` makes it of.
#[derive(Clone, Copy, Debug, PartialEq, Eq)]
pub struct Proof {
    /// The first element, in the first group.
    pub a: G1Affine,
    /// The second element, in the second group.
    pub b: G2Affine,
    /// The third element, in the first group.
    pub c: G1Affine,
}

/// A verifying key that `bellman` has prepared for verification, as
/// `bellman` holds it. Only [`verify`] makes one, from a key that it has
/// tested.
#[verifier::external_body]
pub struct PreparedKey {
    inner: bellman::groth16::PreparedVerifyingKey<Bls12>,
}

/// What the backend says of a proof: that it accepts it, or why it does not.
pub type Verdict = Result<(), VerificationError>;

/// What `G1Affine::is_on_curve` returns for the point.
pub uninterp spec fn g1_is_on_curve(point: G1Affine) -> bool;

/// What `G1Affine::is_torsion_free` returns for the point.
pub uninterp spec fn g1_is_torsion_free(point: G1Affine) -> bool;

/// What `G2Affine::is_on_curve` returns for the point.
pub uninterp spec fn g2_is_on_curve(point: G2Affine) -> bool;

/// What `G2Affine::is_torsion_free` returns for the point.
pub uninterp spec fn g2_is_torsion_free(point: G2Affine) -> bool;

/// The prepared key that `bellman::groth16::prepare_verifying_key` derives
/// from the verifying key.
pub uninterp spec fn prepared_key(key: VerifyingKey) -> PreparedKey;

/// What `bellman::groth16::verify_proof` returns for a prepared key, a proof
/// and the public inputs, in their order.
pub uninterp spec fn groth16_verdict(
    key: PreparedKey,
    proof: Proof,
    inputs: Seq<FieldElement>,
) -> Verdict;

/// Calls `G1Affine::is_on_curve`, which computes from the point alone and
/// takes every point.
#[verifier::external_body]
fn g1_on_curve(point: &G1Affine) -> (on_curve: bool)
    ensures
        on_curve == g1_is_on_curve(*point),
{
    point.is_on_curve().into()
}

/// Calls `G1Affine::is_torsion_free`, which computes from the point alone
/// and takes every point.
#[verifier::external_body]
fn g1_torsion_free(point: &G1Affine) -> (torsion_free: bool)
    ensures
        torsion_free == g1_is_torsion_free(*point),
{
    point.is_torsion_free().into()
}

/// Calls `G2Affine::is_on_curve`, which computes from the point alone and
/// takes every point.
#[verifier::external_body]
fn g2_on_curve(point: &G2Affine) -> (on_curve: bool)
    ensures
        on_curve == g2_is_on_curve(*point),
{
    point.is_on_curve().into()
}

/// Calls `G2Affine::is_torsion_free`, which computes from the point alone
/// and takes every point.
#[verifier::external_body]
fn g2_torsion_free(point: &G2Affine) -> (torsion_free: bool)
    ensures
        torsion_free == g2_is_torsion_free(*point),
{
    point.is_torsion_free().into()
}

/// Calls `bellman::groth16::prepare_verifying_key` on the key, handed over
/// point by point. The pairing in it fails on a point that is not in its
/// group, so every point of the key has to be valid. The prepared key is
/// computed from the key alone.
#[verifier::external_body]
fn prepare_key(key: &VerifyingKey) -> (prepared: PreparedKey)
    requires
        key.has_valid_points(),
    ensures
        prepared == prepared_key(*key),
{
    let key = bellman::groth16::VerifyingKey::<Bls12> {
        alpha_g1: key.alpha_g1,
        beta_g1: key.beta_g1,
        beta_g2: key.beta_g2,
        gamma_g2: key.gamma_g2,
        delta_g1: key.delta_g1,
        delta_g2: key.delta_g2,
        ic: key.ic.clone(),
    };
    PreparedKey { inner: prepare_verifying_key(&key) }
}

/// Calls `bellman::groth16::verify_proof` with the proof, handed over point
/// by point, and the public inputs as scalars, in the order given. Each
/// input is read with `Scalar::from_bytes`, which takes canonical bytes
/// only. The pairing in it fails on a point that is not in its group, so the
/// key has to be prepared from valid points and every point of the proof
/// has to be valid. The result is computed from the prepared key, the proof
/// and the inputs alone.
#[verifier::external_body]
fn groth16_verify(
    key: &PreparedKey,
    proof: &Proof,
    inputs: &Vec<FieldElement>,
) -> (verdict: Verdict)
    requires
        is_prepared_from_valid_points(*key),
        proof.has_valid_points(),
        forall|i: int| 0 <= i < inputs@.len() ==> (#[trigger] inputs@[i]).is_canonical(),
    ensures
        verdict == groth16_verdict(*key, *proof, inputs@),
{
    let proof = bellman::groth16::Proof::<Bls12> { a: proof.a, b: proof.b, c: proof.c };
    let mut scalars: Vec<Scalar> = Vec::new();
    for input in inputs.iter() {
        scalars.push(Scalar::from_bytes(&input.to_bytes()).unwrap());
    }
    match verify_proof(&key.inner, &proof, &scalars) {
        Ok(()) => Ok(()),
        Err(Rejection::InvalidVerifyingKey) => Err(VerificationError::InvalidVerifyingKey),
        Err(Rejection::InvalidProof) => Err(VerificationError::InvalidProof),
    }
}

/// Whether a point of the first group is valid: it lies on the curve and in
/// the subgroup of prime order.
pub open spec fn g1_is_valid(point: G1Affine) -> bool {
    g1_is_on_curve(point) && g1_is_torsion_free(point)
}

/// Whether a point of the second group is valid: it lies on the curve and
/// in the subgroup of prime order.
pub open spec fn g2_is_valid(point: G2Affine) -> bool {
    g2_is_on_curve(point) && g2_is_torsion_free(point)
}

/// Whether a prepared key has been prepared from a key with valid points.
pub open spec fn is_prepared_from_valid_points(prepared: PreparedKey) -> bool {
    exists|key: VerifyingKey| key.has_valid_points() && prepared == #[trigger] prepared_key(key)
}

fn g1_valid(point: &G1Affine) -> (valid: bool)
    ensures
        valid == g1_is_valid(*point),
{
    g1_on_curve(point) && g1_torsion_free(point)
}

fn g2_valid(point: &G2Affine) -> (valid: bool)
    ensures
        valid == g2_is_valid(*point),
{
    g2_on_curve(point) && g2_torsion_free(point)
}

impl Proof {
    /// Whether each of the three points of the proof is valid.
    pub open spec fn has_valid_points(self) -> bool {
        g1_is_valid(self.a) && g2_is_valid(self.b) && g1_is_valid(self.c)
    }

    /// Tests each of the three points of the proof.
    pub fn check_points(&self) -> (valid: bool)
        ensures
            valid == self.has_valid_points(),
    {
        g1_valid(&self.a) && g2_valid(&self.b) && g1_valid(&self.c)
    }
}

impl VerifyingKey {
    /// Whether every point of the key is valid.
    pub open spec fn has_valid_points(self) -> bool {
        &&& g1_is_valid(self.alpha_g1)
        &&& g1_is_valid(self.beta_g1)
        &&& g2_is_valid(self.beta_g2)
        &&& g2_is_valid(self.gamma_g2)
        &&& g1_is_valid(self.delta_g1)
        &&& g2_is_valid(self.delta_g2)
        &&& forall|i: int| 0 <= i < self.ic@.len() ==> g1_is_valid(#[trigger] self.ic@[i])
    }

    /// Tests every point of the key.
    pub fn check_points(&self) -> (valid: bool)
        ensures
            valid == self.has_valid_points(),
    {
        let fixed_points_valid: bool = g1_valid(&self.alpha_g1) && g1_valid(&self.beta_g1)
            && g2_valid(&self.beta_g2) && g2_valid(&self.gamma_g2) && g1_valid(&self.delta_g1)
            && g2_valid(&self.delta_g2);
        if !fixed_points_valid {
            return false;
        }
        let mut i: usize = 0;
        while i < self.ic.len()
            invariant
                i <= self.ic@.len(),
                forall|j: int| 0 <= j < i ==> g1_is_valid(#[trigger] self.ic@[j]),
            decreases self.ic@.len() - i,
        {
            if !g1_valid(&self.ic[i]) {
                return false;
            }
            i += 1;
        }
        true
    }
}

/// Whether `witness` is the honest witness of redacting `document` by
/// `mask`: it holds the encoding of every byte of the two, and the encoding
/// of their product at every index.
pub open spec fn is_witness_of(witness: Witness, document: Seq<u8>, mask: Seq<u8>) -> bool {
    &&& document.len() == LEN
    &&& mask.len() == LEN
    &&& forall|i: int| is_constrained(i) ==> (#[trigger] witness.document@[i])@ == document[i]
    &&& forall|i: int| is_constrained(i) ==> (#[trigger] witness.redactor@[i])@ == mask[i]
    &&& forall|i: int|
        is_constrained(i) ==> (#[trigger] witness.redacted@[i])@ == document[i] * mask[i]
}

/// Whether `result` is what building a witness from `document` and `mask`
/// gives. Vectors of the fixed length give their honest witness; anything
/// else is a length mismatch.
pub open spec fn witnesses(
    document: Seq<u8>,
    mask: Seq<u8>,
    result: Result<Witness, Error>,
) -> bool {
    match result {
        Ok(witness) => is_witness_of(witness, document, mask),
        Err(e) => {
            &&& e == Error::LengthMismatch
            &&& !(document.len() == LEN && mask.len() == LEN)
        },
    }
}

/// Builds the witness of a redaction from the raw document and mask.
///
/// The redacted document is computed on the raw integers, outside any
/// constraint system, and then encoded, like the two inputs.
pub fn build_witness(document: &[u8], mask: &[u8]) -> (result: Result<Witness, Error>)
    ensures
        witnesses(document@, mask@, result),
{
    let products: [u16; LEN] = match redact(document, mask) {
        Ok(products) => products,
        Err(e) => {
            return Err(e);
        },
    };
    let zero: FieldElement = encode(0);
    let mut encoded_document: [FieldElement; LEN] = [zero;LEN];
    let mut encoded_mask: [FieldElement; LEN] = [zero;LEN];
    let mut encoded_products: [FieldElement; LEN] = [zero;LEN];
    let mut i: usize = 0;
    while i < LEN
        invariant
            i <= LEN,
            document@.len() == LEN,
            mask@.len() == LEN,
            forall|j: int| 0 <= j < LEN ==> #[trigger] products@[j] == document@[j] * mask@[j],
            forall|j: int| 0 <= j < i ==> (#[trigger] encoded_document@[j])@ == document@[j],
            forall|j: int| 0 <= j < i ==> (#[trigger] encoded_mask@[j])@ == mask@[j],
            forall|j: int|
                0 <= j < i ==> (#[trigger] encoded_products@[j])@ == document@[j] * mask@[j],
        decreases LEN - i,
    {
        encoded_document[i] = encode(document[i] as u64);
        encoded_mask[i] = encode(mask[i] as u64);
        encoded_products[i] = encode(products[i] as u64);
        i += 1;
    }
    Ok(Witness { document: encoded_document, redactor: encoded_mask, redacted: encoded_products })
}

/// The public inputs of a proof, in the order in which the circuit declares
/// its public variables: the mask first, then the redacted document.
pub fn public_inputs(
    redactor: &[FieldElement; LEN],
    redacted: &[FieldElement; LEN],
) -> (inputs: Vec<FieldElement>)
    ensures
        inputs@ == redactor@ + redacted@,
        forall|i: int| 0 <= i < inputs@.len() ==> (#[trigger] inputs@[i]).is_canonical(),
{
    let mut inputs: Vec<FieldElement> = Vec::new();
    let mut i: usize = 0;
    while i < LEN
        invariant
            i <= LEN,
            inputs@ == redactor@.take(i as int),
            forall|j: int| 0 <= j < inputs@.len() ==> (#[trigger] inputs@[j]).is_canonical(),
        decreases LEN - i,
    {
        let element: FieldElement = redactor[i];
        proof {
            use_type_invariant(&element);
        }
        inputs.push(element);
        assert(redactor@.take(i as int).push(redactor@[i as int]) =~= redactor@.take(i + 1));
        i += 1;
    }
    assert(redactor@.take(LEN as int) =~= redactor@);
    let mut i: usize = 0;
    while i < LEN
        invariant
            i <= LEN,
            inputs@ == redactor@ + redacted@.take(i as int),
            forall|j: int| 0 <= j < inputs@.len() ==> (#[trigger] inputs@[j]).is_canonical(),
        decreases LEN - i,
    {
        let element: FieldElement = redacted[i];
        proof {
            use_type_invariant(&element);
        }
        inputs.push(element);
        assert((redactor@ + redacted@.take(i as int)).push(redacted@[i as int]) =~= redactor@
            + redacted@.take(i + 1));
        i += 1;
    }
    assert(redacted@.take(LEN as int) =~= redacted@);
    inputs
}

/// What parameter generation comes to, given what the backend returned:
/// the parameters as they are, or the failure of the generation with the
/// backend's reason.
pub fn finish_generation<P>(outcome: Result<P, SynthesisError>) -> (result: Result<P, Error>)
    ensures
        match outcome {
            Ok(parameters) => result == Ok::<P, Error>(parameters),
            Err(e) => result == Err::<P, Error>(Error::ParameterGenerationFailed(e)),
        },
{
    match outcome {
        Ok(parameters) => Ok(parameters),
        Err(e) => Err(Error::ParameterGenerationFailed(e)),
    }
}

/// The failure of proving that a failure of the backend stands for. A
/// missing assignment comes from the circuit's synthesis and stays what it
/// is; anything else is the proving primitive's own failure.
pub open spec fn proving_failure(e: SynthesisError) -> Error {
    if e == SynthesisError::AssignmentMissing {
        Error::AssignmentMissing
    } else {
        Error::ProvingFailed(e)
    }
}

/// What proving comes to, given what the backend returned: the proof, or
/// the failure that the backend's failure stands for.
pub fn finish_proving(outcome: Result<Proof, SynthesisError>) -> (result: Result<Proof, Error>)
    ensures
        match outcome {
            Ok(proof) => result == Ok::<Proof, Error>(proof),
            Err(e) => result == Err::<Proof, Error>(proving_failure(e)),
        },
{
    match outcome {
        Ok(proof) => Ok(proof),
        Err(SynthesisError::AssignmentMissing) => Err(Error::AssignmentMissing),
        Err(e) => Err(Error::ProvingFailed(e)),
    }
}

/// What verifying comes to, given what the backend returned: success where
/// the backend accepts the proof, a failed verification with the backend's
/// reason where it does not.
pub open spec fn verification_result(verdict: Verdict) -> Result<(), Error> {
    match verdict {
        Ok(()) => Ok(()),
        Err(reason) => Err(Error::VerificationFailed(reason)),
    }
}

/// What verifying comes to, given what the backend returned.
pub fn finish_verification(verdict: Verdict) -> (result: Result<(), Error>)
    ensures
        result == verification_result(verdict),
{
    match verdict {
        Ok(()) => Ok(()),
        Err(reason) => Err(Error::VerificationFailed(reason)),
    }
}

/// What verifying a proof against a key and public inputs comes to. A key
/// with a point that is not valid is an invalid key, and a proof with such a
/// point an invalid proof, whatever else holds. On valid points it is what
/// the backend says of the prepared key, the proof and the inputs.
pub open spec fn verification_of(
    key: VerifyingKey,
    proof: Proof,
    inputs: Seq<FieldElement>,
) -> Result<(), Error> {
    if !key.has_valid_points() {
        Err(Error::VerificationFailed(VerificationError::InvalidVerifyingKey))
    } else if !proof.has_valid_points() {
        Err(Error::VerificationFailed(VerificationError::InvalidProof))
    } else {
        verification_result(groth16_verdict(prepared_key(key), proof, inputs))
    }
}

/// Verifies a proof against a verifying key and the public inputs.
///
/// Every point of the key and of the proof is tested first. Then the
/// backend is handed the mask and then the redacted document, which is the
/// order in which the circuit declares them. The proof is accepted if and
/// only if the backend accepts it for exactly these inputs and this key;
/// every other outcome is a failed verification, with its reason.
pub fn verify(
    key: &VerifyingKey,
    proof: &Proof,
    redactor: &[FieldElement; LEN],
    redacted: &[FieldElement; LEN],
) -> (result: Result<(), Error>)
    ensures
        result == verification_of(*key, *proof, redactor@ + redacted@),
{
    if !key.check_points() {
        return Err(Error::VerificationFailed(VerificationError::InvalidVerifyingKey));
    }
    if !proof.check_points() {
        return Err(Error::VerificationFailed(VerificationError::InvalidProof));
    }
    let prepared = prepare_key(key);
    let inputs = public_inputs(redactor, redacted);
    finish_verification(groth16_verify(&prepared, proof, &inputs))
}

/// Verification is repeatable: two results for the same key, the same proof
/// and the same public inputs are the same result.
pub proof fn verification_is_repeatable(
    key: VerifyingKey,
    proof: Proof,
    inputs: Seq<FieldElement>,
    first: Result<(), Error>,
    second: Result<(), Error>,
)
    requires
        first == verification_of(key, proof, inputs),
        second == verification_of(key, proof, inputs),
    ensures
        first == second,
{
}

/// An honest witness satisfies the redaction relation: the witness that
/// [`build_witness`] returns for a document and a mask is in the relation.
pub proof fn honest_witness_satisfies_relation(document: Seq<u8>, mask: Seq<u8>, witness: Witness)
    requires
        is_witness_of(witness, document, mask),
    ensures
        witness.satisfies_relation(),
{
    assert forall|i: int| 0 <= i < LEN implies congruent(
        witness.document@[i]@ * witness.redactor@[i]@,
        #[trigger] witness.redacted@[i]@,
    ) by {
        assert(witness.document@[i]@ == document[i]);
        assert(witness.redactor@[i]@ == mask[i]);
    }
}

/// An altered redacted document breaks the relation: where one element of
/// the redacted vector stands for a number that is not the product of the
/// document's byte and the mask's at that index, the witness does not
/// satisfy the redaction relation.
pub proof fn altered_redaction_breaks_relation(
    document: Seq<u8>,
    mask: Seq<u8>,
    witness: Witness,
    i: int,
)
    requires
        document.len() == LEN,
        mask.len() == LEN,
        is_constrained(i),
        witness.document@[i]@ == document[i],
        witness.redactor@[i]@ == mask[i],
        witness.redacted@[i].is_canonical(),
        witness.redacted@[i]@ != document[i] * mask[i],
    ensures
        !witness.satisfies_relation(),
{
    let d = document[i] as nat;
    let m = mask[i] as nat;
    assert(d * m <= 65025) by (nonlinear_arith)
        requires
            d <= 255,
            m <= 255,
    ;
}

/// The circuit declares its public variables in the order of
/// [`public_inputs`]: the `k`-th public allocation of a circuit with a
/// witness provides the `k`-th public input.
pub proof fn public_inputs_follow_declaration(witness: Witness, k: int)
    requires
        0 <= k < 2 * LEN,
    ensures
        RedactionCircuit::Assigned(witness).allocation(LEN + k) == Request::AllocatePublic(
            Ok((witness.redactor@ + witness.redacted@)[k]),
        ),
{
}

} // verus!
