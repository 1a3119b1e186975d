//! The failures that the library reports.

use vstd::prelude::*;

verus! {

/// A failure reported while a circuit is synthesized, or by the proving
/// backend while it generates parameters or creates a proof.
#[derive(Clone, Copy, Debug, PartialEq, Eq, Structural)]
pub enum SynthesisError {
    /// The assignment of a variable is not known.
    AssignmentMissing,
    /// A division by zero.
    DivisionByZero,
    /// The constraint system cannot be satisfied.
    Unsatisfiable,
    /// The polynomials are of too high a degree.
    PolynomialDegreeTooLarge,
    /// An identity element was met in the parameters.
    UnexpectedIdentity,
    /// The parameters could not be read.
    IoError,
    /// An auxiliary variable is not constrained.
    UnconstrainedVariable,
}

/// The reason for which the proving backend rejects a proof.
#[derive(Clone, Copy, Debug, PartialEq, Eq, Structural)]
pub enum VerificationError {
    /// The verifying key does not fit the number of public inputs.
    InvalidVerifyingKey,
    /// The proof is not valid for the public inputs and the key.
    InvalidProof,
}

/// A failure of one of the library's operations.
#[derive(Clone, Copy, Debug, PartialEq, Eq, Structural)]
pub enum Error {
    /// A value was asked of a circuit that carries no witness.
    AssignmentMissing,
    /// An input vector does not have the fixed length.
    LengthMismatch,
    /// The proving backend could not generate parameters, for this reason.
    ParameterGenerationFailed(SynthesisError),
    /// The proving backend could not create a proof, for this reason.
    ProvingFailed(SynthesisError),
    /// The proof did not validate against the public inputs and the key,
    /// for this reason.
    VerificationFailed(VerificationError),
}

} // verus!
