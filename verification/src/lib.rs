//! Zero-knowledge redaction: a prover shows that a public redacted vector is
//! the element-wise product of a private document and a public mask, without
//! showing the document.
//!
//! - [`field`] encodes integers as elements of the scalar field.
//! - [`redaction`] computes a redaction on the raw integers.
//! - [`circuit`] holds the arithmetic circuit of the relation.
//! - [`pipeline`] builds witnesses and public inputs, and verifies proofs.
//! - [`error`] holds the failures.

pub mod circuit;
pub mod error;
pub mod field;
pub mod pipeline;
pub mod redaction;
