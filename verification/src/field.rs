//! Encoding of small integers as elements of the BLS12-381 scalar field.

use bls12_381::Scalar;
use vstd::prelude::*;

verus! {

/// The prime order of the scalar field.
pub open spec fn modulus() -> nat {
    0x73eda753299d7d483339d80809a1d80553bda402fffe5bfeffffffff00000001nat
}

/// The number that a byte string denotes when read least significant byte first.
pub open spec fn little_endian(bytes: Seq<u8>) -> nat
    decreases bytes.len(),
{
    if bytes.len() == 0 {
        0
    } else {
        bytes[0] as nat + 256 * little_endian(bytes.drop_first())
    }
}

/// An element of the scalar field, held as its canonical little-endian bytes.
///
/// Every value of this type is canonical: the number it denotes is below the
/// field's modulus.
#[derive(Clone, Copy, Debug, PartialEq, Eq)]
pub struct FieldElement {
    bytes: [u8; 32],
}

impl View for FieldElement {
    type V = nat;

    /// The integer in `0..modulus()` that this element stands for.
    open spec fn view(&self) -> nat {
        little_endian(self.bytes())
    }
}

impl FieldElement {
    /// The 32 bytes of the element, least significant first.
    pub closed spec fn bytes(self) -> Seq<u8> {
        self.bytes@
    }

    /// Whether the element denotes a number below the modulus. This holds
    /// of every element that a program holds.
    #[verifier::type_invariant]
    pub open spec fn is_canonical(self) -> bool {
        self@ < modulus()
    }

    /// The canonical little-endian bytes of the element.
    pub fn to_bytes(&self) -> (bytes: [u8; 32])
        ensures
            bytes@ == self.bytes(),
            little_endian(bytes@) == self@,
            self.is_canonical(),
    {
        proof {
            use_type_invariant(self);
        }
        self.bytes
    }
}

/// Calls `Scalar::from(u64)` and reads the element back with
/// `Scalar::to_bytes`. The conversion puts the integer into the field without
/// reduction, and the bytes are the little-endian form of the element, so
/// they denote the integer that went in.
#[verifier::external_body]
fn scalar_bytes(x: u64) -> (bytes: [u8; 32])
    ensures
        little_endian(bytes@) == x,
{
    Scalar::from(x).to_bytes()
}

/// Encodes an unsigned integer as the field element of the same value.
pub fn encode(x: u64) -> (e: FieldElement)
    ensures
        e@ == x,
        e.is_canonical(),
{
    let bytes = scalar_bytes(x);
    FieldElement { bytes }
}

/// Byte strings of one length that denote the same number are the same
/// string.
pub proof fn little_endian_is_injective(a: Seq<u8>, b: Seq<u8>)
    requires
        a.len() == b.len(),
        little_endian(a) == little_endian(b),
    ensures
        a == b,
    decreases a.len(),
{
    if a.len() > 0 {
        little_endian_is_injective(a.drop_first(), b.drop_first());
        assert(a =~= seq![a[0]] + a.drop_first());
        assert(b =~= seq![b[0]] + b.drop_first());
    }
}

/// A number has one encoding: field elements that denote the same number
/// are the same element. With the contract of [`encode`] this makes encoding
/// deterministic.
pub proof fn encoding_is_deterministic(a: FieldElement, b: FieldElement)
    requires
        a@ == b@,
    ensures
        a == b,
{
    little_endian_is_injective(a.bytes@, b.bytes@);
    assert(a.bytes =~= b.bytes);
}

/// Encoding is injective: the encodings of two integers are the same
/// element only if the integers are the same.
pub proof fn encoding_is_injective(x: u64, y: u64, a: FieldElement, b: FieldElement)
    requires
        a@ == x,
        b@ == y,
        a == b,
    ensures
        x == y,
{
}

} // verus!
