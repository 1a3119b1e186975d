//! Redaction of a document by a mask: the element-wise product of the two.

use crate::error::Error;
use vstd::prelude::*;

verus! {

/// The fixed length of a document, of a mask and of a redacted document.
pub const LEN: usize = 2;

/// Whether `i` is an index that redaction covers and that the circuit
/// constrains. Every index of a vector is, from `0` to `LEN - 1`: no
/// position is left out.
pub open spec fn is_constrained(i: int) -> bool {
    0 <= i < LEN
}

/// Whether `result` is what redacting `preimage` by `mask` gives.
///
/// Vectors of the fixed length give their element-wise product, at every
/// constrained index; anything else is a length mismatch.
pub open spec fn redacts_to(
    preimage: Seq<u8>,
    mask: Seq<u8>,
    result: Result<[u16; LEN], Error>,
) -> bool {
    match result {
        Ok(redacted) => {
            &&& preimage.len() == LEN
            &&& mask.len() == LEN
            &&& forall|i: int|
                is_constrained(i) ==> #[trigger] redacted@[i] == preimage[i] * mask[i]
        },
        Err(e) => {
            &&& e == Error::LengthMismatch
            &&& !(preimage.len() == LEN && mask.len() == LEN)
        },
    }
}

/// Redacts `preimage` by `mask`: multiplies the two element by element.
///
/// The product of two bytes may need sixteen bits, so the redacted document
/// holds sixteen-bit elements and no product is ever cut.
pub fn redact(preimage: &[u8], mask: &[u8]) -> (result: Result<[u16; LEN], Error>)
    ensures
        redacts_to(preimage@, mask@, result),
{
    if preimage.len() != LEN || mask.len() != LEN {
        return Err(Error::LengthMismatch);
    }
    let mut redacted: [u16; LEN] = [0u16; LEN];
    let mut i: usize = 0;
    while i < LEN
        invariant
            i <= LEN,
            preimage@.len() == LEN,
            mask@.len() == LEN,
            forall|j: int| 0 <= j < i ==> #[trigger] redacted@[j] == preimage@[j] * mask@[j],
        decreases LEN - i,
    {
        let p: u16 = preimage[i] as u16;
        let m: u16 = mask[i] as u16;
        assert(p * m <= 65025) by (nonlinear_arith)
            requires
                p <= 255,
                m <= 255,
        ;
        redacted[i] = p * m;
        i += 1;
    }
    Ok(redacted)
}

/// Redaction is a function of its inputs: two results for the same document
/// and mask are the same result.
pub proof fn redaction_is_deterministic(
    preimage: Seq<u8>,
    mask: Seq<u8>,
    first: Result<[u16; LEN], Error>,
    second: Result<[u16; LEN], Error>,
)
    requires
        redacts_to(preimage, mask, first),
        redacts_to(preimage, mask, second),
    ensures
        first == second,
{
    if let Ok(a) = first {
        let b = second->Ok_0;
        assert(a@ =~= b@);
        assert(a =~= b);
    }
}

} // verus!
