//! Embedding vector values shared across memory components.
//!
//! The library carries each component as the bit pattern of an IEEE-754
//! single-precision value, so that validity (finiteness) is a plain
//! bit-level property; scoring arithmetic over the components lives with
//! the caller that owns the floating-point representation.

use vstd::prelude::*;

use crate::memory_error::{MemoryError, MemoryResult};

verus! {

/// Whether a single-precision bit pattern denotes a finite number: the
/// exponent field is not all ones (all ones encodes infinities and NaNs).
pub open spec fn spec_finite_bits(b: u32) -> bool {
    (b >> 23) & 0xff != 0xff
}

/// A valid embedding: non-empty, every component finite.
pub open spec fn spec_valid_embedding(v: Seq<u32>) -> bool {
    &&& v.len() >= 1
    &&& forall|i: int| 0 <= i < v.len() ==> spec_finite_bits(#[trigger] v[i])
}

/// Wrapper type around an immutable embedding, one 32-bit IEEE-754 bit
/// pattern per dimension.
#[derive(Debug)]
pub struct EmbeddingVector {
    values: Vec<u32>,
}

impl View for EmbeddingVector {
    type V = Seq<u32>;

    closed spec fn view(&self) -> Seq<u32> {
        self.values@
    }
}

impl Clone for EmbeddingVector {
    fn clone(&self) -> (res: Self)
        ensures
            res@ == self@,
    {
        let c = self.values.clone();
        proof {
            assert(c@ =~= self.values@);
        }
        EmbeddingVector { values: c }
    }
}

impl EmbeddingVector {
    /// Every constructed embedding is non-empty with finite components.
    pub open spec fn wf(&self) -> bool {
        spec_valid_embedding(self@)
    }

    /// Creates a new embedding from owned component bit patterns.
    ///
    /// Succeeds exactly when the vector is non-empty and every component
    /// is finite; the embedding then holds the components unchanged.
    pub fn new(values: Vec<u32>) -> (r: MemoryResult<EmbeddingVector>)
        ensures
            r is Ok <==> spec_valid_embedding(values@),
            r matches Ok(e) ==> e@ == values@ && e.wf(),
            r matches Err(e) ==> e is InvalidRecord,
    {
        if values.len() == 0 {
            return Err(MemoryError::InvalidRecord(
                "embedding vector must not be empty".to_owned(),
            ));
        }
        let n = values.len();
        let mut i: usize = 0;
        while i < n
            invariant
                0 <= i <= n,
                n == values@.len(),
                forall|j: int| 0 <= j < i ==> spec_finite_bits(#[trigger] values@[j]),
            decreases n - i,
        {
            let b = values[i];
            if (b >> 23u32) & 0xff == 0xff {
                return Err(MemoryError::InvalidRecord(
                    "embedding vector contains non-finite values".to_owned(),
                ));
            }
            i = i + 1;
        }
        Ok(EmbeddingVector { values })
    }

    /// Creates an embedding by copying the provided component slice.
    pub fn from_slice(values: &[u32]) -> (r: MemoryResult<EmbeddingVector>)
        ensures
            r is Ok <==> spec_valid_embedding(values@),
            r matches Ok(e) ==> e@ == values@ && e.wf(),
            r matches Err(e) ==> e is InvalidRecord,
    {
        let owned = vstd::slice::slice_to_vec(values);
        EmbeddingVector::new(owned)
    }

    /// Returns an immutable view of the component bit patterns.
    pub fn as_slice(&self) -> (r: &[u32])
        ensures
            r@ == self@,
    {
        self.values.as_slice()
    }

    /// Returns the dimensionality of the embedding.
    pub fn len(&self) -> (r: usize)
        ensures
            r == self@.len(),
    {
        self.values.len()
    }

    /// Returns whether the embedding is empty. A constructed embedding
    /// never is; the helper is provided for completeness.
    pub fn is_empty(&self) -> (r: bool)
        ensures
            r == (self@.len() == 0),
    {
        self.values.len() == 0
    }
}

} // verus!
