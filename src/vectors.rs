//! The software-assigned interrupt vectors.

use vstd::prelude::*;

verus! {

/// The first vector that software may assign; 0 to 31 belong to CPU exceptions.
pub const FIRST_SOFTWARE_VECTOR: u8 = 32;

/// The interrupt vectors this kernel assigns to devices.
#[derive(Clone, Copy, Debug, PartialEq, Eq, Structural)]
pub enum Vector {
    Timer,
    Keyboard,
}

/// The number that a vector stands for.
pub open spec fn vector_number(v: Vector) -> u8 {
    match v {
        Vector::Timer => 32,
        Vector::Keyboard => 33,
    }
}

impl Vector {
    /// The number of this vector in the interrupt descriptor table.
    pub fn number(self) -> (r: u8)
        ensures
            r == vector_number(self),
    {
        match self {
            Vector::Timer => 32,
            Vector::Keyboard => 33,
        }
    }
}

/// Distinct vectors have distinct numbers, and every one of them lies above the
/// range that the architecture reserves for exceptions.
pub proof fn lemma_vectors_unique_and_above_exceptions(a: Vector, b: Vector)
    ensures
        a != b ==> vector_number(a) != vector_number(b),
        vector_number(a) >= FIRST_SOFTWARE_VECTOR,
{
}

} // verus!
