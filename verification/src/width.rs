//! Bus widths as types, and the relation that pairs two buses of one width.

use embedded_hal::digital::v2::PinState;
use vstd::prelude::*;

verus! {

/// The level of one pin, `embedded_hal::digital::v2::PinState`.
///
/// The library carries pin levels through and never looks inside one, so
/// nothing is claimed about the type beyond its existence.
#[verifier::external_type_specification]
#[verifier::external_body]
pub struct ExPinState(embedded_hal::digital::v2::PinState);

/// A pin count fixed at compile time, together with the type of the vectors
/// that hold one level per pin.
pub trait PinCount {
    /// One level per pin, in pin order.
    type PinVector;

    /// How many pins a bus of this width has.
    spec fn pins() -> nat;

    /// The levels that a vector holds, first pin first.
    spec fn states(vector: &Self::PinVector) -> Seq<PinState>;

    /// A vector holds exactly one level for each pin: none is missing and
    /// none is added.
    proof fn lemma_vector_len(vector: &Self::PinVector)
        ensures
            Self::states(vector).len() == Self::pins(),
    ;
}

/// The width of a bus of `N` pins. Its vectors are arrays of `N` levels.
#[derive(Debug, Clone, Copy)]
pub struct Pins<const N: usize>;

impl<const N: usize> PinCount for Pins<N> {
    type PinVector = [PinState; N];

    open spec fn pins() -> nat {
        N as nat
    }

    open spec fn states(vector: &[PinState; N]) -> Seq<PinState> {
        vector@
    }

    proof fn lemma_vector_len(vector: &[PinState; N]) {
    }
}

/// `A: Same<B>` holds when `A` and `B` are one and the same width.
///
/// The only impl the library gives is the reflexive one. Any other impl has
/// to prove that the two pin counts agree, so a pair of buses admitted by
/// this bound never differs in width.
pub trait Same<T: PinCount>: PinCount {
    /// The two widths count the same number of pins.
    proof fn lemma_same_pins()
        ensures
            Self::pins() == T::pins(),
    ;
}

impl<T: PinCount> Same<T> for T {
    proof fn lemma_same_pins() {
    }
}

} // verus!
