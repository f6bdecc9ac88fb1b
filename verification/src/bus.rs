//! What a bus can do: be sampled, be driven, and change direction.

use crate::width::{PinCount, Same};
use core::fmt::Debug;
use vstd::prelude::*;

verus! {

/// A group of pins operated together. The width is part of the type.
pub trait ParallelBus {
    type BusWidth: PinCount;

    /// Whether the value owns its pins and is fit for use. The operations of
    /// a bus ask for it and hand back only buses of which it holds. Unless a
    /// bus says otherwise, it is usable in every state.
    open spec fn usable(&self) -> bool {
        true
    }
}

/// A bus that can be sampled.
pub trait InputBus: ParallelBus {
    type Error: Debug;

    /// Samples every pin of the bus. What comes back holds one level for
    /// each pin of the width.
    fn read_bus(&self) -> (sampled: Result<
        <Self::BusWidth as PinCount>::PinVector,
        Self::Error,
    >)
        requires
            self.usable(),
        ensures
            match sampled {
                Ok(vector) => <Self::BusWidth as PinCount>::states(&vector).len()
                    == <Self::BusWidth as PinCount>::pins(),
                Err(_) => true,
            },
    ;
}

/// A bus that can be driven.
pub trait OutputBus: ParallelBus {
    type Error: Debug;

    /// Drives every pin of the bus to its level in `states`, which holds one
    /// level for each pin of the width. The bus stays usable.
    fn write_bus(&mut self, states: <Self::BusWidth as PinCount>::PinVector) -> (written: Result<
        (),
        Self::Error,
    >)
        requires
            old(self).usable(),
        ensures
            final(self).usable(),
    ;
}

/// A bus that can try to become the input bus `TInput` or the output bus
/// `TOutput` of the same width.
///
/// A conversion consumes the bus. When it fails it hands a bus of the
/// converted type back beside the error, in whatever condition the hardware
/// was left, so that the caller still owns the pins.
pub trait IoBus<TInput, TOutput>: ParallelBus + Sized where
    TInput: InputBus,
    TOutput: OutputBus,
    <TInput as ParallelBus>::BusWidth: Same<<TOutput as ParallelBus>::BusWidth>,
    <TOutput as ParallelBus>::BusWidth: Same<<TInput as ParallelBus>::BusWidth>,
 {
    type IntoInputError: Debug;

    type IntoOutputError: Debug;

    /// Whether converting `self` to input may end in `outcome`. Unless a bus
    /// says more, every outcome is possible.
    open spec fn input_attempt(
        self,
        outcome: Result<TInput, (Self, Self::IntoInputError)>,
    ) -> bool {
        true
    }

    /// Whether converting `self` to output may end in `outcome`. Unless a
    /// bus says more, every outcome is possible.
    open spec fn output_attempt(
        self,
        outcome: Result<TOutput, (Self, Self::IntoOutputError)>,
    ) -> bool {
        true
    }

    /// Tries to make the bus an input bus. Whatever comes back, the input
    /// bus or the bus handed back beside the error, is usable.
    fn into_input_bus(self) -> (outcome: Result<TInput, (Self, Self::IntoInputError)>)
        requires
            self.usable(),
        ensures
            self.input_attempt(outcome),
            match outcome {
                Ok(input) => input.usable(),
                Err((back, _)) => back.usable(),
            },
    ;

    /// Tries to make the bus an output bus. Whatever comes back, the output
    /// bus or the bus handed back beside the error, is usable.
    fn into_output_bus(self) -> (outcome: Result<TOutput, (Self, Self::IntoOutputError)>)
        requires
            self.usable(),
        ensures
            self.output_attempt(outcome),
            match outcome {
                Ok(output) => output.usable(),
                Err((back, _)) => back.usable(),
            },
    ;
}

/// A convertible bus that changes direction in place.
///
/// Switching is the conversion of [`IoBus`] applied to the bus where it
/// stands: on success the bus is the converted one, on failure it is the bus
/// that the conversion handed back, and the error is passed on as it came.
pub trait SwitchableBus<TInput, TOutput>: IoBus<TInput, TOutput> where
    TInput: InputBus,
    TOutput: OutputBus,
    <TInput as ParallelBus>::BusWidth: Same<<TOutput as ParallelBus>::BusWidth>,
    <TOutput as ParallelBus>::BusWidth: Same<<TInput as ParallelBus>::BusWidth>,
 {
    /// Makes the bus an input bus where it stands and hands it out for
    /// sampling. The bus stays usable whether the switch succeeds or not.
    fn switch_to_input_bus(&mut self) -> (active: Result<&TInput, Self::IntoInputError>)
        requires
            old(self).usable(),
        ensures
            final(self).usable(),
            match active {
                Ok(input) => old(self).input_attempt(Ok(*input)) && input.usable(),
                Err(error) => old(self).input_attempt(Err((*final(self), error))),
            },
    ;

    /// Makes the bus an output bus where it stands and hands it out for
    /// driving. After a failure the bus is usable; after a success it is as
    /// usable as the caller leaves the output bus.
    fn switch_to_output_bus(&mut self) -> (active: Result<&mut TOutput, Self::IntoOutputError>)
        requires
            old(self).usable(),
        ensures
            match active {
                Ok(output) => {
                    &&& old(self).output_attempt(Ok(*output))
                    &&& output.usable()
                    &&& final(output).usable() ==> final(self).usable()
                },
                Err(error) => {
                    &&& old(self).output_attempt(Err((*final(self), error)))
                    &&& final(self).usable()
                },
            },
    ;
}

/// An input bus and an output bus that may be paired count the same number
/// of pins.
pub proof fn lemma_paired_widths_agree<TInput, TOutput>() where
    TInput: InputBus,
    TOutput: OutputBus,
    <TInput as ParallelBus>::BusWidth: Same<<TOutput as ParallelBus>::BusWidth>,
    <TOutput as ParallelBus>::BusWidth: Same<<TInput as ParallelBus>::BusWidth>,

    ensures
        <<TInput as ParallelBus>::BusWidth as PinCount>::pins() == <<TOutput as ParallelBus>::BusWidth as PinCount>::pins(),
{
    <<TInput as ParallelBus>::BusWidth as Same<<TOutput as ParallelBus>::BusWidth>>::lemma_same_pins();
}

} // verus!
