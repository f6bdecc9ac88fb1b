//! The handle that switches a bus between its two directions in place.

use crate::bus::{InputBus, IoBus, OutputBus, ParallelBus, SwitchableBus};
use crate::erased::DirectionErasedBus;
use crate::width::Same;
use vstd::pervasive::unreached;
use vstd::prelude::*;

verus! {

/// A bus that is input or output at any moment and can be switched.
///
/// The slot inside is emptied only while a conversion runs and is filled
/// again before the switch returns, whether the conversion succeeded or not.
/// A conversion reports failure by its result; one that panics instead takes
/// the bus with it, and the handle must not be used again.
#[derive(Debug)]
pub struct BidirectionBus<TInput, TOutput>(Option<DirectionErasedBus<TInput, TOutput>>) where
    TInput: InputBus + IoBus<TInput, TOutput>,
    TOutput: OutputBus + IoBus<TInput, TOutput>,
    <TInput as ParallelBus>::BusWidth: Same<<TOutput as ParallelBus>::BusWidth>,
    <TOutput as ParallelBus>::BusWidth: Same<<TInput as ParallelBus>::BusWidth>,
;

impl<TInput, TOutput> View for BidirectionBus<TInput, TOutput> where
    TInput: InputBus + IoBus<TInput, TOutput>,
    TOutput: OutputBus + IoBus<TInput, TOutput>,
    <TInput as ParallelBus>::BusWidth: Same<<TOutput as ParallelBus>::BusWidth>,
    <TOutput as ParallelBus>::BusWidth: Same<<TInput as ParallelBus>::BusWidth>,
 {
    type V = DirectionErasedBus<TInput, TOutput>;

    /// The bus that the handle holds, in the direction it has now.
    closed spec fn view(&self) -> DirectionErasedBus<TInput, TOutput> {
        self.0->Some_0
    }
}

impl<TInput, TOutput> BidirectionBus<TInput, TOutput> where
    TInput: InputBus + IoBus<TInput, TOutput>,
    TOutput: OutputBus + IoBus<TInput, TOutput>,
    <TInput as ParallelBus>::BusWidth: Same<<TOutput as ParallelBus>::BusWidth>,
    <TOutput as ParallelBus>::BusWidth: Same<<TInput as ParallelBus>::BusWidth>,
 {
    /// The handle holds a bus. Every constructor establishes this and every
    /// operation keeps it, on success and on failure.
    pub closed spec fn holds_bus(&self) -> bool {
        self.0 is Some
    }

    /// The handle that holds `bus`.
    pub closed spec fn holding(bus: DirectionErasedBus<TInput, TOutput>) -> Self {
        BidirectionBus(Some(bus))
    }

    /// The handle that holds `bus` holds a bus, and that bus is `bus`.
    pub proof fn lemma_holding(bus: DirectionErasedBus<TInput, TOutput>)
        ensures
            Self::holding(bus).holds_bus(),
            Self::holding(bus)@ == bus,
    {
    }

    /// Two switches to input in a row: once the first has succeeded, the
    /// second hands out the same input bus and leaves the handle as it was,
    /// whatever the conversions of the buses would answer.
    pub proof fn lemma_second_input_switch_changes_nothing(
        before: Self,
        first: TInput,
        between: Self,
        second: Result<TInput, <TOutput as IoBus<TInput, TOutput>>::IntoInputError>,
        after: Self,
    )
        requires
            before@.input_attempt(Ok(first)),
            between@ == DirectionErasedBus::<TInput, TOutput>::InputBus(first),
            match second {
                Ok(input) => after@ == DirectionErasedBus::<TInput, TOutput>::InputBus(input)
                    && between@.input_attempt(Ok(input)),
                Err(error) => between@.input_attempt(Err((after@, error))),
            },
        ensures
            second == Ok::<TInput, <TOutput as IoBus<TInput, TOutput>>::IntoInputError>(first),
            after@ == between@,
    {
    }

    /// Two switches to output in a row: once the first has succeeded, the
    /// second hands out the output bus as the caller left it, `left`, and
    /// asks nothing of it.
    pub proof fn lemma_second_output_switch_changes_nothing(
        before: Self,
        first: TOutput,
        left: TOutput,
        between: Self,
        second: Result<TOutput, <TInput as IoBus<TInput, TOutput>>::IntoOutputError>,
        after: Self,
    )
        requires
            before@.output_attempt(Ok(first)),
            between@ == DirectionErasedBus::<TInput, TOutput>::OutputBus(left),
            match second {
                Ok(output) => between@.output_attempt(Ok(output)),
                Err(error) => between@.output_attempt(Err((after@, error))),
            },
        ensures
            second == Ok::<TOutput, <TInput as IoBus<TInput, TOutput>>::IntoOutputError>(left),
    {
    }

    /// Gives up the handle for the bus inside, in its present direction.
    #[inline]
    pub fn into_erased(self) -> (bus: DirectionErasedBus<TInput, TOutput>)
        requires
            self.holds_bus(),
        ensures
            bus == self@,
    {
        self.0.unwrap()
    }

    /// Stores what an attempt to become input ended in, and hands out the
    /// input bus or the error.
    ///
    /// On success the handle holds the new input bus. On failure it holds
    /// the bus that the attempt handed back, and the error is passed on as
    /// it came.
    pub fn settle_input_attempt(
        &mut self,
        outcome: Result<
            TInput,
            (DirectionErasedBus<TInput, TOutput>, <TOutput as IoBus<TInput, TOutput>>::IntoInputError),
        >,
    ) -> (active: Result<&TInput, <TOutput as IoBus<TInput, TOutput>>::IntoInputError>)
        ensures
            final(self).holds_bus(),
            match outcome {
                Ok(input) => active == Ok::<
                    &TInput,
                    <TOutput as IoBus<TInput, TOutput>>::IntoInputError,
                >(&input) && final(self)@ == DirectionErasedBus::<TInput, TOutput>::InputBus(input),
                Err((back, error)) => active == Err::<
                    &TInput,
                    <TOutput as IoBus<TInput, TOutput>>::IntoInputError,
                >(error) && final(self)@ == back,
            },
    {
        match outcome {
            Ok(input) => {
                self.0 = Some(DirectionErasedBus::InputBus(input));
            },
            Err((back, error)) => {
                self.0 = Some(back);
                return Err(error);
            },
        }
        match &self.0 {
            Some(DirectionErasedBus::InputBus(input)) => Ok(input),
            _ => unreached(),
        }
    }

    /// Stores what an attempt to become output ended in, and hands out the
    /// output bus or the error.
    ///
    /// On success the handle holds the new output bus, as the caller leaves
    /// it. On failure it holds the bus that the attempt handed back, and the
    /// error is passed on as it came.
    pub fn settle_output_attempt(
        &mut self,
        outcome: Result<
            TOutput,
            (DirectionErasedBus<TInput, TOutput>, <TInput as IoBus<TInput, TOutput>>::IntoOutputError),
        >,
    ) -> (active: Result<&mut TOutput, <TInput as IoBus<TInput, TOutput>>::IntoOutputError>)
        ensures
            final(self).holds_bus(),
            match outcome {
                Ok(output) => active is Ok && *active->Ok_0 == output && final(self)@
                    == DirectionErasedBus::<TInput, TOutput>::OutputBus(*final(active->Ok_0)),
                Err((back, error)) => active is Err && active->Err_0 == error && final(self)@
                    == back,
            },
    {
        match outcome {
            Ok(output) => {
                self.0 = Some(DirectionErasedBus::OutputBus(output));
            },
            Err((back, error)) => {
                self.0 = Some(back);
                return Err(error);
            },
        }
        match &mut self.0 {
            Some(DirectionErasedBus::OutputBus(output)) => Ok(output),
            _ => unreached(),
        }
    }
}

impl<TInput, TOutput> vstd::std_specs::convert::FromSpecImpl<DirectionErasedBus<TInput, TOutput>> for BidirectionBus<TInput, TOutput> where
    TInput: InputBus + IoBus<TInput, TOutput>,
    TOutput: OutputBus + IoBus<TInput, TOutput>,
    <TInput as ParallelBus>::BusWidth: Same<<TOutput as ParallelBus>::BusWidth>,
    <TOutput as ParallelBus>::BusWidth: Same<<TInput as ParallelBus>::BusWidth>,
 {
    open spec fn obeys_from_spec() -> bool {
        true
    }

    open spec fn from_spec(value: DirectionErasedBus<TInput, TOutput>) -> Self {
        Self::holding(value)
    }
}

impl<TInput, TOutput> From<DirectionErasedBus<TInput, TOutput>> for BidirectionBus<TInput, TOutput> where
    TInput: InputBus + IoBus<TInput, TOutput>,
    TOutput: OutputBus + IoBus<TInput, TOutput>,
    <TInput as ParallelBus>::BusWidth: Same<<TOutput as ParallelBus>::BusWidth>,
    <TOutput as ParallelBus>::BusWidth: Same<<TInput as ParallelBus>::BusWidth>,
 {
    /// Wraps a bus, in whichever direction it is, in a handle.
    #[inline]
    fn from(value: DirectionErasedBus<TInput, TOutput>) -> (handle: Self)
        ensures
            handle.holds_bus(),
            handle@ == value,
    {
        Self(Some(value))
    }
}

impl<TInput, TOutput> ParallelBus for BidirectionBus<TInput, TOutput> where
    TInput: InputBus + IoBus<TInput, TOutput>,
    TOutput: OutputBus + IoBus<TInput, TOutput>,
    <TInput as ParallelBus>::BusWidth: Same<<TOutput as ParallelBus>::BusWidth>,
    <TOutput as ParallelBus>::BusWidth: Same<<TInput as ParallelBus>::BusWidth>,
 {
    type BusWidth = <DirectionErasedBus<TInput, TOutput> as ParallelBus>::BusWidth;

    /// Usable when it holds a bus and that bus is usable.
    open spec fn usable(&self) -> bool {
        self.holds_bus() && self@.usable()
    }
}

impl<TInput, TOutput> IoBus<TInput, TOutput> for BidirectionBus<TInput, TOutput> where
    TInput: InputBus + IoBus<TInput, TOutput>,
    TOutput: OutputBus + IoBus<TInput, TOutput>,
    <TInput as ParallelBus>::BusWidth: Same<<TOutput as ParallelBus>::BusWidth>,
    <TOutput as ParallelBus>::BusWidth: Same<<TInput as ParallelBus>::BusWidth>,
 {
    type IntoInputError = <TOutput as IoBus<TInput, TOutput>>::IntoInputError;

    type IntoOutputError = <TInput as IoBus<TInput, TOutput>>::IntoOutputError;

    /// The handle answers as the bus it holds does. What comes back on
    /// failure is a handle that holds the bus that came back.
    open spec fn input_attempt(
        self,
        outcome: Result<TInput, (Self, Self::IntoInputError)>,
    ) -> bool {
        match outcome {
            Ok(input) => self@.input_attempt(Ok(input)),
            Err((back, error)) => back.holds_bus() && self@.input_attempt(Err((back@, error))),
        }
    }

    /// As for input: the answer of the bus inside, with what comes back on
    /// failure inside a handle.
    open spec fn output_attempt(
        self,
        outcome: Result<TOutput, (Self, Self::IntoOutputError)>,
    ) -> bool {
        match outcome {
            Ok(output) => self@.output_attempt(Ok(output)),
            Err((back, error)) => back.holds_bus() && self@.output_attempt(Err((back@, error))),
        }
    }

    /// Gives up the handle and asks the bus inside to become input. A bus
    /// that comes back on failure comes back inside a handle.
    #[inline]
    fn into_input_bus(self) -> (outcome: Result<TInput, (Self, Self::IntoInputError)>)
        ensures
            self@ is InputBus ==> outcome == Ok::<TInput, (Self, Self::IntoInputError)>(
                self@->InputBus_0,
            ),
    {
        match self.0.unwrap().into_input_bus() {
            Ok(input) => Ok(input),
            Err((back, error)) => Err((BidirectionBus(Some(back)), error)),
        }
    }

    /// Gives up the handle and asks the bus inside to become output. A bus
    /// that comes back on failure comes back inside a handle.
    #[inline]
    fn into_output_bus(self) -> (outcome: Result<TOutput, (Self, Self::IntoOutputError)>)
        ensures
            self@ is OutputBus ==> outcome == Ok::<TOutput, (Self, Self::IntoOutputError)>(
                self@->OutputBus_0,
            ),
    {
        match self.0.unwrap().into_output_bus() {
            Ok(output) => Ok(output),
            Err((back, error)) => Err((BidirectionBus(Some(back)), error)),
        }
    }
}

impl<TInput, TOutput> SwitchableBus<TInput, TOutput> for BidirectionBus<TInput, TOutput> where
    TInput: InputBus + IoBus<TInput, TOutput>,
    TOutput: OutputBus + IoBus<TInput, TOutput>,
    <TInput as ParallelBus>::BusWidth: Same<<TOutput as ParallelBus>::BusWidth>,
    <TOutput as ParallelBus>::BusWidth: Same<<TInput as ParallelBus>::BusWidth>,
 {
    /// Makes the bus an input bus and hands it out.
    ///
    /// A handle that holds an input bus already hands that bus out and asks
    /// nothing of it. One that holds an output bus asks it to become input.
    fn switch_to_input_bus(&mut self) -> (active: Result<&TInput, Self::IntoInputError>)
        ensures
            final(self).holds_bus(),
            match active {
                Ok(input) => final(self)@ == DirectionErasedBus::<TInput, TOutput>::InputBus(*input)
                    && old(self)@.input_attempt(Ok(*input)),
                Err(error) => old(self)@.input_attempt(Err((final(self)@, error))),
            },
            old(self)@ is InputBus ==> active is Ok && final(self)@ == old(self)@,
    {
        let held = self.0.take().unwrap();
        let outcome = held.into_input_bus();
        self.settle_input_attempt(outcome)
    }

    /// Makes the bus an output bus and hands it out for driving.
    ///
    /// A handle that holds an output bus already hands that bus out and asks
    /// nothing of it. One that holds an input bus asks it to become output.
    fn switch_to_output_bus(&mut self) -> (active: Result<&mut TOutput, Self::IntoOutputError>)
        ensures
            final(self).holds_bus(),
            match active {
                Ok(output) => {
                    &&& final(self)@ == DirectionErasedBus::<TInput, TOutput>::OutputBus(*final(output))
                    &&& old(self)@.output_attempt(Ok(*output))
                },
                Err(error) => old(self)@.output_attempt(Err((final(self)@, error))),
            },
            old(self)@ is OutputBus ==> active is Ok && *active->Ok_0 == old(self)@->OutputBus_0,
    {
        let held = self.0.take().unwrap();
        let outcome = held.into_output_bus();
        self.settle_output_attempt(outcome)
    }
}

} // verus!
