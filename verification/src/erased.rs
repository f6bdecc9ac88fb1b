//! A bus held in one of its two directions.

use crate::bus::{InputBus, IoBus, OutputBus, ParallelBus};
use crate::width::Same;
use vstd::prelude::*;

verus! {

/// Either an input bus or an output bus, and nothing else: a failed
/// conversion is reported beside the value and is no state of its own.
#[derive(Debug)]
pub enum DirectionErasedBus<TInput, TOutput> where
    TInput: InputBus + IoBus<TInput, TOutput>,
    TOutput: OutputBus + IoBus<TInput, TOutput>,
    <TInput as ParallelBus>::BusWidth: Same<<TOutput as ParallelBus>::BusWidth>,
    <TOutput as ParallelBus>::BusWidth: Same<<TInput as ParallelBus>::BusWidth>,
 {
    InputBus(TInput),
    OutputBus(TOutput),
}

impl<TInput, TOutput> ParallelBus for DirectionErasedBus<TInput, TOutput> where
    TInput: InputBus + IoBus<TInput, TOutput>,
    TOutput: OutputBus + IoBus<TInput, TOutput>,
    <TInput as ParallelBus>::BusWidth: Same<<TOutput as ParallelBus>::BusWidth>,
    <TOutput as ParallelBus>::BusWidth: Same<<TInput as ParallelBus>::BusWidth>,
 {
    type BusWidth = <TInput as ParallelBus>::BusWidth;

    /// Usable when the bus inside is.
    open spec fn usable(&self) -> bool {
        match self {
            Self::InputBus(input) => input.usable(),
            Self::OutputBus(output) => output.usable(),
        }
    }
}

impl<TInput, TOutput> DirectionErasedBus<TInput, TOutput> where
    TInput: InputBus + IoBus<TInput, TOutput>,
    TOutput: OutputBus + IoBus<TInput, TOutput>,
    <TInput as ParallelBus>::BusWidth: Same<<TOutput as ParallelBus>::BusWidth>,
    <TOutput as ParallelBus>::BusWidth: Same<<TInput as ParallelBus>::BusWidth>,
 {
    /// What the held output bus's attempt to become input means for the
    /// whole value: success is passed on, and on failure the bus that came
    /// back is held as output again, beside the same error.
    pub open spec fn lift_input_attempt(
        attempt: Result<TInput, (TOutput, <TOutput as IoBus<TInput, TOutput>>::IntoInputError)>,
    ) -> Result<TInput, (Self, <TOutput as IoBus<TInput, TOutput>>::IntoInputError)> {
        match attempt {
            Ok(input) => Ok(input),
            Err((output, error)) => Err((Self::OutputBus(output), error)),
        }
    }

    /// What the held input bus's attempt to become output means for the
    /// whole value.
    pub open spec fn lift_output_attempt(
        attempt: Result<TOutput, (TInput, <TInput as IoBus<TInput, TOutput>>::IntoOutputError)>,
    ) -> Result<TOutput, (Self, <TInput as IoBus<TInput, TOutput>>::IntoOutputError)> {
        match attempt {
            Ok(output) => Ok(output),
            Err((input, error)) => Err((Self::InputBus(input), error)),
        }
    }

    /// Takes what an output bus answered when asked to become input, and
    /// gives what the direction-erased bus answers.
    pub fn wrap_input_attempt(
        attempt: Result<TInput, (TOutput, <TOutput as IoBus<TInput, TOutput>>::IntoInputError)>,
    ) -> (outcome: Result<TInput, (Self, <TOutput as IoBus<TInput, TOutput>>::IntoInputError)>)
        ensures
            outcome == Self::lift_input_attempt(attempt),
    {
        match attempt {
            Ok(input) => Ok(input),
            Err((output, error)) => Err((Self::OutputBus(output), error)),
        }
    }

    /// Takes what an input bus answered when asked to become output, and
    /// gives what the direction-erased bus answers.
    pub fn wrap_output_attempt(
        attempt: Result<TOutput, (TInput, <TInput as IoBus<TInput, TOutput>>::IntoOutputError)>,
    ) -> (outcome: Result<TOutput, (Self, <TInput as IoBus<TInput, TOutput>>::IntoOutputError)>)
        ensures
            outcome == Self::lift_output_attempt(attempt),
    {
        match attempt {
            Ok(output) => Ok(output),
            Err((input, error)) => Err((Self::InputBus(input), error)),
        }
    }
}

impl<TInput, TOutput> DirectionErasedBus<TInput, TOutput> where
    TInput: InputBus + IoBus<TInput, TOutput>,
    TOutput: OutputBus + IoBus<TInput, TOutput>,
    <TInput as ParallelBus>::BusWidth: Same<<TOutput as ParallelBus>::BusWidth>,
    <TOutput as ParallelBus>::BusWidth: Same<<TInput as ParallelBus>::BusWidth>,
 {
    /// Asking a held input bus to become input has one outcome only: that
    /// very bus. The bus's own conversions have no say in it.
    pub proof fn lemma_held_input_stays(
        input: TInput,
        outcome: Result<TInput, (Self, <TOutput as IoBus<TInput, TOutput>>::IntoInputError)>,
    )
        requires
            Self::InputBus(input).input_attempt(outcome),
        ensures
            outcome == Ok::<TInput, (Self, <TOutput as IoBus<TInput, TOutput>>::IntoInputError)>(
                input,
            ),
    {
    }

    /// Asking a held output bus to become output has one outcome only: that
    /// very bus.
    pub proof fn lemma_held_output_stays(
        output: TOutput,
        outcome: Result<TOutput, (Self, <TInput as IoBus<TInput, TOutput>>::IntoOutputError)>,
    )
        requires
            Self::OutputBus(output).output_attempt(outcome),
        ensures
            outcome == Ok::<TOutput, (Self, <TInput as IoBus<TInput, TOutput>>::IntoOutputError)>(
                output,
            ),
    {
    }

    /// When a held output bus is asked to become input, the input bus that
    /// comes out is one that the output bus itself gave.
    pub proof fn lemma_input_comes_from_held_output(output: TOutput, input: TInput)
        requires
            Self::OutputBus(output).input_attempt(Ok(input)),
        ensures
            output.input_attempt(Ok(input)),
    {
        let attempt = choose|
            attempt: Result<TInput, (TOutput, <TOutput as IoBus<TInput, TOutput>>::IntoInputError)>,
        |
            #[trigger] output.input_attempt(attempt) && Ok::<
                TInput,
                (Self, <TOutput as IoBus<TInput, TOutput>>::IntoInputError),
            >(input) == Self::lift_input_attempt(attempt);
        assert(attempt == Ok::<
            TInput,
            (TOutput, <TOutput as IoBus<TInput, TOutput>>::IntoInputError),
        >(input));
    }

    /// When a held output bus fails to become input, the error that comes
    /// out is the one that the output bus itself gave, unchanged, and what
    /// is held afterwards is the output bus that it handed back.
    pub proof fn lemma_input_error_comes_from_held_output(
        output: TOutput,
        back: Self,
        error: <TOutput as IoBus<TInput, TOutput>>::IntoInputError,
    )
        requires
            Self::OutputBus(output).input_attempt(Err((back, error))),
        ensures
            back is OutputBus,
            output.input_attempt(Err((back->OutputBus_0, error))),
    {
        let attempt = choose|
            attempt: Result<TInput, (TOutput, <TOutput as IoBus<TInput, TOutput>>::IntoInputError)>,
        |
            #[trigger] output.input_attempt(attempt) && Err::<
                TInput,
                (Self, <TOutput as IoBus<TInput, TOutput>>::IntoInputError),
            >((back, error)) == Self::lift_input_attempt(attempt);
        assert(attempt == Err::<
            TInput,
            (TOutput, <TOutput as IoBus<TInput, TOutput>>::IntoInputError),
        >((back->OutputBus_0, error)));
    }

    /// When a held input bus is asked to become output, the output bus that
    /// comes out is one that the input bus itself gave.
    pub proof fn lemma_output_comes_from_held_input(input: TInput, output: TOutput)
        requires
            Self::InputBus(input).output_attempt(Ok(output)),
        ensures
            input.output_attempt(Ok(output)),
    {
        let attempt = choose|
            attempt: Result<TOutput, (TInput, <TInput as IoBus<TInput, TOutput>>::IntoOutputError)>,
        |
            #[trigger] input.output_attempt(attempt) && Ok::<
                TOutput,
                (Self, <TInput as IoBus<TInput, TOutput>>::IntoOutputError),
            >(output) == Self::lift_output_attempt(attempt);
        assert(attempt == Ok::<
            TOutput,
            (TInput, <TInput as IoBus<TInput, TOutput>>::IntoOutputError),
        >(output));
    }

    /// When a held input bus fails to become output, the error that comes
    /// out is the one that the input bus itself gave, unchanged, and what is
    /// held afterwards is the input bus that it handed back.
    pub proof fn lemma_output_error_comes_from_held_input(
        input: TInput,
        back: Self,
        error: <TInput as IoBus<TInput, TOutput>>::IntoOutputError,
    )
        requires
            Self::InputBus(input).output_attempt(Err((back, error))),
        ensures
            back is InputBus,
            input.output_attempt(Err((back->InputBus_0, error))),
    {
        let attempt = choose|
            attempt: Result<TOutput, (TInput, <TInput as IoBus<TInput, TOutput>>::IntoOutputError)>,
        |
            #[trigger] input.output_attempt(attempt) && Err::<
                TOutput,
                (Self, <TInput as IoBus<TInput, TOutput>>::IntoOutputError),
            >((back, error)) == Self::lift_output_attempt(attempt);
        assert(attempt == Err::<
            TOutput,
            (TInput, <TInput as IoBus<TInput, TOutput>>::IntoOutputError),
        >((back->InputBus_0, error)));
    }
}

impl<TInput, TOutput> IoBus<TInput, TOutput> for DirectionErasedBus<TInput, TOutput> where
    TInput: InputBus + IoBus<TInput, TOutput>,
    TOutput: OutputBus + IoBus<TInput, TOutput>,
    <TInput as ParallelBus>::BusWidth: Same<<TOutput as ParallelBus>::BusWidth>,
    <TOutput as ParallelBus>::BusWidth: Same<<TInput as ParallelBus>::BusWidth>,
 {
    type IntoInputError = <TOutput as IoBus<TInput, TOutput>>::IntoInputError;

    type IntoOutputError = <TInput as IoBus<TInput, TOutput>>::IntoOutputError;

    /// A held input bus is the one and only outcome. A held output bus is
    /// asked, and the outcome is its answer, lifted.
    open spec fn input_attempt(
        self,
        outcome: Result<TInput, (Self, Self::IntoInputError)>,
    ) -> bool {
        match self {
            Self::InputBus(input) => outcome == Ok::<TInput, (Self, Self::IntoInputError)>(input),
            Self::OutputBus(output) => exists|
                attempt: Result<TInput, (TOutput, Self::IntoInputError)>,
            |
                #[trigger] output.input_attempt(attempt) && outcome == Self::lift_input_attempt(
                    attempt,
                ),
        }
    }

    /// A held output bus is the one and only outcome. A held input bus is
    /// asked, and the outcome is its answer, lifted.
    open spec fn output_attempt(
        self,
        outcome: Result<TOutput, (Self, Self::IntoOutputError)>,
    ) -> bool {
        match self {
            Self::InputBus(input) => exists|
                attempt: Result<TOutput, (TInput, Self::IntoOutputError)>,
            |
                #[trigger] input.output_attempt(attempt) && outcome == Self::lift_output_attempt(
                    attempt,
                ),
            Self::OutputBus(output) => outcome == Ok::<TOutput, (Self, Self::IntoOutputError)>(
                output,
            ),
        }
    }

    /// Hands out a held input bus as it is, without asking anything of it.
    /// Asks a held output bus to become input and lifts its answer.
    fn into_input_bus(self) -> (outcome: Result<TInput, (Self, Self::IntoInputError)>)
        ensures
            self is InputBus ==> outcome == Ok::<TInput, (Self, Self::IntoInputError)>(
                self->InputBus_0,
            ),
    {
        match self {
            Self::InputBus(input) => Ok(input),
            Self::OutputBus(output) => Self::wrap_input_attempt(output.into_input_bus()),
        }
    }

    /// Hands out a held output bus as it is, without asking anything of it.
    /// Asks a held input bus to become output and lifts its answer.
    fn into_output_bus(self) -> (outcome: Result<TOutput, (Self, Self::IntoOutputError)>)
        ensures
            self is OutputBus ==> outcome == Ok::<TOutput, (Self, Self::IntoOutputError)>(
                self->OutputBus_0,
            ),
    {
        match self {
            Self::InputBus(input) => Self::wrap_output_attempt(input.into_output_bus()),
            Self::OutputBus(output) => Ok(output),
        }
    }
}

} // verus!
