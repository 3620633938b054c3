//! Errors of the workflow's preconditions.
use vstd::prelude::*;

verus! {

/// Unable to determine the lock time: some input requires a time-based lock time and another
/// a height-based one.
#[derive(Clone, Copy, Debug, PartialEq, Eq, Structural)]
pub struct DetermineLockTimeError;

/// A PSBT handed to a `Constructor` lacks a modifiable flag.
#[derive(Clone, Copy, Debug, PartialEq, Eq, Structural)]
pub enum PsbtNotModifiableError {
    /// The outputs modifiable flag is not set.
    Outputs(OutputsNotModifiableError),
    /// The inputs modifiable flag is not set.
    Inputs(InputsNotModifiableError),
}

/// A PSBT handed to an input-adding `Constructor` does not have the inputs modifiable flag set.
#[derive(Clone, Copy, Debug, PartialEq, Eq, Structural)]
pub struct InputsNotModifiableError;

/// A PSBT handed to an output-adding `Constructor` does not have the outputs modifiable flag set.
#[derive(Clone, Copy, Debug, PartialEq, Eq, Structural)]
pub struct OutputsNotModifiableError;

impl From<InputsNotModifiableError> for PsbtNotModifiableError {
    fn from(e: InputsNotModifiableError) -> (r: Self) {
        PsbtNotModifiableError::Inputs(e)
    }
}

impl vstd::std_specs::convert::FromSpecImpl<InputsNotModifiableError> for PsbtNotModifiableError {
    open spec fn obeys_from_spec() -> bool {
        true
    }

    open spec fn from_spec(e: InputsNotModifiableError) -> PsbtNotModifiableError {
        PsbtNotModifiableError::Inputs(e)
    }
}

impl From<OutputsNotModifiableError> for PsbtNotModifiableError {
    fn from(e: OutputsNotModifiableError) -> (r: Self) {
        PsbtNotModifiableError::Outputs(e)
    }
}

impl vstd::std_specs::convert::FromSpecImpl<OutputsNotModifiableError> for PsbtNotModifiableError {
    open spec fn obeys_from_spec() -> bool {
        true
    }

    open spec fn from_spec(e: OutputsNotModifiableError) -> PsbtNotModifiableError {
        PsbtNotModifiableError::Outputs(e)
    }
}

/// The funding output of an input cannot be had.
#[derive(Clone, Copy, Debug, PartialEq, Eq, Structural)]
pub enum FundingUtxoError {
    /// The spent output index is past the outputs of the attached previous transaction.
    OutOfBounds {
        /// The index used.
        vout: usize,
        /// The number of outputs of that transaction.
        len: usize,
    },
    /// The input carries neither the spent output nor the previous transaction.
    MissingUtxo,
}

} // verus!

verus! {

/// An index past the end of the inputs.
#[derive(Clone, Copy, Debug, PartialEq, Eq, Structural)]
pub struct IndexOutOfBoundsError {
    /// The index asked for.
    pub index: usize,
    /// The number of inputs.
    pub length: usize,
}

} // verus!
