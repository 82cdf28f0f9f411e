//! The failures of reading an exact patch.

use vstd::prelude::*;
use vstd::std_specs::convert::FromSpecImpl;
use crate::delta_instruction_error::InstructionConvertBetweenBytesError;

verus! {

/// Why an exact patch could not be read.
#[derive(Debug, PartialEq, Eq, Clone, Copy, Structural)]
pub enum PatchError {
    /// One of its instructions could not be read.
    InstructionError(InstructionConvertBetweenBytesError),
}

impl From<InstructionConvertBetweenBytesError> for PatchError {
    fn from(value: InstructionConvertBetweenBytesError) -> (error: Self)
        ensures
            error == PatchError::InstructionError(value),
    {
        Self::InstructionError(value)
    }
}

impl FromSpecImpl<InstructionConvertBetweenBytesError> for PatchError {
    open spec fn obeys_from_spec() -> bool {
        true
    }

    open spec fn from_spec(value: InstructionConvertBetweenBytesError) -> Self {
        PatchError::InstructionError(value)
    }
}

impl PatchError {
    /// What went wrong, in words: what went wrong with the instruction.
    pub fn message(&self) -> (text: &'static str)
        ensures
            match self {
                PatchError::InstructionError(error) => text@ == error.message_text(),
            },
    {
        match self {
            PatchError::InstructionError(error) => error.message(),
        }
    }
}

} // verus!
