//! The failures of the exact instructions.

use vstd::prelude::*;
use vstd::std_specs::convert::FromSpecImpl;

verus! {

/// Why bytes could not be turned into an instruction.
#[derive(Debug, PartialEq, Eq, Clone, Copy, Structural)]
pub enum InstructionConvertBetweenBytesError {
    /// The input is empty.
    NoSignByteFound,
    /// The first byte announces no kind of instruction.
    InvalidSign,
    /// The length field is incomplete.
    IncorrectLengthByteAmount,
    /// The content is shorter than the length field says.
    IncorrrectContentLength,
}

/// Why an instruction could not be extended or converted.
#[derive(Debug, PartialEq, Eq, Clone, Copy, Structural)]
pub enum InstructionError {
    /// The instruction is as long as its length field can express.
    MaxLengthReached,
    ConvertBetweenBytesError(InstructionConvertBetweenBytesError),
}

impl From<InstructionConvertBetweenBytesError> for InstructionError {
    fn from(value: InstructionConvertBetweenBytesError) -> (error: Self)
        ensures
            error == InstructionError::ConvertBetweenBytesError(value),
    {
        InstructionError::ConvertBetweenBytesError(value)
    }
}

impl FromSpecImpl<InstructionConvertBetweenBytesError> for InstructionError {
    open spec fn obeys_from_spec() -> bool {
        true
    }

    open spec fn from_spec(value: InstructionConvertBetweenBytesError) -> Self {
        InstructionError::ConvertBetweenBytesError(value)
    }
}

/// Why an exact instruction could not be read from bytes.
#[derive(Debug, PartialEq, Eq, Clone, Copy, Structural)]
pub enum InstructionFromBytesError {
    /// The input is empty.
    NoSignFound,
    /// The first byte announces no kind of instruction.
    InvalidSign,
    /// The input ends after the sign.
    NoLengthFound,
    /// The content is shorter than the length field says.
    InvalidLength,
}

/// Why an exact instruction could not be applied.
#[derive(Debug, PartialEq, Eq, Clone, Copy, Structural)]
pub enum ApplyToError {
    /// The source holds fewer bytes than the instruction consumes.
    InvalidSourceLength,
}

impl InstructionConvertBetweenBytesError {
    /// What went wrong, in words.
    pub open spec fn message_text(self) -> Seq<char> {
        match self {
            InstructionConvertBetweenBytesError::NoSignByteFound => {
                "The bytes iterator is empty."@
            },
            InstructionConvertBetweenBytesError::InvalidSign => {
                "The first byte of the iterator was not a valid Instruction identifier byte."@
            },
            InstructionConvertBetweenBytesError::IncorrectLengthByteAmount => {
                "There weren't enough correct length indicator bytes in the iterator to construct a valid InstructionLength value."@
            },
            InstructionConvertBetweenBytesError::IncorrrectContentLength => {
                "The decoded InstructionLength and content length did not match."@
            },
        }
    }

    /// What went wrong, in words.
    pub fn message(&self) -> (text: &'static str)
        ensures
            text@ == self.message_text(),
    {
        match self {
            InstructionConvertBetweenBytesError::NoSignByteFound => "The bytes iterator is empty.",
            InstructionConvertBetweenBytesError::InvalidSign => {
                "The first byte of the iterator was not a valid Instruction identifier byte."
            },
            InstructionConvertBetweenBytesError::IncorrectLengthByteAmount => {
                "There weren't enough correct length indicator bytes in the iterator to construct a valid InstructionLength value."
            },
            InstructionConvertBetweenBytesError::IncorrrectContentLength => {
                "The decoded InstructionLength and content length did not match."
            },
        }
    }
}

impl InstructionError {
    /// What went wrong, in words.
    pub open spec fn message_text(self) -> Seq<char> {
        match self {
            InstructionError::MaxLengthReached => {
                "Reached the max content length for this instruction type. Cannot fill it any further."@
            },
            InstructionError::ConvertBetweenBytesError(error) => error.message_text(),
        }
    }

    /// What went wrong, in words.
    pub fn message(&self) -> (text: &'static str)
        ensures
            text@ == self.message_text(),
    {
        match self {
            InstructionError::MaxLengthReached => {
                "Reached the max content length for this instruction type. Cannot fill it any further."
            },
            InstructionError::ConvertBetweenBytesError(error) => error.message(),
        }
    }
}

} // verus!
