//! The failures of building and decoding instructions.

use vstd::prelude::*;

verus! {

/// Why an instruction could not be extended or decoded.
#[derive(Debug, PartialEq, Eq, Clone, Copy, Structural)]
pub enum InstructionError {
    /// The instruction already holds as many items as its length field can
    /// express.
    ContentOverflow,
    /// The input ended where an instruction sign was expected.
    MissingSign,
    /// The byte in sign position is not the sign that was expected.
    InvalidSign,
    /// The input ended right after the sign.
    MissingLength,
    /// The length field is present only in part. With a length field of one
    /// byte this cannot happen.
    InvalidLength,
    /// Fewer content bytes follow than the length field announces.
    MissingContent,
    /// A content item is present only in part. With items of one byte this
    /// cannot happen.
    InvalidContent,
}

impl InstructionError {
    /// What went wrong, in words.
    pub open spec fn message_text(self) -> Seq<char> {
        match self {
            InstructionError::ContentOverflow => {
                "Cannot exceed 255 amount of bytes in an instruction"@
            },
            InstructionError::MissingSign => "No instruction sign found"@,
            InstructionError::InvalidSign => "Instruction sign didn't match: 45, 43 or 124"@,
            InstructionError::MissingLength => "No length value found"@,
            InstructionError::MissingContent => {
                "Not enough bytes found to match the given length"@
            },
            InstructionError::InvalidLength => {
                "Not enough bytes found to create a length of type u8"@
            },
            InstructionError::InvalidContent => {
                "Not enough bytes found to create an item item of type u8"@
            },
        }
    }

    /// What went wrong, in words.
    pub fn message(&self) -> (text: &'static str)
        ensures
            text@ == self.message_text(),
    {
        match self {
            InstructionError::ContentOverflow => {
                "Cannot exceed 255 amount of bytes in an instruction"
            },
            InstructionError::MissingSign => "No instruction sign found",
            InstructionError::InvalidSign => "Instruction sign didn't match: 45, 43 or 124",
            InstructionError::MissingLength => "No length value found",
            InstructionError::MissingContent => "Not enough bytes found to match the given length",
            InstructionError::InvalidLength => {
                "Not enough bytes found to create a length of type u8"
            },
            InstructionError::InvalidContent => {
                "Not enough bytes found to create an item item of type u8"
            },
        }
    }
}

} // verus!
