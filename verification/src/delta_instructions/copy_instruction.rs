//! The record of a copy.

use vstd::prelude::*;
use vstd::std_specs::convert::{FromSpecImpl, TryFromSpecImpl};
use crate::cursor::ByteCursor;
use super::errors::CopyInstructionError;
use super::traits::{InstructionBytes, PushToInstruction};

verus! {

/// The type of the length of a copy.
pub type CopyInstructionlength = u8;

/// Emits a run of source bytes as they are.
#[derive(Debug, PartialEq)]
pub struct CopyInstruction {
    length: CopyInstructionlength,
}

impl View for CopyInstruction {
    type V = nat;

    /// The number of source bytes copied.
    closed spec fn view(&self) -> nat {
        self.length as nat
    }
}

/// What reading a copy from `bytes` gives, and what it leaves unread: the
/// length, or the failure. The sign is consumed whatever it is.
pub open spec fn decode_copy(bytes: Seq<u8>) -> (
    core::result::Result<u8, CopyInstructionError>,
    Seq<u8>,
) {
    if bytes.len() == 0 {
        (Err(CopyInstructionError::InvalidSignByte(None)), bytes)
    } else if bytes[0] != CopyInstruction::INSTRUCTION_BYTE_SIGN {
        (Err(CopyInstructionError::InvalidSignByte(Some(bytes[0]))), bytes.skip(1))
    } else if bytes.len() < 2 {
        (Err(CopyInstructionError::InvalidLengthBytes(None)), bytes.skip(1))
    } else {
        (Ok(bytes[1]), bytes.skip(2))
    }
}

impl Default for CopyInstruction {
    fn default() -> (instruction: Self)
        ensures
            instruction@ == 0,
    {
        Self { length: 0 }
    }
}

impl CopyInstruction {
    /// A copy of `length` bytes.
    pub fn new(length: CopyInstructionlength) -> (instruction: Self)
        ensures
            instruction@ == length,
    {
        Self { length }
    }

    pub fn len(&self) -> (length: CopyInstructionlength)
        ensures
            length == self@,
    {
        self.length
    }

    pub fn is_empty(&self) -> (empty: bool)
        ensures
            empty == (self@ == 0),
    {
        self.length == 0
    }
}

impl PushToInstruction for CopyInstruction {
    type Error = CopyInstructionError;

    /// A copy below 255 grows by one; at 255 it refuses.
    open spec fn push_yields(
        &self,
        byte: u8,
        result: core::result::Result<(), Self::Error>,
        after: &Self,
    ) -> bool {
        if self@ < 255 {
            result is Ok && after@ == self@ + 1
        } else {
            result == Err::<(), CopyInstructionError>(CopyInstructionError::MaxLengthReached)
                && after@ == self@
        }
    }

    fn push(&mut self, _byte: u8) -> (result: core::result::Result<(), Self::Error>) {
        match self.length.checked_add(1) {
            Some(length) => {
                self.length = length;
                Ok(())
            },
            None => Err(CopyInstructionError::MaxLengthReached),
        }
    }
}

impl InstructionBytes for CopyInstruction {
    const INSTRUCTION_BYTE_SIGN: u8 = 124;

    const NUMBER_BYTES_LENGTH: usize = 1;

    type Error = CopyInstructionError;

    open spec fn wire(&self) -> Seq<u8> {
        seq![Self::INSTRUCTION_BYTE_SIGN, self@ as u8]
    }

    open spec fn reads_as(
        input: Seq<u8>,
        result: core::result::Result<Self, Self::Error>,
        rest: Seq<u8>,
    ) -> bool {
        &&& rest == decode_copy(input).1
        &&& match result {
            Ok(instruction) => decode_copy(input).0 == Ok::<u8, CopyInstructionError>(
                instruction@ as u8,
            ),
            Err(error) => decode_copy(input).0 == Err::<u8, CopyInstructionError>(error),
        }
    }

    fn to_bytes(&self) -> (bytes: Vec<u8>) {
        let mut bytes: Vec<u8> = Vec::with_capacity(1 + Self::NUMBER_BYTES_LENGTH);
        bytes.push(Self::INSTRUCTION_BYTE_SIGN);
        bytes.push(self.length);
        bytes
    }

    fn from_bytes(bytes: &mut ByteCursor<'_>) -> (result: core::result::Result<Self, Self::Error>) {
        match bytes.next() {
            Some(byte) => {
                if byte != Self::INSTRUCTION_BYTE_SIGN {
                    return Err(CopyInstructionError::InvalidSignByte(Some(byte)));
                }
            },
            None => {
                return Err(CopyInstructionError::InvalidSignByte(None));
            },
        }
        let found = bytes.len();
        if found == 0 {
            return Err(CopyInstructionError::InvalidLengthBytes(None));
        }
        if found < Self::NUMBER_BYTES_LENGTH {
            return Err(CopyInstructionError::InvalidLengthBytes(Some(found)));
        }
        assert(old(bytes)@.skip(1).skip(1) == old(bytes)@.skip(2));
        match bytes.next() {
            Some(length) => Ok(Self { length }),
            None => Err(CopyInstructionError::InvalidLengthBytes(None)),
        }
    }
}

impl From<&CopyInstruction> for Vec<u8> {
    /// The wire form of the copy.
    fn from(value: &CopyInstruction) -> (bytes: Self)
        ensures
            bytes@ == value.wire(),
    {
        value.to_bytes()
    }
}

/// A specification cannot name the value that `from` builds, only its view:
/// what comes back is stated by the `ensures` of `from` itself.
impl FromSpecImpl<&CopyInstruction> for Vec<u8> {
    open spec fn obeys_from_spec() -> bool {
        false
    }

    open spec fn from_spec(value: &CopyInstruction) -> Self {
        arbitrary()
    }
}

impl From<CopyInstruction> for Vec<u8> {
    /// The wire form of the copy.
    fn from(value: CopyInstruction) -> (bytes: Self)
        ensures
            bytes@ == value.wire(),
    {
        value.to_bytes()
    }
}

/// A specification cannot name the value that `from` builds, only its view:
/// what comes back is stated by the `ensures` of `from` itself.
impl FromSpecImpl<CopyInstruction> for Vec<u8> {
    open spec fn obeys_from_spec() -> bool {
        false
    }

    open spec fn from_spec(value: CopyInstruction) -> Self {
        arbitrary()
    }
}

impl<'a, 'b> TryFrom<&'a mut ByteCursor<'b>> for CopyInstruction {
    type Error = CopyInstructionError;

    /// Reads a copy from the cursor.
    fn try_from(value: &'a mut ByteCursor<'b>) -> (result: core::result::Result<Self, Self::Error>)
        ensures
            CopyInstruction::reads_as(old(value)@, result, final(value)@),
    {
        CopyInstruction::from_bytes(value)
    }
}

/// A specification cannot name the value that `try_from` builds, only its view:
/// what comes back is stated by the `ensures` of `try_from` itself.
impl<'a, 'b> TryFromSpecImpl<&'a mut ByteCursor<'b>> for CopyInstruction {
    open spec fn obeys_try_from_spec() -> bool {
        false
    }

    open spec fn try_from_spec(value: &'a mut ByteCursor<'b>) -> core::result::Result<
        Self,
        Self::Error,
    > {
        arbitrary()
    }
}

impl<'a> TryFrom<ByteCursor<'a>> for CopyInstruction {
    type Error = CopyInstructionError;

    /// Reads a copy from the cursor.
    fn try_from(value: ByteCursor<'a>) -> (result: core::result::Result<Self, Self::Error>)
        ensures
            CopyInstruction::reads_as(value@, result, decode_copy(value@).1),
    {
        let mut value = value;
        CopyInstruction::from_bytes(&mut value)
    }
}

/// A specification cannot name the value that `try_from` builds, only its view:
/// what comes back is stated by the `ensures` of `try_from` itself.
impl<'a> TryFromSpecImpl<ByteCursor<'a>> for CopyInstruction {
    open spec fn obeys_try_from_spec() -> bool {
        false
    }

    open spec fn try_from_spec(value: ByteCursor<'a>) -> core::result::Result<Self, Self::Error> {
        arbitrary()
    }
}

} // verus!

