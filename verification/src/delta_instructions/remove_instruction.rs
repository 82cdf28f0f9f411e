//! The record of a removal.

use vstd::prelude::*;
use vstd::std_specs::convert::{FromSpecImpl, TryFromSpecImpl};
use crate::cursor::ByteCursor;
use super::errors::RemoveInstructionError;
use super::traits::{InstructionBytes, PushToInstruction};

verus! {

/// The type of the length of a removal.
pub type RemoveInstructionlength = u8;

/// Skips a run of source bytes.
#[derive(Debug, PartialEq)]
pub struct RemoveInstruction {
    length: RemoveInstructionlength,
}

impl View for RemoveInstruction {
    type V = nat;

    /// The number of source bytes skipped.
    closed spec fn view(&self) -> nat {
        self.length as nat
    }
}

/// What reading a removal from `bytes` gives, and what it leaves unread: the
/// length, or the failure. The sign is consumed whatever it is.
pub open spec fn decode_remove(bytes: Seq<u8>) -> (
    core::result::Result<u8, RemoveInstructionError>,
    Seq<u8>,
) {
    if bytes.len() == 0 {
        (Err(RemoveInstructionError::InvalidSignByte(None)), bytes)
    } else if bytes[0] != RemoveInstruction::INSTRUCTION_BYTE_SIGN {
        (Err(RemoveInstructionError::InvalidSignByte(Some(bytes[0]))), bytes.skip(1))
    } else if bytes.len() < 2 {
        (Err(RemoveInstructionError::InvalidLengthBytes(None)), bytes.skip(1))
    } else {
        (Ok(bytes[1]), bytes.skip(2))
    }
}

impl Default for RemoveInstruction {
    fn default() -> (instruction: Self)
        ensures
            instruction@ == 0,
    {
        Self { length: 0 }
    }
}

impl RemoveInstruction {
    /// A removal of `length` bytes.
    pub fn new(length: RemoveInstructionlength) -> (instruction: Self)
        ensures
            instruction@ == length,
    {
        Self { length }
    }

    pub fn len(&self) -> (length: RemoveInstructionlength)
        ensures
            length == self@,
    {
        self.length
    }

    pub fn is_empty(&self) -> (empty: bool)
        ensures
            empty == (self@ == 0),
    {
        self.length == 0
    }
}

impl PushToInstruction for RemoveInstruction {
    type Error = RemoveInstructionError;

    /// A removal below 255 grows by one; at 255 it refuses.
    open spec fn push_yields(
        &self,
        byte: u8,
        result: core::result::Result<(), Self::Error>,
        after: &Self,
    ) -> bool {
        if self@ < 255 {
            result is Ok && after@ == self@ + 1
        } else {
            result == Err::<(), RemoveInstructionError>(RemoveInstructionError::MaxLengthReached)
                && after@ == self@
        }
    }

    fn push(&mut self, _byte: u8) -> (result: core::result::Result<(), Self::Error>) {
        match self.length.checked_add(1) {
            Some(length) => {
                self.length = length;
                Ok(())
            },
            None => Err(RemoveInstructionError::MaxLengthReached),
        }
    }
}

impl InstructionBytes for RemoveInstruction {
    const INSTRUCTION_BYTE_SIGN: u8 = 45;

    const NUMBER_BYTES_LENGTH: usize = 1;

    type Error = RemoveInstructionError;

    open spec fn wire(&self) -> Seq<u8> {
        seq![Self::INSTRUCTION_BYTE_SIGN, self@ as u8]
    }

    open spec fn reads_as(
        input: Seq<u8>,
        result: core::result::Result<Self, Self::Error>,
        rest: Seq<u8>,
    ) -> bool {
        &&& rest == decode_remove(input).1
        &&& match result {
            Ok(instruction) => decode_remove(input).0 == Ok::<u8, RemoveInstructionError>(
                instruction@ as u8,
            ),
            Err(error) => decode_remove(input).0 == Err::<u8, RemoveInstructionError>(error),
        }
    }

    fn to_bytes(&self) -> (bytes: Vec<u8>) {
        let mut bytes: Vec<u8> = Vec::with_capacity(1 + Self::NUMBER_BYTES_LENGTH);
        bytes.push(Self::INSTRUCTION_BYTE_SIGN);
        bytes.push(self.length);
        bytes
    }

    fn from_bytes(bytes: &mut ByteCursor<'_>) -> (result: core::result::Result<Self, Self::Error>) {
        match bytes.next() {
            Some(byte) => {
                if byte != Self::INSTRUCTION_BYTE_SIGN {
                    return Err(RemoveInstructionError::InvalidSignByte(Some(byte)));
                }
            },
            None => {
                return Err(RemoveInstructionError::InvalidSignByte(None));
            },
        }
        let found = bytes.len();
        if found == 0 {
            return Err(RemoveInstructionError::InvalidLengthBytes(None));
        }
        if found < Self::NUMBER_BYTES_LENGTH {
            return Err(RemoveInstructionError::InvalidLengthBytes(Some(found)));
        }
        assert(old(bytes)@.skip(1).skip(1) == old(bytes)@.skip(2));
        match bytes.next() {
            Some(length) => Ok(Self { length }),
            None => Err(RemoveInstructionError::InvalidLengthBytes(None)),
        }
    }
}

impl From<&RemoveInstruction> for Vec<u8> {
    /// The wire form of the removal.
    fn from(value: &RemoveInstruction) -> (bytes: Self)
        ensures
            bytes@ == value.wire(),
    {
        value.to_bytes()
    }
}

/// A specification cannot name the value that `from` builds, only its view:
/// what comes back is stated by the `ensures` of `from` itself.
impl FromSpecImpl<&RemoveInstruction> for Vec<u8> {
    open spec fn obeys_from_spec() -> bool {
        false
    }

    open spec fn from_spec(value: &RemoveInstruction) -> Self {
        arbitrary()
    }
}

impl From<RemoveInstruction> for Vec<u8> {
    /// The wire form of the removal.
    fn from(value: RemoveInstruction) -> (bytes: Self)
        ensures
            bytes@ == value.wire(),
    {
        value.to_bytes()
    }
}

/// A specification cannot name the value that `from` builds, only its view:
/// what comes back is stated by the `ensures` of `from` itself.
impl FromSpecImpl<RemoveInstruction> for Vec<u8> {
    open spec fn obeys_from_spec() -> bool {
        false
    }

    open spec fn from_spec(value: RemoveInstruction) -> Self {
        arbitrary()
    }
}

impl<'a, 'b> TryFrom<&'a mut ByteCursor<'b>> for RemoveInstruction {
    type Error = RemoveInstructionError;

    /// Reads a removal from the cursor.
    fn try_from(value: &'a mut ByteCursor<'b>) -> (result: core::result::Result<Self, Self::Error>)
        ensures
            RemoveInstruction::reads_as(old(value)@, result, final(value)@),
    {
        RemoveInstruction::from_bytes(value)
    }
}

/// A specification cannot name the value that `try_from` builds, only its view:
/// what comes back is stated by the `ensures` of `try_from` itself.
impl<'a, 'b> TryFromSpecImpl<&'a mut ByteCursor<'b>> for RemoveInstruction {
    open spec fn obeys_try_from_spec() -> bool {
        false
    }

    open spec fn try_from_spec(value: &'a mut ByteCursor<'b>) -> core::result::Result<
        Self,
        Self::Error,
    > {
        arbitrary()
    }
}

impl<'a> TryFrom<ByteCursor<'a>> for RemoveInstruction {
    type Error = RemoveInstructionError;

    /// Reads a removal from the cursor.
    fn try_from(value: ByteCursor<'a>) -> (result: core::result::Result<Self, Self::Error>)
        ensures
            RemoveInstruction::reads_as(value@, result, decode_remove(value@).1),
    {
        let mut value = value;
        RemoveInstruction::from_bytes(&mut value)
    }
}

/// A specification cannot name the value that `try_from` builds, only its view:
/// what comes back is stated by the `ensures` of `try_from` itself.
impl<'a> TryFromSpecImpl<ByteCursor<'a>> for RemoveInstruction {
    open spec fn obeys_try_from_spec() -> bool {
        false
    }

    open spec fn try_from_spec(value: ByteCursor<'a>) -> core::result::Result<Self, Self::Error> {
        arbitrary()
    }
}

} // verus!

