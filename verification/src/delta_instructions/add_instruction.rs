//! The record of an addition.

use vstd::prelude::*;
use vstd::std_specs::convert::{FromSpecImpl, TryFromSpecImpl};
use crate::cursor::ByteCursor;
use super::errors::AddInstructionError;
use super::traits::{InstructionBytes, PushToInstruction};

verus! {

/// The type of the length of an addition.
pub type AddInstructionlength = u8;

/// Emits the bytes it stores: at most 255.
#[derive(Debug, PartialEq)]
pub struct AddInstruction {
    content: Vec<u8>,
}

impl View for AddInstruction {
    type V = Seq<u8>;

    /// The bytes emitted.
    closed spec fn view(&self) -> Seq<u8> {
        self.content@
    }
}

/// What reading an addition from `bytes` gives, and what it leaves unread:
/// the content, or the failure. The sign is consumed whatever it is; content
/// that falls short is consumed as far as it goes.
pub open spec fn decode_add(bytes: Seq<u8>) -> (
    core::result::Result<Seq<u8>, AddInstructionError>,
    Seq<u8>,
) {
    if bytes.len() == 0 {
        (Err(AddInstructionError::InvalidSignByte(None)), bytes)
    } else if bytes[0] != AddInstruction::INSTRUCTION_BYTE_SIGN {
        (Err(AddInstructionError::InvalidSignByte(Some(bytes[0]))), bytes.skip(1))
    } else if bytes.len() < 2 {
        (Err(AddInstructionError::InvalidLengthBytes(None)), bytes.skip(1))
    } else if bytes.len() < 2 + bytes[1] {
        (
            Err(AddInstructionError::MissingByteContent((bytes.len() - 2) as usize, bytes[1])),
            Seq::empty(),
        )
    } else {
        (Ok(bytes.subrange(2, 2 + bytes[1])), bytes.skip(2 + bytes[1]))
    }
}

impl Default for AddInstruction {
    fn default() -> (instruction: Self)
        ensures
            instruction@ == Seq::<u8>::empty(),
    {
        return Self { content: Vec::new() };
    }
}

impl AddInstruction {
    /// The content fits the length field.
    #[verifier::type_invariant]
    pub open spec fn fits_length_field(self) -> bool {
        self@.len() <= 255
    }

    /// An addition of `content`, unless that is longer than 255 bytes.
    pub fn new(content: &[u8]) -> (result: core::result::Result<
        AddInstruction,
        AddInstructionError,
    >)
        ensures
            if content@.len() <= 255 {
                result is Ok && result.unwrap()@ == content@
            } else {
                result == Err::<AddInstruction, AddInstructionError>(
                    AddInstructionError::MaxLengthReached,
                )
            },
    {
        if content.len() > 255 {
            return Err(AddInstructionError::MaxLengthReached);
        }
        let mut copy: Vec<u8> = Vec::new();
        let mut index: usize = 0;
        while index < content.len()
            invariant
                index <= content@.len(),
                copy@ == content@.take(index as int),
            decreases content@.len() - index,
        {
            copy.push(content[index]);
            index += 1;
        }
        Ok(Self { content: copy })
    }

    pub fn len(&self) -> (length: u8)
        ensures
            length == self@.len(),
    {
        proof {
            use_type_invariant(self);
        }
        self.content.len() as u8
    }

    pub fn is_empty(&self) -> (empty: bool)
        ensures
            empty == (self@.len() == 0),
    {
        self.content.len() == 0
    }
}

impl PushToInstruction for AddInstruction {
    type Error = AddInstructionError;

    /// An addition of fewer than 255 bytes takes the byte; one of 255
    /// refuses.
    open spec fn push_yields(
        &self,
        byte: u8,
        result: core::result::Result<(), Self::Error>,
        after: &Self,
    ) -> bool {
        if self@.len() < 255 {
            result is Ok && after@ == self@.push(byte)
        } else {
            result == Err::<(), AddInstructionError>(AddInstructionError::MaxLengthReached)
                && after@ == self@
        }
    }

    fn push(&mut self, byte: u8) -> (result: core::result::Result<(), Self::Error>) {
        proof {
            use_type_invariant(&*self);
        }
        if self.content.len() >= 255 {
            return Err(AddInstructionError::MaxLengthReached);
        }
        let mut content: Vec<u8> = Vec::new();
        core::mem::swap(&mut self.content, &mut content);
        content.push(byte);
        core::mem::swap(&mut self.content, &mut content);
        Ok(())
    }
}

impl InstructionBytes for AddInstruction {
    const INSTRUCTION_BYTE_SIGN: u8 = 43;

    const NUMBER_BYTES_LENGTH: usize = 1;

    type Error = AddInstructionError;

    open spec fn wire(&self) -> Seq<u8> {
        seq![Self::INSTRUCTION_BYTE_SIGN, self@.len() as u8] + self@
    }

    open spec fn reads_as(
        input: Seq<u8>,
        result: core::result::Result<Self, Self::Error>,
        rest: Seq<u8>,
    ) -> bool {
        &&& rest == decode_add(input).1
        &&& match result {
            Ok(instruction) => decode_add(input).0 == Ok::<Seq<u8>, AddInstructionError>(
                instruction@,
            ),
            Err(error) => decode_add(input).0 == Err::<Seq<u8>, AddInstructionError>(error),
        }
    }

    fn to_bytes(&self) -> (bytes: Vec<u8>) {
        proof {
            use_type_invariant(self);
        }
        let mut bytes: Vec<u8> = Vec::with_capacity(self.content.len() + 2);
        bytes.push(Self::INSTRUCTION_BYTE_SIGN);
        bytes.push(self.content.len() as u8);
        let mut index: usize = 0;
        while index < self.content.len()
            invariant
                index <= self.content@.len(),
                bytes@ == seq![Self::INSTRUCTION_BYTE_SIGN, self.content@.len() as u8]
                    + self.content@.take(index as int),
            decreases self.content@.len() - index,
        {
            bytes.push(self.content[index]);
            index += 1;
        }
        bytes
    }

    fn from_bytes(bytes: &mut ByteCursor<'_>) -> (result: core::result::Result<Self, Self::Error>) {
        match bytes.next() {
            Some(sign) => {
                if sign != Self::INSTRUCTION_BYTE_SIGN {
                    return Err(AddInstructionError::InvalidSignByte(Some(sign)));
                }
            },
            None => {
                return Err(AddInstructionError::InvalidSignByte(None));
            },
        }
        let found = bytes.len();
        if found == 0 {
            return Err(AddInstructionError::InvalidLengthBytes(None));
        }
        if found < Self::NUMBER_BYTES_LENGTH {
            return Err(AddInstructionError::InvalidLengthBytes(Some(found)));
        }
        let announced = match bytes.next() {
            Some(length) => length,
            None => {
                return Err(AddInstructionError::InvalidLengthBytes(None));
            },
        };
        let length = announced as usize;
        let content = bytes.take(length);
        proof {
            let input = old(bytes)@;
            assert(input.skip(1).skip(1) == input.skip(2));
            if input.len() >= 2 + length {
                assert(input.skip(2).take(length as int) == input.subrange(2, 2 + length));
                assert(input.skip(2).skip(length as int) == input.skip(2 + length));
            } else {
                assert(input.skip(2).skip(input.len() - 2) == Seq::<u8>::empty());
            }
        }
        if content.len() < length {
            return Err(AddInstructionError::MissingByteContent(content.len(), announced));
        }
        Self::new(content.as_slice())
    }
}

impl From<&AddInstruction> for Vec<u8> {
    /// The wire form of the addition.
    fn from(value: &AddInstruction) -> (bytes: Self)
        ensures
            bytes@ == value.wire(),
    {
        value.to_bytes()
    }
}

/// A specification cannot name the value that `from` builds, only its view:
/// what comes back is stated by the `ensures` of `from` itself.
impl FromSpecImpl<&AddInstruction> for Vec<u8> {
    open spec fn obeys_from_spec() -> bool {
        false
    }

    open spec fn from_spec(value: &AddInstruction) -> Self {
        arbitrary()
    }
}

impl From<AddInstruction> for Vec<u8> {
    /// The wire form of the addition.
    fn from(value: AddInstruction) -> (bytes: Self)
        ensures
            bytes@ == value.wire(),
    {
        value.to_bytes()
    }
}

/// A specification cannot name the value that `from` builds, only its view:
/// what comes back is stated by the `ensures` of `from` itself.
impl FromSpecImpl<AddInstruction> for Vec<u8> {
    open spec fn obeys_from_spec() -> bool {
        false
    }

    open spec fn from_spec(value: AddInstruction) -> Self {
        arbitrary()
    }
}

impl<'a, 'b> TryFrom<&'a mut ByteCursor<'b>> for AddInstruction {
    type Error = AddInstructionError;

    /// Reads an addition from the cursor.
    fn try_from(value: &'a mut ByteCursor<'b>) -> (result: core::result::Result<Self, Self::Error>)
        ensures
            AddInstruction::reads_as(old(value)@, result, final(value)@),
    {
        AddInstruction::from_bytes(value)
    }
}

/// A specification cannot name the value that `try_from` builds, only its view:
/// what comes back is stated by the `ensures` of `try_from` itself.
impl<'a, 'b> TryFromSpecImpl<&'a mut ByteCursor<'b>> for AddInstruction {
    open spec fn obeys_try_from_spec() -> bool {
        false
    }

    open spec fn try_from_spec(value: &'a mut ByteCursor<'b>) -> core::result::Result<
        Self,
        Self::Error,
    > {
        arbitrary()
    }
}

impl<'a> TryFrom<ByteCursor<'a>> for AddInstruction {
    type Error = AddInstructionError;

    /// Reads an addition from the cursor.
    fn try_from(value: ByteCursor<'a>) -> (result: core::result::Result<Self, Self::Error>)
        ensures
            AddInstruction::reads_as(value@, result, decode_add(value@).1),
    {
        let mut value = value;
        AddInstruction::from_bytes(&mut value)
    }
}

/// A specification cannot name the value that `try_from` builds, only its view:
/// what comes back is stated by the `ensures` of `try_from` itself.
impl<'a> TryFromSpecImpl<ByteCursor<'a>> for AddInstruction {
    open spec fn obeys_try_from_spec() -> bool {
        false
    }

    open spec fn try_from_spec(value: ByteCursor<'a>) -> core::result::Result<Self, Self::Error> {
        arbitrary()
    }
}

} // verus!
