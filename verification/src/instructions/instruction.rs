//! The three kinds of instruction as one plain sum type.

use vstd::prelude::*;
use vstd::std_specs::convert::{FromSpecImpl, TryFromSpecImpl};
use crate::cursor::ByteCursor;
use crate::model::{decode_next, Op};
use super::{
    InstructionError, Result, ADD_INSTRUCTION_SIGN, COPY_INSTRUCTION_SIGN, MAX_INSTRUCTION_LENGTH,
    MIN_INSTRUCTION_LENGTH, REMOVE_INSTRUCTION_SIGN,
};

verus! {

/// An instruction with its fields in the open. Nothing keeps the content of
/// such a value within what the length field can express: the operations go
/// by the length field, which holds the low eight bits of the length.
#[derive(Debug, PartialEq)]
pub enum Instruction {
    Remove { length: u8 },
    Add { content: Vec<u8> },
    Copy { content: Vec<u8> },
}

impl View for Instruction {
    type V = Op;

    open spec fn view(&self) -> Op {
        match self {
            Instruction::Remove { length } => Op::Remove { length: *length as nat },
            Instruction::Add { content } => Op::Add { content: content@ },
            Instruction::Copy { content } => Op::Copy { content: content@ },
        }
    }
}

impl Clone for Instruction {
    fn clone(&self) -> (copy: Self)
        ensures
            copy@ == self@,
    {
        match self {
            Instruction::Remove { length } => Instruction::Remove { length: *length },
            Instruction::Add { content } => {
                let content = content.clone();
                Instruction::Add { content }
            },
            Instruction::Copy { content } => {
                let content = content.clone();
                Instruction::Copy { content }
            },
        }
    }
}

impl Instruction {
    /// The length, as the length field holds it.
    pub fn len(&self) -> (length: u8)
        ensures
            length == self@.length_field(),
    {
        match self {
            Instruction::Remove { length } => *length,
            Instruction::Add { content } => #[verifier::truncate]
            (content.len() as u8),
            Instruction::Copy { content } => #[verifier::truncate]
            (content.len() as u8),
        }
    }

    pub fn is_empty(&self) -> (empty: bool)
        ensures
            empty == (self@.length_field() == 0),
    {
        self.len() == MIN_INSTRUCTION_LENGTH
    }

    pub fn is_full(&self) -> (full: bool)
        ensures
            full == (self@.length_field() == 255),
    {
        self.len() == MAX_INSTRUCTION_LENGTH
    }

    /// Appends one item, unless the length field says the instruction is
    /// full. `byte` is the item for the kinds that store items; a removal only
    /// counts.
    pub fn push(&mut self, byte: u8) -> (result: Result<()>)
        ensures
            if old(self)@.length_field() == 255 {
                &&& result == Err::<(), InstructionError>(InstructionError::ContentOverflow)
                &&& final(self)@ == old(self)@
            } else {
                result is Ok && final(self)@ == old(self)@.with_item(byte)
            },
    {
        if self.is_full() {
            return Err(InstructionError::ContentOverflow);
        }
        match self {
            Instruction::Remove { length } => {
                *length += 1;
            },
            Instruction::Add { content } => {
                content.push(byte);
            },
            Instruction::Copy { content } => {
                content.push(byte);
            },
        }
        Ok(())
    }

    /// The byte that announces the instruction on the wire.
    pub fn sign(&self) -> (sign: u8)
        ensures
            sign == self@.sign(),
    {
        match self {
            Instruction::Remove { .. } => REMOVE_INSTRUCTION_SIGN,
            Instruction::Add { .. } => ADD_INSTRUCTION_SIGN,
            Instruction::Copy { .. } => COPY_INSTRUCTION_SIGN,
        }
    }

    /// The wire form: sign, length field, content.
    pub fn to_bytes(&self) -> (bytes: Vec<u8>)
        ensures
            bytes@ == self@.encode(),
    {
        let mut bytes: Vec<u8> = Vec::new();
        bytes.push(self.sign());
        bytes.push(self.len());
        match self {
            Instruction::Remove { .. } => {},
            Instruction::Add { content } => {
                Self::append_content(&mut bytes, content);
            },
            Instruction::Copy { content } => {
                Self::append_content(&mut bytes, content);
            },
        }
        bytes
    }

    fn append_content(bytes: &mut Vec<u8>, content: &Vec<u8>)
        ensures
            final(bytes)@ == old(bytes)@ + content@,
    {
        let mut index: usize = 0;
        while index < content.len()
            invariant
                index <= content@.len(),
                bytes@ == old(bytes)@ + content@.take(index as int),
            decreases content@.len() - index,
        {
            bytes.push(content[index]);
            index += 1;
        }
    }

    /// Reads one instruction from the cursor. The sign is consumed first,
    /// whatever it is.
    pub fn try_from_bytes(bytes: &mut ByteCursor<'_>) -> (result: Result<Self>)
        ensures
            final(bytes)@ == decode_next(old(bytes)@).rest,
            decode_next(old(bytes)@).describes(result),
    {
        let sign = match bytes.next() {
            Some(sign) => sign,
            None => {
                return Err(InstructionError::MissingSign);
            },
        };
        if sign != REMOVE_INSTRUCTION_SIGN && sign != ADD_INSTRUCTION_SIGN && sign
            != COPY_INSTRUCTION_SIGN {
            return Err(InstructionError::InvalidSign);
        }
        let length = match bytes.next() {
            Some(length) => length,
            None => {
                return Err(InstructionError::MissingLength);
            },
        };
        let ghost input = old(bytes)@;
        assert(input.skip(1).skip(1) == input.skip(2));
        if sign == REMOVE_INSTRUCTION_SIGN {
            return Ok(Instruction::Remove { length });
        }
        let content = bytes.take(length as usize);
        proof {
            if input.len() >= 2 + length {
                assert(input.skip(2).take(length as int) == input.subrange(2, 2 + length));
            } else {
            }
        }
        if content.len() != length as usize {
            return Err(InstructionError::MissingContent);
        }
        if sign == ADD_INSTRUCTION_SIGN {
            Ok(Instruction::Add { content })
        } else {
            Ok(Instruction::Copy { content })
        }
    }
}

impl From<&Instruction> for Vec<u8> {
    /// The wire form of the instruction.
    fn from(value: &Instruction) -> (bytes: Self)
        ensures
            bytes@ == value@.encode(),
    {
        value.to_bytes()
    }
}

/// A specification cannot name the value that `from` builds, only its view:
/// what comes back is stated by the `ensures` of `from` itself.
impl FromSpecImpl<&Instruction> for Vec<u8> {
    open spec fn obeys_from_spec() -> bool {
        false
    }

    open spec fn from_spec(value: &Instruction) -> Self {
        arbitrary()
    }
}

impl From<Instruction> for Vec<u8> {
    /// The wire form of the instruction.
    fn from(value: Instruction) -> (bytes: Self)
        ensures
            bytes@ == value@.encode(),
    {
        value.to_bytes()
    }
}

/// A specification cannot name the value that `from` builds, only its view:
/// what comes back is stated by the `ensures` of `from` itself.
impl FromSpecImpl<Instruction> for Vec<u8> {
    open spec fn obeys_from_spec() -> bool {
        false
    }

    open spec fn from_spec(value: Instruction) -> Self {
        arbitrary()
    }
}

impl<'a, 'b> TryFrom<&'a mut ByteCursor<'b>> for Instruction {
    type Error = InstructionError;

    /// Reads one instruction from the cursor.
    fn try_from(value: &'a mut ByteCursor<'b>) -> (result: Result<Self>)
        ensures
            final(value)@ == decode_next(old(value)@).rest,
            decode_next(old(value)@).describes(result),
    {
        Instruction::try_from_bytes(value)
    }
}

/// A specification cannot name the value that `try_from` builds, only its view:
/// what comes back is stated by the `ensures` of `try_from` itself.
impl<'a, 'b> TryFromSpecImpl<&'a mut ByteCursor<'b>> for Instruction {
    open spec fn obeys_try_from_spec() -> bool {
        false
    }

    open spec fn try_from_spec(value: &'a mut ByteCursor<'b>) -> Result<Self> {
        arbitrary()
    }
}

impl<'a> TryFrom<ByteCursor<'a>> for Instruction {
    type Error = InstructionError;

    /// Reads one instruction from the cursor.
    fn try_from(value: ByteCursor<'a>) -> (result: Result<Self>)
        ensures
            decode_next(value@).describes(result),
    {
        let mut value = value;
        Instruction::try_from_bytes(&mut value)
    }
}

/// A specification cannot name the value that `try_from` builds, only its view:
/// what comes back is stated by the `ensures` of `try_from` itself.
impl<'a> TryFromSpecImpl<ByteCursor<'a>> for Instruction {
    open spec fn obeys_try_from_spec() -> bool {
        false
    }

    open spec fn try_from_spec(value: ByteCursor<'a>) -> Result<Self> {
        arbitrary()
    }
}

} // verus!
