//! Exact instructions: a copy takes source bytes as they are, so it stores
//! only how many.

use vstd::prelude::*;
use vstd::std_specs::convert::TryFromSpecImpl;
use crate::cursor::ByteCursor;
use crate::delta_instruction_error::{ApplyToError, InstructionError, InstructionFromBytesError};
use crate::delta_traits::{ApplyDeltaTo, ConvertBetweenBytes};

verus! {

pub const ADD_INSTRUCTION_SIGN: u8 = 43;

pub const REMOVE_INSTRUCTION_SIGN: u8 = 45;

pub const COPY_INSTRUCTION_SIGN: u8 = 124;

/// An exact instruction as a mathematical value.
pub enum Step {
    /// Emit `content`.
    Add { content: Seq<u8> },
    /// Skip `length` source bytes.
    Remove { length: nat },
    /// Emit the next `length` source bytes.
    Copy { length: nat },
}

impl Step {
    pub open spec fn len(self) -> nat {
        match self {
            Step::Add { content } => content.len(),
            Step::Remove { length } => length,
            Step::Copy { length } => length,
        }
    }

    /// The length fits the one-byte length field.
    pub open spec fn fits(self) -> bool {
        self.len() <= 255
    }

    pub open spec fn sign(self) -> u8 {
        match self {
            Step::Add { .. } => ADD_INSTRUCTION_SIGN,
            Step::Remove { .. } => REMOVE_INSTRUCTION_SIGN,
            Step::Copy { .. } => COPY_INSTRUCTION_SIGN,
        }
    }

    /// The instruction with one more item. `byte` is the item of an addition;
    /// the other kinds only count.
    pub open spec fn with_item(self, byte: u8) -> Step {
        match self {
            Step::Add { content } => Step::Add { content: content.push(byte) },
            Step::Remove { length } => Step::Remove { length: length + 1 },
            Step::Copy { length } => Step::Copy { length: length + 1 },
        }
    }

    /// The wire form: sign and length, and for an addition its content.
    pub open spec fn encode(self) -> Seq<u8> {
        match self {
            Step::Add { content } => seq![self.sign(), self.len() as u8] + content,
            _ => seq![self.sign(), self.len() as u8],
        }
    }

    /// The number of source bytes the instruction consumes.
    pub open spec fn consumed(self) -> nat {
        match self {
            Step::Add { .. } => 0,
            Step::Remove { length } => length,
            Step::Copy { length } => length,
        }
    }

    /// The bytes emitted when the instruction meets `source`.
    pub open spec fn emit(self, source: Seq<u8>) -> Seq<u8> {
        match self {
            Step::Add { content } => content,
            Step::Remove { .. } => Seq::empty(),
            Step::Copy { length } => source.take(length as int),
        }
    }
}

/// What reading one exact instruction from `bytes` gives, and what it leaves
/// unread. The sign is consumed whatever it is; content that falls short is
/// consumed as far as it goes.
pub open spec fn decode_step(bytes: Seq<u8>) -> (
    core::result::Result<Step, InstructionFromBytesError>,
    Seq<u8>,
) {
    if bytes.len() == 0 {
        (Err(InstructionFromBytesError::NoSignFound), bytes)
    } else if bytes[0] != ADD_INSTRUCTION_SIGN && bytes[0] != REMOVE_INSTRUCTION_SIGN && bytes[0]
        != COPY_INSTRUCTION_SIGN {
        (Err(InstructionFromBytesError::InvalidSign), bytes.skip(1))
    } else if bytes.len() < 2 {
        (Err(InstructionFromBytesError::NoLengthFound), bytes.skip(1))
    } else if bytes[0] == REMOVE_INSTRUCTION_SIGN {
        (Ok(Step::Remove { length: bytes[1] as nat }), bytes.skip(2))
    } else if bytes[0] == COPY_INSTRUCTION_SIGN {
        (Ok(Step::Copy { length: bytes[1] as nat }), bytes.skip(2))
    } else if bytes.len() < 2 + bytes[1] {
        (Err(InstructionFromBytesError::InvalidLength), Seq::empty())
    } else {
        (Ok(Step::Add { content: bytes.subrange(2, 2 + bytes[1]) }), bytes.skip(2 + bytes[1]))
    }
}

/// An exact instruction that fits its length field is read back from its
/// wire form, and what follows the wire form is left unread.
pub proof fn step_codec_round_trip(step: Step, rest: Seq<u8>)
    requires
        step.fits(),
    ensures
        decode_step(step.encode() + rest) == (
            Ok::<Step, InstructionFromBytesError>(step),
            rest,
        ),
{
    let bytes = step.encode() + rest;
    let length = step.len() as int;
    match step {
        Step::Add { content } => {
            assert(bytes.subrange(2, 2 + length) == content);
        },
        _ => {
        },
    }
}

/// An exact instruction. Its fields are in the open: the operations that
/// write the length field ask that the length fits it.
#[derive(Debug, PartialEq)]
pub enum Instruction {
    Add { content: Vec<u8> },
    Remove { length: u8 },
    Copy { length: u8 },
}

impl View for Instruction {
    type V = Step;

    open spec fn view(&self) -> Step {
        match self {
            Instruction::Add { content } => Step::Add { content: content@ },
            Instruction::Remove { length } => Step::Remove { length: *length as nat },
            Instruction::Copy { length } => Step::Copy { length: *length as nat },
        }
    }
}

impl Clone for Instruction {
    fn clone(&self) -> (copy: Self)
        ensures
            copy@ == self@,
    {
        match self {
            Instruction::Add { content } => {
                let content = content.clone();
                Instruction::Add { content }
            },
            Instruction::Remove { length } => Instruction::Remove { length: *length },
            Instruction::Copy { length } => Instruction::Copy { length: *length },
        }
    }
}

impl Instruction {
    pub fn len(&self) -> (length: u8)
        requires
            self@.fits(),
        ensures
            length == self@.len(),
    {
        match self {
            Instruction::Add { content } => content.len() as u8,
            Instruction::Remove { length } => *length,
            Instruction::Copy { length } => *length,
        }
    }

    pub fn is_empty(&self) -> (empty: bool)
        requires
            self@.fits(),
        ensures
            empty == (self@.len() == 0),
    {
        self.len() == u8::MIN
    }

    pub fn is_full(&self) -> (full: bool)
        requires
            self@.fits(),
        ensures
            full == (self@.len() == 255),
    {
        self.len() == u8::MAX
    }

    /// Appends one item, unless the instruction is full. `byte` is the item
    /// of an addition; the other kinds only count.
    pub fn push(&mut self, byte: &u8) -> (result: core::result::Result<(), InstructionError>)
        requires
            old(self)@.fits(),
        ensures
            final(self)@.fits(),
            if old(self)@.len() == 255 {
                &&& result == Err::<(), InstructionError>(InstructionError::MaxLengthReached)
                &&& final(self)@ == old(self)@
            } else {
                &&& result is Ok
                &&& final(self)@ == old(self)@.with_item(*byte)
            },
    {
        if self.is_full() {
            return Err(InstructionError::MaxLengthReached);
        }
        match self {
            Instruction::Add { content } => {
                content.push(*byte);
                Ok(())
            },
            Instruction::Remove { length } => {
                *length += 1u8;
                Ok(())
            },
            Instruction::Copy { length } => {
                *length += 1u8;
                Ok(())
            },
        }
    }
}

impl ConvertBetweenBytes for Instruction {
    type Error = InstructionFromBytesError;

    open spec fn convertible(&self) -> bool {
        self@.fits()
    }

    open spec fn wire(&self) -> Seq<u8> {
        self@.encode()
    }

    open spec fn reads_as(
        input: Seq<u8>,
        result: core::result::Result<Self, Self::Error>,
        rest: Seq<u8>,
    ) -> bool {
        &&& rest == decode_step(input).1
        &&& match result {
            Ok(instruction) => instruction@.fits() && decode_step(input).0 == Ok::<
                Step,
                InstructionFromBytesError,
            >(instruction@),
            Err(error) => decode_step(input).0 == Err::<Step, InstructionFromBytesError>(error),
        }
    }

    fn to_bytes(&self) -> (bytes: Vec<u8>) {
        let mut bytes: Vec<u8> = Vec::with_capacity(self.len() as usize + 2);
        match self {
            Instruction::Add { content } => {
                bytes.push(ADD_INSTRUCTION_SIGN);
                bytes.push(self.len());
                let mut index: usize = 0;
                while index < content.len()
                    invariant
                        index <= content@.len(),
                        bytes@ == seq![ADD_INSTRUCTION_SIGN, content@.len() as u8] + content@.take(
                            index as int,
                        ),
                    decreases content@.len() - index,
                {
                    bytes.push(content[index]);
                    index += 1;
                }
                bytes
            },
            Instruction::Remove { length: _ } => {
                bytes.push(REMOVE_INSTRUCTION_SIGN);
                bytes.push(self.len());
                bytes
            },
            Instruction::Copy { length: _ } => {
                bytes.push(COPY_INSTRUCTION_SIGN);
                bytes.push(self.len());
                bytes
            },
        }
    }

    fn try_from_bytes(bytes: &mut ByteCursor<'_>) -> (result: core::result::Result<
        Self,
        Self::Error,
    >) {
        let sign = match bytes.next() {
            Some(sign) => sign,
            None => {
                return Err(InstructionFromBytesError::NoSignFound);
            },
        };
        if sign != ADD_INSTRUCTION_SIGN && sign != REMOVE_INSTRUCTION_SIGN && sign
            != COPY_INSTRUCTION_SIGN {
            return Err(InstructionFromBytesError::InvalidSign);
        }
        let length = match bytes.next() {
            Some(length) => length,
            None => {
                return Err(InstructionFromBytesError::NoLengthFound);
            },
        };
        let ghost input = old(bytes)@;
        assert(input.skip(1).skip(1) == input.skip(2));
        if sign == REMOVE_INSTRUCTION_SIGN {
            return Ok(Instruction::Remove { length });
        }
        if sign == COPY_INSTRUCTION_SIGN {
            return Ok(Instruction::Copy { length });
        }
        let content = bytes.take(length as usize);
        proof {
            if input.len() >= 2 + length {
                assert(input.skip(2).take(length as int) == input.subrange(2, 2 + length));
                assert(input.skip(2).skip(length as int) == input.skip(2 + length));
            } else {
                assert(input.skip(2).skip(input.len() - 2) == Seq::<u8>::empty());
            }
        }
        if content.len() != length as usize {
            return Err(InstructionFromBytesError::InvalidLength);
        }
        Ok(Instruction::Add { content })
    }
}

impl ApplyDeltaTo for Instruction {
    type Error = ApplyToError;

    /// Where the source holds as many bytes as the instruction consumes, the
    /// result is what the instruction emits and the source has moved past
    /// them; else the result is a failure and nothing is left of the source.
    open spec fn applies_as(
        &self,
        source: Seq<u8>,
        result: core::result::Result<Vec<u8>, Self::Error>,
        rest: Seq<u8>,
    ) -> bool {
        if self@.consumed() <= source.len() {
            &&& result is Ok
            &&& result.unwrap()@ == self@.emit(source)
            &&& rest == source.skip(self@.consumed() as int)
        } else {
            &&& result == Err::<Vec<u8>, ApplyToError>(ApplyToError::InvalidSourceLength)
            &&& rest == Seq::<u8>::empty()
        }
    }

    fn apply_to(&self, source: &mut ByteCursor<'_>) -> (result: core::result::Result<
        Vec<u8>,
        Self::Error,
    >) {
        match self {
            Instruction::Add { content } => {
                assert(source@.skip(0) == source@);
                let content = content.clone();
                Ok(content)
            },
            Instruction::Remove { length } => {
                let length = *length as usize;
                let content = source.take(length);
                if content.len() != length {
                    assert(old(source)@.skip(old(source)@.len() as int) == Seq::<u8>::empty());
                    return Err(ApplyToError::InvalidSourceLength);
                }
                Ok(Vec::new())
            },
            Instruction::Copy { length } => {
                let length = *length as usize;
                let content = source.take(length);
                if content.len() != length {
                    assert(old(source)@.skip(old(source)@.len() as int) == Seq::<u8>::empty());
                    return Err(ApplyToError::InvalidSourceLength);
                }
                Ok(content)
            },
        }
    }
}

impl TryFrom<&mut Vec<u8>> for Instruction {
    type Error = InstructionFromBytesError;

    /// Reads one instruction from the start of `value`, which is left as it
    /// is.
    fn try_from(value: &mut Vec<u8>) -> (result: core::result::Result<Self, Self::Error>)
        ensures
            final(value)@ == old(value)@,
            match result {
                Ok(instruction) => instruction@.fits() && decode_step(old(value)@).0 == Ok::<
                    Step,
                    InstructionFromBytesError,
                >(instruction@),
                Err(error) => decode_step(old(value)@).0 == Err::<Step, InstructionFromBytesError>(
                    error,
                ),
            },
    {
        let mut bytes = ByteCursor::new(value.as_slice());
        Instruction::try_from_bytes(&mut bytes)
    }
}

/// A specification cannot name the value that `try_from` builds, only its view:
/// what comes back is stated by the `ensures` of `try_from` itself.
impl TryFromSpecImpl<&mut Vec<u8>> for Instruction {
    open spec fn obeys_try_from_spec() -> bool {
        false
    }

    open spec fn try_from_spec(value: &mut Vec<u8>) -> core::result::Result<Self, Self::Error> {
        arbitrary()
    }
}

impl TryFrom<Vec<u8>> for Instruction {
    type Error = InstructionFromBytesError;

    /// Reads one instruction from the start of `value`.
    fn try_from(value: Vec<u8>) -> (result: core::result::Result<Self, Self::Error>)
        ensures
            match result {
                Ok(instruction) => instruction@.fits() && decode_step(value@).0 == Ok::<
                    Step,
                    InstructionFromBytesError,
                >(instruction@),
                Err(error) => decode_step(value@).0 == Err::<Step, InstructionFromBytesError>(
                    error,
                ),
            },
    {
        let mut bytes = ByteCursor::new(value.as_slice());
        Instruction::try_from_bytes(&mut bytes)
    }
}

/// A specification cannot name the value that `try_from` builds, only its view:
/// what comes back is stated by the `ensures` of `try_from` itself.
impl TryFromSpecImpl<Vec<u8>> for Instruction {
    open spec fn obeys_try_from_spec() -> bool {
        false
    }

    open spec fn try_from_spec(value: Vec<u8>) -> core::result::Result<Self, Self::Error> {
        arbitrary()
    }
}

} // verus!
