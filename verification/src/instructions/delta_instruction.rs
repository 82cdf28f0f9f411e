//! One type for the three kinds of instruction.

use vstd::prelude::*;
use vstd::std_specs::convert::{FromSpecImpl, TryFromSpecImpl};
use crate::cursor::ByteCursor;
use crate::model::{decode_any, Decoded, Fill, Op};
use super::add_instruction::AddInstruction;
use super::copy_instruction::CopyInstruction;
use super::remove_instruction::RemoveInstruction;
use super::{
    InstructionBytes, InstructionContent, InstructionError, InstructionInfo, InstructionItem,
    InstructionLength, Result, ADD_INSTRUCTION_SIGN, COPY_INSTRUCTION_SIGN,
    NON_ZERO_MAX_COUNT_PERCENT, REMOVE_INSTRUCTION_SIGN,
};

verus! {

/// An instruction of any kind. Every operation forwards to the kind at hand.
#[derive(Debug, PartialEq)]
pub enum DeltaInstruction {
    Remove(RemoveInstruction),
    Add(AddInstruction),
    Copy(CopyInstruction),
}

impl View for DeltaInstruction {
    type V = Op;

    open spec fn view(&self) -> Op {
        match self {
            DeltaInstruction::Remove(instruction) => instruction@,
            DeltaInstruction::Add(instruction) => instruction@,
            DeltaInstruction::Copy(instruction) => instruction@,
        }
    }
}

/// The mathematical values of a list of instructions.
pub open spec fn ops_of(instructions: Seq<DeltaInstruction>) -> Seq<Op> {
    instructions.map_values(|instruction: DeltaInstruction| instruction@)
}

impl Clone for DeltaInstruction {
    fn clone(&self) -> (copy: Self)
        ensures
            copy@ == self@,
            copy@.fits(),
    {
        match self {
            DeltaInstruction::Remove(instruction) => DeltaInstruction::Remove(instruction.clone()),
            DeltaInstruction::Add(instruction) => DeltaInstruction::Add(instruction.clone()),
            DeltaInstruction::Copy(instruction) => DeltaInstruction::Copy(instruction.clone()),
        }
    }
}

impl DeltaInstruction {
    /// Extends the instruction greedily over the three cursors. `percent` is
    /// the tolerance of a copy; the other kinds do not look at it.
    pub fn fill_with_tolerance(
        &mut self,
        lcs: &mut ByteCursor<'_>,
        source: &mut ByteCursor<'_>,
        target: &mut ByteCursor<'_>,
        percent: u8,
    )
        ensures
            final(self)@.fits(),
            old(self)@.fill(old(lcs)@, old(source)@, old(target)@, percent) == (Fill {
                op: final(self)@,
                lcs: final(lcs)@,
                source: final(source)@,
                target: final(target)@,
            }),
    {
        proof {
            match &*self {
                DeltaInstruction::Remove(instruction) => instruction.lemma_kind(),
                DeltaInstruction::Add(instruction) => instruction.lemma_kind(),
                DeltaInstruction::Copy(instruction) => instruction.lemma_kind(),
            }
        }
        match self {
            DeltaInstruction::Remove(instruction) => instruction.fill(lcs, source, target),
            DeltaInstruction::Add(instruction) => instruction.fill(lcs, source, target),
            DeltaInstruction::Copy(instruction) => instruction.fill_with_tolerance(
                lcs,
                source,
                target,
                percent,
            ),
        }
    }
}

impl InstructionInfo for DeltaInstruction {
    fn len(&self) -> (length: InstructionLength) {
        match self {
            DeltaInstruction::Remove(instruction) => instruction.len(),
            DeltaInstruction::Add(instruction) => instruction.len(),
            DeltaInstruction::Copy(instruction) => instruction.len(),
        }
    }

    fn is_empty(&self) -> (empty: bool) {
        match self {
            DeltaInstruction::Remove(instruction) => instruction.is_empty(),
            DeltaInstruction::Add(instruction) => instruction.is_empty(),
            DeltaInstruction::Copy(instruction) => instruction.is_empty(),
        }
    }

    fn is_full(&self) -> (full: bool) {
        match self {
            DeltaInstruction::Remove(instruction) => instruction.is_full(),
            DeltaInstruction::Add(instruction) => instruction.is_full(),
            DeltaInstruction::Copy(instruction) => instruction.is_full(),
        }
    }

    fn non_default_item_count(&self) -> (count: Option<InstructionLength>) {
        match self {
            DeltaInstruction::Remove(instruction) => instruction.non_default_item_count(),
            DeltaInstruction::Add(instruction) => instruction.non_default_item_count(),
            DeltaInstruction::Copy(instruction) => instruction.non_default_item_count(),
        }
    }
}

impl InstructionContent for DeltaInstruction {
    fn push(&mut self, content: InstructionItem) -> (result: Result<()>) {
        match self {
            DeltaInstruction::Remove(instruction) => instruction.push(content),
            DeltaInstruction::Add(instruction) => instruction.push(content),
            DeltaInstruction::Copy(instruction) => instruction.push(content),
        }
    }

    fn fill(
        &mut self,
        lcs: &mut ByteCursor<'_>,
        source: &mut ByteCursor<'_>,
        target: &mut ByteCursor<'_>,
    ) {
        self.fill_with_tolerance(lcs, source, target, NON_ZERO_MAX_COUNT_PERCENT)
    }

    fn apply(&self, source: &mut ByteCursor<'_>, target: &mut Vec<u8>) {
        match self {
            DeltaInstruction::Remove(instruction) => instruction.apply(source, target),
            DeltaInstruction::Add(instruction) => instruction.apply(source, target),
            DeltaInstruction::Copy(instruction) => instruction.apply(source, target),
        }
    }
}

impl InstructionBytes for DeltaInstruction {
    open spec fn decoded(bytes: Seq<u8>) -> Decoded {
        decode_any(bytes)
    }

    fn byte_sign(&self) -> (sign: u8) {
        match self {
            DeltaInstruction::Remove(instruction) => instruction.byte_sign(),
            DeltaInstruction::Add(instruction) => instruction.byte_sign(),
            DeltaInstruction::Copy(instruction) => instruction.byte_sign(),
        }
    }

    fn byte_length(&self) -> (length: usize) {
        match self {
            DeltaInstruction::Remove(instruction) => instruction.byte_length(),
            DeltaInstruction::Add(instruction) => instruction.byte_length(),
            DeltaInstruction::Copy(instruction) => instruction.byte_length(),
        }
    }

    fn to_bytes(&self) -> (bytes: Vec<u8>) {
        match self {
            DeltaInstruction::Remove(instruction) => instruction.to_bytes(),
            DeltaInstruction::Add(instruction) => instruction.to_bytes(),
            DeltaInstruction::Copy(instruction) => instruction.to_bytes(),
        }
    }

    fn try_from_bytes(bytes: &mut ByteCursor<'_>) -> (result: Result<Self>) {
        match bytes.peek() {
            Some(sign) => {
                if sign == ADD_INSTRUCTION_SIGN {
                    match AddInstruction::try_from_bytes(bytes) {
                        Ok(instruction) => Ok(DeltaInstruction::Add(instruction)),
                        Err(error) => Err(error),
                    }
                } else if sign == REMOVE_INSTRUCTION_SIGN {
                    match RemoveInstruction::try_from_bytes(bytes) {
                        Ok(instruction) => Ok(DeltaInstruction::Remove(instruction)),
                        Err(error) => Err(error),
                    }
                } else if sign == COPY_INSTRUCTION_SIGN {
                    match CopyInstruction::try_from_bytes(bytes) {
                        Ok(instruction) => Ok(DeltaInstruction::Copy(instruction)),
                        Err(error) => Err(error),
                    }
                } else {
                    Err(InstructionError::InvalidSign)
                }
            },
            None => Err(InstructionError::MissingSign),
        }
    }
}

impl From<&DeltaInstruction> for Vec<u8> {
    /// The wire form of the instruction.
    fn from(value: &DeltaInstruction) -> (bytes: Self)
        ensures
            bytes@ == value@.encode(),
    {
        value.to_bytes()
    }
}

/// A specification cannot name the value that `from` builds, only its view:
/// what comes back is stated by the `ensures` of `from` itself.
impl FromSpecImpl<&DeltaInstruction> for Vec<u8> {
    open spec fn obeys_from_spec() -> bool {
        false
    }

    open spec fn from_spec(value: &DeltaInstruction) -> Self {
        arbitrary()
    }
}

impl From<DeltaInstruction> for Vec<u8> {
    /// The wire form of the instruction.
    fn from(value: DeltaInstruction) -> (bytes: Self)
        ensures
            bytes@ == value@.encode(),
    {
        value.to_bytes()
    }
}

/// A specification cannot name the value that `from` builds, only its view:
/// what comes back is stated by the `ensures` of `from` itself.
impl FromSpecImpl<DeltaInstruction> for Vec<u8> {
    open spec fn obeys_from_spec() -> bool {
        false
    }

    open spec fn from_spec(value: DeltaInstruction) -> Self {
        arbitrary()
    }
}

impl<'a, 'b> TryFrom<&'a mut ByteCursor<'b>> for DeltaInstruction {
    type Error = InstructionError;

    /// Reads one instruction from the cursor.
    fn try_from(value: &'a mut ByteCursor<'b>) -> (result: Result<Self>)
        ensures
            final(value)@ == DeltaInstruction::decoded(old(value)@).rest,
            DeltaInstruction::decoded(old(value)@).describes(result),
    {
        DeltaInstruction::try_from_bytes(value)
    }
}

/// A specification cannot name the value that `try_from` builds, only its view:
/// what comes back is stated by the `ensures` of `try_from` itself.
impl<'a, 'b> TryFromSpecImpl<&'a mut ByteCursor<'b>> for DeltaInstruction {
    open spec fn obeys_try_from_spec() -> bool {
        false
    }

    open spec fn try_from_spec(value: &'a mut ByteCursor<'b>) -> Result<Self> {
        arbitrary()
    }
}

impl<'a> TryFrom<ByteCursor<'a>> for DeltaInstruction {
    type Error = InstructionError;

    /// Reads one instruction from the cursor.
    fn try_from(value: ByteCursor<'a>) -> (result: Result<Self>)
        ensures
            DeltaInstruction::decoded(value@).describes(result),
    {
        let mut value = value;
        DeltaInstruction::try_from_bytes(&mut value)
    }
}

/// A specification cannot name the value that `try_from` builds, only its view:
/// what comes back is stated by the `ensures` of `try_from` itself.
impl<'a> TryFromSpecImpl<ByteCursor<'a>> for DeltaInstruction {
    open spec fn obeys_try_from_spec() -> bool {
        false
    }

    open spec fn try_from_spec(value: ByteCursor<'a>) -> Result<Self> {
        arbitrary()
    }
}

impl TryFrom<Vec<u8>> for DeltaInstruction {
    type Error = InstructionError;

    /// Reads one instruction from the start of `value`.
    fn try_from(value: Vec<u8>) -> (result: Result<Self>)
        ensures
            DeltaInstruction::decoded(value@).describes(result),
    {
        let mut bytes = ByteCursor::new(value.as_slice());
        DeltaInstruction::try_from_bytes(&mut bytes)
    }
}

/// A specification cannot name the value that `try_from` builds, only its view:
/// what comes back is stated by the `ensures` of `try_from` itself.
impl TryFromSpecImpl<Vec<u8>> for DeltaInstruction {
    open spec fn obeys_try_from_spec() -> bool {
        false
    }

    open spec fn try_from_spec(value: Vec<u8>) -> Result<Self> {
        arbitrary()
    }
}

impl From<RemoveInstruction> for DeltaInstruction {
    fn from(instruction: RemoveInstruction) -> (wrapped: Self)
        ensures
            wrapped == DeltaInstruction::Remove(instruction),
    {
        DeltaInstruction::Remove(instruction)
    }
}

impl FromSpecImpl<RemoveInstruction> for DeltaInstruction {
    open spec fn obeys_from_spec() -> bool {
        true
    }

    open spec fn from_spec(instruction: RemoveInstruction) -> Self {
        DeltaInstruction::Remove(instruction)
    }
}

impl From<AddInstruction> for DeltaInstruction {
    fn from(instruction: AddInstruction) -> (wrapped: Self)
        ensures
            wrapped == DeltaInstruction::Add(instruction),
    {
        DeltaInstruction::Add(instruction)
    }
}

impl FromSpecImpl<AddInstruction> for DeltaInstruction {
    open spec fn obeys_from_spec() -> bool {
        true
    }

    open spec fn from_spec(instruction: AddInstruction) -> Self {
        DeltaInstruction::Add(instruction)
    }
}

impl From<CopyInstruction> for DeltaInstruction {
    fn from(instruction: CopyInstruction) -> (wrapped: Self)
        ensures
            wrapped == DeltaInstruction::Copy(instruction),
    {
        DeltaInstruction::Copy(instruction)
    }
}

impl FromSpecImpl<CopyInstruction> for DeltaInstruction {
    open spec fn obeys_from_spec() -> bool {
        true
    }

    open spec fn from_spec(instruction: CopyInstruction) -> Self {
        DeltaInstruction::Copy(instruction)
    }
}

} // verus!
