//! The instruction that skips source bytes.

use vstd::prelude::*;
use vstd::std_specs::convert::{FromSpecImpl, TryFromSpecImpl};
use crate::cursor::ByteCursor;
use crate::model::{decode_kind, divergent_run, head, Decoded, Kind, Op};
use super::{
    InstructionBytes, InstructionContent, InstructionError, InstructionInfo, InstructionItem,
    InstructionLength, Result, REMOVE_INSTRUCTION_SIGN,
};

verus! {

/// Skips a run of source bytes.
#[derive(Debug, PartialEq)]
pub struct RemoveInstruction {
    length: InstructionLength,
}

impl View for RemoveInstruction {
    type V = Op;

    closed spec fn view(&self) -> Op {
        Op::Remove { length: self.length as nat }
    }
}

impl Clone for RemoveInstruction {
    fn clone(&self) -> (copy: Self)
        ensures
            copy@ == self@,
            copy@.fits(),
    {
        Self { length: self.length }
    }
}

impl Default for RemoveInstruction {
    fn default() -> (instruction: Self)
        ensures
            instruction@ == (Op::Remove { length: 0 }),
    {
        Self::new(InstructionLength::MIN)
    }
}

impl RemoveInstruction {
    /// The view of a removal is a removal.
    pub proof fn lemma_kind(&self)
        ensures
            self@ is Remove,
            self@.fits(),
    {
    }

    /// A removal of `length` bytes.
    pub fn new(length: InstructionLength) -> (instruction: Self)
        ensures
            instruction@ == (Op::Remove { length: length as nat }),
    {
        Self { length }
    }
}

impl InstructionInfo for RemoveInstruction {
    fn len(&self) -> (length: InstructionLength) {
        self.length
    }

    fn is_empty(&self) -> (empty: bool) {
        self.len() == InstructionLength::MIN
    }

    fn is_full(&self) -> (full: bool) {
        self.len() == InstructionLength::MAX
    }

    fn non_default_item_count(&self) -> (count: Option<InstructionLength>) {
        None
    }
}

impl InstructionContent for RemoveInstruction {
    fn push(&mut self, _content: InstructionItem) -> (result: Result<()>) {
        if self.is_full() {
            return Err(InstructionError::ContentOverflow);
        }
        self.length += 1;
        Ok(())
    }

    fn fill(
        &mut self,
        lcs: &mut ByteCursor<'_>,
        source: &mut ByteCursor<'_>,
        _target: &mut ByteCursor<'_>,
    ) {
        let anchor = lcs.peek();
        loop
            invariant
                anchor == head(lcs@),
                lcs@ == old(lcs)@,
                old(self)@.len() <= self@.len() <= 255,
                self@ is Remove,
                source@ == old(source)@.skip(self@.len() - old(self)@.len()),
                self@.len() - old(self)@.len() <= old(source)@.len(),
                divergent_run(old(source)@, anchor, old(self)@.room()) == (self@.len()
                    - old(self)@.len()) + divergent_run(source@, anchor, self@.room()),
            ensures
                divergent_run(source@, anchor, self@.room()) == 0,
            decreases source@.len(),
        {
            let next = source.peek();
            if next.is_none() || self.is_full() {
                break;
            }
            if anchor.is_some() && anchor.unwrap() == next.unwrap() {
                break;
            }
            let _ = source.next();
            self.length += 1;
        }
    }

    fn apply(&self, source: &mut ByteCursor<'_>, _target: &mut Vec<u8>) {
        source.advance(self.length as usize);
    }
}

impl InstructionBytes for RemoveInstruction {
    open spec fn decoded(bytes: Seq<u8>) -> Decoded {
        decode_kind(Kind::Remove, bytes)
    }

    fn byte_sign(&self) -> (sign: u8) {
        REMOVE_INSTRUCTION_SIGN
    }

    fn byte_length(&self) -> (length: usize) {
        2
    }

    fn to_bytes(&self) -> (bytes: Vec<u8>) {
        let mut bytes: Vec<u8> = Vec::with_capacity(self.byte_length());
        bytes.push(REMOVE_INSTRUCTION_SIGN);
        bytes.push(self.len());
        bytes
    }

    fn try_from_bytes(bytes: &mut ByteCursor<'_>) -> (result: Result<Self>) {
        match bytes.next() {
            Some(sign) => {
                if sign != REMOVE_INSTRUCTION_SIGN {
                    return Err(InstructionError::InvalidSign);
                }
            },
            None => {
                return Err(InstructionError::MissingSign);
            },
        }
        match bytes.next() {
            Some(length) => {
                Ok(Self { length })
            },
            None => Err(InstructionError::MissingLength),
        }
    }
}

impl From<&RemoveInstruction> for Vec<u8> {
    /// The wire form of the removal.
    fn from(value: &RemoveInstruction) -> (bytes: Self)
        ensures
            bytes@ == value@.encode(),
    {
        value.to_bytes()
    }
}

/// A specification cannot name the value that `from` builds, only its view:
/// what comes back is stated by the `ensures` of `from` itself.
impl FromSpecImpl<&RemoveInstruction> for Vec<u8> {
    open spec fn obeys_from_spec() -> bool {
        false
    }

    open spec fn from_spec(value: &RemoveInstruction) -> Self {
        arbitrary()
    }
}

impl From<RemoveInstruction> for Vec<u8> {
    /// The wire form of the removal.
    fn from(value: RemoveInstruction) -> (bytes: Self)
        ensures
            bytes@ == value@.encode(),
    {
        value.to_bytes()
    }
}

/// A specification cannot name the value that `from` builds, only its view:
/// what comes back is stated by the `ensures` of `from` itself.
impl FromSpecImpl<RemoveInstruction> for Vec<u8> {
    open spec fn obeys_from_spec() -> bool {
        false
    }

    open spec fn from_spec(value: RemoveInstruction) -> Self {
        arbitrary()
    }
}

impl<'a, 'b> TryFrom<&'a mut ByteCursor<'b>> for RemoveInstruction {
    type Error = InstructionError;

    /// Reads one removal from the cursor.
    fn try_from(value: &'a mut ByteCursor<'b>) -> (result: Result<Self>)
        ensures
            final(value)@ == RemoveInstruction::decoded(old(value)@).rest,
            RemoveInstruction::decoded(old(value)@).describes(result),
    {
        RemoveInstruction::try_from_bytes(value)
    }
}

/// A specification cannot name the value that `try_from` builds, only its view:
/// what comes back is stated by the `ensures` of `try_from` itself.
impl<'a, 'b> TryFromSpecImpl<&'a mut ByteCursor<'b>> for RemoveInstruction {
    open spec fn obeys_try_from_spec() -> bool {
        false
    }

    open spec fn try_from_spec(value: &'a mut ByteCursor<'b>) -> Result<Self> {
        arbitrary()
    }
}

impl<'a> TryFrom<ByteCursor<'a>> for RemoveInstruction {
    type Error = InstructionError;

    /// Reads one removal from the cursor.
    fn try_from(value: ByteCursor<'a>) -> (result: Result<Self>)
        ensures
            RemoveInstruction::decoded(value@).describes(result),
    {
        let mut value = value;
        RemoveInstruction::try_from_bytes(&mut value)
    }
}

/// A specification cannot name the value that `try_from` builds, only its view:
/// what comes back is stated by the `ensures` of `try_from` itself.
impl<'a> TryFromSpecImpl<ByteCursor<'a>> for RemoveInstruction {
    open spec fn obeys_try_from_spec() -> bool {
        false
    }

    open spec fn try_from_spec(value: ByteCursor<'a>) -> Result<Self> {
        arbitrary()
    }
}

impl TryFrom<Vec<u8>> for RemoveInstruction {
    type Error = InstructionError;

    /// Reads one removal from the start of `value`.
    fn try_from(value: Vec<u8>) -> (result: Result<Self>)
        ensures
            RemoveInstruction::decoded(value@).describes(result),
    {
        let mut bytes = ByteCursor::new(value.as_slice());
        RemoveInstruction::try_from_bytes(&mut bytes)
    }
}

/// A specification cannot name the value that `try_from` builds, only its view:
/// what comes back is stated by the `ensures` of `try_from` itself.
impl TryFromSpecImpl<Vec<u8>> for RemoveInstruction {
    open spec fn obeys_try_from_spec() -> bool {
        false
    }

    open spec fn try_from_spec(value: Vec<u8>) -> Result<Self> {
        arbitrary()
    }
}

impl<'a> TryFrom<&'a [u8]> for RemoveInstruction {
    type Error = InstructionError;

    /// Reads one removal from the start of `value`.
    fn try_from(value: &'a [u8]) -> (result: Result<Self>)
        ensures
            RemoveInstruction::decoded(value@).describes(result),
    {
        let mut bytes = ByteCursor::new(value);
        RemoveInstruction::try_from_bytes(&mut bytes)
    }
}

/// A specification cannot name the value that `try_from` builds, only its view:
/// what comes back is stated by the `ensures` of `try_from` itself.
impl<'a> TryFromSpecImpl<&'a [u8]> for RemoveInstruction {
    open spec fn obeys_try_from_spec() -> bool {
        false
    }

    open spec fn try_from_spec(value: &'a [u8]) -> Result<Self> {
        arbitrary()
    }
}

} // verus!
