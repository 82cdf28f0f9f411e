//! The instruction that emits stored bytes.

use vstd::prelude::*;
use vstd::std_specs::convert::{FromSpecImpl, TryFromSpecImpl};
use crate::cursor::ByteCursor;
use crate::model::{decode_kind, divergent_run, head, Decoded, Kind, Op};
use super::{
    count_non_default, InstructionBytes, InstructionContent, InstructionError, InstructionInfo,
    InstructionItem, InstructionLength, Result, ADD_INSTRUCTION_SIGN,
};

verus! {

/// Emits the bytes it stores.
#[derive(Debug, PartialEq)]
pub struct AddInstruction {
    content: Vec<u8>,
}

impl View for AddInstruction {
    type V = Op;

    closed spec fn view(&self) -> Op {
        Op::Add { content: self.content@ }
    }
}

impl Clone for AddInstruction {
    fn clone(&self) -> (copy: Self)
        ensures
            copy@ == self@,
            copy@.fits(),
    {
        proof {
            use_type_invariant(self);
        }
        let content = self.content.clone();
        Self { content }
    }
}

impl Default for AddInstruction {
    fn default() -> (instruction: Self)
        ensures
            instruction@ == (Op::Add { content: Seq::empty() }),
    {
        Self { content: Vec::new() }
    }
}

impl AddInstruction {
    /// The view of an addition is an addition.
    pub proof fn lemma_kind(&self)
        ensures
            self@ is Add,
    {
    }

    /// The content fits the length field.
    #[verifier::type_invariant]
    pub open spec fn fits_length_field(self) -> bool {
        self@.fits()
    }

    /// An addition of `content`, which must fit the length field.
    pub fn new(content: Vec<u8>) -> (instruction: Self)
        requires
            content@.len() <= 255,
        ensures
            instruction@ == (Op::Add { content: content@ }),
    {
        Self { content }
    }
}

impl InstructionInfo for AddInstruction {
    fn len(&self) -> (length: InstructionLength) {
        proof {
            use_type_invariant(self);
        }
        self.content.len() as InstructionLength
    }

    fn is_empty(&self) -> (empty: bool) {
        self.len() == InstructionLength::MIN
    }

    fn is_full(&self) -> (full: bool) {
        self.len() == InstructionLength::MAX
    }

    fn non_default_item_count(&self) -> (count: Option<InstructionLength>) {
        proof {
            use_type_invariant(self);
        }
        Some(count_non_default(&self.content) as InstructionLength)
    }
}

impl InstructionContent for AddInstruction {
    fn push(&mut self, content: InstructionItem) -> (result: Result<()>) {
        if self.is_full() {
            return Err(InstructionError::ContentOverflow);
        }
        proof {
            use_type_invariant(&*self);
        }
        let mut items: Vec<u8> = Vec::new();
        core::mem::swap(&mut self.content, &mut items);
        items.push(content);
        core::mem::swap(&mut self.content, &mut items);
        Ok(())
    }

    fn fill(
        &mut self,
        lcs: &mut ByteCursor<'_>,
        _source: &mut ByteCursor<'_>,
        target: &mut ByteCursor<'_>,
    ) {
        proof {
            use_type_invariant(&*self);
        }
        let anchor = lcs.peek();
        let mut items: Vec<u8> = Vec::new();
        core::mem::swap(&mut self.content, &mut items);
        let ghost start = items@;
        loop
            invariant
                anchor == head(lcs@),
                lcs@ == old(lcs)@,
                start == old(self).content@,
                start.len() <= items@.len() <= 255,
                items@.len() - start.len() <= old(target)@.len(),
                items@ == start + old(target)@.take(items@.len() - start.len()),
                target@ == old(target)@.skip(items@.len() - start.len()),
                divergent_run(old(target)@, anchor, old(self)@.room()) == (items@.len()
                    - start.len()) + divergent_run(target@, anchor, (255 - items@.len()) as nat),
            ensures
                divergent_run(target@, anchor, (255 - items@.len()) as nat) == 0,
            decreases target@.len(),
        {
            let next = target.peek();
            if next.is_none() || items.len() >= 255 {
                break;
            }
            if anchor.is_some() && anchor.unwrap() == next.unwrap() {
                break;
            }
            let _ = target.next();
            items.push(next.unwrap());
        }
        core::mem::swap(&mut self.content, &mut items);
    }

    fn apply(&self, _source: &mut ByteCursor<'_>, target: &mut Vec<u8>) {
        let mut index: usize = 0;
        while index < self.content.len()
            invariant
                index <= self.content@.len(),
                target@ == old(target)@ + self.content@.take(index as int),
            decreases self.content@.len() - index,
        {
            target.push(self.content[index]);
            index += 1;
        }
    }
}

impl InstructionBytes for AddInstruction {
    open spec fn decoded(bytes: Seq<u8>) -> Decoded {
        decode_kind(Kind::Add, bytes)
    }

    fn byte_sign(&self) -> (sign: u8) {
        ADD_INSTRUCTION_SIGN
    }

    fn byte_length(&self) -> (length: usize) {
        self.len() as usize + 2
    }

    fn to_bytes(&self) -> (bytes: Vec<u8>) {
        let mut bytes: Vec<u8> = Vec::with_capacity(self.byte_length());
        bytes.push(self.byte_sign());
        bytes.push(self.len());
        let mut index: usize = 0;
        while index < self.content.len()
            invariant
                index <= self.content@.len(),
                bytes@ == seq![self@.sign(), self@.len() as u8] + self.content@.take(index as int),
            decreases self.content@.len() - index,
        {
            bytes.push(self.content[index]);
            index += 1;
        }
        bytes
    }

    fn try_from_bytes(bytes: &mut ByteCursor<'_>) -> (result: Result<Self>) {
        match bytes.next() {
            Some(sign) => {
                if sign != ADD_INSTRUCTION_SIGN {
                    return Err(InstructionError::InvalidSign);
                }
            },
            None => {
                return Err(InstructionError::MissingSign);
            },
        }
        let length = match bytes.next() {
            Some(length) => length as usize,
            None => {
                return Err(InstructionError::MissingLength);
            },
        };
        let content = bytes.take(length);
        proof {
            let input = old(bytes)@;
            assert(input.skip(1).skip(1) == input.skip(2));
            if input.len() >= 2 + length {
                assert(input.skip(2).take(length as int) == input.subrange(2, 2 + length));
            } else {
            }
        }
        if content.len() < length {
            return Err(InstructionError::MissingContent);
        }
        Ok(Self { content })
    }
}

impl From<&AddInstruction> for Vec<u8> {
    /// The wire form of the addition.
    fn from(value: &AddInstruction) -> (bytes: Self)
        ensures
            bytes@ == value@.encode(),
    {
        value.to_bytes()
    }
}

/// A specification cannot name the value that `from` builds, only its view:
/// what comes back is stated by the `ensures` of `from` itself.
impl FromSpecImpl<&AddInstruction> for Vec<u8> {
    open spec fn obeys_from_spec() -> bool {
        false
    }

    open spec fn from_spec(value: &AddInstruction) -> Self {
        arbitrary()
    }
}

impl From<AddInstruction> for Vec<u8> {
    /// The wire form of the addition.
    fn from(value: AddInstruction) -> (bytes: Self)
        ensures
            bytes@ == value@.encode(),
    {
        value.to_bytes()
    }
}

/// A specification cannot name the value that `from` builds, only its view:
/// what comes back is stated by the `ensures` of `from` itself.
impl FromSpecImpl<AddInstruction> for Vec<u8> {
    open spec fn obeys_from_spec() -> bool {
        false
    }

    open spec fn from_spec(value: AddInstruction) -> Self {
        arbitrary()
    }
}

impl<'a, 'b> TryFrom<&'a mut ByteCursor<'b>> for AddInstruction {
    type Error = InstructionError;

    /// Reads one addition from the cursor.
    fn try_from(value: &'a mut ByteCursor<'b>) -> (result: Result<Self>)
        ensures
            final(value)@ == AddInstruction::decoded(old(value)@).rest,
            AddInstruction::decoded(old(value)@).describes(result),
    {
        AddInstruction::try_from_bytes(value)
    }
}

/// A specification cannot name the value that `try_from` builds, only its view:
/// what comes back is stated by the `ensures` of `try_from` itself.
impl<'a, 'b> TryFromSpecImpl<&'a mut ByteCursor<'b>> for AddInstruction {
    open spec fn obeys_try_from_spec() -> bool {
        false
    }

    open spec fn try_from_spec(value: &'a mut ByteCursor<'b>) -> Result<Self> {
        arbitrary()
    }
}

impl<'a> TryFrom<ByteCursor<'a>> for AddInstruction {
    type Error = InstructionError;

    /// Reads one addition from the cursor.
    fn try_from(value: ByteCursor<'a>) -> (result: Result<Self>)
        ensures
            AddInstruction::decoded(value@).describes(result),
    {
        let mut value = value;
        AddInstruction::try_from_bytes(&mut value)
    }
}

/// A specification cannot name the value that `try_from` builds, only its view:
/// what comes back is stated by the `ensures` of `try_from` itself.
impl<'a> TryFromSpecImpl<ByteCursor<'a>> for AddInstruction {
    open spec fn obeys_try_from_spec() -> bool {
        false
    }

    open spec fn try_from_spec(value: ByteCursor<'a>) -> Result<Self> {
        arbitrary()
    }
}

impl TryFrom<Vec<u8>> for AddInstruction {
    type Error = InstructionError;

    /// Reads one addition from the start of `value`.
    fn try_from(value: Vec<u8>) -> (result: Result<Self>)
        ensures
            AddInstruction::decoded(value@).describes(result),
    {
        let mut bytes = ByteCursor::new(value.as_slice());
        AddInstruction::try_from_bytes(&mut bytes)
    }
}

/// A specification cannot name the value that `try_from` builds, only its view:
/// what comes back is stated by the `ensures` of `try_from` itself.
impl TryFromSpecImpl<Vec<u8>> for AddInstruction {
    open spec fn obeys_try_from_spec() -> bool {
        false
    }

    open spec fn try_from_spec(value: Vec<u8>) -> Result<Self> {
        arbitrary()
    }
}

impl<'a> TryFrom<&'a [u8]> for AddInstruction {
    type Error = InstructionError;

    /// Reads one addition from the start of `value`.
    fn try_from(value: &'a [u8]) -> (result: Result<Self>)
        ensures
            AddInstruction::decoded(value@).describes(result),
    {
        let mut bytes = ByteCursor::new(value);
        AddInstruction::try_from_bytes(&mut bytes)
    }
}

/// A specification cannot name the value that `try_from` builds, only its view:
/// what comes back is stated by the `ensures` of `try_from` itself.
impl<'a> TryFromSpecImpl<&'a [u8]> for AddInstruction {
    open spec fn obeys_try_from_spec() -> bool {
        false
    }

    open spec fn try_from_spec(value: &'a [u8]) -> Result<Self> {
        arbitrary()
    }
}

} // verus!
