//! The instruction that emits source bytes, each shifted by a stored
//! correction.

use vstd::prelude::*;
use vstd::std_specs::convert::{FromSpecImpl, TryFromSpecImpl};
use crate::cursor::ByteCursor;
use crate::model::{copy_continues, copy_fill, corrected, decode_kind, Decoded, Fill, Kind, Op};
use super::{
    count_non_default, InstructionBytes, InstructionContent, InstructionError, InstructionInfo,
    InstructionItem, InstructionLength, Result, threshold_at, COPY_INSTRUCTION_SIGN,
    NON_ZERO_MAX_COUNT_PERCENT,
};

verus! {

/// Emits as many source bytes as it stores corrections, each with its
/// correction added modulo 256. A correction of zero copies the byte as it is.
#[derive(Debug, PartialEq)]
pub struct CopyInstruction {
    content: Vec<u8>,
}

impl View for CopyInstruction {
    type V = Op;

    closed spec fn view(&self) -> Op {
        Op::Copy { content: self.content@ }
    }
}

impl Clone for CopyInstruction {
    fn clone(&self) -> (copy: Self)
        ensures
            copy@ == self@,
            copy@.fits(),
    {
        proof {
            use_type_invariant(self);
        }
        let content = self.content.clone();
        Self { content }
    }
}

impl Default for CopyInstruction {
    fn default() -> (instruction: Self)
        ensures
            instruction@ == (Op::Copy { content: Seq::empty() }),
    {
        Self { content: Vec::new() }
    }
}

impl CopyInstruction {
    /// The view of a copy is a copy.
    pub proof fn lemma_kind(&self)
        ensures
            self@ is Copy,
    {
    }

    /// The content fits the length field.
    #[verifier::type_invariant]
    pub open spec fn fits_length_field(self) -> bool {
        self@.fits()
    }

    /// A copy with the corrections `content`, which must fit the length field.
    pub fn new(content: Vec<u8>) -> (instruction: Self)
        requires
            content@.len() <= 255,
        ensures
            instruction@ == (Op::Copy { content: content@ }),
    {
        Self { content }
    }

    /// Extends the copy greedily, pair by pair, tolerating `percent` per cent
    /// of non-zero corrections: a pair is taken while the copy has room and
    /// both sides have a byte left, and either the three cursors agree or the
    /// non-zero corrections so far do not exceed that share of the items so
    /// far. The anchor cursor moves with each pair on which all three agree.
    pub fn fill_with_tolerance(
        &mut self,
        lcs: &mut ByteCursor<'_>,
        source: &mut ByteCursor<'_>,
        target: &mut ByteCursor<'_>,
        percent: u8,
    )
        ensures
            final(self)@.fits(),
            old(self)@.fill(old(lcs)@, old(source)@, old(target)@, percent) == (Fill {
                op: final(self)@,
                lcs: final(lcs)@,
                source: final(source)@,
                target: final(target)@,
            }),
    {
        proof {
            use_type_invariant(&*self);
        }
        let mut items: Vec<u8> = Vec::new();
        core::mem::swap(&mut self.content, &mut items);
        loop
            invariant
                items@.len() <= 255,
                copy_fill(old(self).content@, old(lcs)@, old(source)@, old(target)@, percent)
                    == copy_fill(items@, lcs@, source@, target@, percent),
            ensures
                items@.len() <= 255,
                copy_fill(old(self).content@, old(lcs)@, old(source)@, old(target)@, percent)
                    == copy_fill(items@, lcs@, source@, target@, percent),
                !copy_continues(items@, lcs@, source@, target@, percent),
            decreases source@.len(),
        {
            let from = source.peek();
            let to = target.peek();
            if items.len() >= 255 || from.is_none() || to.is_none() {
                break;
            }
            let anchor = lcs.peek();
            let exact = anchor.is_some() && from.unwrap() == anchor.unwrap() && anchor.unwrap()
                == to.unwrap();
            if !exact {
                let count = count_non_default(&items);
                if count as u32 > threshold_at(items.len() as InstructionLength, percent) {
                    break;
                }
            }
            let _ = source.next();
            let _ = target.next();
            items.push(to.unwrap().wrapping_sub(from.unwrap()));
            if exact {
                let _ = lcs.next();
            }
        }
        core::mem::swap(&mut self.content, &mut items);
    }
}

impl InstructionInfo for CopyInstruction {
    fn len(&self) -> (length: InstructionLength) {
        proof {
            use_type_invariant(self);
        }
        self.content.len() as InstructionLength
    }

    fn is_empty(&self) -> (empty: bool) {
        self.len() == InstructionLength::MIN
    }

    fn is_full(&self) -> (full: bool) {
        self.len() == InstructionLength::MAX
    }

    fn non_default_item_count(&self) -> (count: Option<InstructionLength>) {
        proof {
            use_type_invariant(self);
        }
        Some(count_non_default(&self.content) as InstructionLength)
    }
}

impl InstructionContent for CopyInstruction {
    fn push(&mut self, content: InstructionItem) -> (result: Result<()>) {
        if self.is_full() {
            return Err(InstructionError::ContentOverflow);
        }
        proof {
            use_type_invariant(&*self);
        }
        let mut items: Vec<u8> = Vec::new();
        core::mem::swap(&mut self.content, &mut items);
        items.push(content);
        core::mem::swap(&mut self.content, &mut items);
        Ok(())
    }

    fn fill(
        &mut self,
        lcs: &mut ByteCursor<'_>,
        source: &mut ByteCursor<'_>,
        target: &mut ByteCursor<'_>,
    ) {
        self.fill_with_tolerance(lcs, source, target, NON_ZERO_MAX_COUNT_PERCENT)
    }

    fn apply(&self, source: &mut ByteCursor<'_>, target: &mut Vec<u8>) {
        let mut index: usize = 0;
        while index < self.content.len()
            invariant
                index <= self.content@.len(),
                self.content@.len() <= old(source)@.len(),
                source@ == old(source)@.skip(index as int),
                target@ == old(target)@ + Seq::new(
                    index as nat,
                    |i: int| corrected(old(source)@[i], self.content@[i]),
                ),
            decreases self.content@.len() - index,
        {
            match source.next() {
                Some(byte) => {
                    target.push(byte.wrapping_add(self.content[index]));
                },
                None => {},
            }
            index += 1;
        }
    }
}

impl InstructionBytes for CopyInstruction {
    open spec fn decoded(bytes: Seq<u8>) -> Decoded {
        decode_kind(Kind::Copy, bytes)
    }

    fn byte_sign(&self) -> (sign: u8) {
        COPY_INSTRUCTION_SIGN
    }

    fn byte_length(&self) -> (length: usize) {
        self.len() as usize + 2
    }

    fn to_bytes(&self) -> (bytes: Vec<u8>) {
        let mut bytes: Vec<u8> = Vec::with_capacity(self.byte_length());
        bytes.push(self.byte_sign());
        bytes.push(self.len());
        let mut index: usize = 0;
        while index < self.content.len()
            invariant
                index <= self.content@.len(),
                bytes@ == seq![self@.sign(), self@.len() as u8] + self.content@.take(index as int),
            decreases self.content@.len() - index,
        {
            bytes.push(self.content[index]);
            index += 1;
        }
        bytes
    }

    fn try_from_bytes(bytes: &mut ByteCursor<'_>) -> (result: Result<Self>) {
        match bytes.next() {
            Some(sign) => {
                if sign != COPY_INSTRUCTION_SIGN {
                    return Err(InstructionError::InvalidSign);
                }
            },
            None => {
                return Err(InstructionError::MissingSign);
            },
        }
        let length = match bytes.next() {
            Some(length) => length as usize,
            None => {
                return Err(InstructionError::MissingLength);
            },
        };
        let content = bytes.take(length);
        proof {
            let input = old(bytes)@;
            assert(input.skip(1).skip(1) == input.skip(2));
            if input.len() >= 2 + length {
                assert(input.skip(2).take(length as int) == input.subrange(2, 2 + length));
            } else {
            }
        }
        if content.len() < length {
            return Err(InstructionError::MissingContent);
        }
        Ok(Self { content })
    }
}

impl From<&CopyInstruction> for Vec<u8> {
    /// The wire form of the copy.
    fn from(value: &CopyInstruction) -> (bytes: Self)
        ensures
            bytes@ == value@.encode(),
    {
        value.to_bytes()
    }
}

/// A specification cannot name the value that `from` builds, only its view:
/// what comes back is stated by the `ensures` of `from` itself.
impl FromSpecImpl<&CopyInstruction> for Vec<u8> {
    open spec fn obeys_from_spec() -> bool {
        false
    }

    open spec fn from_spec(value: &CopyInstruction) -> Self {
        arbitrary()
    }
}

impl From<CopyInstruction> for Vec<u8> {
    /// The wire form of the copy.
    fn from(value: CopyInstruction) -> (bytes: Self)
        ensures
            bytes@ == value@.encode(),
    {
        value.to_bytes()
    }
}

/// A specification cannot name the value that `from` builds, only its view:
/// what comes back is stated by the `ensures` of `from` itself.
impl FromSpecImpl<CopyInstruction> for Vec<u8> {
    open spec fn obeys_from_spec() -> bool {
        false
    }

    open spec fn from_spec(value: CopyInstruction) -> Self {
        arbitrary()
    }
}

impl<'a, 'b> TryFrom<&'a mut ByteCursor<'b>> for CopyInstruction {
    type Error = InstructionError;

    /// Reads one copy from the cursor.
    fn try_from(value: &'a mut ByteCursor<'b>) -> (result: Result<Self>)
        ensures
            final(value)@ == CopyInstruction::decoded(old(value)@).rest,
            CopyInstruction::decoded(old(value)@).describes(result),
    {
        CopyInstruction::try_from_bytes(value)
    }
}

/// A specification cannot name the value that `try_from` builds, only its view:
/// what comes back is stated by the `ensures` of `try_from` itself.
impl<'a, 'b> TryFromSpecImpl<&'a mut ByteCursor<'b>> for CopyInstruction {
    open spec fn obeys_try_from_spec() -> bool {
        false
    }

    open spec fn try_from_spec(value: &'a mut ByteCursor<'b>) -> Result<Self> {
        arbitrary()
    }
}

impl<'a> TryFrom<ByteCursor<'a>> for CopyInstruction {
    type Error = InstructionError;

    /// Reads one copy from the cursor.
    fn try_from(value: ByteCursor<'a>) -> (result: Result<Self>)
        ensures
            CopyInstruction::decoded(value@).describes(result),
    {
        let mut value = value;
        CopyInstruction::try_from_bytes(&mut value)
    }
}

/// A specification cannot name the value that `try_from` builds, only its view:
/// what comes back is stated by the `ensures` of `try_from` itself.
impl<'a> TryFromSpecImpl<ByteCursor<'a>> for CopyInstruction {
    open spec fn obeys_try_from_spec() -> bool {
        false
    }

    open spec fn try_from_spec(value: ByteCursor<'a>) -> Result<Self> {
        arbitrary()
    }
}

impl TryFrom<Vec<u8>> for CopyInstruction {
    type Error = InstructionError;

    /// Reads one copy from the start of `value`.
    fn try_from(value: Vec<u8>) -> (result: Result<Self>)
        ensures
            CopyInstruction::decoded(value@).describes(result),
    {
        let mut bytes = ByteCursor::new(value.as_slice());
        CopyInstruction::try_from_bytes(&mut bytes)
    }
}

/// A specification cannot name the value that `try_from` builds, only its view:
/// what comes back is stated by the `ensures` of `try_from` itself.
impl TryFromSpecImpl<Vec<u8>> for CopyInstruction {
    open spec fn obeys_try_from_spec() -> bool {
        false
    }

    open spec fn try_from_spec(value: Vec<u8>) -> Result<Self> {
        arbitrary()
    }
}

impl<'a> TryFrom<&'a [u8]> for CopyInstruction {
    type Error = InstructionError;

    /// Reads one copy from the start of `value`.
    fn try_from(value: &'a [u8]) -> (result: Result<Self>)
        ensures
            CopyInstruction::decoded(value@).describes(result),
    {
        let mut bytes = ByteCursor::new(value);
        CopyInstruction::try_from_bytes(&mut bytes)
    }
}

/// A specification cannot name the value that `try_from` builds, only its view:
/// what comes back is stated by the `ensures` of `try_from` itself.
impl<'a> TryFromSpecImpl<&'a [u8]> for CopyInstruction {
    open spec fn obeys_try_from_spec() -> bool {
        false
    }

    open spec fn try_from_spec(value: &'a [u8]) -> Result<Self> {
        arbitrary()
    }
}

} // verus!
