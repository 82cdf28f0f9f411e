//! The three kinds of instruction and what they have in common.

pub mod add_instruction;
pub mod copy_instruction;
pub mod delta_instruction;
pub mod error;
pub mod instruction;
pub mod remove_instruction;

use vstd::prelude::*;
use crate::cursor::ByteCursor;
use crate::model::{count_nonzero, threshold_of, Decoded, Fill, Op};

pub use error::InstructionError;

verus! {

/// The type of the length field.
pub type InstructionLength = u8;

/// The type of a content item.
pub type InstructionItem = u8;

pub type Result<T> = core::result::Result<T, InstructionError>;

/// The largest length an instruction can have.
pub const MAX_INSTRUCTION_LENGTH: u8 = 255;

/// The smallest length an instruction can have.
pub const MIN_INSTRUCTION_LENGTH: u8 = 0;

/// The sign of a removal: `-`.
pub const REMOVE_INSTRUCTION_SIGN: u8 = 45;

/// The sign of an addition: `+`.
pub const ADD_INSTRUCTION_SIGN: u8 = 43;

/// The sign of a copy: `|`.
pub const COPY_INSTRUCTION_SIGN: u8 = 124;

/// The share of non-zero corrections, in percent, that a copy tolerates
/// unless told otherwise.
pub const NON_ZERO_MAX_COUNT_PERCENT: u8 = 100;

/// Length accounting.
pub trait InstructionInfo: View<V = Op> {
    fn len(&self) -> (length: InstructionLength)
        ensures
            length == self@.len(),
    ;

    fn is_empty(&self) -> (empty: bool)
        ensures
            empty == self@.is_empty(),
    ;

    fn is_full(&self) -> (full: bool)
        ensures
            full == self@.is_full(),
    ;

    /// The number of non-zero items tolerated at the current length, at the
    /// default tolerance.
    fn threshold(&self) -> (limit: InstructionLength)
        ensures
            limit == threshold_of(self@.len(), NON_ZERO_MAX_COUNT_PERCENT),
    {
        threshold_at(self.len(), NON_ZERO_MAX_COUNT_PERCENT) as InstructionLength
    }

    fn non_default_item_count(&self) -> (count: Option<InstructionLength>)
        ensures
            match count {
                Some(n) => self@.non_default_item_count() == Some(n as nat),
                None => self@.non_default_item_count() is None,
            },
    ;
}

/// Growing an instruction and replaying it.
pub trait InstructionContent: View<V = Op> {
    /// Appends one item, unless the instruction is full.
    fn push(&mut self, content: InstructionItem) -> (result: Result<()>)
        ensures
            final(self)@.fits(),
            match old(self)@.push(content) {
                Ok(op) => {
                    &&& result is Ok
                    &&& final(self)@ == op
                },
                Err(error) => {
                    &&& result == Err::<(), InstructionError>(error)
                    &&& final(self)@ == old(self)@
                },
            },
    ;

    /// Extends the instruction greedily over the three cursors, at the
    /// default tolerance.
    fn fill(
        &mut self,
        lcs: &mut ByteCursor<'_>,
        source: &mut ByteCursor<'_>,
        target: &mut ByteCursor<'_>,
    )
        ensures
            final(self)@.fits(),
            old(self)@.fill(
                old(lcs)@,
                old(source)@,
                old(target)@,
                NON_ZERO_MAX_COUNT_PERCENT,
            ) == (Fill {
                op: final(self)@,
                lcs: final(lcs)@,
                source: final(source)@,
                target: final(target)@,
            }),
    ;

    /// Replays the instruction: consumes its share of `source` and appends
    /// what it emits to `target`.
    fn apply(&self, source: &mut ByteCursor<'_>, target: &mut Vec<u8>)
        requires
            self@.consumed() <= old(source)@.len(),
        ensures
            final(source)@ == old(source)@.skip(self@.consumed() as int),
            final(target)@ == old(target)@ + self@.emit(old(source)@),
    ;
}

/// The wire form.
pub trait InstructionBytes: View<V = Op> + Sized {
    /// What `try_from_bytes` makes of an input.
    spec fn decoded(bytes: Seq<u8>) -> Decoded;

    fn byte_sign(&self) -> (sign: u8)
        ensures
            sign == self@.sign(),
    ;

    fn byte_length(&self) -> (length: usize)
        ensures
            length == self@.encode().len(),
    ;

    fn to_bytes(&self) -> (bytes: Vec<u8>)
        ensures
            bytes@ == self@.encode(),
    ;

    /// Reads one instruction from the cursor.
    fn try_from_bytes(bytes: &mut ByteCursor<'_>) -> (result: Result<Self>)
        ensures
            final(bytes)@ == Self::decoded(old(bytes)@).rest,
            Self::decoded(old(bytes)@).describes(result),
    ;
}

/// The number of items of `content` that are not zero.
pub fn count_non_default(content: &Vec<u8>) -> (count: usize)
    ensures
        count == count_nonzero(content@),
        count <= content@.len(),
{
    let mut count: usize = 0;
    let mut index: usize = 0;
    while index < content.len()
        invariant
            index <= content@.len(),
            count <= index,
            count == count_nonzero(content@.take(index as int)),
        decreases content@.len() - index,
    {
        assert(content@.take(index + 1).drop_last() == content@.take(index as int));
        if content[index] != 0 {
            count += 1;
        }
        index += 1;
    }
    assert(content@.take(index as int) == content@);
    count
}

/// The number of non-zero items tolerated among `length` items at the
/// tolerance `percent`.
pub fn threshold_at(length: InstructionLength, percent: u8) -> (limit: u32)
    ensures
        limit == threshold_of(length as nat, percent),
{
    assert(length as u32 * percent as u32 <= 255 * 255) by (nonlinear_arith)
        requires
            length <= 255,
            percent <= 255,
    ;
    (length as u32 * percent as u32) / 100u32
}

} // verus!
