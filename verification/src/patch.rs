//! Patches: building them from a source and a target, writing them to bytes
//! and reading them back, and applying them.

use vstd::prelude::*;
use vstd::std_specs::convert::{FromSpecImpl, TryFromSpecImpl};
use crate::cursor::ByteCursor;
use crate::diff::{build, diff, lemma_build_round_trip, lemma_fill_advances, opening};
use crate::instructions::add_instruction::AddInstruction;
use crate::instructions::copy_instruction::CopyInstruction;
use crate::instructions::delta_instruction::{ops_of, DeltaInstruction};
use crate::instructions::remove_instruction::RemoveInstruction;
use crate::instructions::{
    InstructionBytes, InstructionContent, InstructionError, InstructionInfo, Result,
    NON_ZERO_MAX_COUNT_PERCENT,
};
use crate::lcs::Lcs;
use crate::model::{
    all_fit, apply_all, decode_all, decode_any, encode_all, lemma_count_nonzero_bounded,
    plain_bytes, plain_length, replay, source_length, Op,
};

verus! {

/// The smaller of a count and the largest `usize`.
pub open spec fn saturated(count: nat) -> nat {
    if count <= usize::MAX {
        count
    } else {
        usize::MAX as nat
    }
}

/// Why a patch was not applied.
#[derive(Debug, PartialEq, Eq, Clone, Copy, Structural)]
pub enum ApplyError {
    /// The source does not have the length that the instructions consume:
    /// the patch was built against another source.
    SourceLengthMismatch,
}

impl ApplyError {
    /// What went wrong, in words.
    pub fn message(&self) -> (text: &'static str)
        ensures
            text@ == "The source does not have the length that the patch consumes"@,
    {
        "The source does not have the length that the patch consumes"
    }
}

/// An ordered list of instructions that turns one byte sequence into another.
#[derive(Debug, PartialEq)]
pub struct Patch {
    instructions: Vec<DeltaInstruction>,
}

impl View for Patch {
    type V = Seq<Op>;

    closed spec fn view(&self) -> Seq<Op> {
        ops_of(self.instructions@)
    }
}

impl Default for Patch {
    fn default() -> (patch: Self)
        ensures
            patch@ == Seq::<Op>::empty(),
    {
        let instructions: Vec<DeltaInstruction> = Vec::new();
        Self { instructions }
    }
}

impl Clone for Patch {
    fn clone(&self) -> (copy: Self)
        ensures
            copy@ == self@,
    {
        let mut instructions: Vec<DeltaInstruction> = Vec::new();
        let mut index: usize = 0;
        while index < self.instructions.len()
            invariant
                index <= self.instructions@.len(),
                instructions@.len() == index,
                all_fit(ops_of(instructions@)),
                forall|i: int|
                    0 <= i < index ==> (#[trigger] instructions@[i])@ == self.instructions@[i]@,
            decreases self.instructions@.len() - index,
        {
            let ghost before = ops_of(instructions@);
            let instruction = self.instructions[index].clone();
            instructions.push(instruction);
            assert(ops_of(instructions@) == before.push(instruction@));
            index += 1;
        }
        Self { instructions }
    }
}

impl Patch {
    /// Every instruction fits its length field.
    #[verifier::type_invariant]
    pub open spec fn instructions_fit(self) -> bool {
        all_fit(self@)
    }

    /// The patch that turns `source` into `target`, with copies at the
    /// default tolerance.
    pub fn new(source: &[u8], target: &[u8]) -> (patch: Self)
        ensures
            patch@ == diff(source@, target@, NON_ZERO_MAX_COUNT_PERCENT),
            apply_all(patch@, source@) == Some(target@),
    {
        Self::with_tolerance(source, target, NON_ZERO_MAX_COUNT_PERCENT)
    }

    /// The patch that turns `source` into `target`, with copies that tolerate
    /// `percent` per cent of non-zero corrections.
    pub fn with_tolerance(source: &[u8], target: &[u8], percent: u8) -> (patch: Self)
        ensures
            patch@ == diff(source@, target@, percent),
            apply_all(patch@, source@) == Some(target@),
    {
        let lcs = Lcs::new(source, target).subsequence();
        let mut lcs_iter = ByteCursor::new(lcs.as_slice());
        let mut source_iter = ByteCursor::new(source);
        let mut target_iter = ByteCursor::new(target);
        let instructions = Self::create_instructions_with_tolerance(
            &mut lcs_iter,
            &mut source_iter,
            &mut target_iter,
            percent,
        );
        Self { instructions }
    }

    /// Builds the instructions from the three cursors, which it uses up, with
    /// copies at the default tolerance.
    pub fn create_instructions(
        lcs: &mut ByteCursor<'_>,
        source: &mut ByteCursor<'_>,
        target: &mut ByteCursor<'_>,
    ) -> (instructions: Vec<DeltaInstruction>)
        ensures
            ops_of(instructions@) == build(
                old(lcs)@,
                old(source)@,
                old(target)@,
                NON_ZERO_MAX_COUNT_PERCENT,
            ),
            all_fit(ops_of(instructions@)),
            apply_all(ops_of(instructions@), old(source)@) == Some(old(target)@),
            final(lcs)@.len() == 0,
            final(source)@.len() == 0,
            final(target)@.len() == 0,
    {
        Self::create_instructions_with_tolerance(lcs, source, target, NON_ZERO_MAX_COUNT_PERCENT)
    }

    /// Builds the instructions from the three cursors, which it uses up.
    /// While all three have bytes left, each round opens the instruction that
    /// the next bytes call for and fills it; then what is left of the source
    /// is removed, and what is left of the target is added. `percent` is the
    /// tolerance of copies.
    pub fn create_instructions_with_tolerance(
        lcs: &mut ByteCursor<'_>,
        source: &mut ByteCursor<'_>,
        target: &mut ByteCursor<'_>,
        percent: u8,
    ) -> (instructions: Vec<DeltaInstruction>)
        ensures
            ops_of(instructions@) == build(old(lcs)@, old(source)@, old(target)@, percent),
            all_fit(ops_of(instructions@)),
            apply_all(ops_of(instructions@), old(source)@) == Some(old(target)@),
            final(lcs)@.len() == 0,
            final(source)@.len() == 0,
            final(target)@.len() == 0,
    {
        let mut instructions: Vec<DeltaInstruction> = Vec::new();
        let ghost whole = build(old(lcs)@, old(source)@, old(target)@, percent);
        while !lcs.is_empty() && !source.is_empty() && !target.is_empty()
            invariant
                ops_of(instructions@) + build(lcs@, source@, target@, percent) == whole,
                all_fit(ops_of(instructions@)),
            decreases source@.len() + target@.len(),
        {
            let anchor = lcs.peek();
            let from = source.peek();
            let to = target.peek();
            let mut instruction = if from.unwrap() != anchor.unwrap() {
                DeltaInstruction::Remove(RemoveInstruction::default())
            } else if to.unwrap() != anchor.unwrap() {
                DeltaInstruction::Add(AddInstruction::default())
            } else {
                DeltaInstruction::Copy(CopyInstruction::default())
            };
            proof {
                lemma_fill_advances(instruction@, lcs@, source@, target@, percent);
            }
            let ghost before = ops_of(instructions@);
            instruction.fill_with_tolerance(lcs, source, target, percent);
            instructions.push(instruction);
            assert(ops_of(instructions@) == before.push(instruction@));
        }
        lcs.exhaust();
        while !source.is_empty()
            invariant
                lcs@ == Seq::<u8>::empty(),
                ops_of(instructions@) + build(Seq::empty(), source@, target@, percent) == whole,
                all_fit(ops_of(instructions@)),
            decreases source@.len() + target@.len(),
        {
            let mut instruction = DeltaInstruction::Remove(RemoveInstruction::default());
            proof {
                lemma_fill_advances(instruction@, lcs@, source@, target@, percent);
            }
            let ghost before = ops_of(instructions@);
            instruction.fill_with_tolerance(lcs, source, target, percent);
            instructions.push(instruction);
            assert(ops_of(instructions@) == before.push(instruction@));
        }
        while !target.is_empty()
            invariant
                lcs@ == Seq::<u8>::empty(),
                source@.len() == 0,
                ops_of(instructions@) + build(Seq::empty(), source@, target@, percent) == whole,
                all_fit(ops_of(instructions@)),
            decreases source@.len() + target@.len(),
        {
            let mut instruction = DeltaInstruction::Add(AddInstruction::default());
            proof {
                lemma_fill_advances(instruction@, lcs@, source@, target@, percent);
            }
            let ghost before = ops_of(instructions@);
            instruction.fill_with_tolerance(lcs, source, target, percent);
            instructions.push(instruction);
            assert(ops_of(instructions@) == before.push(instruction@));
        }
        proof {
            lemma_build_round_trip(old(lcs)@, old(source)@, old(target)@, percent);
        }
        instructions
    }

    /// The instructions, in order.
    pub fn instructions(&self) -> (instructions: &Vec<DeltaInstruction>)
        ensures
            ops_of(instructions@) == self@,
    {
        &self.instructions
    }

    /// Whether the instructions consume exactly `length` source bytes.
    pub fn consumes_exactly(&self, length: usize) -> (exact: bool)
        ensures
            exact == (source_length(self@) == length),
    {
        let mut consumed: usize = 0;
        let mut index: usize = 0;
        assert(self@.skip(0) == self@);
        while index < self.instructions.len()
            invariant
                index <= self.instructions@.len(),
                consumed <= length,
                consumed + source_length(self@.skip(index as int)) == source_length(self@),
            decreases self.instructions@.len() - index,
        {
            let instruction = &self.instructions[index];
            assert(self@.skip(index as int).skip(1) == self@.skip(index + 1));
            let share: usize = match instruction {
                DeltaInstruction::Remove(instruction) => {
                    proof {
                        instruction.lemma_kind();
                    }
                    instruction.len() as usize
                },
                DeltaInstruction::Add(instruction) => {
                    proof {
                        instruction.lemma_kind();
                    }
                    0
                },
                DeltaInstruction::Copy(instruction) => {
                    proof {
                        instruction.lemma_kind();
                    }
                    instruction.len() as usize
                },
            };
            if length - consumed < share {
                return false;
            }
            consumed += share;
            index += 1;
        }
        consumed == length
    }

    /// Applies the patch to `source`: `None` unless `source` has exactly the
    /// length the instructions consume.
    pub fn apply(&self, source: &[u8]) -> (target: Option<Vec<u8>>)
        ensures
            match apply_all(self@, source@) {
                Some(bytes) => target is Some && target.unwrap()@ == bytes,
                None => target is None,
            },
    {
        let mut source_iter = ByteCursor::new(source);
        self.construct_target(&mut source_iter)
    }

    /// Applies the patch to `source`, and says why where it cannot: `source`
    /// must have exactly the length the instructions consume.
    pub fn try_apply(&self, source: &[u8]) -> (target: core::result::Result<Vec<u8>, ApplyError>)
        ensures
            match apply_all(self@, source@) {
                Some(bytes) => target is Ok && target.unwrap()@ == bytes,
                None => target == Err::<Vec<u8>, ApplyError>(ApplyError::SourceLengthMismatch),
            },
    {
        match self.apply(source) {
            Some(target) => Ok(target),
            None => Err(ApplyError::SourceLengthMismatch),
        }
    }

    /// Applies the patch to what is left in `source`: `None`, with nothing
    /// consumed, unless exactly as many bytes are left as the instructions
    /// consume.
    pub fn construct_target(&self, source: &mut ByteCursor<'_>) -> (target: Option<Vec<u8>>)
        ensures
            match apply_all(self@, old(source)@) {
                Some(bytes) => target is Some && target.unwrap()@ == bytes && final(source)@.len()
                    == 0,
                None => target is None && final(source)@ == old(source)@,
            },
    {
        if !self.consumes_exactly(source.len()) {
            return None;
        }
        let mut target: Vec<u8> = Vec::with_capacity(self.target_length());
        let mut index: usize = 0;
        assert(self@.skip(0) == self@);
        while index < self.instructions.len()
            invariant
                index <= self.instructions@.len(),
                source_length(self@.skip(index as int)) == source@.len(),
                target@ + replay(self@.skip(index as int), source@) == replay(self@, old(source)@),
            decreases self.instructions@.len() - index,
        {
            let instruction = &self.instructions[index];
            assert(self@.skip(index as int).skip(1) == self@.skip(index + 1));
            instruction.apply(source, &mut target);
            index += 1;
        }
        Some(target)
    }

    /// The number of target bytes that the patch supplies as they are: the
    /// bytes of its additions and the zero corrections of its copies. Where
    /// that number exceeds the largest `usize`, the largest `usize`.
    pub fn target_length(&self) -> (length: usize)
        ensures
            length == saturated(plain_length(self@)),
    {
        let mut length: usize = 0;
        let mut index: usize = 0;
        assert(self@.skip(0) == self@);
        while index < self.instructions.len()
            invariant
                index <= self.instructions@.len(),
                length + plain_length(self@.skip(index as int)) == plain_length(self@) || (length
                    == usize::MAX && plain_length(self@) >= usize::MAX),
            decreases self.instructions@.len() - index,
        {
            let instruction = &self.instructions[index];
            assert(self@.skip(index as int).skip(1) == self@.skip(index + 1));
            let share: usize = match instruction {
                DeltaInstruction::Remove(instruction) => {
                    proof {
                        instruction.lemma_kind();
                    }
                    0
                },
                DeltaInstruction::Add(instruction) => {
                    proof {
                        instruction.lemma_kind();
                    }
                    instruction.len() as usize
                },
                DeltaInstruction::Copy(instruction) => {
                    proof {
                        instruction.lemma_kind();
                        lemma_count_nonzero_bounded(instruction@.content());
                    }
                    match instruction.non_default_item_count() {
                        Some(count) => instruction.len() as usize - count as usize,
                        None => instruction.len() as usize,
                    }
                },
            };
            length = length.saturating_add(share);
            index += 1;
        }
        length
    }

    /// The number of source bytes the patch consumes. Where that number
    /// exceeds the largest `usize`, the largest `usize`.
    pub fn source_lenth(&self) -> (length: usize)
        ensures
            length == saturated(source_length(self@)),
    {
        let mut length: usize = 0;
        let mut index: usize = 0;
        assert(self@.skip(0) == self@);
        while index < self.instructions.len()
            invariant
                index <= self.instructions@.len(),
                length + source_length(self@.skip(index as int)) == source_length(self@) || (length
                    == usize::MAX && source_length(self@) >= usize::MAX),
            decreases self.instructions@.len() - index,
        {
            let instruction = &self.instructions[index];
            assert(self@.skip(index as int).skip(1) == self@.skip(index + 1));
            let share: usize = match instruction {
                DeltaInstruction::Remove(instruction) => {
                    proof {
                        instruction.lemma_kind();
                    }
                    instruction.len() as usize
                },
                DeltaInstruction::Add(instruction) => {
                    proof {
                        instruction.lemma_kind();
                    }
                    0
                },
                DeltaInstruction::Copy(instruction) => {
                    proof {
                        instruction.lemma_kind();
                    }
                    instruction.len() as usize
                },
            };
            length = length.saturating_add(share);
            index += 1;
        }
        length
    }

    /// The length of the wire form. Where it exceeds the largest `usize`, the
    /// largest `usize`.
    pub fn byte_length(&self) -> (length: usize)
        ensures
            length == saturated(encode_all(self@).len()),
    {
        let mut length: usize = 0;
        let mut index: usize = 0;
        assert(self@.skip(0) == self@);
        while index < self.instructions.len()
            invariant
                index <= self.instructions@.len(),
                length + encode_all(self@.skip(index as int)).len() == encode_all(self@).len() || (
                length == usize::MAX && encode_all(self@).len() >= usize::MAX),
            decreases self.instructions@.len() - index,
        {
            let instruction = &self.instructions[index];
            assert(self@.skip(index as int).skip(1) == self@.skip(index + 1));
            length = length.saturating_add(instruction.byte_length());
            index += 1;
        }
        length
    }

    /// The wire form: the wire forms of the instructions, one after another.
    pub fn to_bytes(&self) -> (bytes: Vec<u8>)
        ensures
            bytes@ == encode_all(self@),
    {
        let mut bytes: Vec<u8> = Vec::with_capacity(self.byte_length());
        let mut index: usize = 0;
        assert(self@.skip(0) == self@);
        while index < self.instructions.len()
            invariant
                index <= self.instructions@.len(),
                bytes@ + encode_all(self@.skip(index as int)) == encode_all(self@),
            decreases self.instructions@.len() - index,
        {
            let instruction = &self.instructions[index];
            assert(self@.skip(index as int).skip(1) == self@.skip(index + 1));
            let mut part = instruction.to_bytes();
            bytes.append(&mut part);
            index += 1;
        }
        bytes
    }

    /// Reads a patch from its wire form: instructions are decoded until the
    /// input is used up, and the first failure is returned.
    pub fn try_from_bytes(bytes: &[u8]) -> (result: Result<Self>)
        ensures
            match decode_all(bytes@) {
                Ok(ops) => result is Ok && result.unwrap()@ == ops,
                Err(error) => result is Err && result.unwrap_err() == error,
            },
    {
        let mut bytes_iter = ByteCursor::new(bytes);
        let mut instructions: Vec<DeltaInstruction> = Vec::new();
        while !bytes_iter.is_empty()
            invariant
                all_fit(ops_of(instructions@)),
                decode_all(bytes@) == (match decode_all(bytes_iter@) {
                    Ok(rest) => Ok::<Seq<Op>, InstructionError>(ops_of(instructions@) + rest),
                    Err(error) => Err(error),
                }),
            decreases bytes_iter@.len(),
        {
            let ghost before = ops_of(instructions@);
            let ghost input = bytes_iter@;
            match DeltaInstruction::try_from_bytes(&mut bytes_iter) {
                Ok(instruction) => {
                    instructions.push(instruction);
                    proof {
                        assert(ops_of(instructions@) == before.push(instruction@));
                        match decode_all(decode_any(input).rest) {
                            Ok(rest) => {
                                assert(ops_of(instructions@) + rest == before + (seq![
                                    instruction@,
                                ] + rest));
                            },
                            Err(error) => {},
                        }
                    }
                },
                Err(error) => {
                    return Err(error);
                },
            }
        }
        Ok(Self { instructions })
    }
}

impl From<&Patch> for Vec<u8> {
    /// The wire form of the patch.
    fn from(patch: &Patch) -> (bytes: Self)
        ensures
            bytes@ == encode_all(patch@),
    {
        patch.to_bytes()
    }
}

/// A specification cannot name the value that `from` builds, only its view:
/// what comes back is stated by the `ensures` of `from` itself.
impl FromSpecImpl<&Patch> for Vec<u8> {
    open spec fn obeys_from_spec() -> bool {
        false
    }

    open spec fn from_spec(patch: &Patch) -> Self {
        arbitrary()
    }
}

impl From<Patch> for Vec<u8> {
    /// The wire form of the patch.
    fn from(patch: Patch) -> (bytes: Self)
        ensures
            bytes@ == encode_all(patch@),
    {
        patch.to_bytes()
    }
}

/// A specification cannot name the value that `from` builds, only its view:
/// what comes back is stated by the `ensures` of `from` itself.
impl FromSpecImpl<Patch> for Vec<u8> {
    open spec fn obeys_from_spec() -> bool {
        false
    }

    open spec fn from_spec(patch: Patch) -> Self {
        arbitrary()
    }
}

impl<'a> TryFrom<&'a [u8]> for Patch {
    type Error = InstructionError;

    /// Reads a patch from its wire form.
    fn try_from(value: &'a [u8]) -> (result: Result<Self>)
        ensures
            match decode_all(value@) {
                Ok(ops) => result is Ok && result.unwrap()@ == ops,
                Err(error) => result is Err && result.unwrap_err() == error,
            },
    {
        Patch::try_from_bytes(value)
    }
}

/// A specification cannot name the value that `try_from` builds, only its view:
/// what comes back is stated by the `ensures` of `try_from` itself.
impl<'a> TryFromSpecImpl<&'a [u8]> for Patch {
    open spec fn obeys_try_from_spec() -> bool {
        false
    }

    open spec fn try_from_spec(value: &'a [u8]) -> Result<Self> {
        arbitrary()
    }
}

impl TryFrom<Vec<u8>> for Patch {
    type Error = InstructionError;

    /// Reads a patch from its wire form.
    fn try_from(value: Vec<u8>) -> (result: Result<Self>)
        ensures
            match decode_all(value@) {
                Ok(ops) => result is Ok && result.unwrap()@ == ops,
                Err(error) => result is Err && result.unwrap_err() == error,
            },
    {
        Patch::try_from_bytes(value.as_slice())
    }
}

/// A specification cannot name the value that `try_from` builds, only its view:
/// what comes back is stated by the `ensures` of `try_from` itself.
impl TryFromSpecImpl<Vec<u8>> for Patch {
    open spec fn obeys_try_from_spec() -> bool {
        false
    }

    open spec fn try_from_spec(value: Vec<u8>) -> Result<Self> {
        arbitrary()
    }
}

} // verus!
