//! Exact patches: lists of exact instructions, built item by item.

use vstd::prelude::*;
use vstd::std_specs::convert::FromSpecImpl;
use crate::cursor::ByteCursor;
use crate::delta_instruction::{Instruction, Step};
use crate::delta_instruction_error::InstructionError;
use crate::delta_traits::LCS;
use crate::lcs::lcs_subsequence;
use crate::model::head;

verus! {

/// One unit of work: add this byte, remove one source byte, or copy one
/// source byte.
#[derive(Debug, PartialEq, Eq, Clone, Copy, Structural)]
pub enum InstructionItem {
    Add(u8),
    Remove,
    Copy,
}

/// The item is of the kind of the instruction.
pub open spec fn item_matches(item: InstructionItem, step: Step) -> bool {
    match (item, step) {
        (InstructionItem::Add(_), Step::Add { .. }) => true,
        (InstructionItem::Remove, Step::Remove { .. }) => true,
        (InstructionItem::Copy, Step::Copy { .. }) => true,
        _ => false,
    }
}

/// The byte an item carries: that of an addition, zero for the others.
pub open spec fn item_byte(item: InstructionItem) -> u8 {
    match item {
        InstructionItem::Add(byte) => byte,
        _ => 0,
    }
}

/// The instruction that holds just this item.
pub open spec fn step_of(item: InstructionItem) -> Step {
    match item {
        InstructionItem::Add(byte) => Step::Add { content: seq![byte] },
        InstructionItem::Remove => Step::Remove { length: 1 },
        InstructionItem::Copy => Step::Copy { length: 1 },
    }
}

/// The list with one more item: the item joins the last instruction where
/// that is of its kind and not full, else it starts an instruction of its
/// own.
pub open spec fn merge(steps: Seq<Step>, item: InstructionItem) -> Seq<Step> {
    if steps.len() > 0 && item_matches(item, steps.last()) && steps.last().len() < 255 {
        steps.drop_last().push(steps.last().with_item(item_byte(item)))
    } else {
        steps.push(step_of(item))
    }
}

/// The item that the next bytes of the three cursors call for, if any is
/// left to do: a removal where the source departs from the anchor, else an
/// addition where the target does, else a copy where both sides have a byte,
/// else a removal or an addition of what is left.
pub open spec fn next_item(lcs: Seq<u8>, source: Seq<u8>, target: Seq<u8>) -> Option<
    InstructionItem,
> {
    if source.len() == 0 && target.len() == 0 {
        None
    } else if source.len() > 0 && head(source) != head(lcs) {
        Some(InstructionItem::Remove)
    } else if target.len() > 0 && head(target) != head(lcs) {
        Some(InstructionItem::Add(target[0]))
    } else if source.len() > 0 && target.len() > 0 {
        Some(InstructionItem::Copy)
    } else if source.len() > 0 {
        Some(InstructionItem::Remove)
    } else {
        Some(InstructionItem::Add(target[0]))
    }
}

/// The instructions that `steps` grows into while the three cursors are
/// worked off item by item. A removal moves the source, an addition the
/// target, a copy all three.
pub open spec fn construct(lcs: Seq<u8>, source: Seq<u8>, target: Seq<u8>, steps: Seq<Step>) -> Seq<
    Step,
>
    decreases source.len() + target.len(),
{
    match next_item(lcs, source, target) {
        None => steps,
        Some(InstructionItem::Remove) => construct(
            lcs,
            source.skip(1),
            target,
            merge(steps, InstructionItem::Remove),
        ),
        Some(InstructionItem::Add(byte)) => construct(
            lcs,
            source,
            target.skip(1),
            merge(steps, InstructionItem::Add(byte)),
        ),
        Some(InstructionItem::Copy) => construct(
            lcs.skip(1),
            source.skip(1),
            target.skip(1),
            merge(steps, InstructionItem::Copy),
        ),
    }
}

/// The exact instructions that turn `source` into `target`.
pub open spec fn exact_diff(source: Seq<u8>, target: Seq<u8>) -> Seq<Step> {
    construct(lcs_subsequence(source, target), source, target, Seq::empty())
}

/// All instructions fit their length field.
pub open spec fn steps_fit(steps: Seq<Step>) -> bool {
    forall|i: int| 0 <= i < steps.len() ==> (#[trigger] steps[i]).fits()
}

/// The number of source bytes a list of exact instructions consumes.
pub open spec fn steps_consumed(steps: Seq<Step>) -> nat
    decreases steps.len(),
{
    if steps.len() == 0 {
        0
    } else {
        steps_consumed(steps.drop_last()) + steps.last().consumed()
    }
}

/// The bytes that replaying `steps` over `source` emits. Each instruction
/// reads where the ones before it stopped.
pub open spec fn replay_steps(steps: Seq<Step>, source: Seq<u8>) -> Seq<u8>
    decreases steps.len(),
{
    if steps.len() == 0 {
        Seq::empty()
    } else {
        replay_steps(steps.drop_last(), source) + steps.last().emit(
            source.skip(steps_consumed(steps.drop_last()) as int),
        )
    }
}

/// The mathematical values of a list of exact instructions.
pub open spec fn steps_of(instructions: Seq<Instruction>) -> Seq<Step> {
    instructions.map_values(|instruction: Instruction| instruction@)
}

/// What one more item does to a list of instructions: to their fit, to what
/// they consume and to what they emit.
pub proof fn lemma_merge(steps: Seq<Step>, item: InstructionItem, source: Seq<u8>)
    requires
        steps_fit(steps),
        item is Add || steps_consumed(steps) < source.len(),
    ensures
        steps_fit(merge(steps, item)),
        steps_consumed(merge(steps, item)) == steps_consumed(steps) + (if item is Add {
            0nat
        } else {
            1nat
        }),
        replay_steps(merge(steps, item), source) == replay_steps(steps, source) + (match item {
            InstructionItem::Add(byte) => seq![byte],
            InstructionItem::Remove => Seq::empty(),
            InstructionItem::Copy => seq![source[steps_consumed(steps) as int]],
        }),
{
    let merged = merge(steps, item);
    if steps.len() > 0 && item_matches(item, steps.last()) && steps.last().len() < 255 {
        let before = steps.drop_last();
        let grown = steps.last().with_item(item_byte(item));
        assert(merged.drop_last() == before);
        assert forall|i: int| 0 <= i < merged.len() implies (#[trigger] merged[i]).fits() by {
            if i < merged.len() - 1 {
            }
        }
        let rest = source.skip(steps_consumed(before) as int);
        match steps.last() {
            Step::Copy { length } => {
            },
            Step::Add { content } => {},
            Step::Remove { length } => {},
        }
    } else {
        assert(merged.drop_last() == steps);
        assert forall|i: int| 0 <= i < merged.len() implies (#[trigger] merged[i]).fits() by {
            if i < merged.len() - 1 {
            }
        }
        let rest = source.skip(steps_consumed(steps) as int);
        if item is Copy {
        }
    }
}

/// Working the cursors off keeps what was there: if `steps` consume the part
/// of `whole_source` before `source` and emit the part of `whole_target`
/// before `target`, the result consumes all of `whole_source` and emits all
/// of `whole_target`.
pub proof fn lemma_construct_round_trip(
    lcs: Seq<u8>,
    source: Seq<u8>,
    target: Seq<u8>,
    steps: Seq<Step>,
    whole_source: Seq<u8>,
    whole_target: Seq<u8>,
)
    requires
        steps_fit(steps),
        steps_consumed(steps) <= whole_source.len(),
        source == whole_source.skip(steps_consumed(steps) as int),
        replay_steps(steps, whole_source) + target == whole_target,
    ensures
        steps_fit(construct(lcs, source, target, steps)),
        steps_consumed(construct(lcs, source, target, steps)) == whole_source.len(),
        replay_steps(construct(lcs, source, target, steps), whole_source) == whole_target,
    decreases source.len() + target.len(),
{
    let consumed = steps_consumed(steps) as int;
    match next_item(lcs, source, target) {
        None => {
        },
        Some(item) => {
            lemma_merge(steps, item, whole_source);
            let merged = merge(steps, item);
            let emitted = replay_steps(steps, whole_source);
            match item {
                InstructionItem::Remove => {
                    assert(source.skip(1) == whole_source.skip(consumed + 1));
                    lemma_construct_round_trip(
                        lcs,
                        source.skip(1),
                        target,
                        merged,
                        whole_source,
                        whole_target,
                    );
                },
                InstructionItem::Add(byte) => {
                    assert(emitted + seq![byte] + target.skip(1) == emitted + target);
                    lemma_construct_round_trip(
                        lcs,
                        source,
                        target.skip(1),
                        merged,
                        whole_source,
                        whole_target,
                    );
                },
                InstructionItem::Copy => {
                    assert(source[0] == target[0]);
                    assert(emitted + seq![whole_source[consumed]] + target.skip(1) == emitted
                        + target);
                    lemma_construct_round_trip(
                        lcs.skip(1),
                        source.skip(1),
                        target.skip(1),
                        merged,
                        whole_source,
                        whole_target,
                    );
                },
            }
        },
    }
}

/// Replaying the exact instructions of a diff over its source gives its
/// target; they consume exactly the source, and each fits its length field.
pub proof fn exact_diff_round_trip(source: Seq<u8>, target: Seq<u8>)
    ensures
        steps_fit(exact_diff(source, target)),
        steps_consumed(exact_diff(source, target)) == source.len(),
        replay_steps(exact_diff(source, target), source) == target,
{
    assert(source.skip(0) == source);
    lemma_construct_round_trip(
        lcs_subsequence(source, target),
        source,
        target,
        Seq::empty(),
        source,
        target,
    );
}

impl InstructionItem {
    /// Whether the item is of the kind of `instruction`.
    pub fn matches(&self, instruction: &Instruction) -> (matching: bool)
        ensures
            matching == item_matches(*self, instruction@),
    {
        match (self, instruction) {
            (InstructionItem::Add(_), Instruction::Add { .. }) => true,
            (InstructionItem::Remove, Instruction::Remove { .. }) => true,
            (InstructionItem::Copy, Instruction::Copy { .. }) => true,
            _ => false,
        }
    }
}

impl From<&InstructionItem> for Instruction {
    /// The instruction that holds just this item.
    fn from(item: &InstructionItem) -> (instruction: Self)
        ensures
            instruction@ == step_of(*item),
    {
        match item {
            InstructionItem::Add(byte) => {
                let mut content: Vec<u8> = Vec::new();
                content.push(*byte);
                assert(content@ == seq![*byte]);
                Instruction::Add { content }
            },
            InstructionItem::Remove => Instruction::Remove { length: 1 },
            InstructionItem::Copy => Instruction::Copy { length: 1 },
        }
    }
}

/// A specification cannot name the value that `from` builds, only its view:
/// what comes back is stated by the `ensures` of `from` itself.
impl FromSpecImpl<&InstructionItem> for Instruction {
    open spec fn obeys_from_spec() -> bool {
        false
    }

    open spec fn from_spec(item: &InstructionItem) -> Self {
        arbitrary()
    }
}

impl Instruction {
    /// Appends the item, unless the instruction is full. The kind of the item
    /// is not looked at: an addition takes the byte the item carries, zero
    /// where it carries none.
    pub fn push_instruction_item(&mut self, item: &InstructionItem) -> (result: Result<
        (),
        InstructionError,
    >)
        requires
            old(self)@.fits(),
        ensures
            final(self)@.fits(),
            if old(self)@.len() == 255 {
                &&& result == Err::<(), InstructionError>(InstructionError::MaxLengthReached)
                &&& final(self)@ == old(self)@
            } else {
                &&& result is Ok
                &&& final(self)@ == old(self)@.with_item(item_byte(*item))
            },
    {
        let byte: u8 = match item {
            InstructionItem::Add(byte) => *byte,
            _ => 0,
        };
        self.push(&byte)
    }
}

/// A list of exact instructions that turns one byte sequence into another.
#[derive(Debug, PartialEq)]
pub struct DeltaPatch {
    instructions: Vec<Instruction>,
}

impl View for DeltaPatch {
    type V = Seq<Step>;

    closed spec fn view(&self) -> Seq<Step> {
        steps_of(self.instructions@)
    }
}

impl LCS for DeltaPatch {
}

impl DeltaPatch {
    /// Every instruction fits its length field.
    #[verifier::type_invariant]
    pub open spec fn instructions_fit(self) -> bool {
        steps_fit(self@)
    }

    /// Adds one item to a list of instructions: to the last instruction where
    /// that is of its kind and not full, else as an instruction of its own.
    pub fn push_instruction_item(
        instructions: &mut Vec<Instruction>,
        instruction_item: InstructionItem,
    )
        requires
            steps_fit(steps_of(old(instructions)@)),
        ensures
            steps_of(final(instructions)@) == merge(steps_of(old(instructions)@), instruction_item),
            steps_fit(steps_of(final(instructions)@)),
    {
        let ghost before = steps_of(instructions@);
        let count = instructions.len();
        if count > 0 {
            assert(before[count - 1].fits());
            if instruction_item.matches(&instructions[count - 1]) {
                let mut last = instructions.pop().unwrap();
                let pushed = last.push_instruction_item(&instruction_item);
                instructions.push(last);
                if pushed.is_ok() {
                    proof {
                        lemma_merge_fits(before, instruction_item);
                    }
                    return;
                }
            }
        }
        let instruction = Instruction::from(&instruction_item);
        instructions.push(instruction);
        proof {
            lemma_merge_fits(before, instruction_item);
        }
    }

    /// The exact patch that turns `source` into `target`.
    pub fn new(source: &[u8], target: &[u8]) -> (patch: Self)
        ensures
            patch@ == exact_diff(source@, target@),
            steps_consumed(patch@) == source@.len(),
            replay_steps(patch@, source@) == target@,
    {
        let lcs = Self::lcs(source, target);
        let instructions = Self::construct_instructions(source, target, lcs);
        Self { instructions }
    }

    /// Builds the exact instructions from a source, a target and the anchors
    /// that align them.
    pub fn construct_instructions(source: &[u8], target: &[u8], lcs: Vec<u8>) -> (instructions: Vec<
        Instruction,
    >)
        ensures
            steps_of(instructions@) == construct(lcs@, source@, target@, Seq::empty()),
            steps_fit(steps_of(instructions@)),
            steps_consumed(steps_of(instructions@)) == source@.len(),
            replay_steps(steps_of(instructions@), source@) == target@,
    {
        proof {
            assert(source@.skip(0) == source@);
            assert(Seq::<u8>::empty() + target@ == target@);
            lemma_construct_round_trip(lcs@, source@, target@, Seq::empty(), source@, target@);
        }
        let mut lcs = ByteCursor::new(lcs.as_slice());
        let mut source = ByteCursor::new(source);
        let mut target = ByteCursor::new(target);
        let mut instructions: Vec<Instruction> = Vec::new();
        let ghost whole = construct(lcs@, source@, target@, Seq::empty());
        assert(steps_of(instructions@) == Seq::<Step>::empty());
        while !source.is_empty() || !target.is_empty()
            invariant
                steps_fit(steps_of(instructions@)),
                construct(lcs@, source@, target@, steps_of(instructions@)) == whole,
            decreases source@.len() + target@.len(),
        {
            let anchor = lcs.peek();
            let from = source.peek();
            let to = target.peek();
            if from.is_some() && (anchor.is_none() || from.unwrap() != anchor.unwrap()) {
                Self::push_instruction_item(&mut instructions, InstructionItem::Remove);
                let _ = source.next();
            } else if to.is_some() && (anchor.is_none() || to.unwrap() != anchor.unwrap()) {
                Self::push_instruction_item(&mut instructions, InstructionItem::Add(to.unwrap()));
                let _ = target.next();
            } else if from.is_some() && to.is_some() {
                Self::push_instruction_item(&mut instructions, InstructionItem::Copy);
                let _ = lcs.next();
                let _ = source.next();
                let _ = target.next();
            } else if from.is_some() {
                Self::push_instruction_item(&mut instructions, InstructionItem::Remove);
                let _ = source.next();
            } else {
                Self::push_instruction_item(&mut instructions, InstructionItem::Add(to.unwrap()));
                let _ = target.next();
            }
        }
        instructions
    }

    /// The instructions, in order.
    pub fn instructions(&self) -> (instructions: &Vec<Instruction>)
        ensures
            steps_of(instructions@) == self@,
    {
        &self.instructions
    }
}

/// One more item keeps every instruction within its length field.
pub proof fn lemma_merge_fits(steps: Seq<Step>, item: InstructionItem)
    requires
        steps_fit(steps),
    ensures
        steps_fit(merge(steps, item)),
{
    let merged = merge(steps, item);
    assert forall|i: int| 0 <= i < merged.len() implies (#[trigger] merged[i]).fits() by {
        if i < merged.len() - 1 {
        }
    }
}

} // verus!
