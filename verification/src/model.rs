//! The mathematical description of instructions: what an instruction is, how
//! it is written to bytes and read back, what it does to a source, and how the
//! greedy fill policies extend it. Every contract of the executable code is
//! stated over the functions of this module.

use vstd::prelude::*;
use crate::instructions::error::InstructionError;
use crate::instructions::{
    ADD_INSTRUCTION_SIGN, COPY_INSTRUCTION_SIGN, MAX_INSTRUCTION_LENGTH, REMOVE_INSTRUCTION_SIGN,
};

verus! {

/// The largest number of items an instruction can hold: the largest value of
/// the one-byte length field.
pub open spec fn capacity() -> nat {
    MAX_INSTRUCTION_LENGTH as nat
}

pub open spec fn remove_sign() -> u8 {
    REMOVE_INSTRUCTION_SIGN
}

pub open spec fn add_sign() -> u8 {
    ADD_INSTRUCTION_SIGN
}

pub open spec fn copy_sign() -> u8 {
    COPY_INSTRUCTION_SIGN
}

/// No two kinds share a sign.
pub proof fn signs_are_distinct()
    ensures
        remove_sign() != add_sign(),
        remove_sign() != copy_sign(),
        add_sign() != copy_sign(),
{
}

/// The correction stored for a source byte `s` that must become `t`.
pub open spec fn correction(s: u8, t: u8) -> u8 {
    ((t - s) % 256) as u8
}

/// The byte that a source byte `s` becomes under the correction `c`.
pub open spec fn corrected(s: u8, c: u8) -> u8 {
    ((s + c) % 256) as u8
}

/// The number of corrections in `content` that are not zero.
pub open spec fn count_nonzero(content: Seq<u8>) -> nat
    decreases content.len(),
{
    if content.len() == 0 {
        0
    } else {
        count_nonzero(content.drop_last()) + if content.last() != 0 { 1nat } else { 0nat }
    }
}

/// The number of non-zero corrections tolerated among `len` items at the given
/// percentage.
pub open spec fn threshold_of(len: nat, percent: u8) -> nat {
    (len * percent / 100) as nat
}

/// The three kinds of instruction.
pub enum Kind {
    Remove,
    Add,
    Copy,
}

impl Kind {
    /// The byte that announces an instruction of this kind on the wire.
    pub open spec fn sign(self) -> u8 {
        match self {
            Kind::Remove => remove_sign(),
            Kind::Add => add_sign(),
            Kind::Copy => copy_sign(),
        }
    }

    /// The instruction of this kind with the given length field and content.
    /// A removal has no content; the other kinds take their length from it.
    pub open spec fn with(self, length: nat, content: Seq<u8>) -> Op {
        match self {
            Kind::Remove => Op::Remove { length },
            Kind::Add => Op::Add { content },
            Kind::Copy => Op::Copy { content },
        }
    }
}

/// An instruction as a mathematical value.
pub enum Op {
    /// Skip `length` source bytes.
    Remove { length: nat },
    /// Emit `content`.
    Add { content: Seq<u8> },
    /// Emit the next source bytes, each shifted by its correction.
    Copy { content: Seq<u8> },
}

impl Op {
    pub open spec fn len(self) -> nat {
        match self {
            Op::Remove { length } => length,
            Op::Add { content } => content.len(),
            Op::Copy { content } => content.len(),
        }
    }

    /// The instruction fits the length field.
    pub open spec fn fits(self) -> bool {
        self.len() <= capacity()
    }

    pub open spec fn is_empty(self) -> bool {
        self.len() == 0
    }

    pub open spec fn is_full(self) -> bool {
        self.len() == capacity()
    }

    pub open spec fn kind(self) -> Kind {
        match self {
            Op::Remove { .. } => Kind::Remove,
            Op::Add { .. } => Kind::Add,
            Op::Copy { .. } => Kind::Copy,
        }
    }

    pub open spec fn sign(self) -> u8 {
        self.kind().sign()
    }

    /// The number of items the instruction can still take.
    pub open spec fn room(self) -> nat {
        if self.len() >= capacity() {
            0
        } else {
            (capacity() - self.len()) as nat
        }
    }

    /// The bytes stored after the length field.
    pub open spec fn content(self) -> Seq<u8> {
        match self {
            Op::Remove { .. } => Seq::empty(),
            Op::Add { content } => content,
            Op::Copy { content } => content,
        }
    }

    /// The count of non-zero items, for the kinds that store items.
    pub open spec fn non_default_item_count(self) -> Option<nat> {
        match self {
            Op::Remove { .. } => None,
            Op::Add { content } => Some(count_nonzero(content)),
            Op::Copy { content } => Some(count_nonzero(content)),
        }
    }

    /// The instruction with one more item. `byte` is the item for the kinds
    /// that store items; a removal only counts.
    pub open spec fn with_item(self, byte: u8) -> Op {
        match self {
            Op::Remove { length } => Op::Remove { length: length + 1 },
            Op::Add { content } => Op::Add { content: content.push(byte) },
            Op::Copy { content } => Op::Copy { content: content.push(byte) },
        }
    }

    /// What pushing one item does: a full instruction refuses it.
    pub open spec fn push(self, byte: u8) -> Result<Op, InstructionError> {
        if self.len() >= capacity() {
            Err(InstructionError::ContentOverflow)
        } else {
            Ok(self.with_item(byte))
        }
    }

    /// The length as the one-byte length field holds it. For an instruction
    /// that fits, this is its length; of a longer one, the low eight bits.
    pub open spec fn length_field(self) -> u8 {
        self.len() as u8
    }

    /// The wire form: sign, length, content.
    pub open spec fn encode(self) -> Seq<u8> {
        seq![self.sign(), self.length_field()] + self.content()
    }

    /// The number of source bytes the instruction consumes.
    pub open spec fn consumed(self) -> nat {
        match self {
            Op::Remove { length } => length,
            Op::Add { .. } => 0,
            Op::Copy { content } => content.len(),
        }
    }

    /// The number of target bytes the instruction emits.
    pub open spec fn produced(self) -> nat {
        match self {
            Op::Remove { .. } => 0,
            Op::Add { content } => content.len(),
            Op::Copy { content } => content.len(),
        }
    }

    /// The bytes emitted when the instruction meets `source`, of which it
    /// reads the first `consumed()` bytes.
    pub open spec fn emit(self, source: Seq<u8>) -> Seq<u8> {
        match self {
            Op::Remove { .. } => Seq::empty(),
            Op::Add { content } => content,
            Op::Copy { content } => Seq::new(
                content.len(),
                |i: int| corrected(source[i], content[i]),
            ),
        }
    }
}

/// All instructions fit their length field.
pub open spec fn all_fit(ops: Seq<Op>) -> bool {
    forall|i: int| 0 <= i < ops.len() ==> (#[trigger] ops[i]).fits()
}

/// The wire form of a list of instructions: their wire forms, one after
/// another.
pub open spec fn encode_all(ops: Seq<Op>) -> Seq<u8>
    decreases ops.len(),
{
    if ops.len() == 0 {
        Seq::empty()
    } else {
        ops[0].encode() + encode_all(ops.skip(1))
    }
}

/// The number of source bytes a list of instructions consumes.
pub open spec fn source_length(ops: Seq<Op>) -> nat
    decreases ops.len(),
{
    if ops.len() == 0 {
        0
    } else {
        ops[0].consumed() + source_length(ops.skip(1))
    }
}

/// The number of target bytes a list of instructions emits.
pub open spec fn produced_length(ops: Seq<Op>) -> nat
    decreases ops.len(),
{
    if ops.len() == 0 {
        0
    } else {
        ops[0].produced() + produced_length(ops.skip(1))
    }
}

/// The bytes that replaying `ops` over `source` emits. Each instruction reads
/// where the one before it stopped.
pub open spec fn replay(ops: Seq<Op>, source: Seq<u8>) -> Seq<u8>
    decreases ops.len(),
{
    if ops.len() == 0 {
        Seq::empty()
    } else {
        ops[0].emit(source) + replay(ops.skip(1), source.skip(ops[0].consumed() as int))
    }
}

/// Applying a patch: the replay, provided the source has exactly the length
/// the instructions consume.
pub open spec fn apply_all(ops: Seq<Op>, source: Seq<u8>) -> Option<Seq<u8>> {
    if source_length(ops) == source.len() {
        Some(replay(ops, source))
    } else {
        None
    }
}

/// The first byte of `bytes`, if there is one: what a cursor over `bytes`
/// shows without moving.
pub open spec fn head(bytes: Seq<u8>) -> Option<u8> {
    if bytes.len() > 0 {
        Some(bytes[0])
    } else {
        None
    }
}

/// The length of the longest prefix of `bytes` that holds at most `room`
/// bytes, none of them equal to `anchor`.
pub open spec fn divergent_run(bytes: Seq<u8>, anchor: Option<u8>, room: nat) -> nat
    decreases bytes.len(),
{
    if room == 0 || bytes.len() == 0 || anchor == Some(bytes[0]) {
        0
    } else {
        1 + divergent_run(bytes.skip(1), anchor, (room - 1) as nat)
    }
}

/// The three cursors agree on their next byte.
pub open spec fn aligned(lcs: Seq<u8>, source: Seq<u8>, target: Seq<u8>) -> bool {
    &&& lcs.len() > 0
    &&& source.len() > 0
    &&& target.len() > 0
    &&& source[0] == lcs[0]
    &&& lcs[0] == target[0]
}

/// A copy that holds `content` may take the next pair of bytes: it has room,
/// both sides have a byte left, and either the cursors are aligned or the
/// corrections so far stay within the tolerated share of non-zero items.
pub open spec fn copy_continues(
    content: Seq<u8>,
    lcs: Seq<u8>,
    source: Seq<u8>,
    target: Seq<u8>,
    percent: u8,
) -> bool {
    &&& content.len() < capacity()
    &&& source.len() > 0
    &&& target.len() > 0
    &&& (aligned(lcs, source, target) || count_nonzero(content) <= threshold_of(
        content.len(),
        percent,
    ))
}

/// An instruction after a fill, with what is left of the three cursors.
pub struct Fill {
    pub op: Op,
    pub lcs: Seq<u8>,
    pub source: Seq<u8>,
    pub target: Seq<u8>,
}

/// The greedy extension of a copy that holds `content`: pairs of source and
/// target bytes are taken while `copy_continues` allows it; an anchor is taken
/// with each aligned pair.
pub open spec fn copy_fill(
    content: Seq<u8>,
    lcs: Seq<u8>,
    source: Seq<u8>,
    target: Seq<u8>,
    percent: u8,
) -> Fill
    decreases source.len(),
{
    if copy_continues(content, lcs, source, target, percent) {
        copy_fill(
            content.push(correction(source[0], target[0])),
            if aligned(lcs, source, target) {
                lcs.skip(1)
            } else {
                lcs
            },
            source.skip(1),
            target.skip(1),
            percent,
        )
    } else {
        Fill { op: Op::Copy { content }, lcs, source, target }
    }
}

impl Op {
    /// The greedy extension of the instruction over the three cursors.
    /// A removal takes source bytes that differ from the next anchor, an
    /// addition takes such target bytes, a copy takes pairs as `copy_fill`
    /// says, with `percent` as its tolerance.
    pub open spec fn fill(
        self,
        lcs: Seq<u8>,
        source: Seq<u8>,
        target: Seq<u8>,
        percent: u8,
    ) -> Fill {
        match self {
            Op::Remove { length } => {
                let n = divergent_run(source, head(lcs), self.room());
                Fill {
                    op: Op::Remove { length: length + n },
                    lcs,
                    source: source.skip(n as int),
                    target,
                }
            },
            Op::Add { content } => {
                let n = divergent_run(target, head(lcs), self.room());
                Fill {
                    op: Op::Add { content: content + target.take(n as int) },
                    lcs,
                    source,
                    target: target.skip(n as int),
                }
            },
            Op::Copy { content } => copy_fill(content, lcs, source, target, percent),
        }
    }
}

/// What a decoder makes of its input: an instruction or a failure, and the
/// bytes it leaves unread.
pub struct Decoded {
    pub result: Result<Op, InstructionError>,
    pub rest: Seq<u8>,
}

impl Decoded {
    /// `result` is what the decoder returned: the instruction whose value
    /// was decoded, which fits its length field, or the failure.
    pub open spec fn describes<T: View<V = Op>>(
        self,
        result: core::result::Result<T, InstructionError>,
    ) -> bool {
        match result {
            Ok(instruction) => {
                &&& instruction@.fits()
                &&& self.result == Ok::<Op, InstructionError>(instruction@)
            },
            Err(error) => self.result == Err::<Op, InstructionError>(error),
        }
    }
}

/// Decoding one instruction of a known kind. The sign is read first and must
/// be the kind's own; then the length; then, for the kinds that store items,
/// as many content bytes as the length says. A failure after the sign leaves
/// the sign consumed; missing content leaves nothing unread.
pub open spec fn decode_kind(kind: Kind, bytes: Seq<u8>) -> Decoded {
    if bytes.len() == 0 {
        Decoded { result: Err(InstructionError::MissingSign), rest: bytes }
    } else if bytes[0] != kind.sign() {
        Decoded { result: Err(InstructionError::InvalidSign), rest: bytes.skip(1) }
    } else if bytes.len() < 2 {
        Decoded { result: Err(InstructionError::MissingLength), rest: bytes.skip(1) }
    } else if kind is Remove {
        Decoded { result: Ok(Op::Remove { length: bytes[1] as nat }), rest: bytes.skip(2) }
    } else if bytes.len() < 2 + bytes[1] {
        Decoded { result: Err(InstructionError::MissingContent), rest: Seq::empty() }
    } else {
        Decoded {
            result: Ok(kind.with(bytes[1] as nat, bytes.subrange(2, 2 + bytes[1]))),
            rest: bytes.skip(2 + bytes[1]),
        }
    }
}

/// Decoding one instruction of any kind: the first byte selects the kind
/// without being consumed, then the kind's decoder runs.
pub open spec fn decode_any(bytes: Seq<u8>) -> Decoded {
    if bytes.len() == 0 {
        Decoded { result: Err(InstructionError::MissingSign), rest: bytes }
    } else if bytes[0] == add_sign() {
        decode_kind(Kind::Add, bytes)
    } else if bytes[0] == remove_sign() {
        decode_kind(Kind::Remove, bytes)
    } else if bytes[0] == copy_sign() {
        decode_kind(Kind::Copy, bytes)
    } else {
        Decoded { result: Err(InstructionError::InvalidSign), rest: bytes }
    }
}

/// Decoding one instruction of any kind by consuming its sign: as
/// `decode_any`, but a byte that is no sign is consumed too.
pub open spec fn decode_next(bytes: Seq<u8>) -> Decoded {
    if bytes.len() > 0 && decode_any(bytes).result == Err::<Op, InstructionError>(
        InstructionError::InvalidSign,
    ) {
        Decoded { result: Err(InstructionError::InvalidSign), rest: bytes.skip(1) }
    } else {
        decode_any(bytes)
    }
}

/// Decoding a whole stream: instructions are read until the input is used
/// up; the first failure is the result.
pub open spec fn decode_all(bytes: Seq<u8>) -> Result<Seq<Op>, InstructionError>
    decreases bytes.len(),
{
    if bytes.len() == 0 {
        Ok(Seq::empty())
    } else {
        let first = decode_any(bytes);
        match first.result {
            Err(error) => Err(error),
            Ok(op) => match decode_all(first.rest) {
                Err(error) => Err(error),
                Ok(ops) => Ok(seq![op] + ops),
            },
        }
    }
}

/// The number of target bytes an instruction supplies as they are: all that an
/// addition holds, and as many as a copy holds zero corrections.
pub open spec fn plain_bytes(op: Op) -> nat {
    match op {
        Op::Remove { .. } => 0,
        Op::Add { content } => content.len(),
        Op::Copy { content } => (content.len() - count_nonzero(content)) as nat,
    }
}

/// The sum of `plain_bytes` over a list of instructions.
pub open spec fn plain_length(ops: Seq<Op>) -> nat
    decreases ops.len(),
{
    if ops.len() == 0 {
        0
    } else {
        plain_bytes(ops[0]) + plain_length(ops.skip(1))
    }
}

/// No more items are non-zero than there are items.
pub proof fn lemma_count_nonzero_bounded(content: Seq<u8>)
    ensures
        count_nonzero(content) <= content.len(),
    decreases content.len(),
{
    if content.len() > 0 {
        lemma_count_nonzero_bounded(content.drop_last());
    }
}

/// An instruction that fits its length field is read back from its wire
/// form, and what follows the wire form is left unread.
pub proof fn lemma_decode_encoded(op: Op, rest: Seq<u8>)
    requires
        op.fits(),
    ensures
        decode_any(op.encode() + rest) == (Decoded { result: Ok(op), rest }),
{
    let bytes = op.encode() + rest;
    let length = op.len() as int;
    match op {
        Op::Remove { .. } => {
            assert(bytes.skip(2) == rest);
        },
        Op::Add { content } => {
            assert(bytes.subrange(2, 2 + length) == content);
            assert(bytes.skip(2 + length) == rest);
        },
        Op::Copy { content } => {
            assert(bytes.subrange(2, 2 + length) == content);
            assert(bytes.skip(2 + length) == rest);
        },
    }
}

/// A replay emits as many bytes as the instructions produce, whatever the
/// source holds.
pub proof fn replay_emits_produced_length(ops: Seq<Op>, source: Seq<u8>)
    ensures
        replay(ops, source).len() == produced_length(ops),
    decreases ops.len(),
{
    if ops.len() > 0 {
        replay_emits_produced_length(ops.skip(1), source.skip(ops[0].consumed() as int));
    }
}

/// An instruction at capacity reports that it is full and refuses one more
/// item.
pub proof fn capacity_boundary(op: Op, byte: u8)
    requires
        op.len() == capacity(),
    ensures
        op.is_full(),
        op.push(byte) == Err::<Op, InstructionError>(InstructionError::ContentOverflow),
{
}

/// Decoding the wire form of a list of instructions gives the list back,
/// provided each instruction fits its length field.
pub proof fn codec_round_trip(ops: Seq<Op>)
    requires
        all_fit(ops),
    ensures
        decode_all(encode_all(ops)) == Ok::<Seq<Op>, InstructionError>(ops),
    decreases ops.len(),
{
    if ops.len() > 0 {
        let rest = encode_all(ops.skip(1));
        lemma_decode_encoded(ops[0], rest);
        assert(all_fit(ops.skip(1))) by {
            assert forall|i: int| 0 <= i < ops.skip(1).len() implies (#[trigger] ops.skip(
                1,
            )[i]).fits() by {
            }
        }
        codec_round_trip(ops.skip(1));
        assert(seq![ops[0]] + ops.skip(1) == ops);
    } else {
        assert(ops == Seq::<Op>::empty());
    }
}

/// What decodes as an instruction is the wire form of that instruction,
/// followed by what is left unread; and the instruction fits its length
/// field.
pub proof fn lemma_decoded_is_encoded(bytes: Seq<u8>)
    requires
        decode_any(bytes).result is Ok,
    ensures
        ({
            let first = decode_any(bytes);
            let op = first.result->Ok_0;
            &&& op.fits()
            &&& bytes == op.encode() + first.rest
        }),
{
    let first = decode_any(bytes);
    let op = first.result->Ok_0;
    assert(bytes =~= op.encode() + first.rest);
}

/// What decodes as a list of instructions is the wire form of that list, and
/// each instruction of the list fits its length field.
pub proof fn decoded_encodes_back(bytes: Seq<u8>)
    requires
        decode_all(bytes) is Ok,
    ensures
        all_fit(decode_all(bytes)->Ok_0),
        encode_all(decode_all(bytes)->Ok_0) == bytes,
    decreases bytes.len(),
{
    if bytes.len() > 0 {
        let first = decode_any(bytes);
        lemma_decoded_is_encoded(bytes);
        decoded_encodes_back(first.rest);
        let op = first.result->Ok_0;
        let rest = decode_all(first.rest)->Ok_0;
        let ops = seq![op] + rest;
        assert(ops.skip(1) == rest);
    }
}

} // verus!
