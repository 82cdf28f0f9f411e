//! The greedy construction of an instruction list from an anchor sequence, a
//! source and a target, as a mathematical function, and what is true of its
//! result.

use vstd::prelude::*;
use crate::lcs::lcs_subsequence;
use crate::model::{
    aligned, all_fit, apply_all, capacity, copy_continues, copy_fill, corrected, correction,
    divergent_run, head, replay, source_length, Op,
};

verus! {

/// The empty instruction that the next bytes of the three cursors call for: a
/// removal where the source departs from the anchor, else an addition where
/// the target does, else a copy.
pub open spec fn opening(lcs: Seq<u8>, source: Seq<u8>, target: Seq<u8>) -> Op {
    if head(source) != head(lcs) {
        Op::Remove { length: 0 }
    } else if head(target) != head(lcs) {
        Op::Add { content: Seq::empty() }
    } else {
        Op::Copy { content: Seq::empty() }
    }
}

/// The instructions built from the three cursors. While all three have bytes
/// left, the instruction that `opening` selects is filled and the rest is
/// built from what the fill leaves. Once one of them runs out, the anchors
/// that are left are dropped: what remains of the source is removed, then what
/// remains of the target is added, in instructions filled to capacity.
pub open spec fn build(lcs: Seq<u8>, source: Seq<u8>, target: Seq<u8>, percent: u8) -> Seq<Op>
    decreases source.len() + target.len(),
    via build_terminates
{
    if lcs.len() > 0 && source.len() > 0 && target.len() > 0 {
        let filled = opening(lcs, source, target).fill(lcs, source, target, percent);
        seq![filled.op] + build(filled.lcs, filled.source, filled.target, percent)
    } else if source.len() > 0 {
        let filled = (Op::Remove { length: 0 }).fill(Seq::empty(), source, target, percent);
        seq![filled.op] + build(Seq::empty(), filled.source, filled.target, percent)
    } else if target.len() > 0 {
        let filled = (Op::Add { content: Seq::empty() }).fill(
            Seq::empty(),
            source,
            target,
            percent,
        );
        seq![filled.op] + build(Seq::empty(), filled.source, filled.target, percent)
    } else {
        Seq::empty()
    }
}

#[via_fn]
proof fn build_terminates(lcs: Seq<u8>, source: Seq<u8>, target: Seq<u8>, percent: u8) {
    if lcs.len() > 0 && source.len() > 0 && target.len() > 0 {
        lemma_fill_advances(opening(lcs, source, target), lcs, source, target, percent);
    } else if source.len() > 0 {
        lemma_fill_advances(Op::Remove { length: 0 }, Seq::empty(), source, target, percent);
    } else if target.len() > 0 {
        lemma_fill_advances(
            Op::Add { content: Seq::empty() },
            Seq::empty(),
            source,
            target,
            percent,
        );
    }
}

/// The instructions that turn `source` into `target`, with the selected
/// longest common subsequence as anchors and `percent` as the tolerance of
/// copies.
pub open spec fn diff(source: Seq<u8>, target: Seq<u8>, percent: u8) -> Seq<Op> {
    build(lcs_subsequence(source, target), source, target, percent)
}

/// A correction undoes itself: the corrected source byte is the target byte.
pub proof fn lemma_correction_inverts(s: u8, t: u8)
    ensures
        corrected(s, correction(s, t)) == t,
{
}

/// A run is no longer than its room or its input, and it does not stop
/// early: where it ends with room and input left, the next byte is the
/// anchor.
pub proof fn lemma_divergent_run(bytes: Seq<u8>, anchor: Option<u8>, room: nat)
    ensures
        divergent_run(bytes, anchor, room) <= room,
        divergent_run(bytes, anchor, room) <= bytes.len(),
        forall|i: int|
            0 <= i < divergent_run(bytes, anchor, room) ==> anchor != Some(#[trigger] bytes[i]),
        room > 0 && bytes.len() > 0 && anchor != Some(bytes[0]) ==> divergent_run(
            bytes,
            anchor,
            room,
        ) > 0,
    decreases bytes.len(),
{
    if !(room == 0 || bytes.len() == 0 || anchor == Some(bytes[0])) {
        lemma_divergent_run(bytes.skip(1), anchor, (room - 1) as nat);
        assert forall|i: int| 0 <= i < divergent_run(bytes, anchor, room) implies anchor != Some(
            #[trigger] bytes[i],
        ) by {
            if i > 0 {
                assert(bytes[i] == bytes.skip(1)[i - 1]);
            }
        }
    }
}

/// What a copy fill does: it appends corrections to the content, as many as
/// it takes pairs from source and target, each turning its source byte into
/// its target byte; it never exceeds the capacity nor the input.
pub proof fn lemma_copy_fill(
    content: Seq<u8>,
    lcs: Seq<u8>,
    source: Seq<u8>,
    target: Seq<u8>,
    percent: u8,
)
    requires
        content.len() <= capacity(),
    ensures
        ({
            let filled = copy_fill(content, lcs, source, target, percent);
            let grown = filled.op.content();
            let pairs = grown.len() - content.len();
            &&& filled.op is Copy
            &&& grown.len() <= capacity()
            &&& 0 <= pairs <= source.len()
            &&& pairs <= target.len()
            &&& grown.take(content.len() as int) == content
            &&& filled.source == source.skip(pairs)
            &&& filled.target == target.skip(pairs)
            &&& forall|i: int|
                0 <= i < pairs ==> corrected(source[i], #[trigger] grown[content.len() + i])
                    == target[i]
            &&& copy_continues(content, lcs, source, target, percent) ==> pairs > 0
        }),
    decreases source.len(),
{
    let filled = copy_fill(content, lcs, source, target, percent);
    let grown = filled.op.content();
    if copy_continues(content, lcs, source, target, percent) {
        let next = content.push(correction(source[0], target[0]));
        let anchors = if aligned(lcs, source, target) {
            lcs.skip(1)
        } else {
            lcs
        };
        lemma_copy_fill(next, anchors, source.skip(1), target.skip(1), percent);
        lemma_correction_inverts(source[0], target[0]);
        let pairs = grown.len() - content.len();
        assert forall|i: int| 0 <= i < pairs implies corrected(
            source[i],
            #[trigger] grown[content.len() + i],
        ) == target[i] by {
            if i == 0 {
                let first = content.len() as int;
                assert(grown[first] == grown.take(next.len() as int)[first]);
            } else {
                assert(grown[content.len() + i] == grown[next.len() + (i - 1)]);
            }
        }
    }
}

/// What a fill of an empty instruction does: the instruction fits, consumes a
/// prefix of the source and accounts for a prefix of the target, which is
/// what it emits on that source.
pub proof fn lemma_fill_of_empty(
    start: Op,
    lcs: Seq<u8>,
    source: Seq<u8>,
    target: Seq<u8>,
    percent: u8,
)
    requires
        start.is_empty(),
    ensures
        ({
            let filled = start.fill(lcs, source, target, percent);
            &&& filled.op.fits()
            &&& filled.op.consumed() <= source.len()
            &&& filled.op.produced() <= target.len()
            &&& filled.source == source.skip(filled.op.consumed() as int)
            &&& filled.target == target.skip(filled.op.produced() as int)
            &&& filled.op.emit(source) == target.take(filled.op.produced() as int)
        }),
{
    let filled = start.fill(lcs, source, target, percent);
    match start {
        Op::Remove { length } => {
            lemma_divergent_run(source, head(lcs), start.room());
        },
        Op::Add { content } => {
            lemma_divergent_run(target, head(lcs), start.room());
        },
        Op::Copy { content } => {
            lemma_copy_fill(content, lcs, source, target, percent);
            let grown = filled.op.content();
            assert forall|i: int| 0 <= i < grown.len() implies corrected(source[i], grown[i])
                == target[i] by {
                assert(grown[i] == grown[content.len() + i]);
            }
        },
    }
}

/// A fill of the instruction that `opening` selects, or of a removal over a
/// source that is not empty, or of an addition over a target that is not
/// empty while the source is, takes at least one byte.
pub proof fn lemma_fill_advances(
    start: Op,
    lcs: Seq<u8>,
    source: Seq<u8>,
    target: Seq<u8>,
    percent: u8,
)
    requires
        start.is_empty(),
        source.len() > 0 || target.len() > 0,
        lcs.len() > 0 && source.len() > 0 && target.len() > 0 ==> start == opening(
            lcs,
            source,
            target,
        ),
        !(lcs.len() > 0 && source.len() > 0 && target.len() > 0) ==> lcs.len() == 0 && (
        if source.len() > 0 {
            start is Remove
        } else {
            start is Add
        }),
    ensures
        ({
            let filled = start.fill(lcs, source, target, percent);
            &&& filled.source.len() <= source.len()
            &&& filled.target.len() <= target.len()
            &&& filled.source.len() + filled.target.len() < source.len() + target.len()
        }),
{
    lemma_fill_of_empty(start, lcs, source, target, percent);
    match start {
        Op::Remove { length } => {
            lemma_divergent_run(source, head(lcs), start.room());
        },
        Op::Add { content } => {
            lemma_divergent_run(target, head(lcs), start.room());
        },
        Op::Copy { content } => {
            lemma_copy_fill(content, lcs, source, target, percent);
        },
    }
}

/// Replaying the built instructions over the source they were built from
/// gives the target they were built for, whatever the anchors and the
/// tolerance were; they consume exactly that source, and each fits its length
/// field.
pub proof fn lemma_build_round_trip(lcs: Seq<u8>, source: Seq<u8>, target: Seq<u8>, percent: u8)
    ensures
        all_fit(build(lcs, source, target, percent)),
        source_length(build(lcs, source, target, percent)) == source.len(),
        replay(build(lcs, source, target, percent), source) == target,
    decreases source.len() + target.len(),
{
    let ops = build(lcs, source, target, percent);
    if source.len() > 0 || target.len() > 0 {
        let all = lcs.len() > 0 && source.len() > 0 && target.len() > 0;
        let anchors = if all {
            lcs
        } else {
            Seq::empty()
        };
        let start = if all {
            opening(lcs, source, target)
        } else if source.len() > 0 {
            Op::Remove { length: 0 }
        } else {
            Op::Add { content: Seq::empty() }
        };
        let filled = start.fill(anchors, source, target, percent);
        let rest = build(filled.lcs, filled.source, filled.target, percent);
        lemma_fill_of_empty(start, anchors, source, target, percent);
        lemma_fill_advances(start, anchors, source, target, percent);
        lemma_build_round_trip(filled.lcs, filled.source, filled.target, percent);
        assert(ops.skip(1) == rest);
    }
}

/// Every built instruction holds at least one item.
pub proof fn built_instructions_hold_items(
    lcs: Seq<u8>,
    source: Seq<u8>,
    target: Seq<u8>,
    percent: u8,
)
    ensures
        forall|i: int|
            0 <= i < build(lcs, source, target, percent).len() ==> !(#[trigger] build(
                lcs,
                source,
                target,
                percent,
            )[i]).is_empty(),
    decreases source.len() + target.len(),
{
    let ops = build(lcs, source, target, percent);
    if source.len() > 0 || target.len() > 0 {
        let all = lcs.len() > 0 && source.len() > 0 && target.len() > 0;
        let anchors = if all {
            lcs
        } else {
            Seq::empty()
        };
        let start = if all {
            opening(lcs, source, target)
        } else if source.len() > 0 {
            Op::Remove { length: 0 }
        } else {
            Op::Add { content: Seq::empty() }
        };
        let filled = start.fill(anchors, source, target, percent);
        let rest = build(filled.lcs, filled.source, filled.target, percent);
        lemma_fill_of_empty(start, anchors, source, target, percent);
        lemma_fill_advances(start, anchors, source, target, percent);
        built_instructions_hold_items(filled.lcs, filled.source, filled.target, percent);
        assert forall|i: int| 0 <= i < ops.len() implies !(#[trigger] ops[i]).is_empty() by {
            if i > 0 {
                assert(ops[i] == rest[i - 1]);
            }
        }
    }
}

/// Applying the instructions of a diff to the source of the diff gives its
/// target.
pub proof fn diff_round_trip(source: Seq<u8>, target: Seq<u8>, percent: u8)
    ensures
        apply_all(diff(source, target, percent), source) == Some(target),
{
    lemma_build_round_trip(lcs_subsequence(source, target), source, target, percent);
}

/// The instructions of a diff consume exactly as many bytes as the source of
/// the diff has, so applying them to a buffer of any other length fails.
pub proof fn diff_rejects_other_lengths(
    source: Seq<u8>,
    target: Seq<u8>,
    other: Seq<u8>,
    percent: u8,
)
    ensures
        source_length(diff(source, target, percent)) == source.len(),
        other.len() != source.len() ==> apply_all(diff(source, target, percent), other) is None,
{
    lemma_build_round_trip(lcs_subsequence(source, target), source, target, percent);
}

} // verus!
