//! Longest common subsequences of two byte sequences, by dynamic programming.

use vstd::prelude::*;

verus! {

/// The length of the longest common subsequence of the first `i` bytes of `s`
/// and the first `j` bytes of `t`: the entry `(i, j)` of the dynamic
/// programming table.
pub open spec fn lcs_table(s: Seq<u8>, t: Seq<u8>, i: nat, j: nat) -> nat
    decreases i + j,
{
    if i == 0 || j == 0 {
        0
    } else if s[i - 1] == t[j - 1] {
        lcs_table(s, t, (i - 1) as nat, (j - 1) as nat) + 1
    } else {
        let up = lcs_table(s, t, (i - 1) as nat, j);
        let left = lcs_table(s, t, i, (j - 1) as nat);
        if up >= left {
            up
        } else {
            left
        }
    }
}

/// The common subsequence of the first `i` bytes of `s` and the first `j`
/// bytes of `t` that the backward walk through the table selects. Where the
/// last bytes differ and both neighbours score the same, the walk shortens
/// the source.
pub open spec fn lcs_prefix(s: Seq<u8>, t: Seq<u8>, i: nat, j: nat) -> Seq<u8>
    decreases i + j,
{
    if i == 0 || j == 0 {
        Seq::empty()
    } else if s[i - 1] == t[j - 1] {
        lcs_prefix(s, t, (i - 1) as nat, (j - 1) as nat).push(s[i - 1])
    } else if lcs_table(s, t, (i - 1) as nat, j) >= lcs_table(s, t, i, (j - 1) as nat) {
        lcs_prefix(s, t, (i - 1) as nat, j)
    } else {
        lcs_prefix(s, t, i, (j - 1) as nat)
    }
}

/// The length of the longest common subsequence of `s` and `t`.
pub open spec fn lcs_length(s: Seq<u8>, t: Seq<u8>) -> nat {
    lcs_table(s, t, s.len(), t.len())
}

/// The longest common subsequence of `s` and `t` that this library selects.
pub open spec fn lcs_subsequence(s: Seq<u8>, t: Seq<u8>) -> Seq<u8> {
    lcs_prefix(s, t, s.len(), t.len())
}

/// `at` lists, in increasing order, positions of `of` that spell `sub`.
pub open spec fn embeds_at(sub: Seq<u8>, of: Seq<u8>, at: Seq<int>) -> bool {
    &&& at.len() == sub.len()
    &&& forall|k: int| 0 <= k < at.len() ==> 0 <= #[trigger] at[k] < of.len() && of[at[k]] == sub[k]
    &&& forall|k: int, l: int| 0 <= k < l < at.len() ==> #[trigger] at[k] < #[trigger] at[l]
}

/// `sub` can be obtained from `of` by deleting bytes.
pub open spec fn is_subsequence(sub: Seq<u8>, of: Seq<u8>) -> bool {
    exists|at: Seq<int>| embeds_at(sub, of, at)
}

/// A table entry never exceeds either prefix length.
pub proof fn lemma_table_bounded(s: Seq<u8>, t: Seq<u8>, i: nat, j: nat)
    ensures
        lcs_table(s, t, i, j) <= i,
        lcs_table(s, t, i, j) <= j,
    decreases i + j,
{
    if i != 0 && j != 0 {
        lemma_table_bounded(s, t, (i - 1) as nat, (j - 1) as nat);
        lemma_table_bounded(s, t, (i - 1) as nat, j);
        lemma_table_bounded(s, t, i, (j - 1) as nat);
    }
}

/// The selected subsequence is as long as the table says.
pub proof fn lemma_prefix_length(s: Seq<u8>, t: Seq<u8>, i: nat, j: nat)
    ensures
        lcs_prefix(s, t, i, j).len() == lcs_table(s, t, i, j),
    decreases i + j,
{
    if i != 0 && j != 0 {
        lemma_prefix_length(s, t, (i - 1) as nat, (j - 1) as nat);
        lemma_prefix_length(s, t, (i - 1) as nat, j);
        lemma_prefix_length(s, t, i, (j - 1) as nat);
    }
}

/// `at` embeds `sub` into the first `bound` bytes of `of`.
pub open spec fn embeds_below(sub: Seq<u8>, of: Seq<u8>, at: Seq<int>, bound: nat) -> bool {
    &&& embeds_at(sub, of, at)
    &&& forall|k: int| 0 <= k < at.len() ==> #[trigger] at[k] < bound
}

/// The selected subsequence of two prefixes lies inside both prefixes. The
/// result holds the positions at which it is found, first in `s`, then in `t`.
pub proof fn lemma_prefix_embeds(s: Seq<u8>, t: Seq<u8>, i: nat, j: nat) -> (at: (
    Seq<int>,
    Seq<int>,
))
    requires
        i <= s.len(),
        j <= t.len(),
    ensures
        embeds_below(lcs_prefix(s, t, i, j), s, at.0, i),
        embeds_below(lcs_prefix(s, t, i, j), t, at.1, j),
    decreases i + j,
{
    if i == 0 || j == 0 {
        (Seq::empty(), Seq::empty())
    } else if s[i - 1] == t[j - 1] {
        let inner = lemma_prefix_embeds(s, t, (i - 1) as nat, (j - 1) as nat);
        (inner.0.push(i - 1), inner.1.push(j - 1))
    } else if lcs_table(s, t, (i - 1) as nat, j) >= lcs_table(s, t, i, (j - 1) as nat) {
        lemma_prefix_embeds(s, t, (i - 1) as nat, j)
    } else {
        lemma_prefix_embeds(s, t, i, (j - 1) as nat)
    }
}

/// No common subsequence of two prefixes is longer than their table entry.
pub proof fn lemma_table_dominates(
    s: Seq<u8>,
    t: Seq<u8>,
    i: nat,
    j: nat,
    common: Seq<u8>,
    at_s: Seq<int>,
    at_t: Seq<int>,
)
    requires
        i <= s.len(),
        j <= t.len(),
        embeds_below(common, s, at_s, i),
        embeds_below(common, t, at_t, j),
    ensures
        common.len() <= lcs_table(s, t, i, j),
    decreases i + j,
{
    if common.len() == 0 {
    } else if i == 0 || j == 0 {
        assert(at_s[0] < i && at_t[0] < j);
    } else {
        let last = common.len() - 1;
        let a = at_s[last];
        let b = at_t[last];
        if s[i - 1] == t[j - 1] {
            lemma_table_dominates(
                s,
                t,
                (i - 1) as nat,
                (j - 1) as nat,
                common.drop_last(),
                at_s.drop_last(),
                at_t.drop_last(),
            );
        } else if a < i - 1 {
            assert forall|k: int| 0 <= k < at_s.len() implies #[trigger] at_s[k] < i - 1 by {
                if k < last {
                }
            }
            lemma_table_dominates(s, t, (i - 1) as nat, j, common, at_s, at_t);
        } else {
            assert forall|k: int| 0 <= k < at_t.len() implies #[trigger] at_t[k] < j - 1 by {
                if k < last {
                }
            }
            lemma_table_dominates(s, t, i, (j - 1) as nat, common, at_s, at_t);
        }
    }
}

/// The selected subsequence is a subsequence of both inputs, and its length
/// is the last entry of the table.
pub proof fn lcs_subsequence_is_common(s: Seq<u8>, t: Seq<u8>)
    ensures
        is_subsequence(lcs_subsequence(s, t), s),
        is_subsequence(lcs_subsequence(s, t), t),
        lcs_subsequence(s, t).len() == lcs_table(s, t, s.len(), t.len()),
{
    let at = lemma_prefix_embeds(s, t, s.len(), t.len());
    lemma_prefix_length(s, t, s.len(), t.len());
}

/// No common subsequence of the inputs is longer than the selected one.
pub proof fn lcs_subsequence_is_longest(s: Seq<u8>, t: Seq<u8>, common: Seq<u8>)
    requires
        is_subsequence(common, s),
        is_subsequence(common, t),
    ensures
        common.len() <= lcs_subsequence(s, t).len(),
{
    let at_s = choose|at: Seq<int>| embeds_at(common, s, at);
    let at_t = choose|at: Seq<int>| embeds_at(common, t, at);
    lemma_table_dominates(s, t, s.len(), t.len(), common, at_s, at_t);
    lemma_prefix_length(s, t, s.len(), t.len());
}

/// The table of a pair of byte slices, from which the length of their longest
/// common subsequence and one such subsequence are read.
#[derive(Debug, PartialEq)]
pub struct Lcs<'a> {
    source: &'a [u8],
    target: &'a [u8],
    table: Vec<Vec<usize>>,
}

impl<'a> Clone for Lcs<'a> {
    fn clone(&self) -> (copy: Self)
        ensures
            copy.source() == self.source(),
            copy.target() == self.target(),
            copy.is_table(),
    {
        proof {
            use_type_invariant(self);
        }
        let mut table: Vec<Vec<usize>> = Vec::new();
        let mut index: usize = 0;
        while index < self.table.len()
            invariant
                index <= self.table@.len(),
                table@.len() == index,
                forall|i: int| 0 <= i < index ==> (#[trigger] table@[i])@ == self.table@[i]@,
            decreases self.table@.len() - index,
        {
            let row = self.table[index].clone();
            table.push(row);
            index += 1;
        }
        Self { source: self.source, target: self.target, table }
    }
}

impl<'a> Lcs<'a> {
    /// The table is filled: see `is_table`.
    #[verifier::type_invariant]
    spec fn table_is_filled(self) -> bool {
        &&& self.table@.len() == self.source@.len() + 1
        &&& forall|i: int|
            0 <= i < self.table@.len() ==> (#[trigger] self.table@[i])@.len() == self.target@.len()
                + 1
        &&& forall|i: int, j: int|
            0 <= i <= self.source@.len() && 0 <= j <= self.target@.len()
                ==> #[trigger] self.table@[i]@[j] == lcs_table(
                self.source@,
                self.target@,
                i as nat,
                j as nat,
            )
    }

    /// The first sequence of the pair.
    pub closed spec fn source(self) -> Seq<u8> {
        self.source@
    }

    /// The second sequence of the pair.
    pub closed spec fn target(self) -> Seq<u8> {
        self.target@
    }

    /// The table as stored: one row for each prefix of the source.
    pub closed spec fn rows(self) -> Seq<Vec<usize>> {
        self.table@
    }

    /// The stored table is the dynamic programming table of the pair: one row
    /// for each prefix of the source, one column for each prefix of the
    /// target.
    pub open spec fn is_table(self) -> bool {
        &&& self.rows().len() == self.source().len() + 1
        &&& forall|i: int|
            0 <= i < self.rows().len() ==> (#[trigger] self.rows()[i])@.len() == self.target().len()
                + 1
        &&& forall|i: int, j: int|
            0 <= i <= self.source().len() && 0 <= j <= self.target().len()
                ==> #[trigger] self.rows()[i]@[j] == lcs_table(
                self.source(),
                self.target(),
                i as nat,
                j as nat,
            )
    }

    /// Fills the table for `source` and `target`.
    pub fn new(source: &'a [u8], target: &'a [u8]) -> (lcs: Self)
        ensures
            lcs.source() == source@,
            lcs.target() == target@,
            lcs.is_table(),
    {
        let source_length = source.len();
        let target_length = target.len();
        let mut table: Vec<Vec<usize>> = Vec::new();
        let mut first: Vec<usize> = Vec::new();
        first.push(0);
        let mut y: usize = 0;
        while y < target_length
            invariant
                y <= target_length,
                first@.len() == y + 1,
                forall|j: int| 0 <= j <= y ==> first@[j] == 0,
            decreases target_length - y,
        {
            first.push(0);
            y = y + 1;
        }
        table.push(first);
        let mut x: usize = 0;
        while x < source_length
            invariant
                x <= source_length,
                source_length == source@.len(),
                target_length == target@.len(),
                table@.len() == x + 1,
                forall|i: int| 0 <= i <= x ==> (#[trigger] table@[i])@.len() == target_length + 1,
                forall|i: int, j: int|
                    0 <= i <= x && 0 <= j <= target_length ==> #[trigger] table@[i]@[j]
                        == lcs_table(source@, target@, i as nat, j as nat),
            decreases source_length - x,
        {
            x = x + 1;
            let mut row: Vec<usize> = Vec::new();
            row.push(0);
            let mut y: usize = 0;
            while y < target_length
                invariant
                    1 <= x <= source_length,
                    y <= target_length,
                    source_length == source@.len(),
                    target_length == target@.len(),
                    table@.len() == x,
                    row@.len() == y + 1,
                    forall|i: int|
                        0 <= i < x ==> (#[trigger] table@[i])@.len() == target_length + 1,
                    forall|i: int, j: int|
                        0 <= i < x && 0 <= j <= target_length ==> #[trigger] table@[i]@[j]
                            == lcs_table(source@, target@, i as nat, j as nat),
                    forall|j: int|
                        0 <= j <= y ==> #[trigger] row@[j] == lcs_table(
                            source@,
                            target@,
                            x as nat,
                            j as nat,
                        ),
                decreases target_length - y,
            {
                y = y + 1;
                proof {
                    lemma_table_bounded(source@, target@, (x - 1) as nat, (y - 1) as nat);
                }
                let value = if source[x - 1] == target[y - 1] {
                    table[x - 1][y - 1] + 1
                } else {
                    let up = table[x - 1][y];
                    let left = row[y - 1];
                    if up >= left {
                        up
                    } else {
                        left
                    }
                };
                row.push(value);
            }
            table.push(row);
        }
        Self { source, target, table }
    }

    /// The length of the longest common subsequence.
    pub fn length(&self) -> (length: usize)
        ensures
            length == lcs_length(self.source(), self.target()),
    {
        proof {
            use_type_invariant(self);
        }
        let source_length = self.source.len();
        let target_length = self.target.len();
        self.table[source_length][target_length]
    }

    /// The table, for inspection.
    pub fn table(&self) -> (table: &Vec<Vec<usize>>)
        ensures
            table@ == self.rows(),
            self.is_table(),
    {
        proof {
            use_type_invariant(self);
        }
        &self.table
    }

    /// The selected longest common subsequence, read off the table from its
    /// last entry backwards.
    pub fn subsequence(&self) -> (subsequence: Vec<u8>)
        ensures
            subsequence@ == lcs_subsequence(self.source(), self.target()),
    {
        proof {
            use_type_invariant(self);
        }
        let total = self.length();
        let mut index = total;
        let mut subsequence: Vec<u8> = vec![0u8; total];
        let mut x = self.source.len();
        let mut y = self.target.len();
        let ghost s = self.source@;
        let ghost t = self.target@;
        while x > 0 && y > 0
            invariant
                self.table_is_filled(),
                s == self.source@,
                t == self.target@,
                x <= s.len(),
                y <= t.len(),
                index <= total,
                subsequence@.len() == total,
                index == lcs_table(s, t, x as nat, y as nat),
                lcs_subsequence(s, t) == lcs_prefix(s, t, x as nat, y as nat) + subsequence@.subrange(
                    index as int,
                    total as int,
                ),
            decreases x + y,
        {
            if self.source[x - 1] == self.target[y - 1] {
                subsequence[index - 1] = self.source[x - 1];
                x -= 1;
                y -= 1;
                index -= 1;
            } else if self.table[x - 1][y] >= self.table[x][y - 1] {
                x -= 1;
            } else {
                y -= 1;
            }
        }
        proof {
            lemma_prefix_length(s, t, x as nat, y as nat);
        }
        subsequence
    }
}

} // verus!
