//! What the exact instructions and patches have in common.

use vstd::prelude::*;
use crate::cursor::ByteCursor;
use crate::lcs::{lcs_subsequence, Lcs};

verus! {

/// A value with a wire form.
pub trait ConvertBetweenBytes: Sized {
    type Error;

    /// Whether the value has a wire form at all.
    spec fn convertible(&self) -> bool;

    /// The wire form.
    spec fn wire(&self) -> Seq<u8>;

    /// Whether reading `input` may end in `result`, with `rest` left unread.
    spec fn reads_as(
        input: Seq<u8>,
        result: core::result::Result<Self, Self::Error>,
        rest: Seq<u8>,
    ) -> bool;

    fn to_bytes(&self) -> (bytes: Vec<u8>)
        requires
            self.convertible(),
        ensures
            bytes@ == self.wire(),
    ;

    fn try_from_bytes(bytes: &mut ByteCursor<'_>) -> (result: core::result::Result<
        Self,
        Self::Error,
    >)
        ensures
            Self::reads_as(old(bytes)@, result, final(bytes)@),
    ;
}

/// A value that turns source bytes into target bytes.
pub trait ApplyDeltaTo {
    type Error;

    /// Whether applying the value to `source` may end in `result`, with
    /// `rest` left of the source.
    spec fn applies_as(
        &self,
        source: Seq<u8>,
        result: core::result::Result<Vec<u8>, Self::Error>,
        rest: Seq<u8>,
    ) -> bool;

    fn apply_to(&self, source: &mut ByteCursor<'_>) -> (result: core::result::Result<
        Vec<u8>,
        Self::Error,
    >)
        ensures
            self.applies_as(old(source)@, result, final(source)@),
    ;
}

/// Access to the longest common subsequence of two byte slices.
pub trait LCS {
    /// The selected longest common subsequence of `source` and `target`.
    fn lcs(source: &[u8], target: &[u8]) -> (lcs: Vec<u8>)
        ensures
            lcs@ == lcs_subsequence(source@, target@),
    {
        Lcs::new(source, target).subsequence()
    }
}

} // verus!
