//! What the instruction records have in common.

use vstd::prelude::*;
use crate::cursor::ByteCursor;
use super::errors::InstructionError;

verus! {

/// An instruction that grows item by item.
pub trait PushToInstruction: Sized {
    type Error: Into<InstructionError>;

    /// Whether pushing `byte` onto the instruction may end in `result` and
    /// leave `after`.
    spec fn push_yields(
        &self,
        byte: u8,
        result: core::result::Result<(), Self::Error>,
        after: &Self,
    ) -> bool;

    fn push(&mut self, byte: u8) -> (result: core::result::Result<(), Self::Error>)
        ensures
            old(self).push_yields(byte, result, final(self)),
    ;
}

/// An instruction with a wire form.
pub trait InstructionBytes: Sized {
    /// The byte that announces the instruction.
    const INSTRUCTION_BYTE_SIGN: u8;

    /// The width of the length field, in bytes.
    const NUMBER_BYTES_LENGTH: usize;

    type Error: Into<InstructionError>;

    /// The wire form.
    spec fn wire(&self) -> Seq<u8>;

    /// Whether reading `input` may end in `result`, with `rest` left unread.
    spec fn reads_as(
        input: Seq<u8>,
        result: core::result::Result<Self, Self::Error>,
        rest: Seq<u8>,
    ) -> bool;

    fn to_bytes(&self) -> (bytes: Vec<u8>)
        ensures
            bytes@ == self.wire(),
    ;

    fn from_bytes(bytes: &mut ByteCursor<'_>) -> (result: core::result::Result<Self, Self::Error>)
        ensures
            Self::reads_as(old(bytes)@, result, final(bytes)@),
    ;
}

} // verus!
