//! The failures of the instruction records. Each kind has its own; all of
//! them convert into the common one, which adds what was expected.

use vstd::prelude::*;
use vstd::std_specs::convert::FromSpecImpl;
use vstd::string::StringExecFns;
use crate::decimal::{append_decimal, decimal};
use super::add_instruction::{AddInstruction, AddInstructionlength};
use super::copy_instruction::{CopyInstruction, CopyInstructionlength};
use super::remove_instruction::{RemoveInstruction, RemoveInstructionlength};
use super::traits::InstructionBytes;

verus! {

/// A failure of any kind of instruction.
#[derive(Debug, PartialEq, Eq, Clone, Copy)]
pub enum InstructionError {
    /// The instruction holds as many items as it can: the number given.
    MaxLengthReached(usize),
    /// The sign found, if any, and the sign expected.
    InvalidSignByte(Option<u8>, u8),
    /// The number of length bytes found, if any, and the number expected.
    InvalidLengthBytes(Option<usize>, usize),
    /// The number of content bytes found and the number expected.
    MissingByteContent(usize, usize),
}

/// A failure of an addition.
#[derive(Debug, PartialEq, Eq, Clone, Copy)]
pub enum AddInstructionError {
    MaxLengthReached,
    /// The sign found, if any.
    InvalidSignByte(Option<u8>),
    /// The number of length bytes found, if any.
    InvalidLengthBytes(Option<usize>),
    /// The number of content bytes found and the number announced.
    MissingByteContent(usize, u8),
}

/// A failure of a removal.
#[derive(Debug, PartialEq, Eq, Clone, Copy)]
pub enum RemoveInstructionError {
    MaxLengthReached,
    /// The sign found, if any.
    InvalidSignByte(Option<u8>),
    /// The number of length bytes found, if any.
    InvalidLengthBytes(Option<usize>),
}

/// A failure of a copy.
#[derive(Debug, PartialEq, Eq, Clone, Copy)]
pub enum CopyInstructionError {
    MaxLengthReached,
    /// The sign found, if any.
    InvalidSignByte(Option<u8>),
    /// The number of length bytes found, if any.
    InvalidLengthBytes(Option<usize>),
}

/// The common failure that stands for a failure of an addition.
pub open spec fn of_add_error(value: AddInstructionError) -> InstructionError {
    match value {
        AddInstructionError::MaxLengthReached => InstructionError::MaxLengthReached(
            AddInstructionlength::MAX as usize,
        ),
        AddInstructionError::InvalidSignByte(found) => InstructionError::InvalidSignByte(
            found,
            AddInstruction::INSTRUCTION_BYTE_SIGN,
        ),
        AddInstructionError::InvalidLengthBytes(found) => InstructionError::InvalidLengthBytes(
            found,
            AddInstruction::NUMBER_BYTES_LENGTH,
        ),
        AddInstructionError::MissingByteContent(found, expected) => {
            InstructionError::MissingByteContent(found, expected as usize)
        },
    }
}

/// The common failure that stands for a failure of a removal.
pub open spec fn of_remove_error(value: RemoveInstructionError) -> InstructionError {
    match value {
        RemoveInstructionError::MaxLengthReached => InstructionError::MaxLengthReached(
            RemoveInstructionlength::MAX as usize,
        ),
        RemoveInstructionError::InvalidSignByte(found) => InstructionError::InvalidSignByte(
            found,
            RemoveInstruction::INSTRUCTION_BYTE_SIGN,
        ),
        RemoveInstructionError::InvalidLengthBytes(found) => InstructionError::InvalidLengthBytes(
            found,
            RemoveInstruction::NUMBER_BYTES_LENGTH,
        ),
    }
}

/// The common failure that stands for a failure of a copy.
pub open spec fn of_copy_error(value: CopyInstructionError) -> InstructionError {
    match value {
        CopyInstructionError::MaxLengthReached => InstructionError::MaxLengthReached(
            CopyInstructionlength::MAX as usize,
        ),
        CopyInstructionError::InvalidSignByte(found) => InstructionError::InvalidSignByte(
            found,
            CopyInstruction::INSTRUCTION_BYTE_SIGN,
        ),
        CopyInstructionError::InvalidLengthBytes(found) => InstructionError::InvalidLengthBytes(
            found,
            CopyInstruction::NUMBER_BYTES_LENGTH,
        ),
    }
}

impl From<AddInstructionError> for InstructionError {
    fn from(value: AddInstructionError) -> (error: Self)
        ensures
            error == of_add_error(value),
    {
        match value {
            AddInstructionError::MaxLengthReached => InstructionError::MaxLengthReached(
                AddInstructionlength::MAX as usize,
            ),
            AddInstructionError::InvalidSignByte(found_sign) => InstructionError::InvalidSignByte(
                found_sign,
                AddInstruction::INSTRUCTION_BYTE_SIGN,
            ),
            AddInstructionError::InvalidLengthBytes(found_number_length) => {
                InstructionError::InvalidLengthBytes(
                    found_number_length,
                    AddInstruction::NUMBER_BYTES_LENGTH,
                )
            },
            AddInstructionError::MissingByteContent(
                found_content_length,
                expected_content_length,
            ) => InstructionError::MissingByteContent(
                found_content_length,
                expected_content_length as usize,
            ),
        }
    }
}

impl FromSpecImpl<AddInstructionError> for InstructionError {
    open spec fn obeys_from_spec() -> bool {
        true
    }

    open spec fn from_spec(value: AddInstructionError) -> Self {
        of_add_error(value)
    }
}

impl From<RemoveInstructionError> for InstructionError {
    fn from(value: RemoveInstructionError) -> (error: Self)
        ensures
            error == of_remove_error(value),
    {
        match value {
            RemoveInstructionError::MaxLengthReached => InstructionError::MaxLengthReached(
                RemoveInstructionlength::MAX as usize,
            ),
            RemoveInstructionError::InvalidSignByte(found_sign) => {
                InstructionError::InvalidSignByte(
                    found_sign,
                    RemoveInstruction::INSTRUCTION_BYTE_SIGN,
                )
            },
            RemoveInstructionError::InvalidLengthBytes(found_number_length) => {
                InstructionError::InvalidLengthBytes(
                    found_number_length,
                    RemoveInstruction::NUMBER_BYTES_LENGTH,
                )
            },
        }
    }
}

impl FromSpecImpl<RemoveInstructionError> for InstructionError {
    open spec fn obeys_from_spec() -> bool {
        true
    }

    open spec fn from_spec(value: RemoveInstructionError) -> Self {
        of_remove_error(value)
    }
}

impl From<CopyInstructionError> for InstructionError {
    fn from(value: CopyInstructionError) -> (error: Self)
        ensures
            error == of_copy_error(value),
    {
        match value {
            CopyInstructionError::MaxLengthReached => InstructionError::MaxLengthReached(
                CopyInstructionlength::MAX as usize,
            ),
            CopyInstructionError::InvalidSignByte(found_sign) => InstructionError::InvalidSignByte(
                found_sign,
                CopyInstruction::INSTRUCTION_BYTE_SIGN,
            ),
            CopyInstructionError::InvalidLengthBytes(found_number_length) => {
                InstructionError::InvalidLengthBytes(
                    found_number_length,
                    CopyInstruction::NUMBER_BYTES_LENGTH,
                )
            },
        }
    }
}

impl FromSpecImpl<CopyInstructionError> for InstructionError {
    open spec fn obeys_from_spec() -> bool {
        true
    }

    open spec fn from_spec(value: CopyInstructionError) -> Self {
        of_copy_error(value)
    }
}

/// The text that says an instruction cannot grow past `max` items.
pub open spec fn max_length_text(max: nat) -> Seq<char> {
    "Can't fill this delta instruction type past "@ + decimal(max)
        + " values. Try creating a new instruction instead."@
}

/// The text for what was found: the number, or `nothing` where there was
/// none.
pub open spec fn found_text(found: Option<nat>, nothing: Seq<char>) -> Seq<char> {
    match found {
        Some(number) => decimal(number),
        None => nothing,
    }
}

/// The text that says how many length bytes were found and how many were
/// needed.
pub open spec fn length_bytes_text(found: Option<nat>, needed: nat) -> Seq<char> {
    "Couldn't construct the instruction content length indicator with "@ + found_text(
        found,
        "no"@,
    ) + " bytes. (Needed "@ + decimal(needed) + ".)"@
}

/// The text that says how much content was found and how much was expected.
pub open spec fn byte_content_text(found: nat, expected: nat) -> Seq<char> {
    "Expected an instruction content length of "@ + decimal(expected) + " but found it was "@
        + decimal(found) + " long instead."@
}

/// The text that says which sign of a kind was expected and what was found.
/// `expected` is the sign as the message names it.
pub open spec fn kind_sign_text(expected: Seq<char>, found: Option<nat>) -> Seq<char> {
    "Expected this instruction sign: "@ + expected + ". But found something this instead: "@
        + found_text(found, "nothing"@) + "."@
}

/// A sign or a count as a number, if there is one.
pub open spec fn sign_number(found: Option<u8>) -> Option<nat> {
    match found {
        Some(sign) => Some(sign as nat),
        None => None,
    }
}

/// A count as a number, if there is one.
pub open spec fn count_number(found: Option<usize>) -> Option<nat> {
    match found {
        Some(count) => Some(count as nat),
        None => None,
    }
}

fn max_length_message(max: usize) -> (text: String)
    ensures
        text@ == max_length_text(max as nat),
{
    let mut text = String::from_str("Can't fill this delta instruction type past ");
    append_decimal(&mut text, max);
    text.append(" values. Try creating a new instruction instead.");
    text
}

fn append_found(text: &mut String, found: Option<usize>, nothing: &str)
    ensures
        final(text)@ == old(text)@ + found_text(count_number(found), nothing@),
{
    match found {
        Some(number) => append_decimal(text, number),
        None => text.append(nothing),
    }
}

fn length_bytes_message(found: Option<usize>, needed: usize) -> (text: String)
    ensures
        text@ == length_bytes_text(count_number(found), needed as nat),
{
    let mut text = String::from_str(
        "Couldn't construct the instruction content length indicator with ",
    );
    append_found(&mut text, found, "no");
    text.append(" bytes. (Needed ");
    append_decimal(&mut text, needed);
    text.append(".)");
    text
}

fn byte_content_message(found: usize, expected: usize) -> (text: String)
    ensures
        text@ == byte_content_text(found as nat, expected as nat),
{
    let mut text = String::from_str("Expected an instruction content length of ");
    append_decimal(&mut text, expected);
    text.append(" but found it was ");
    append_decimal(&mut text, found);
    text.append(" long instead.");
    text
}

fn widen(found: Option<u8>) -> (wide: Option<usize>)
    ensures
        count_number(wide) == sign_number(found),
{
    match found {
        Some(sign) => Some(sign as usize),
        None => None,
    }
}

fn kind_sign_message(expected: &str, found: Option<u8>) -> (text: String)
    ensures
        text@ == kind_sign_text(expected@, sign_number(found)),
{
    let mut text = String::from_str("Expected this instruction sign: ");
    text.append(expected);
    text.append(". But found something this instead: ");
    append_found(&mut text, widen(found), "nothing");
    text.append(".");
    text
}

impl InstructionError {
    /// What went wrong, in words.
    pub open spec fn message_text(self) -> Seq<char> {
        match self {
            InstructionError::MaxLengthReached(max) => max_length_text(max as nat),
            InstructionError::InvalidSignByte(found, expected) => {
                "Expected this instruction sign: "@ + decimal(expected as nat)
                    + ". But found this instead: "@ + found_text(sign_number(found), "nothing"@)
                    + "."@
            },
            InstructionError::InvalidLengthBytes(found, expected) => length_bytes_text(
                count_number(found),
                expected as nat,
            ),
            InstructionError::MissingByteContent(found, expected) => byte_content_text(
                found as nat,
                expected as nat,
            ),
        }
    }

    /// What went wrong, in words.
    pub fn message(&self) -> (text: String)
        ensures
            text@ == self.message_text(),
    {
        match self {
            InstructionError::MaxLengthReached(max_content_length) => max_length_message(
                *max_content_length,
            ),
            InstructionError::InvalidSignByte(found_sign, expected_sign) => {
                let mut text = String::from_str("Expected this instruction sign: ");
                append_decimal(&mut text, *expected_sign as usize);
                text.append(". But found this instead: ");
                append_found(&mut text, widen(*found_sign), "nothing");
                text.append(".");
                text
            },
            InstructionError::InvalidLengthBytes(found_number_length, expected_number_length) => {
                length_bytes_message(*found_number_length, *expected_number_length)
            },
            InstructionError::MissingByteContent(found_content_length, expected_content_length) => {
                byte_content_message(*found_content_length, *expected_content_length)
            },
        }
    }
}

impl AddInstructionError {
    /// What went wrong, in words.
    pub open spec fn message_text(self) -> Seq<char> {
        match self {
            AddInstructionError::MaxLengthReached => max_length_text(
                AddInstructionlength::MAX as nat,
            ),
            AddInstructionError::InvalidSignByte(found) => kind_sign_text(
                "b'+'"@,
                sign_number(found),
            ),
            AddInstructionError::InvalidLengthBytes(found) => length_bytes_text(
                count_number(found),
                AddInstruction::NUMBER_BYTES_LENGTH as nat,
            ),
            AddInstructionError::MissingByteContent(found, expected) => byte_content_text(
                found as nat,
                expected as nat,
            ),
        }
    }

    /// What went wrong, in words.
    pub fn message(&self) -> (text: String)
        ensures
            text@ == self.message_text(),
    {
        match self {
            AddInstructionError::MaxLengthReached => max_length_message(
                AddInstructionlength::MAX as usize,
            ),
            AddInstructionError::InvalidSignByte(found_sign) => kind_sign_message(
                "b'+'",
                *found_sign,
            ),
            AddInstructionError::InvalidLengthBytes(found_number_length) => length_bytes_message(
                *found_number_length,
                AddInstruction::NUMBER_BYTES_LENGTH,
            ),
            AddInstructionError::MissingByteContent(
                found_content_length,
                expected_content_length,
            ) => byte_content_message(*found_content_length, *expected_content_length as usize),
        }
    }
}

impl RemoveInstructionError {
    /// What went wrong, in words.
    pub open spec fn message_text(self) -> Seq<char> {
        match self {
            RemoveInstructionError::MaxLengthReached => max_length_text(
                RemoveInstructionlength::MAX as nat,
            ),
            RemoveInstructionError::InvalidSignByte(found) => kind_sign_text(
                decimal(RemoveInstruction::INSTRUCTION_BYTE_SIGN as nat),
                sign_number(found),
            ),
            RemoveInstructionError::InvalidLengthBytes(found) => length_bytes_text(
                count_number(found),
                RemoveInstruction::NUMBER_BYTES_LENGTH as nat,
            ),
        }
    }

    /// What went wrong, in words.
    pub fn message(&self) -> (text: String)
        ensures
            text@ == self.message_text(),
    {
        match self {
            RemoveInstructionError::MaxLengthReached => max_length_message(
                RemoveInstructionlength::MAX as usize,
            ),
            RemoveInstructionError::InvalidSignByte(found_sign) => {
                let sign = crate::decimal::to_decimal(
                    RemoveInstruction::INSTRUCTION_BYTE_SIGN as usize,
                );
                kind_sign_message(sign.as_str(), *found_sign)
            },
            RemoveInstructionError::InvalidLengthBytes(found_number_length) => {
                length_bytes_message(*found_number_length, RemoveInstruction::NUMBER_BYTES_LENGTH)
            },
        }
    }
}

impl CopyInstructionError {
    /// What went wrong, in words.
    pub open spec fn message_text(self) -> Seq<char> {
        match self {
            CopyInstructionError::MaxLengthReached => max_length_text(
                CopyInstructionlength::MAX as nat,
            ),
            CopyInstructionError::InvalidSignByte(found) => kind_sign_text(
                decimal(CopyInstruction::INSTRUCTION_BYTE_SIGN as nat),
                sign_number(found),
            ),
            CopyInstructionError::InvalidLengthBytes(found) => length_bytes_text(
                count_number(found),
                CopyInstruction::NUMBER_BYTES_LENGTH as nat,
            ),
        }
    }

    /// What went wrong, in words.
    pub fn message(&self) -> (text: String)
        ensures
            text@ == self.message_text(),
    {
        match self {
            CopyInstructionError::MaxLengthReached => max_length_message(
                CopyInstructionlength::MAX as usize,
            ),
            CopyInstructionError::InvalidSignByte(found_sign) => {
                let sign = crate::decimal::to_decimal(
                    CopyInstruction::INSTRUCTION_BYTE_SIGN as usize,
                );
                kind_sign_message(sign.as_str(), *found_sign)
            },
            CopyInstructionError::InvalidLengthBytes(found_number_length) => {
                length_bytes_message(*found_number_length, CopyInstruction::NUMBER_BYTES_LENGTH)
            },
        }
    }
}

} // verus!
