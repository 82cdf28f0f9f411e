use bytedelta::delta_instructions::add_instruction::{AddInstruction, AddInstructionlength};
use bytedelta::delta_instructions::copy_instruction::{CopyInstruction, CopyInstructionlength};
use bytedelta::delta_instructions::errors::{
    AddInstructionError, CopyInstructionError, InstructionError, RemoveInstructionError,
};
use bytedelta::delta_instructions::remove_instruction::{
    RemoveInstruction, RemoveInstructionlength,
};
use bytedelta::delta_instructions::traits::InstructionBytes;

#[test]
fn from_add_error() {
    assert_eq!(
        InstructionError::from(AddInstructionError::MaxLengthReached),
        InstructionError::MaxLengthReached(AddInstructionlength::MAX.try_into().unwrap())
    );
    assert_eq!(
        InstructionError::from(AddInstructionError::InvalidSignByte(Some(b'A'))),
        InstructionError::InvalidSignByte(Some(b'A'), AddInstruction::INSTRUCTION_BYTE_SIGN)
    );
    assert_eq!(
        InstructionError::from(AddInstructionError::InvalidLengthBytes(None)),
        InstructionError::InvalidLengthBytes(None, std::mem::size_of::<AddInstructionlength>())
    );
    assert_eq!(
        InstructionError::from(AddInstructionError::MissingByteContent(0, 1)),
        InstructionError::MissingByteContent(0, 1)
    );
}

#[test]
fn from_remove_error() {
    assert_eq!(
        InstructionError::from(RemoveInstructionError::MaxLengthReached),
        InstructionError::MaxLengthReached(RemoveInstructionlength::MAX.try_into().unwrap())
    );
    assert_eq!(
        InstructionError::from(RemoveInstructionError::InvalidSignByte(Some(b'A'))),
        InstructionError::InvalidSignByte(Some(b'A'), RemoveInstruction::INSTRUCTION_BYTE_SIGN)
    );
    assert_eq!(
        InstructionError::from(RemoveInstructionError::InvalidLengthBytes(None)),
        InstructionError::InvalidLengthBytes(
            None,
            std::mem::size_of::<RemoveInstructionlength>()
        )
    );
}

#[test]
fn from_copy_error() {
    assert_eq!(
        InstructionError::from(CopyInstructionError::MaxLengthReached),
        InstructionError::MaxLengthReached(CopyInstructionlength::MAX.try_into().unwrap())
    );
    assert_eq!(
        InstructionError::from(CopyInstructionError::InvalidSignByte(Some(b'A'))),
        InstructionError::InvalidSignByte(Some(b'A'), CopyInstruction::INSTRUCTION_BYTE_SIGN)
    );
    assert_eq!(
        InstructionError::from(CopyInstructionError::InvalidLengthBytes(None)),
        InstructionError::InvalidLengthBytes(
            None,
            std::mem::size_of::<CopyInstructionlength>()
        )
    );
}

#[test]
fn record_error_messages() {
    assert_eq!(
        InstructionError::MaxLengthReached(255).message(),
        "Can't fill this delta instruction type past 255 values. Try creating a new instruction instead."
    );
    assert_eq!(
        InstructionError::InvalidSignByte(Some(65), 43).message(),
        "Expected this instruction sign: 43. But found this instead: 65."
    );
    assert_eq!(
        InstructionError::InvalidSignByte(None, 124).message(),
        "Expected this instruction sign: 124. But found this instead: nothing."
    );
    assert_eq!(
        InstructionError::InvalidLengthBytes(None, 1).message(),
        "Couldn't construct the instruction content length indicator with no bytes. (Needed 1.)"
    );
    assert_eq!(
        InstructionError::InvalidLengthBytes(Some(0), 2).message(),
        "Couldn't construct the instruction content length indicator with 0 bytes. (Needed 2.)"
    );
    assert_eq!(
        InstructionError::MissingByteContent(7, 1000).message(),
        "Expected an instruction content length of 1000 but found it was 7 long instead."
    );
    assert_eq!(
        AddInstructionError::MaxLengthReached.message(),
        InstructionError::from(AddInstructionError::MaxLengthReached).message()
    );
    assert_eq!(
        AddInstructionError::InvalidSignByte(Some(b' ')).message(),
        "Expected this instruction sign: b'+'. But found something this instead: 32."
    );
    assert_eq!(
        AddInstructionError::InvalidLengthBytes(None).message(),
        "Couldn't construct the instruction content length indicator with no bytes. (Needed 1.)"
    );
    assert_eq!(
        AddInstructionError::MissingByteContent(0, 1).message(),
        "Expected an instruction content length of 1 but found it was 0 long instead."
    );
    assert_eq!(
        RemoveInstructionError::InvalidSignByte(None).message(),
        "Expected this instruction sign: 45. But found something this instead: nothing."
    );
    assert_eq!(
        RemoveInstructionError::InvalidLengthBytes(Some(3)).message(),
        "Couldn't construct the instruction content length indicator with 3 bytes. (Needed 1.)"
    );
    assert_eq!(
        CopyInstructionError::InvalidSignByte(Some(200)).message(),
        "Expected this instruction sign: 124. But found something this instead: 200."
    );
    assert_eq!(
        CopyInstructionError::MaxLengthReached.message(),
        RemoveInstructionError::MaxLengthReached.message()
    );
}
