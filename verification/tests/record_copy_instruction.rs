use bytedelta::cursor::ByteCursor;
use bytedelta::delta_instructions::copy_instruction::{CopyInstruction, CopyInstructionlength};
use bytedelta::delta_instructions::errors::CopyInstructionError;
use bytedelta::delta_instructions::traits::{InstructionBytes, PushToInstruction};

#[test]
fn copy_instruction_new() {
    let length: CopyInstructionlength = CopyInstructionlength::MAX;
    let new_copy = CopyInstruction::new(length);
    assert_eq!(new_copy.len(), length);
    assert_eq!(new_copy.to_bytes(), vec![CopyInstruction::INSTRUCTION_BYTE_SIGN, length]);
}

#[test]
fn copy_instruction_default() {
    let new_copy = CopyInstruction::new(0u8);
    assert_eq!(new_copy, CopyInstruction::default());
}

#[test]
fn copy_instruction_len() {
    let new_copy = CopyInstruction::new(10u8);
    assert_eq!(new_copy.len(), 10);
}

#[test]
fn copy_instruction_is_empty() {
    let mut default_copy = CopyInstruction::default();
    assert!(default_copy.is_empty());
    default_copy.push(b'A').unwrap();
    assert!(!default_copy.is_empty());
}

#[test]
fn copy_instruction_push() {
    let mut new_copy = CopyInstruction::new(CopyInstructionlength::MAX - 1);
    assert!(new_copy.push(0).is_ok());
    assert_eq!(new_copy.len(), CopyInstructionlength::MAX.try_into().unwrap());
    assert!(new_copy.push(0).is_err());
    assert_eq!(new_copy.len(), CopyInstructionlength::MAX.try_into().unwrap());
    assert_eq!(new_copy.push(0), Err(CopyInstructionError::MaxLengthReached));
}

#[test]
fn copy_instruction_into_bytes() {
    let mut bytes = vec![CopyInstruction::INSTRUCTION_BYTE_SIGN];
    bytes.extend(CopyInstructionlength::MIN.to_be_bytes());
    let mut default_copy = CopyInstruction::default();
    assert_eq!(default_copy.to_bytes(), bytes);
    default_copy.push(b'A').unwrap();
    bytes.resize(1, 0);
    bytes.extend(CopyInstructionlength::from(1u8).to_be_bytes());
    assert_eq!(default_copy.to_bytes(), bytes);
}

#[test]
fn copy_instruction_from_bytes_ok() {
    let mut copy_bytes = vec![CopyInstruction::INSTRUCTION_BYTE_SIGN];
    copy_bytes.extend(CopyInstructionlength::default().to_be_bytes());
    let default_copy = CopyInstruction::from_bytes(&mut ByteCursor::new(&copy_bytes));
    assert!(default_copy.is_ok());
    assert_eq!(default_copy, Ok(CopyInstruction::default()));

    // The exact instruction of the same kind.
    let exact_instruction = bytedelta::delta_instruction::Instruction::Copy {
        length: u8::MAX.into(),
    };
    let from_bytes_instruction =
        <bytedelta::delta_instruction::Instruction as bytedelta::delta_traits::ConvertBetweenBytes>::try_from_bytes(
            &mut ByteCursor::new(&bytedelta::delta_traits::ConvertBetweenBytes::to_bytes(
                &exact_instruction,
            )),
        );
    assert_eq!(from_bytes_instruction.unwrap(), exact_instruction);
}

#[test]
fn copy_instruction_from_bytes_sign_err() {
    let copy_bytes = vec![];
    let default_copy = CopyInstruction::from_bytes(&mut ByteCursor::new(&copy_bytes));
    assert!(default_copy.is_err());
    assert_eq!(
        default_copy.unwrap_err(),
        CopyInstructionError::InvalidSignByte(None)
    );
}

#[test]
fn copy_instruction_from_bytes_length_err() {
    let copy_bytes = vec![CopyInstruction::INSTRUCTION_BYTE_SIGN];
    let default_copy = CopyInstruction::from_bytes(&mut ByteCursor::new(&copy_bytes));
    assert!(default_copy.is_err());
    assert_eq!(
        default_copy.unwrap_err(),
        CopyInstructionError::InvalidLengthBytes(None)
    );
}

#[test]
fn copy_record_decoding_and_conversions() {
    assert_eq!(CopyInstruction::INSTRUCTION_BYTE_SIGN, b'|');
    assert_eq!(CopyInstruction::NUMBER_BYTES_LENGTH, 1);
    let bytes = vec![b'|', 7, 9];
    let mut cursor = ByteCursor::new(&bytes);
    assert_eq!(CopyInstruction::from_bytes(&mut cursor), Ok(CopyInstruction::new(7)));
    assert_eq!(cursor.peek(), Some(9));
    assert_eq!(
        CopyInstruction::from_bytes(&mut cursor),
        Err(CopyInstructionError::InvalidSignByte(Some(9)))
    );
    assert!(cursor.is_empty());
    let mut cursor = ByteCursor::new(&bytes);
    assert_eq!(CopyInstruction::try_from(&mut cursor), Ok(CopyInstruction::new(7)));
    assert_eq!(cursor.len(), 1);
    assert_eq!(CopyInstruction::try_from(ByteCursor::new(&bytes)), Ok(CopyInstruction::new(7)));
    assert_eq!(Vec::<u8>::from(&CopyInstruction::new(7)), vec![b'|', 7]);
    assert_eq!(Vec::<u8>::from(CopyInstruction::new(7)), vec![b'|', 7]);
}
