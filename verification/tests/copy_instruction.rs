use bytedelta::cursor::ByteCursor;
use bytedelta::instructions::copy_instruction::CopyInstruction;
use bytedelta::instructions::{
    InstructionBytes, InstructionContent, InstructionError, InstructionInfo, COPY_INSTRUCTION_SIGN,
};
use bytedelta::lcs::Lcs;

#[test]
fn copy_instruction_instruction_info() {
    let mut instruction = CopyInstruction::new(vec![0; u8::MAX.into()]);
    assert_eq!(instruction.len(), u8::MAX);
    assert!(instruction.is_full());

    instruction = CopyInstruction::new(Vec::new());
    assert_eq!(instruction.len(), u8::MIN);
    assert!(instruction.is_empty());

    let default_instruction = CopyInstruction::default();
    assert_eq!(default_instruction.len(), u8::MIN);
    assert!(default_instruction.is_empty());
    assert_eq!(default_instruction, instruction);
}

#[test]
fn copy_instruction_non_default_item_count() {
    let mut instruction = CopyInstruction::default();
    for _ in 0..(u8::MAX / 2) {
        instruction.push(0).unwrap();
        assert_eq!(instruction.non_default_item_count().unwrap(), 0);
    }
    for i in 0..(u8::MAX / 2) {
        instruction.push(0 + 1).unwrap();
        assert_eq!(instruction.non_default_item_count().unwrap(), i + 1);
    }
}

#[test]
fn copy_instruction_instruction_content_push() {
    let mut instruction = CopyInstruction::new(vec![0; (u8::MAX - 1).try_into().unwrap()]);
    assert!(instruction.push(0).is_ok());
    assert!(instruction
        .push(0)
        .is_err_and(|err| err == InstructionError::ContentOverflow));
}

fn fill_wrapper(source: &[u8], target: &[u8]) -> CopyInstruction {
    let mut instruction = CopyInstruction::default();
    let lcs = Lcs::new(source, target).subsequence();
    let mut lcs_iter = ByteCursor::new(&lcs);
    let mut source_iter = ByteCursor::new(source);
    let mut target_iter = ByteCursor::new(target);
    instruction.fill(&mut lcs_iter, &mut source_iter, &mut target_iter);
    instruction
}

#[test]
fn copy_instruction_instruction_content_fill() {
    assert_eq!(fill_wrapper(b"ABC", b"AYZ").len(), 3);
    assert_eq!(fill_wrapper(b"", b"AYZ").len(), 0);
    assert_eq!(fill_wrapper(b"ABC", b"").len(), 0);
    assert_eq!(fill_wrapper(b"AABB", b"AACC").len(), 4);
}

#[test]
fn copy_instruction_instruction_bytes_to_bytes() {
    let mut instruction = CopyInstruction::new(vec![0; u8::MAX.try_into().unwrap()]);
    let mut bytes = vec![COPY_INSTRUCTION_SIGN];
    bytes.extend(instruction.len().to_be_bytes());
    bytes.extend(vec![0u8; u8::MAX.into()]);
    assert_eq!(instruction.to_bytes(), bytes);

    instruction = CopyInstruction::default();
    bytes = vec![COPY_INSTRUCTION_SIGN];
    bytes.extend(instruction.len().to_be_bytes());
    assert_eq!(instruction.to_bytes(), bytes);
}

#[test]
fn copy_instruction_instruction_bytes_try_from_bytes_ok() {
    let mut instruction = CopyInstruction::new(vec![0; u8::MAX.try_into().unwrap()]);
    assert_eq!(
        CopyInstruction::try_from_bytes(&mut ByteCursor::new(&instruction.to_bytes())).unwrap(),
        instruction
    );

    instruction = CopyInstruction::default();
    assert_eq!(
        CopyInstruction::try_from_bytes(&mut ByteCursor::new(&instruction.to_bytes())).unwrap(),
        instruction
    );
}

#[test]
fn copy_instruction_instruction_bytes_try_from_bytes_err() {
    let mut bytes = vec![];

    assert_eq!(
        CopyInstruction::try_from_bytes(&mut ByteCursor::new(&bytes)).unwrap_err(),
        InstructionError::MissingSign
    );

    bytes = vec![0];
    assert_eq!(
        CopyInstruction::try_from_bytes(&mut ByteCursor::new(&bytes)).unwrap_err(),
        InstructionError::InvalidSign
    );

    bytes = vec![COPY_INSTRUCTION_SIGN];
    bytes.extend(u8::MAX.to_be_bytes());
    bytes.append(&mut vec![0; u8::MAX as usize - 1]);
    assert_eq!(
        CopyInstruction::try_from_bytes(&mut ByteCursor::new(&bytes)).unwrap_err(),
        InstructionError::MissingContent
    );
}

#[test]
fn copy_instruction_decoding_moves_the_cursor() {
    let bytes = vec![COPY_INSTRUCTION_SIGN, 2, 7, 8, 9];
    let mut cursor = ByteCursor::new(&bytes);
    assert_eq!(CopyInstruction::try_from_bytes(&mut cursor), Ok(CopyInstruction::new(vec![7, 8])));
    assert_eq!(cursor.peek(), Some(9));
    assert_eq!(cursor.len(), 1);

    let bytes = vec![COPY_INSTRUCTION_SIGN];
    let mut cursor = ByteCursor::new(&bytes);
    assert_eq!(
        CopyInstruction::try_from_bytes(&mut cursor),
        Err(InstructionError::MissingLength)
    );
    assert_eq!(cursor.len(), 0);

    let bytes = vec![b'?', 1, 2];
    let mut cursor = ByteCursor::new(&bytes);
    assert_eq!(CopyInstruction::try_from_bytes(&mut cursor), Err(InstructionError::InvalidSign));
    assert_eq!(cursor.len(), 2);

    let bytes = vec![COPY_INSTRUCTION_SIGN, 3, 1];
    let mut cursor = ByteCursor::new(&bytes);
    assert_eq!(
        CopyInstruction::try_from_bytes(&mut cursor),
        Err(InstructionError::MissingContent)
    );
    assert_eq!(cursor.len(), 0);
}

#[test]
fn copy_instruction_conversions() {
    let instruction = CopyInstruction::new(vec![1, 0, 2]);
    let bytes = vec![COPY_INSTRUCTION_SIGN, 3, 1, 0, 2];
    assert_eq!(instruction.byte_sign(), COPY_INSTRUCTION_SIGN);
    assert_eq!(instruction.byte_sign(), b'|');
    assert_eq!(instruction.byte_length(), 5);
    assert_eq!(Vec::<u8>::from(&instruction), bytes);
    assert_eq!(Vec::<u8>::from(instruction.clone()), bytes);
    assert_eq!(CopyInstruction::try_from(bytes.clone()), Ok(instruction.clone()));
    assert_eq!(CopyInstruction::try_from(bytes.as_slice()), Ok(instruction.clone()));
    assert_eq!(CopyInstruction::try_from(ByteCursor::new(&bytes)), Ok(instruction.clone()));
    let mut cursor = ByteCursor::new(&bytes);
    assert_eq!(CopyInstruction::try_from(&mut cursor), Ok(instruction.clone()));
    assert!(cursor.is_empty());
    assert_eq!(instruction.non_default_item_count(), Some(2));
    assert_eq!(instruction.threshold(), 3);
}

#[test]
fn copy_instruction_fill_and_apply() {
    let lcs = b"AB".to_vec();
    let source = b"AXB".to_vec();
    let target = b"AYB".to_vec();
    let mut lcs_iter = ByteCursor::new(&lcs);
    let mut source_iter = ByteCursor::new(&source);
    let mut target_iter = ByteCursor::new(&target);
    let mut instruction = CopyInstruction::default();
    instruction.fill(&mut lcs_iter, &mut source_iter, &mut target_iter);
    assert_eq!(instruction, CopyInstruction::new(vec![0, 1, 0]));
    assert!(lcs_iter.is_empty());
    assert!(source_iter.is_empty());
    assert!(target_iter.is_empty());

    let mut source_iter = ByteCursor::new(&source);
    let mut out = Vec::new();
    instruction.apply(&mut source_iter, &mut out);
    assert_eq!(out, target);
    assert!(source_iter.is_empty());
}

#[test]
fn copy_instruction_corrections_wrap() {
    let lcs: Vec<u8> = Vec::new();
    let source = vec![200u8, 10];
    let target = vec![10u8, 200];
    let mut lcs_iter = ByteCursor::new(&lcs);
    let mut source_iter = ByteCursor::new(&source);
    let mut target_iter = ByteCursor::new(&target);
    let mut instruction = CopyInstruction::default();
    instruction.fill(&mut lcs_iter, &mut source_iter, &mut target_iter);
    assert_eq!(instruction, CopyInstruction::new(vec![66, 190]));
    let mut source_iter = ByteCursor::new(&source);
    let mut out = Vec::new();
    instruction.apply(&mut source_iter, &mut out);
    assert_eq!(out, target);
}

#[test]
fn copy_instruction_fill_with_tolerance() {
    // The anchors move only with a pair on which all three cursors agree.
    let lcs = b"AC".to_vec();
    let source = b"AXXXC".to_vec();
    let target = b"AYYYC".to_vec();
    for (percent, expected, anchors_left) in [
        (0u8, vec![0u8, 1], 1usize),
        (50, vec![0, 1, 1], 1),
        (100, vec![0, 1, 1, 1, 0], 0),
    ] {
        let mut lcs_iter = ByteCursor::new(&lcs);
        let mut source_iter = ByteCursor::new(&source);
        let mut target_iter = ByteCursor::new(&target);
        let mut instruction = CopyInstruction::default();
        instruction.fill_with_tolerance(
            &mut lcs_iter,
            &mut source_iter,
            &mut target_iter,
            percent,
        );
        assert_eq!(instruction, CopyInstruction::new(expected.clone()));
        assert_eq!(lcs_iter.len(), anchors_left);
        assert_eq!(source_iter.len(), 5 - expected.len());
        assert_eq!(target_iter.len(), 5 - expected.len());
    }
}

#[test]
fn copy_instruction_fill_stops_at_capacity() {
    let lcs: Vec<u8> = Vec::new();
    let source = vec![5u8; 300];
    let target = vec![5u8; 300];
    let mut lcs_iter = ByteCursor::new(&lcs);
    let mut source_iter = ByteCursor::new(&source);
    let mut target_iter = ByteCursor::new(&target);
    let mut instruction = CopyInstruction::default();
    instruction.fill(&mut lcs_iter, &mut source_iter, &mut target_iter);
    assert!(instruction.is_full());
    assert_eq!(source_iter.len(), 45);
    assert_eq!(target_iter.len(), 45);
    assert_eq!(instruction.push(1), Err(InstructionError::ContentOverflow));
}
