use bytedelta::instructions::{
    threshold_at, InstructionError, InstructionLength, ADD_INSTRUCTION_SIGN,
    COPY_INSTRUCTION_SIGN, NON_ZERO_MAX_COUNT_PERCENT, REMOVE_INSTRUCTION_SIGN,
};

fn threshold(
    len: InstructionLength,
    non_zero_max_count_percent: InstructionLength,
) -> InstructionLength {
    ((len as f32 * non_zero_max_count_percent as f32) / 100f32) as InstructionLength
}

#[test]
fn mod_instruction_info() {
    for len in 0..=InstructionLength::MAX {
        assert_eq!(threshold(len, NON_ZERO_MAX_COUNT_PERCENT), len);
    }
}

#[test]
fn threshold_at_rounds_down() {
    for len in 0..=InstructionLength::MAX {
        assert_eq!(threshold_at(len, NON_ZERO_MAX_COUNT_PERCENT), len as u32);
        assert_eq!(threshold_at(len, 0), 0);
    }
    assert_eq!(threshold_at(3, 50), 1);
    assert_eq!(threshold_at(199, 50), 99);
    assert_eq!(threshold_at(255, 255), 650);
}

#[test]
fn instruction_error_messages() {
    assert_eq!(
        InstructionError::ContentOverflow.message(),
        format!(
            "Cannot exceed {} amount of bytes in an instruction",
            InstructionLength::MAX
        )
    );
    assert_eq!(InstructionError::MissingSign.message(), "No instruction sign found");
    assert_eq!(
        InstructionError::InvalidSign.message(),
        format!(
            "Instruction sign didn't match: {}, {} or {}",
            REMOVE_INSTRUCTION_SIGN,
            ADD_INSTRUCTION_SIGN,
            COPY_INSTRUCTION_SIGN
        )
    );
    assert_eq!(InstructionError::MissingLength.message(), "No length value found");
    assert_eq!(
        InstructionError::MissingContent.message(),
        "Not enough bytes found to match the given length"
    );
    assert_eq!(
        InstructionError::InvalidLength.message(),
        "Not enough bytes found to create a length of type u8"
    );
    assert_eq!(
        InstructionError::InvalidContent.message(),
        "Not enough bytes found to create an item item of type u8"
    );
}
