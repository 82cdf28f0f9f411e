use bytedelta::delta_instruction::Instruction;
use bytedelta::delta_patch::{DeltaPatch, InstructionItem};
use bytedelta::delta_traits::{ApplyDeltaTo, LCS};
use bytedelta::cursor::ByteCursor;

#[test]
fn push_instruction_item() {
    let mut instructions = vec![];
    DeltaPatch::push_instruction_item(&mut instructions, InstructionItem::Add(b'A'));
    assert_eq!(
        instructions,
        vec![Instruction::Add {
            content: vec![b'A']
        }]
    );
    DeltaPatch::push_instruction_item(&mut instructions, InstructionItem::Add(b'A'));
    assert_eq!(
        instructions,
        vec![Instruction::Add {
            content: vec![b'A', b'A']
        }]
    );
    DeltaPatch::push_instruction_item(&mut instructions, InstructionItem::Copy);
    assert_eq!(
        instructions,
        vec![
            Instruction::Add {
                content: vec![b'A', b'A']
            },
            Instruction::Copy { length: 1 }
        ]
    );
    DeltaPatch::push_instruction_item(&mut instructions, InstructionItem::Remove);
    assert_eq!(
        instructions,
        vec![
            Instruction::Add {
                content: vec![b'A', b'A']
            },
            Instruction::Copy { length: 1 },
            Instruction::Remove { length: 1 }
        ]
    );
}

#[test]
fn construct_instructions() {
    let source = b"AAXCCC";
    let target = b"BBBXCC";
    let lcs = DeltaPatch::lcs(source, target);
    assert_eq!(
        DeltaPatch::construct_instructions(source, target, lcs),
        vec![
            Instruction::Remove { length: 2 },
            Instruction::Add {
                content: vec![66u8, 66u8, 66u8,],
            },
            Instruction::Copy { length: 3 },
            Instruction::Remove { length: 1 },
        ]
    );
}

#[test]
fn instruction_item_matches() {
    let add = Instruction::Add { content: vec![] };
    let remove = Instruction::Remove { length: 3 };
    let copy = Instruction::Copy { length: 3 };
    assert!(InstructionItem::Add(1).matches(&add));
    assert!(!InstructionItem::Add(1).matches(&remove));
    assert!(!InstructionItem::Add(1).matches(&copy));
    assert!(InstructionItem::Remove.matches(&remove));
    assert!(!InstructionItem::Remove.matches(&add));
    assert!(!InstructionItem::Remove.matches(&copy));
    assert!(InstructionItem::Copy.matches(&copy));
    assert!(!InstructionItem::Copy.matches(&add));
    assert!(!InstructionItem::Copy.matches(&remove));
    assert_eq!(
        Instruction::from(&InstructionItem::Add(9)),
        Instruction::Add { content: vec![9] }
    );
    assert_eq!(Instruction::from(&InstructionItem::Remove), Instruction::Remove { length: 1 });
    assert_eq!(Instruction::from(&InstructionItem::Copy), Instruction::Copy { length: 1 });
}

#[test]
fn push_instruction_item_starts_anew_at_capacity() {
    let mut instructions = vec![Instruction::Remove { length: 255 }];
    DeltaPatch::push_instruction_item(&mut instructions, InstructionItem::Remove);
    assert_eq!(
        instructions,
        vec![Instruction::Remove { length: 255 }, Instruction::Remove { length: 1 }]
    );
    let mut instructions = vec![Instruction::Add { content: vec![1; 255] }];
    DeltaPatch::push_instruction_item(&mut instructions, InstructionItem::Add(2));
    assert_eq!(
        instructions,
        vec![Instruction::Add { content: vec![1; 255] }, Instruction::Add { content: vec![2] }]
    );
    let mut instruction = Instruction::Add { content: vec![1] };
    assert!(instruction.push_instruction_item(&InstructionItem::Copy).is_ok());
    assert_eq!(instruction, Instruction::Add { content: vec![1, 0] });
}

fn replay(instructions: &Vec<Instruction>, source: &[u8]) -> Vec<u8> {
    let mut cursor = ByteCursor::new(source);
    let mut out = Vec::new();
    for instruction in instructions {
        out.extend(instruction.apply_to(&mut cursor).unwrap());
    }
    assert!(cursor.is_empty());
    out
}

#[test]
fn exact_patch_round_trip() {
    let pairs: [(&[u8], &[u8]); 5] = [
        (b"AAXCCC", b"BBBXCC"),
        (b"", b"AAA"),
        (b"AAA", b""),
        (b"The quick brown fox jumps over the lazy dog.", b"A slow red cat leaps over a sleepy dog."),
        (b"", b""),
    ];
    for (source, target) in pairs {
        let patch = DeltaPatch::new(source, target);
        assert_eq!(replay(patch.instructions(), source), target);
    }
    let source = vec![3u8; 700];
    let mut target = vec![3u8; 300];
    target.extend(vec![4u8; 300]);
    let patch = DeltaPatch::new(&source, &target);
    assert_eq!(replay(patch.instructions(), &source), target);
    assert_eq!(
        *patch.instructions(),
        vec![
            Instruction::Copy { length: 255 },
            Instruction::Copy { length: 45 },
            Instruction::Remove { length: 255 },
            Instruction::Remove { length: 145 },
            Instruction::Add { content: vec![4u8; 255] },
            Instruction::Add { content: vec![4u8; 45] },
        ]
    );
}

#[test]
fn construct_instructions_with_stray_anchors() {
    // Anchors that neither side holds: the source is removed, the target
    // added, and the construction ends.
    let instructions = DeltaPatch::construct_instructions(b"AB", b"CD", b"ZZ".to_vec());
    assert_eq!(
        instructions,
        vec![
            Instruction::Remove { length: 2 },
            Instruction::Add { content: b"CD".to_vec() },
        ]
    );
    let instructions = DeltaPatch::construct_instructions(b"", b"Z", b"Z".to_vec());
    assert_eq!(instructions, vec![Instruction::Add { content: b"Z".to_vec() }]);
}

#[test]
fn lcs_of_the_trait_is_the_selected_subsequence() {
    assert_eq!(DeltaPatch::lcs(b"XMJYAUZ", b"MZJAWXU"), b"MJAU");
    assert_eq!(DeltaPatch::lcs(b"", b"MZJAWXU"), b"");
    assert_eq!(DeltaPatch::lcs(b"AB", b"BA"), b"A");
}
