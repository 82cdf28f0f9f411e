use bytedelta::cursor::ByteCursor;
use bytedelta::instructions::add_instruction::AddInstruction;
use bytedelta::instructions::copy_instruction::CopyInstruction;
use bytedelta::instructions::delta_instruction::DeltaInstruction;
use bytedelta::instructions::remove_instruction::RemoveInstruction;
use bytedelta::instructions::{InstructionError, InstructionInfo};
use bytedelta::lcs::Lcs;
use bytedelta::patch::{ApplyError, Patch};

#[test]
fn patch_new() {
    assert_eq!(
        *Patch::new(b"BBAAA", b"AAABBBAA").instructions(),
        vec![
            AddInstruction::new(vec![65, 65, 65]).into(),
            CopyInstruction::new(vec![0, 0, 1, 0, 0,]).into(),
        ],
    );
}

#[test]
fn target_length() {
    assert_eq!(Patch::new(b"AAAAAAAA", b"AAA").target_length(), 3);
    assert_eq!(
        Patch::new(b"AAAAAAAABBBCCC", b"BBBCCCAAA").target_length(),
        9
    );
    assert_eq!(Patch::new(b"AAAAAAAA", b"").target_length(), 0);
    assert_eq!(Patch::new(b"", b"AAA").target_length(), 3);
}

#[test]
fn source_length() {
    assert_eq!(Patch::new(b"AAA", b"AAA").source_lenth(), 3);
    assert_eq!(Patch::new(b"", b"AAA").source_lenth(), 0);
    assert_eq!(Patch::new(b"AAA", b"").source_lenth(), 3);
    assert_eq!(Patch::new(b"AAA", b"BAABBCCCAAA").source_lenth(), 3);
}

fn phrases() -> (Vec<Vec<u8>>, Vec<Vec<u8>>) {
    let source_phrases = vec![
        b"The quick brown fox jumps over the lazy dog.".to_vec(),
        b"Rust is a systems programming language.".to_vec(),
        b"12345".to_vec(),
        b"OpenAI's GPT-3 is a language model.".to_vec(),
        b"Delta encoding is efficient for data compression.".to_vec(),
        b"Unit testing is crucial for software development.".to_vec(),
        b"Markdown is a lightweight markup language.".to_vec(),
        b"C# is used for developing Windows applications.".to_vec(),
        b"Python is known for its simplicity and readability.".to_vec(),
        b"Binary files can be challenging to diff.".to_vec(),
    ];
    let target_phrases = vec![
        b"A slow red cat leaps over a sleepy dog.".to_vec(),
        b"C++ is a high-level programming language.".to_vec(),
        b"67890".to_vec(),
        b"OpenAI's GPT-4 is an AI language model.".to_vec(),
        b"Run-length encoding is effective for data compression.".to_vec(),
        b"Integration testing is vital for software development.".to_vec(),
        b"HTML is a versatile markup language.".to_vec(),
        b"Java is utilized for building Android applications.".to_vec(),
        b"JavaScript is praised for its flexibility and ease of use.".to_vec(),
        b"Text files are easy to compare, unlike binary files.".to_vec(),
    ];
    (source_phrases, target_phrases)
}

#[test]
fn apply() {
    assert_eq!(Patch::new(b"", b"AAA").apply(b""), Some(b"AAA".to_vec()));
    assert_eq!(Patch::new(b"AAA", b"").apply(b"AAA"), Some(b"".to_vec()));
    let (source_phrases, target_phrases) = phrases();
    for (source, target) in source_phrases.iter().zip(target_phrases.iter()) {
        assert_eq!(&Patch::new(&source, &target).apply(source).unwrap(), target);
    }
}

#[test]
fn apply_round_trip_at_every_tolerance() {
    let (source_phrases, target_phrases) = phrases();
    for percent in [0u8, 10, 50, 100, 255] {
        for (source, target) in source_phrases.iter().zip(target_phrases.iter()) {
            let patch = Patch::with_tolerance(source, target, percent);
            assert_eq!(patch.apply(source), Some(target.clone()));
            assert_eq!(patch.source_lenth(), source.len());
        }
    }
}

#[test]
fn apply_round_trip_past_one_instruction() {
    let source: Vec<u8> = (0..1000u32).map(|i| (i * 7 % 251) as u8).collect();
    let target: Vec<u8> = (0..1300u32).map(|i| (i * 13 % 241) as u8).collect();
    for percent in [0u8, 50, 100] {
        let patch = Patch::with_tolerance(&source, &target, percent);
        assert_eq!(patch.apply(&source), Some(target.clone()));
        let bytes = patch.to_bytes();
        assert_eq!(Patch::try_from_bytes(&bytes), Ok(patch));
    }
    let patch = Patch::new(&vec![7u8; 600], &[]);
    assert_eq!(
        *patch.instructions(),
        vec![
            DeltaInstruction::Remove(RemoveInstruction::new(255)),
            DeltaInstruction::Remove(RemoveInstruction::new(255)),
            DeltaInstruction::Remove(RemoveInstruction::new(90)),
        ]
    );
    let patch = Patch::new(&[], &vec![7u8; 256]);
    assert_eq!(
        *patch.instructions(),
        vec![
            DeltaInstruction::Add(AddInstruction::new(vec![7u8; 255])),
            DeltaInstruction::Add(AddInstruction::new(vec![7u8])),
        ]
    );
}

#[test]
fn strict_and_permissive_tolerance_differ() {
    // One exact pair, then three pairs that all need a correction.
    let source = b"AXXX";
    let target = b"AYYY";
    let strict = Patch::with_tolerance(source, target, 0);
    assert_eq!(
        *strict.instructions(),
        vec![
            DeltaInstruction::Copy(CopyInstruction::new(vec![0, 1])),
            DeltaInstruction::Remove(RemoveInstruction::new(2)),
            DeltaInstruction::Add(AddInstruction::new(b"YY".to_vec())),
        ]
    );
    let permissive = Patch::with_tolerance(source, target, 100);
    assert_eq!(
        *permissive.instructions(),
        vec![DeltaInstruction::Copy(CopyInstruction::new(vec![0, 1, 1, 1]))]
    );
    assert_eq!(strict.apply(source), Some(target.to_vec()));
    assert_eq!(permissive.apply(source), Some(target.to_vec()));
    assert_eq!(*Patch::new(source, target).instructions(), *permissive.instructions());
}

#[test]
fn apply_rejects_a_source_of_another_length() {
    let patch = Patch::new(b"BBAAA", b"AAABBBAA");
    assert_eq!(patch.apply(b"BBAA"), None);
    assert_eq!(patch.apply(b"BBAAAA"), None);
    assert_eq!(patch.apply(b""), None);
    assert!(!patch.consumes_exactly(4));
    assert!(patch.consumes_exactly(5));
    // A source of the right length is accepted, whatever it holds.
    assert_eq!(patch.apply(b"CCBBB"), Some(b"AAACCCBB".to_vec()));
}

#[test]
fn construct_target_leaves_a_refused_source_untouched() {
    let patch = Patch::new(b"AAA", b"AB");
    let source = b"AAAA".to_vec();
    let mut cursor = ByteCursor::new(&source);
    assert_eq!(patch.construct_target(&mut cursor), None);
    assert_eq!(cursor.len(), 4);
    let source = b"AAA".to_vec();
    let mut cursor = ByteCursor::new(&source);
    assert_eq!(patch.construct_target(&mut cursor), Some(b"AB".to_vec()));
    assert_eq!(cursor.len(), 0);
}

#[test]
fn create_instructions_uses_up_the_cursors() {
    let source = b"AAXCCC".to_vec();
    let target = b"BBBXCC".to_vec();
    let lcs = Lcs::new(&source, &target).subsequence();
    let mut lcs_iter = ByteCursor::new(&lcs);
    let mut source_iter = ByteCursor::new(&source);
    let mut target_iter = ByteCursor::new(&target);
    let instructions =
        Patch::create_instructions(&mut lcs_iter, &mut source_iter, &mut target_iter);
    assert!(lcs_iter.is_empty());
    assert!(source_iter.is_empty());
    assert!(target_iter.is_empty());
    assert_eq!(instructions, *Patch::new(&source, &target).instructions());
    assert_eq!(
        instructions,
        vec![
            DeltaInstruction::Remove(RemoveInstruction::new(2)),
            DeltaInstruction::Add(AddInstruction::new(b"BBB".to_vec())),
            DeltaInstruction::Copy(CopyInstruction::new(vec![0, 0, 0])),
            DeltaInstruction::Remove(RemoveInstruction::new(1)),
        ]
    );
}

#[test]
fn create_instructions_ends_when_anchors_outlast_the_target() {
    // Anchors that are no common subsequence: the target runs out while an
    // anchor is left. What remains of the source is removed.
    let lcs = b"AB".to_vec();
    let source = b"AXB".to_vec();
    let target = b"AB".to_vec();
    let mut lcs_iter = ByteCursor::new(&lcs);
    let mut source_iter = ByteCursor::new(&source);
    let mut target_iter = ByteCursor::new(&target);
    let instructions =
        Patch::create_instructions(&mut lcs_iter, &mut source_iter, &mut target_iter);
    assert_eq!(
        instructions,
        vec![
            DeltaInstruction::Copy(CopyInstruction::new(vec![0, 234])),
            DeltaInstruction::Remove(RemoveInstruction::new(1)),
        ]
    );
    assert!(lcs_iter.is_empty());
}

#[test]
fn patch_bytes_round_trip() {
    let (source_phrases, target_phrases) = phrases();
    for (source, target) in source_phrases.iter().zip(target_phrases.iter()) {
        let patch = Patch::new(source, target);
        let bytes = patch.to_bytes();
        assert_eq!(bytes.len(), patch.byte_length());
        assert_eq!(Patch::try_from_bytes(&bytes), Ok(patch.clone()));
        assert_eq!(Patch::try_from(bytes.as_slice()), Ok(patch.clone()));
        assert_eq!(Patch::try_from(bytes.clone()), Ok(patch.clone()));
        assert_eq!(Vec::<u8>::from(&patch), bytes);
        assert_eq!(Vec::<u8>::from(patch), bytes);
    }
}

#[test]
fn patch_to_bytes_exact() {
    let patch = Patch::new(b"BBAAA", b"AAABBBAA");
    assert_eq!(
        patch.to_bytes(),
        vec![b'+', 3, 65, 65, 65, b'|', 5, 0, 0, 1, 0, 0]
    );
    assert_eq!(patch.byte_length(), 12);
    assert_eq!(Patch::default().to_bytes(), Vec::<u8>::new());
    assert_eq!(Patch::try_from_bytes(&[]), Ok(Patch::default()));
}

#[test]
fn patch_try_from_bytes_errors() {
    // A copy that announces five bytes and holds two.
    assert_eq!(
        Patch::try_from_bytes(&[b'|', 5, 0, 0]),
        Err(InstructionError::MissingContent)
    );
    assert_eq!(
        Patch::try_from_bytes(&[b'+', 1, 65, b'+', 2, 65]),
        Err(InstructionError::MissingContent)
    );
    assert_eq!(
        Patch::try_from_bytes(&[b'-', 3, b'A']),
        Err(InstructionError::InvalidSign)
    );
    assert_eq!(
        Patch::try_from_bytes(&[b'-', 3, b'+']),
        Err(InstructionError::MissingLength)
    );
    assert_eq!(
        Patch::try_from_bytes(&[b'-']),
        Err(InstructionError::MissingLength)
    );
}

#[test]
fn target_length_counts_uncorrected_bytes() {
    // Add "B", Copy [0, 0, 1], Add "BCCCAAA": one copied byte is corrected.
    let patch = Patch::new(b"AAA", b"BAABBCCCAAA");
    assert_eq!(patch.target_length(), 10);
    assert_eq!(patch.apply(b"AAA").unwrap().len(), 11);
}

#[test]
fn decoded_bytes_encode_back() {
    let inputs: [&[u8]; 4] = [
        &[],
        &[b'-', 0],
        &[b'+', 2, 1, 2, b'|', 1, 0, b'-', 255, b'+', 0],
        &[b'|', 3, 255, 0, 1],
    ];
    for bytes in inputs {
        let patch = Patch::try_from_bytes(bytes).unwrap();
        assert_eq!(patch.to_bytes(), bytes);
    }
}

#[test]
fn diff_holds_no_empty_instruction() {
    let (source_phrases, target_phrases) = phrases();
    for percent in [0u8, 50, 100] {
        for (source, target) in source_phrases.iter().zip(target_phrases.iter()) {
            let patch = Patch::with_tolerance(source, target, percent);
            for instruction in patch.instructions() {
                assert!(!instruction.is_empty());
            }
        }
    }
    assert!(Patch::new(b"", b"").instructions().is_empty());
}

#[test]
fn moved_block_is_added_then_copied_with_one_correction() {
    let patch = Patch::new(b"BBAAA", b"AAABBBAA");
    assert_eq!(
        *patch.instructions(),
        vec![
            DeltaInstruction::Add(AddInstruction::new(b"AAA".to_vec())),
            DeltaInstruction::Copy(CopyInstruction::new(vec![0, 0, 1, 0, 0])),
        ]
    );
    assert_eq!(patch.apply(b"BBAAA"), Some(b"AAABBBAA".to_vec()));
    assert_eq!(patch.source_lenth(), 5);
}

#[test]
fn pure_insertion_and_pure_deletion() {
    let insertion = Patch::new(b"", b"AAA");
    assert_eq!(
        *insertion.instructions(),
        vec![DeltaInstruction::Add(AddInstruction::new(b"AAA".to_vec()))]
    );
    assert_eq!(insertion.apply(b""), Some(b"AAA".to_vec()));
    let deletion = Patch::new(b"AAA", b"");
    assert_eq!(
        *deletion.instructions(),
        vec![DeltaInstruction::Remove(RemoveInstruction::new(3))]
    );
    assert_eq!(deletion.apply(b"AAA"), Some(Vec::new()));
    assert_eq!(Patch::new(b"", b"").apply(b""), Some(Vec::new()));
}

#[test]
fn try_apply_names_the_failure() {
    let patch = Patch::new(b"BBAAA", b"AAABBBAA");
    assert_eq!(patch.try_apply(b"BBAAA"), Ok(b"AAABBBAA".to_vec()));
    assert_eq!(patch.try_apply(b"BBAA"), Err(ApplyError::SourceLengthMismatch));
    assert_eq!(patch.try_apply(b""), Err(ApplyError::SourceLengthMismatch));
    assert_eq!(
        ApplyError::SourceLengthMismatch.message(),
        "The source does not have the length that the patch consumes"
    );
    assert_eq!(Patch::new(b"", b"AAA").try_apply(b""), Ok(b"AAA".to_vec()));
    assert_eq!(Patch::new(b"AAA", b"").try_apply(b"AAA"), Ok(b"".to_vec()));
}

fn pseudo_random_bytes(state: &mut u64, length: usize, alphabet: u8) -> Vec<u8> {
    let mut bytes = Vec::with_capacity(length);
    for _ in 0..length {
        *state = state
            .wrapping_mul(6364136223846793005)
            .wrapping_add(1442695040888963407);
        bytes.push(((*state >> 33) % alphabet as u64) as u8);
    }
    bytes
}

#[test]
fn round_trips_on_many_buffers() {
    let mut state = 0x2545F4914F6CDD1Du64;
    for round in 0..120usize {
        let alphabet = [2u8, 3, 7, 200][round % 4];
        let source_length = (round * 7) % 330;
        let target_length = (round * 13) % 290;
        let source = pseudo_random_bytes(&mut state, source_length, alphabet);
        let target = pseudo_random_bytes(&mut state, target_length, alphabet);
        for percent in [0u8, 30, 100] {
            let patch = Patch::with_tolerance(&source, &target, percent);
            assert_eq!(patch.apply(&source), Some(target.clone()));
            assert!(patch.consumes_exactly(source.len()));
            let bytes = patch.to_bytes();
            assert_eq!(bytes.len(), patch.byte_length());
            assert_eq!(Patch::try_from_bytes(&bytes), Ok(patch.clone()));
            for instruction in patch.instructions() {
                assert!(!instruction.is_empty());
            }
        }
    }
}

#[test]
fn diffs_of_small_buffers_byte_for_byte() {
    // Source, target, tolerance, anchors, wire form of the patch.
    let cases: [(&[u8], &[u8], u8, &[u8], &[u8]); 24] = [
        (b"CA", b"ACABCA", 25, b"CA", b"+\x01A|\x02\x00\x00+\x03BCA"),
        (b"B", b"AAABAA", 25, b"B", b"+\x03AAA|\x01\x00+\x02AA"),
        (b"AEEDABAEGB", b"CDBEAECEG", 25, b"DBAEG", b"-\x03+\x01C|\x02\x00\x01+\x06EAECEG-\x05"),
        (b"ABAAAABBB", b"BBBBAAAAB", 100, b"BAAAAB", b"-\x01|\x08\x00\x01\x01\x01\x00\xff\xff\xff+\x01B"),
        (b"BCAACBABABB", b"ACACCBB", 50, b"CACBB", b"-\x01+\x01A|\x06\x00\x00\x02\x00\x00\x01-\x04"),
        (b"GDAGACD", b"FFAAFFCFE", 100, b"AAC", b"-\x02+\x02FF|\x05\x00\xfa\x05\x03\xff+\x02FE"),
        (b"CBABBACABAA", b"BACABB", 100, b"BACAB", b"-\x01|\x06\x00\x00\x01\xff\x01\xff-\x04"),
        (b"BB", b"ABBBBBA", 25, b"BB", b"+\x01A|\x02\x00\x00+\x04BBBA"),
        (b"AA", b"AB", 25, b"A", b"|\x02\x00\x01"),
        (b"ABCB", b"", 50, b"", b"-\x04"),
        (b"ABBBBBABBAA", b"AABAABAAAAABA", 0, b"ABBABA", b"|\x03\x00\xff\x00+\x02AA|\x02\x00\xff-\x01|\x02\x00\xff+\x02AA|\x02\x00\x00-\x01"),
        (b"ABBBBAABB", b"BBBAAA", 50, b"BBBAA", b"-\x01|\x06\x00\x00\x00\xff\x00\x00-\x02"),
        (b"GFBE", b"ABECBFE", 0, b"FE", b"-\x01+\x05ABECB|\x02\x00\x03-\x01"),
        (b"GAFG", b"CECBCGBEEG", 50, b"GG", b"+\x05CECBC|\x03\x00\x01\xff+\x01E|\x01\x00"),
        (b"GGG", b"GBGBGDFGB", 25, b"GGG", b"|\x03\x00\xfb\x00+\x06BGDFGB"),
        (b"FAAGCDC", b"BFECD", 50, b"FCD", b"+\x01B|\x03\x00\x04\x02-\x01+\x01D-\x03"),
        (b"A", b"ABA", 50, b"A", b"|\x01\x00+\x02BA"),
        (b"ABBAABA", b"BABBABBBA", 25, b"ABBABA", b"+\x01B|\x07\x00\x00\x00\x00\x01\x00\x01+\x01A"),
        (b"AB", b"", 25, b"", b"-\x02"),
        (b"DFCBEEBAAGFFA", b"EFBDGBGGB", 0, b"FBBG", b"-\x01+\x01E|\x02\x00\xff+\x02DG|\x02\x00\x02-\x01+\x01G|\x01\x00-\x06"),
        (b"CAC", b"BBCB", 25, b"C", b"+\x02BB|\x02\x00\x01-\x01"),
        (b"BBBAAABAAAAABA", b"ABBAAAABAAB", 0, b"BBAAABAAB", b"+\x01A|\x09\x00\x00\xff\x00\x00\x00\x00\x00\x00-\x03|\x01\x00-\x01"),
        (b"ABBBABA", b"BABAB", 100, b"ABAB", b"+\x01B|\x04\x00\x00\xff\x00-\x03"),
        (b"A", b"BAACBAACCC", 50, b"A", b"+\x01B|\x01\x00+\x08ACBAACCC"),
    ];
    for (source, target, percent, anchors, wire) in cases {
        assert_eq!(Lcs::new(source, target).subsequence(), anchors);
        let patch = Patch::with_tolerance(source, target, percent);
        assert_eq!(patch.to_bytes(), wire);
        assert_eq!(patch.apply(source), Some(target.to_vec()));
    }
}
