use bytedelta::lcs::Lcs;

#[test]
fn lcs_new() {
    let lcs = Lcs::new(&[0, 0, 0], &[0, 0, 0]);
    assert_eq!(lcs.table().iter().flatten().sum::<usize>(), 14);
}

#[test]
fn length() {
    let mut lcs = Lcs::new(&[], &[]);
    assert_eq!(lcs.length(), 0);

    lcs = Lcs::new(&[0], &[0]);
    assert_eq!(lcs.length(), 1);
}

#[test]
fn subsequence() {
    let lcs = Lcs::new(&[0, 1, 2], &[0, 1, 2]);
    assert_eq!(lcs.subsequence(), &[0, 1, 2]);

    let lcs = Lcs::new(b"XMJYAUZ", b"MZJAWXU");
    assert_eq!(lcs.subsequence(), b"MJAU");

    let lcs = Lcs::new(b"AAA", b"");
    assert_eq!(lcs.subsequence(), b"");
}

#[test]
fn lcs_table_shape_and_entries() {
    let lcs = Lcs::new(b"AB", b"BAB");
    let table = lcs.table();
    assert_eq!(table.len(), 3);
    assert_eq!(table[0], vec![0, 0, 0, 0]);
    assert_eq!(table[1], vec![0, 0, 1, 1]);
    assert_eq!(table[2], vec![0, 1, 1, 2]);
    assert_eq!(lcs.length(), 2);
    assert_eq!(lcs.subsequence(), b"AB");
}

#[test]
fn lcs_tie_shortens_the_source_first() {
    // "AB" against "BA": both "A" and "B" are longest; stepping the source
    // index back on the tie leaves "A".
    let lcs = Lcs::new(b"AB", b"BA");
    assert_eq!(lcs.length(), 1);
    assert_eq!(lcs.subsequence(), b"A");
}

fn embeds(sub: &[u8], of: &[u8]) -> bool {
    let mut next = 0;
    for byte in of {
        if next < sub.len() && sub[next] == *byte {
            next += 1;
        }
    }
    next == sub.len()
}

#[test]
fn lcs_is_a_subsequence_of_both_inputs() {
    let pairs: [(&[u8], &[u8]); 4] = [
        (b"the quick brown fox", b"a quick red fox jumps"),
        (b"", b"abc"),
        (b"abcabcabc", b"cbacbacba"),
        (b"aaaa", b"aa"),
    ];
    for (source, target) in pairs {
        let lcs = Lcs::new(source, target);
        let chosen = lcs.subsequence();
        assert!(embeds(&chosen, source));
        assert!(embeds(&chosen, target));
        assert_eq!(chosen.len(), lcs.length());
        assert_eq!(lcs.table()[source.len()][target.len()], lcs.length());
    }
}

#[test]
fn lcs_clone_and_equality() {
    let lcs = Lcs::new(b"XMJYAUZ", b"MZJAWXU");
    let copy = lcs.clone();
    assert_eq!(copy, lcs);
    assert_eq!(copy.subsequence(), b"MJAU");
    assert_ne!(lcs, Lcs::new(b"XMJYAUZ", b"MZJAWX"));
}
