use rompatch::error::PatchError;
use rompatch::format::apply_patch_file;
use rompatch::patch::{Hunk, Patch};

fn ips_file(records: &[u8], tail: &[u8]) -> Vec<u8> {
    let mut file = b"PATCH".to_vec();
    file.extend_from_slice(records);
    file.extend_from_slice(b"EOF");
    file.extend_from_slice(tail);
    file
}

#[test]
fn hunk_then_truncation_on_zero_file() {
    let mut target = vec![0u8; 100];
    let patch = Patch::new(vec![Hunk::new(50, vec![0xFF; 10])], Some(60));
    assert_eq!(patch.apply(&mut target), Ok(()));
    assert_eq!(target.len(), 60);
    assert!(target[..50].iter().all(|b| *b == 0x00));
    assert!(target[50..60].iter().all(|b| *b == 0xFF));
}

#[test]
fn parsed_hunk_then_truncation_on_zero_file() {
    let mut records = vec![0x00, 0x00, 0x32, 0x00, 0x0A];
    records.extend_from_slice(&[0xFF; 10]);
    let file = ips_file(&records, &[0x00, 0x00, 0x3C]);
    let mut target = vec![0u8; 100];
    assert_eq!(apply_patch_file(&file, &mut target), Ok(()));
    let mut expected = vec![0u8; 50];
    expected.extend_from_slice(&[0xFF; 10]);
    assert_eq!(target, expected);
}

#[test]
fn parse_reads_hunks_in_file_order() {
    let records = [
        0x00, 0x00, 0x10, 0x00, 0x03, 0xAA, 0xBB, 0xCC, // literal hunk
        0x01, 0x02, 0x03, 0x00, 0x00, 0x00, 0x04, 0x7E, // run-length hunk
    ];
    let patch = Patch::parse(&ips_file(&records, &[])).unwrap();
    assert_eq!(patch.hunks().len(), 2);
    assert_eq!(patch.hunks()[0].offset(), 0x10);
    assert_eq!(patch.hunks()[0].payload(), &[0xAA, 0xBB, 0xCC]);
    assert_eq!(patch.hunks()[1].offset(), 0x010203);
    assert_eq!(patch.hunks()[1].payload(), &[0x7E, 0x7E, 0x7E, 0x7E]);
    assert_eq!(patch.truncation(), None);
}

#[test]
fn buffer_cut_inside_a_hunk_is_malformed_and_target_untouched() {
    let records = [0x00, 0x00, 0x10, 0x00, 0x03, 0xAA, 0xBB, 0xCC];
    let whole = ips_file(&records, &[]);
    let cut = &whole[..5 + 6];
    let mut target = vec![7u8; 32];
    assert_eq!(apply_patch_file(cut, &mut target), Err(PatchError::MalformedPatch));
    assert_eq!(target, vec![7u8; 32]);
    assert!(matches!(Patch::parse(cut), Err(PatchError::MalformedPatch)));
}

#[test]
fn later_hunk_wins_where_two_overlap() {
    let mut target = vec![0u8; 8];
    let patch = Patch::new(
        vec![Hunk::new(1, vec![1, 1, 1, 1]), Hunk::new(3, vec![2, 2, 2])],
        None,
    );
    assert_eq!(patch.apply(&mut target), Ok(()));
    assert_eq!(target, vec![0, 1, 1, 2, 2, 2, 0, 0]);

    let mut target = vec![0u8; 8];
    let swapped = Patch::new(
        vec![Hunk::new(3, vec![2, 2, 2]), Hunk::new(1, vec![1, 1, 1, 1])],
        None,
    );
    assert_eq!(swapped.apply(&mut target), Ok(()));
    assert_eq!(target, vec![0, 1, 1, 1, 1, 2, 0, 0]);
}

#[test]
fn truncation_cuts_what_a_hunk_wrote() {
    let mut target = vec![5u8; 4];
    let patch = Patch::new(vec![Hunk::new(2, vec![9; 6])], Some(5));
    assert_eq!(patch.apply(&mut target), Ok(()));
    assert_eq!(target, vec![5, 5, 9, 9, 9]);
}

#[test]
fn truncation_longer_than_file_pads_with_zeros() {
    let mut target = vec![5u8; 3];
    let patch = Patch::new(vec![Hunk::new(0, vec![1])], Some(6));
    assert_eq!(patch.apply(&mut target), Ok(()));
    assert_eq!(target, vec![1, 5, 5, 0, 0, 0]);
}

#[test]
fn hunk_beyond_end_pads_the_gap_with_zeros() {
    let mut target = vec![3u8; 2];
    let hunk = Hunk::new(5, vec![7, 8]);
    assert_eq!(hunk.apply(&mut target), Ok(()));
    assert_eq!(target, vec![3, 3, 0, 0, 0, 7, 8]);
}

#[test]
fn hunk_at_end_appends() {
    let mut target = vec![3u8; 2];
    assert_eq!(Hunk::new(2, vec![4]).apply(&mut target), Ok(()));
    assert_eq!(target, vec![3, 3, 4]);
}

#[test]
fn hunk_inside_file_keeps_length() {
    let mut target = vec![1, 2, 3, 4, 5];
    assert_eq!(Hunk::new(1, vec![9, 9]).apply(&mut target), Ok(()));
    assert_eq!(target, vec![1, 9, 9, 4, 5]);
}

#[test]
fn empty_payload_changes_nothing_even_beyond_end() {
    let mut target = vec![1, 2, 3];
    assert_eq!(Hunk::new(100, vec![]).apply(&mut target), Ok(()));
    assert_eq!(target, vec![1, 2, 3]);
    assert_eq!(Hunk::new(u64::MAX, vec![]).apply(&mut target), Ok(()));
    assert_eq!(target, vec![1, 2, 3]);
}

#[test]
fn hunk_that_does_not_fit_is_an_io_failure_and_writes_nothing() {
    let mut target = vec![1, 2, 3];
    assert_eq!(Hunk::new(u64::MAX, vec![1]).apply(&mut target), Err(PatchError::IoFailure));
    assert_eq!(target, vec![1, 2, 3]);
}

#[test]
fn hunk_that_ends_past_the_largest_buffer_does_not_fit() {
    let mut target = vec![1, 2, 3];
    let hunk = Hunk::new(isize::MAX as u64, vec![1]);
    assert_eq!(hunk.apply(&mut target), Err(PatchError::IoFailure));
    let patch = Patch::new(vec![Hunk::new(0, vec![9])], Some(isize::MAX as u64 + 1));
    assert_eq!(patch.apply(&mut target), Err(PatchError::IoFailure));
    assert_eq!(target, vec![9, 2, 3]);
}

#[test]
fn failure_keeps_earlier_hunks_and_skips_the_rest() {
    let mut target = vec![0u8; 4];
    let patch = Patch::new(
        vec![
            Hunk::new(0, vec![1]),
            Hunk::new(u64::MAX - 1, vec![2, 2, 2]),
            Hunk::new(1, vec![3]),
        ],
        Some(2),
    );
    assert_eq!(patch.apply(&mut target), Err(PatchError::IoFailure));
    assert_eq!(target, vec![1, 0, 0, 0]);
}

#[test]
fn empty_patch_leaves_the_file() {
    let mut target = vec![4, 5, 6];
    assert_eq!(Patch::new(vec![], None).apply(&mut target), Ok(()));
    assert_eq!(target, vec![4, 5, 6]);
}

#[test]
fn truncation_to_zero_empties_the_file() {
    let mut target = vec![4, 5, 6];
    assert_eq!(Patch::new(vec![Hunk::new(1, vec![1])], Some(0)).apply(&mut target), Ok(()));
    assert_eq!(target, Vec::<u8>::new());
}

#[test]
fn two_fresh_copies_come_out_the_same() {
    let base: Vec<u8> = (0u8..64).collect();
    let patch = Patch::new(
        vec![Hunk::new(10, vec![0xAA; 20]), Hunk::new(70, vec![0xBB; 3]), Hunk::new(25, vec![1, 2])],
        Some(72),
    );
    let mut first = base.clone();
    let mut second = base.clone();
    assert_eq!(patch.apply(&mut first), Ok(()));
    assert_eq!(patch.apply(&mut second), Ok(()));
    assert_eq!(first, second);
    assert_eq!(first.len(), 72);
    assert_eq!(&first[..10], &base[..10]);
    assert_eq!(&first[25..27], &[1, 2]);
    assert_eq!(&first[64..70], &[0; 6]);
}

#[test]
fn patching_the_output_again_changes_nothing() {
    let base: Vec<u8> = (0u8..32).collect();
    let patch = Patch::new(
        vec![Hunk::new(4, vec![9; 8]), Hunk::new(40, vec![7; 2]), Hunk::new(6, vec![1])],
        Some(41),
    );
    let mut once = base.clone();
    assert_eq!(patch.apply(&mut once), Ok(()));
    let mut twice = once.clone();
    assert_eq!(patch.apply(&mut twice), Ok(()));
    assert_eq!(once, twice);
}

#[test]
fn getters_give_back_what_was_put_in() {
    let patch = Patch::new(vec![Hunk::new(7, vec![1, 2]), Hunk::new(3, vec![])], Some(9));
    assert_eq!(patch.hunks().len(), 2);
    assert_eq!(patch.hunks()[0].offset(), 7);
    assert_eq!(patch.hunks()[0].payload(), &[1, 2]);
    assert_eq!(patch.hunks()[1].offset(), 3);
    assert!(patch.hunks()[1].payload().is_empty());
    assert_eq!(patch.truncation(), Some(9));
    assert_eq!(Patch::new(vec![], None).truncation(), None);
}

#[test]
fn error_messages() {
    assert_eq!(PatchError::MalformedPatch.message(), "malformed patch");
    assert_eq!(PatchError::IoFailure.message(), "i/o failure");
    assert_eq!(PatchError::PathResolution.message(), "cannot derive the output path");
}
