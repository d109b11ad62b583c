use rompatch::error::PatchError;
use rompatch::format::apply_patch_file;
use rompatch::patch::Patch;

fn with_frame(records: &[u8], tail: &[u8]) -> Vec<u8> {
    let mut file = b"PATCH".to_vec();
    file.extend_from_slice(records);
    file.extend_from_slice(b"EOF");
    file.extend_from_slice(tail);
    file
}

#[test]
fn smallest_patch_has_no_hunks() {
    let patch = Patch::parse(b"PATCHEOF").unwrap();
    assert!(patch.hunks().is_empty());
    assert_eq!(patch.truncation(), None);
}

#[test]
fn truncation_is_read_from_three_bytes_after_the_end_marker() {
    let patch = Patch::parse(&with_frame(&[], &[0x01, 0x02, 0x03])).unwrap();
    assert!(patch.hunks().is_empty());
    assert_eq!(patch.truncation(), Some(0x010203));
}

#[test]
fn two_bytes_after_the_end_marker_are_no_truncation() {
    let patch = Patch::parse(&with_frame(&[], &[0x01, 0x02])).unwrap();
    assert_eq!(patch.truncation(), None);
}

#[test]
fn largest_offset_and_payload_are_within_the_format() {
    let mut records = vec![0xFF, 0xFF, 0xFF, 0xFF, 0xFF];
    records.extend_from_slice(&vec![0x11; 0xFFFF]);
    let patch = Patch::parse(&with_frame(&records, &[0xFF, 0xFF, 0xFF])).unwrap();
    assert_eq!(patch.hunks().len(), 1);
    assert_eq!(patch.hunks()[0].offset(), 0xFF_FFFF);
    assert_eq!(patch.hunks()[0].payload().len(), 0xFFFF);
    assert_eq!(patch.truncation(), Some(0xFF_FFFF));
}

#[test]
fn run_length_hunk_repeats_one_byte() {
    let records = [0x00, 0x00, 0x02, 0x00, 0x00, 0x00, 0x03, 0x5A];
    let patch = Patch::parse(&with_frame(&records, &[])).unwrap();
    assert_eq!(patch.hunks().len(), 1);
    assert_eq!(patch.hunks()[0].offset(), 2);
    assert_eq!(patch.hunks()[0].payload(), &[0x5A, 0x5A, 0x5A]);
}

#[test]
fn run_of_length_zero_gives_an_empty_payload() {
    let records = [0x00, 0x00, 0x02, 0x00, 0x00, 0x00, 0x00, 0x5A];
    let patch = Patch::parse(&with_frame(&records, &[])).unwrap();
    assert_eq!(patch.hunks().len(), 1);
    assert!(patch.hunks()[0].payload().is_empty());
    let mut target = vec![1, 2];
    assert_eq!(patch.apply(&mut target), Ok(()));
    assert_eq!(target, vec![1, 2]);
}

#[test]
fn wrong_signature_is_malformed() {
    assert!(matches!(Patch::parse(b"PATCXEOF"), Err(PatchError::MalformedPatch)));
    assert!(matches!(Patch::parse(b"patchEOF"), Err(PatchError::MalformedPatch)));
    assert!(matches!(Patch::parse(b""), Err(PatchError::MalformedPatch)));
    assert!(matches!(Patch::parse(b"PATC"), Err(PatchError::MalformedPatch)));
}

#[test]
fn missing_end_marker_is_malformed() {
    assert!(matches!(Patch::parse(b"PATCH"), Err(PatchError::MalformedPatch)));
    let records = [0x00, 0x00, 0x10, 0x00, 0x01, 0xAA];
    let mut file = b"PATCH".to_vec();
    file.extend_from_slice(&records);
    assert!(matches!(Patch::parse(&file), Err(PatchError::MalformedPatch)));
}

#[test]
fn every_cut_inside_a_hunk_is_malformed() {
    let records = [0x00, 0x00, 0x10, 0x00, 0x03, 0xAA, 0xBB, 0xCC];
    let whole = with_frame(&records, &[]);
    assert!(Patch::parse(&whole).is_ok());
    for cut in 5..5 + records.len() {
        assert!(matches!(Patch::parse(&whole[..cut]), Err(PatchError::MalformedPatch)));
    }
}

#[test]
fn malformed_patch_file_leaves_the_target() {
    let mut target = vec![9u8; 16];
    assert_eq!(apply_patch_file(b"not a patch", &mut target), Err(PatchError::MalformedPatch));
    assert_eq!(target, vec![9u8; 16]);
}

#[test]
fn patch_file_is_parsed_and_applied() {
    let records = [
        0x00, 0x00, 0x01, 0x00, 0x02, 0xAA, 0xBB, // literal at 1
        0x00, 0x00, 0x06, 0x00, 0x00, 0x00, 0x02, 0xCC, // run at 6
    ];
    let mut target = vec![0u8; 4];
    assert_eq!(apply_patch_file(&with_frame(&records, &[]), &mut target), Ok(()));
    assert_eq!(target, vec![0, 0xAA, 0xBB, 0, 0, 0, 0xCC, 0xCC]);
}

#[test]
fn one_byte_after_the_truncation_is_ignored() {
    let patch = Patch::parse(&with_frame(&[], &[0x00, 0x00, 0x10, 0xEE])).unwrap();
    assert_eq!(patch.truncation(), Some(0x10));
    assert!(patch.hunks().is_empty());
}

#[test]
fn end_marker_with_a_whole_record_behind_it_reads_as_a_hunk() {
    // The three bytes of the marker are also an offset: with enough bytes
    // behind them the parser takes a hunk, and then misses the marker.
    let file = with_frame(&[], &[0x00, 0x00, 0x10, 0xEE, 0xEE]);
    assert!(matches!(Patch::parse(&file), Err(PatchError::MalformedPatch)));
    let mut again = file.clone();
    again.extend_from_slice(b"EOF");
    let patch = Patch::parse(&again).unwrap();
    assert_eq!(patch.hunks().len(), 1);
    assert_eq!(patch.hunks()[0].offset(), 0x45_4F46);
    assert_eq!(patch.hunks()[0].payload(), vec![0xEE; 0x10EE].as_slice());
}

#[test]
fn cut_behind_an_offset_that_spells_the_end_marker_still_parses() {
    // A hunk at offset 0x454F46 begins with the bytes of the end marker: a
    // buffer cut right behind them is a whole patch without hunks.
    let records = [0x45, 0x4F, 0x46, 0x00, 0x01, 0xAA];
    let whole = with_frame(&records, &[]);
    let patch = Patch::parse(&whole).unwrap();
    assert_eq!(patch.hunks().len(), 1);
    assert_eq!(patch.hunks()[0].offset(), 0x45_4F46);
    let cut = Patch::parse(&whole[..8]).unwrap();
    assert!(cut.hunks().is_empty());
    assert_eq!(cut.truncation(), None);
}
