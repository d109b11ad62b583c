use rompatch::batch::{archive_kind, next_step, report_failure, ArchiveKind, Step, WalkItem};
use rompatch::entry::{
    is_7z_file, is_archive_file, is_ips_file, is_rar_file, is_zip_file, Entry, EntryKind,
};
use rompatch::text::{chars_of, ends_with_ignoring_case, find_last, holds_from, to_ascii_upper};

fn named(kind: EntryKind, name: &str) -> Entry {
    Entry::new(kind, format!("downloads/{}", name), Some("downloads".to_string()), Some(name.to_string()))
}

fn nameless(kind: EntryKind) -> Entry {
    Entry::new(kind, "downloads/\u{FFFD}".to_string(), Some("downloads".to_string()), None)
}

#[test]
fn entry_getters() {
    let entry = named(EntryKind::File, "a.zip");
    assert_eq!(entry.kind(), EntryKind::File);
    assert_eq!(entry.path(), "downloads/a.zip");
    assert_eq!(entry.parent(), Some("downloads"));
    assert_eq!(entry.name(), Some("a.zip"));
    let bare = Entry::new(EntryKind::Other, String::new(), None, None);
    assert_eq!(bare.kind(), EntryKind::Other);
    assert_eq!(bare.parent(), None);
    assert_eq!(bare.name(), None);
}

#[test]
fn zip_files_by_name_in_any_case() {
    assert!(is_zip_file(&named(EntryKind::File, "hack.zip")));
    assert!(is_zip_file(&named(EntryKind::File, "HACK.ZIP")));
    assert!(is_zip_file(&named(EntryKind::File, "hack.ZiP")));
    assert!(is_zip_file(&named(EntryKind::File, ".zip")));
    assert!(!is_zip_file(&named(EntryKind::File, "hack.zip.txt")));
    assert!(!is_zip_file(&named(EntryKind::File, "hackzip")));
    assert!(!is_zip_file(&named(EntryKind::File, "zip")));
    assert!(!is_zip_file(&named(EntryKind::File, "hack.rar")));
    assert!(!is_zip_file(&nameless(EntryKind::File)));
}

#[test]
fn directories_pass_every_filter() {
    for dir in [named(EntryKind::Dir, "0001-5-Title"), nameless(EntryKind::Dir)] {
        assert!(is_zip_file(&dir));
        assert!(is_rar_file(&dir));
        assert!(is_7z_file(&dir));
        assert!(is_archive_file(&dir));
        assert!(is_ips_file(&dir));
    }
}

#[test]
fn rar_7z_and_ips_files_by_name() {
    assert!(is_rar_file(&named(EntryKind::File, "hack.Rar")));
    assert!(!is_rar_file(&named(EntryKind::File, "hack.zip")));
    assert!(is_7z_file(&named(EntryKind::File, "hack.7z")));
    assert!(is_7z_file(&named(EntryKind::File, "hack.7Z")));
    assert!(!is_7z_file(&named(EntryKind::File, "hack.z7")));
    assert!(is_ips_file(&named(EntryKind::File, "Hyper Metroid.ips")));
    assert!(is_ips_file(&named(EntryKind::Other, "link.IPS")));
    assert!(!is_ips_file(&named(EntryKind::File, "readme.txt")));
    assert!(!is_ips_file(&named(EntryKind::File, "ips")));
}

#[test]
fn archives_are_any_of_the_three() {
    assert!(is_archive_file(&named(EntryKind::File, "a.zip")));
    assert!(is_archive_file(&named(EntryKind::File, "a.rar")));
    assert!(is_archive_file(&named(EntryKind::File, "a.7z")));
    assert!(!is_archive_file(&named(EntryKind::File, "a.ips")));
    assert!(!is_archive_file(&nameless(EntryKind::File)));
}

#[test]
fn unpacker_is_chosen_by_name() {
    assert_eq!(archive_kind(&named(EntryKind::File, "a.ZIP")), Some(ArchiveKind::Zip));
    assert_eq!(archive_kind(&named(EntryKind::File, "a.rar")), Some(ArchiveKind::Rar));
    assert_eq!(archive_kind(&named(EntryKind::File, "a.7z")), Some(ArchiveKind::SevenZ));
    assert_eq!(archive_kind(&named(EntryKind::File, "a.ips")), None);
    assert_eq!(archive_kind(&named(EntryKind::Dir, "a.rar")), Some(ArchiveKind::Zip));
}

#[test]
fn action_runs_on_regular_files_only() {
    assert!(matches!(next_step(&WalkItem::Found(named(EntryKind::File, "a.ips"))), Step::Act));
    assert!(matches!(next_step(&WalkItem::Found(named(EntryKind::File, "readme"))), Step::Act));
    assert!(matches!(next_step(&WalkItem::Found(named(EntryKind::Dir, "a.ips"))), Step::Pass));
    assert!(matches!(next_step(&WalkItem::Found(named(EntryKind::Other, "a.ips"))), Step::Pass));
}

#[test]
fn unreadable_place_is_reported() {
    match next_step(&WalkItem::Unreadable("permission denied".to_string())) {
        Step::Report(line) => {
            assert_eq!(line, "Skipping directory due to error: permission denied")
        }
        other => panic!("unexpected step {:?}", other),
    }
}

#[test]
fn failed_action_is_reported_with_its_path() {
    let entry = named(EntryKind::File, "bad.ips");
    assert_eq!(
        report_failure(&entry, "malformed patch"),
        "Hit an error on downloads/bad.ips, but continuing: malformed patch"
    );
}

#[test]
fn text_helpers() {
    assert_eq!(chars_of("aé."), vec!['a', 'é', '.']);
    assert_eq!(chars_of(""), Vec::<char>::new());
    assert_eq!(find_last(&['a', '.', 'b', '.', 'c'], '.'), Some(3));
    assert_eq!(find_last(&['.'], '.'), Some(0));
    assert_eq!(find_last(&['a', 'b'], '.'), None);
    assert_eq!(find_last(&[], '.'), None);
    assert!(holds_from(&['a', '/', 'b'], 0, '/'));
    assert!(holds_from(&['a', '/', 'b'], 1, '/'));
    assert!(!holds_from(&['a', '/', 'b'], 2, '/'));
    assert!(!holds_from(&['a', '/', 'b'], 3, '/'));
    assert!(!holds_from(&['a', '/', 'b'], 9, '/'));
    assert!(!holds_from(&[], 0, '/'));
    assert_eq!(to_ascii_upper('a'), 'A');
    assert_eq!(to_ascii_upper('z'), 'Z');
    assert_eq!(to_ascii_upper('Q'), 'Q');
    assert_eq!(to_ascii_upper('7'), '7');
    assert_eq!(to_ascii_upper('é'), 'é');
    assert_eq!(to_ascii_upper('{'), '{');
    assert_eq!(to_ascii_upper('`'), '`');
    for code in 0u32..0x11000 {
        if let Some(c) = char::from_u32(code) {
            assert_eq!(to_ascii_upper(c), c.to_ascii_uppercase());
        }
    }
    assert!(ends_with_ignoring_case("a.zip", ".ZIP"));
    assert!(!ends_with_ignoring_case("a.ZIP", ".zip"));
    assert!(ends_with_ignoring_case("", ""));
    assert!(!ends_with_ignoring_case("ip", ".ZIP"));
}
