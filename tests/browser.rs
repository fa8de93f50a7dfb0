use volume_browser::dispatch::{DetailBatch, DisplayState, listing_batch};
use volume_browser::display::{listing_items, listing_sections};
use volume_browser::enrich::{Attribute, StandardTimes, classify_attributes, detail_sections};
use volume_browser::hardlink::{LinkWalk, PLACEHOLDER};
use volume_browser::listing::{ListedFile, list_directory};
use volume_browser::names::{FileNameAttr, FileRecordEntry, NameError, Namespace};
use volume_browser::navigation::{NavigationError, Navigator};

fn name(ns: Namespace, text: &str, parent: u64) -> FileNameAttr {
    FileNameAttr { namespace: ns, name: text.to_string(), parent, is_directory: false }
}

fn dir_name(ns: Namespace, text: &str, parent: u64) -> FileNameAttr {
    FileNameAttr { namespace: ns, name: text.to_string(), parent, is_directory: true }
}

fn record(number: u64, names: Vec<FileNameAttr>) -> FileRecordEntry {
    FileRecordEntry { record_number: number, names, attribute_flags: 0, data_size: 0 }
}

fn sized(number: u64, names: Vec<FileNameAttr>, flags: u32, size: u64) -> FileRecordEntry {
    FileRecordEntry { record_number: number, names, attribute_flags: flags, data_size: size }
}

/// Runs a walk to its end, fetching ancestors from `volume`.
fn walk_path(own: u64, link: &FileNameAttr, volume: &[FileRecordEntry]) -> String {
    let mut w = LinkWalk::start(own, link);
    let mut steps = 0;
    while let Some(p) = w.pending() {
        let fetched = volume
            .iter()
            .find(|r| r.record_number == p)
            .map(|r| record(r.record_number, r.names.iter().map(|n| FileNameAttr {
                namespace: n.namespace,
                name: n.name.clone(),
                parent: n.parent,
                is_directory: n.is_directory,
            }).collect()));
        w.advance(fetched);
        steps += 1;
        assert!(steps <= volume.len() + 1, "walk did not end");
    }
    w.path()
}

#[test]
fn win32_name_preferred_over_dos_name() {
    let rec = record(40, vec![
        name(Namespace::Dos, "REPORT~1.DOC", 7),
        name(Namespace::Win32, "Report.docx", 7),
    ]);
    let r = rec.resolve_best_name(7).unwrap();
    assert_eq!(r.name, "Report.docx");
    assert_eq!(r.namespace, Namespace::Win32);
}

#[test]
fn combined_namespace_taken_before_other_namespaces() {
    let rec = record(41, vec![
        name(Namespace::Posix, "posix", 7),
        name(Namespace::Win32AndDos, "BOTH.TXT", 7),
    ]);
    assert_eq!(rec.resolve_best_name(7).unwrap().name, "BOTH.TXT");
}

#[test]
fn any_namespace_name_resolves() {
    let rec = record(42, vec![name(Namespace::Posix, "only-posix", 7)]);
    let r = rec.resolve_best_name(7).unwrap();
    assert_eq!(r.name, "only-posix");
    assert_eq!(r.parent, 7);
}

#[test]
fn no_name_under_parent_fails() {
    let rec = record(43, vec![
        name(Namespace::Win32, "elsewhere.txt", 8),
        name(Namespace::Dos, "ELSEWH~1.TXT", 8),
    ]);
    match rec.resolve_best_name(7) {
        Err(e) => assert_eq!(e, NameError::NoName { record_number: 43 }),
        Ok(_) => panic!("resolved a name under the wrong parent"),
    }
}

#[test]
fn listing_deduplicates_and_skips_unnamed() {
    let dir = 30;
    let entries = vec![
        record(100, vec![name(Namespace::Win32, "a.txt", dir), name(Namespace::Dos, "A~1.TXT", dir)]),
        record(100, vec![name(Namespace::Win32, "a.txt", dir), name(Namespace::Dos, "A~1.TXT", dir)]),
        record(101, vec![name(Namespace::Win32, "other.txt", 31)]),
        record(102, vec![name(Namespace::Posix, "b", dir)]),
        record(100, vec![name(Namespace::Win32, "a.txt", dir)]),
    ];
    let listed = list_directory(dir, entries);
    assert_eq!(listed.len(), 2);
    assert_eq!(listed[0].record.record_number, 100);
    assert_eq!(listed[0].name.name, "a.txt");
    assert_eq!(listed[1].record.record_number, 102);
    assert_eq!(listed[1].name.name, "b");
}

#[test]
fn empty_directory_lists_nothing() {
    assert!(list_directory(5, vec![]).is_empty());
}

#[test]
fn listing_rows_carry_position_size_and_flags() {
    let dir = 30;
    let entries = vec![
        sized(100, vec![name(Namespace::Win32, "a.txt", dir)], 0x0001 | 0x0020, 1024),
        sized(101, vec![dir_name(Namespace::Win32, "sub", dir)], 0, 500),
    ];
    let listed = list_directory(dir, entries);
    let items = listing_items(&listed);
    assert_eq!(items.len(), 2);
    assert_eq!(items[0].stable_id, 0);
    assert_eq!(items[1].stable_id, 1);
    assert_eq!(items[0].display_name, "a.txt");
    assert_eq!(items[0].size_summary, "1.0 KB");
    assert_eq!(items[1].size_summary, "500 B");
    assert_eq!(items[0].attribute_summary, "READ_ONLY | ARCHIVE");
    assert_eq!(items[1].attribute_summary, "(empty)");
    assert!(!items[0].is_directory);
    assert!(items[1].is_directory);
    let sections = listing_sections(&listed);
    assert_eq!(sections[0].len(), 1);
    assert_eq!(sections[0][0].headline, "General");
    assert_eq!(sections[0][0].values[0].name, "Filename");
    assert_eq!(sections[0][0].values[0].value, "a.txt");
    assert_eq!(sections[0][0].values[1].name, "Size");
    assert_eq!(sections[0][0].values[1].value, "1.0 KB");
}

#[test]
fn hard_link_path_goes_through_other_parent() {
    // Root (5) holds DirA (10) and DirB (20); file 100 is linked from both.
    let volume = vec![
        record(5, vec![dir_name(Namespace::Win32AndDos, ".", 5)]),
        record(10, vec![dir_name(Namespace::Win32, "DirA", 5)]),
        record(20, vec![dir_name(Namespace::Win32, "Sub", 5), dir_name(Namespace::Dos, "SUB~1", 5)]),
    ];
    let attrs = vec![
        Attribute::FileName(name(Namespace::Win32, "in-a.txt", 10)),
        Attribute::FileName(name(Namespace::Win32, "in-b.txt", 20)),
        Attribute::Unsupported(0x80),
    ];
    let c = classify_attributes(10, attrs);
    assert_eq!(c.local_names.len(), 1);
    assert_eq!(c.hard_links.len(), 1);
    let path = walk_path(100, &c.hard_links[0], &volume);
    assert_eq!(path, ".\\Sub\\in-b.txt");
    assert!(path.ends_with("\\Sub\\in-b.txt"));
}

#[test]
fn ancestor_cycle_ends_walk_with_placeholder() {
    // 20's parent is 21 and 21's parent is 20 again.
    let volume = vec![
        record(20, vec![dir_name(Namespace::Win32, "loop-a", 21)]),
        record(21, vec![dir_name(Namespace::Win32, "loop-b", 20)]),
    ];
    let link = name(Namespace::Win32, "f.txt", 20);
    let path = walk_path(100, &link, &volume);
    assert_eq!(path, format!("{}\\loop-b\\loop-a\\f.txt", PLACEHOLDER));
}

#[test]
fn missing_ancestor_ends_walk_with_placeholder() {
    let link = name(Namespace::Win32, "f.txt", 77);
    let path = walk_path(100, &link, &[]);
    assert_eq!(path, "[[no file name found]]\\f.txt");
}

#[test]
fn ancestor_name_of_link_namespace_preferred() {
    let volume = vec![
        record(5, vec![dir_name(Namespace::Win32AndDos, ".", 5)]),
        record(20, vec![dir_name(Namespace::Win32, "LongName", 5), dir_name(Namespace::Dos, "LONGNA~1", 5)]),
    ];
    let link = name(Namespace::Dos, "F~1.TXT", 20);
    assert_eq!(walk_path(100, &link, &volume), ".\\LONGNA~1\\F~1.TXT");
}

#[test]
fn unsupported_attributes_are_skipped() {
    let t = StandardTimes { creation: 1, access: 2, modification: 3, mft_modification: 4 };
    let attrs = vec![
        Attribute::Unsupported(0x80),
        Attribute::StandardInformation(t),
        Attribute::ObjectId("id-1".to_string()),
        Attribute::Unsupported(0x90),
    ];
    let c = classify_attributes(10, attrs);
    assert_eq!(c.times, vec![t]);
    assert_eq!(c.object_ids, vec!["id-1".to_string()]);
    assert!(c.local_names.is_empty());
    assert!(c.hard_links.is_empty());
}

#[test]
fn detail_sections_hold_timestamps_and_links() {
    let unix_epoch = 116_444_736_000_000_000u64;
    let f = ListedFile {
        name: name(Namespace::Win32, "a.txt", 10),
        record: sized(100, vec![name(Namespace::Win32, "a.txt", 10)], 0, 10),
    };
    let attrs = vec![
        Attribute::StandardInformation(StandardTimes {
            creation: 0,
            access: unix_epoch,
            modification: unix_epoch,
            mft_modification: unix_epoch,
        }),
    ];
    let c = classify_attributes(10, attrs);
    let s = detail_sections(&f, &c, &vec!["\\Sub\\b.txt".to_string()]);
    assert_eq!(s.len(), 3);
    assert_eq!(s[0].headline, "General");
    assert_eq!(s[0].values[1].value, "10 B");
    assert_eq!(s[1].headline, "Timestamps");
    assert_eq!(s[1].values[0].name, "Creation");
    assert_eq!(s[1].values[0].value, "1601-01-01 00:00:00 UTC");
    assert_eq!(s[1].values[1].name, "Last Access");
    assert_eq!(s[1].values[1].value, "1970-01-01 00:00:00 UTC");
    assert_eq!(s[1].values[3].name, "MFT Record Modification");
    assert_eq!(s[2].headline, "Hard Links");
    assert_eq!(s[2].values[0].value, "\\Sub\\b.txt");
}

#[test]
fn move_to_parent_at_root_changes_nothing() {
    let mut nav = Navigator::new(5u64);
    assert!(!nav.move_to_parent());
    assert_eq!(nav.depth(), 1);
    assert_eq!(nav.generation(), 0);
    assert_eq!(*nav.current(), 5);
}

#[test]
fn entering_missing_directory_changes_nothing() {
    let mut nav = Navigator::new(5u64);
    assert_eq!(nav.enter_directory(Some(10)), Ok(()));
    assert_eq!(nav.enter_directory(None), Err(NavigationError::NotFound));
    assert_eq!(nav.depth(), 2);
    assert_eq!(nav.generation(), 1);
    assert_eq!(*nav.current(), 10);
}

#[test]
fn enter_then_leave_counts_generations() {
    let mut nav = Navigator::new(5u64);
    nav.enter_directory(Some(10)).unwrap();
    nav.enter_directory(Some(20)).unwrap();
    assert_eq!(nav.depth(), 3);
    assert!(nav.move_to_parent());
    assert_eq!(*nav.current(), 10);
    assert_eq!(nav.generation(), 3);
}

#[test]
fn stale_detail_batch_is_dropped() {
    let dir = 30;
    let first = list_directory(dir, vec![record(100, vec![name(Namespace::Win32, "old.txt", dir)])]);
    let second = list_directory(dir, vec![record(200, vec![name(Namespace::Win32, "new.txt", dir)])]);
    let mut display = DisplayState::new();
    assert!(display.apply_listing(listing_batch(1, &first)));
    assert!(display.apply_listing(listing_batch(2, &second)));
    let stale = DetailBatch { generation: 1, sections: listing_sections(&first) };
    assert!(!display.apply_details(stale));
    assert_eq!(display.generation, 2);
    assert_eq!(display.items[0].display_name, "new.txt");
    assert_eq!(display.sections[0][0].values[0].value, "new.txt");
    let current = DetailBatch { generation: 2, sections: vec![vec![]] };
    assert!(display.apply_details(current));
    assert!(display.sections[0].is_empty());
}

#[test]
fn older_listing_batch_is_dropped() {
    let dir = 30;
    let listed = list_directory(dir, vec![record(100, vec![name(Namespace::Win32, "x", dir)])]);
    let mut display = DisplayState::new();
    assert!(display.apply_listing(listing_batch(3, &listed)));
    assert!(!display.apply_listing(listing_batch(2, &vec![])));
    assert_eq!(display.items.len(), 1);
    assert_eq!(display.generation, 3);
}
