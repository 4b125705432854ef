use cache_detector::category::CacheCategory;
use cache_detector::descriptor::{EntryKind, FileStat};
use cache_detector::scan::{Scan, ScanAction};
use cache_detector::walk::{Entry, Walker};

fn regular(size: u64) -> Option<FileStat> {
    Some(FileStat { kind: EntryKind::File, size })
}

fn directory() -> Option<FileStat> {
    Some(FileStat { kind: EntryKind::Directory, size: 4096 })
}

fn entry(path: &str, stat: Option<FileStat>) -> Entry {
    Entry { path: path.to_string(), stat }
}

fn inspected(action: ScanAction) -> String {
    match action {
        ScanAction::Inspect(path) => path,
        other => panic!("no path to inspect: {:?}", other),
    }
}

#[test]
fn walk_starts_at_the_root() {
    let mut walker = Walker::new("root".to_string());
    assert!(!walker.is_finished());
    assert_eq!(walker.next_directory(), Some("root".to_string()));
    assert!(walker.is_finished());
    assert_eq!(walker.next_directory(), None);
    assert!(walker.into_files().is_empty());
}

#[test]
fn walk_sorts_entries_by_kind() {
    let mut walker = Walker::new("root".to_string());
    assert_eq!(walker.next_directory(), Some("root".to_string()));
    walker.record(&vec![
        entry("root/a.txt", regular(1)),
        entry("root/sub", directory()),
        entry("root/broken", None),
        entry("root/socket", Some(FileStat { kind: EntryKind::Other, size: 0 })),
        entry("root/b.log", regular(2)),
        entry("root/cache", directory()),
    ]);
    assert!(!walker.is_finished());
    assert_eq!(walker.next_directory(), Some("root/cache".to_string()));
    walker.record(&vec![entry("root/cache/c.bin", regular(3))]);
    assert_eq!(walker.next_directory(), Some("root/sub".to_string()));
    walker.record(&Vec::new());
    assert_eq!(walker.next_directory(), None);
    assert!(walker.is_finished());
    assert_eq!(
        walker.into_files(),
        vec![
            "root/a.txt".to_string(),
            "root/b.log".to_string(),
            "root/cache/c.bin".to_string()
        ]
    );
}

#[test]
fn walk_of_an_empty_tree_finds_nothing() {
    let mut walker = Walker::new(".".to_string());
    assert_eq!(walker.next_directory(), Some(".".to_string()));
    walker.record(&Vec::new());
    assert!(walker.is_finished());
    assert!(walker.into_files().is_empty());
}

#[test]
fn scan_of_nothing_is_finished_at_once() {
    let mut scan = Scan::new(Vec::new());
    assert_eq!(scan.total(), 0);
    assert_eq!(scan.position(), 0);
    assert!(matches!(scan.advance(), ScanAction::Finished));
    assert!(!scan.record(regular(1)));
    assert!(scan.into_found().is_empty());
}

#[test]
fn scan_keeps_cache_files_only() {
    let mut scan = Scan::new(vec![
        "docs/notes.txt".to_string(),
        "var/log/syslog".to_string(),
        "docs/report.bak".to_string(),
        "src/main.rs".to_string(),
    ]);
    assert_eq!(scan.total(), 4);
    assert!(matches!(scan.advance(), ScanAction::Skipped));
    assert_eq!(scan.position(), 1);
    assert_eq!(inspected(scan.advance()), "var/log/syslog");
    assert_eq!(scan.position(), 1);
    assert!(scan.record(regular(120)));
    assert_eq!(scan.position(), 2);
    assert_eq!(inspected(scan.advance()), "docs/report.bak");
    assert!(scan.record(regular(8)));
    assert_eq!(scan.position(), 3);
    assert!(matches!(scan.advance(), ScanAction::Skipped));
    assert_eq!(scan.position(), 4);
    assert!(matches!(scan.advance(), ScanAction::Finished));
    assert_eq!(scan.position(), 4);
    let found = scan.into_found();
    assert_eq!(found.len(), 2);
    assert_eq!(found[0].path(), "var/log/syslog");
    assert_eq!(found[0].size(), 120);
    assert_eq!(found[0].category(), CacheCategory::Log);
    assert_eq!(found[1].path(), "docs/report.bak");
    assert_eq!(found[1].size(), 8);
    assert_eq!(found[1].category(), CacheCategory::Backup);
}

#[test]
fn scan_drops_what_is_no_regular_file_any_more() {
    let mut scan = Scan::new(vec![
        "a/gone.tmp".to_string(),
        "a/dir.tmp".to_string(),
        "a/kept.tmp".to_string(),
    ]);
    assert_eq!(inspected(scan.advance()), "a/gone.tmp");
    assert!(!scan.record(None));
    assert_eq!(inspected(scan.advance()), "a/dir.tmp");
    assert!(!scan.record(directory()));
    assert_eq!(inspected(scan.advance()), "a/kept.tmp");
    assert!(scan.record(regular(5)));
    assert!(matches!(scan.advance(), ScanAction::Finished));
    let found = scan.into_found();
    assert_eq!(found.len(), 1);
    assert_eq!(found[0].path(), "a/kept.tmp");
}

#[test]
fn scan_hands_the_awaited_path_out_again() {
    let mut scan = Scan::new(vec!["a/x.tmp".to_string(), "a/y.tmp".to_string()]);
    assert_eq!(inspected(scan.advance()), "a/x.tmp");
    assert_eq!(inspected(scan.advance()), "a/x.tmp");
    assert_eq!(scan.position(), 0);
    assert!(scan.record(regular(1)));
    assert_eq!(scan.position(), 1);
}

#[test]
fn scan_takes_no_metadata_that_it_did_not_ask_for() {
    let mut scan = Scan::new(vec!["a/x.tmp".to_string()]);
    assert!(!scan.record(regular(1)));
    assert_eq!(scan.position(), 0);
    assert_eq!(inspected(scan.advance()), "a/x.tmp");
    assert!(scan.record(regular(1)));
    assert!(!scan.record(regular(1)));
    assert_eq!(scan.position(), 1);
    assert_eq!(scan.into_found().len(), 1);
}
