use cache_detector::category::CacheCategory;
use cache_detector::classify::{
    categorize, classify_cache_file, is_cache_file, matches_cache_rules,
};

#[test]
fn backup_file_is_classified_as_backup() {
    assert_eq!(classify_cache_file("report.bak"), Some(CacheCategory::Backup));
}

#[test]
fn browser_comes_before_system() {
    assert_eq!(
        classify_cache_file("firefox/cache2/entries"),
        Some(CacheCategory::Browser)
    );
}

#[test]
fn path_under_log_directory_is_log() {
    assert_eq!(classify_cache_file("/var/log/syslog"), Some(CacheCategory::Log));
}

#[test]
fn path_under_tmp_directory_is_temporary() {
    assert_eq!(
        classify_cache_file("build/tmp/obj.o"),
        Some(CacheCategory::Temporary)
    );
}

#[test]
fn plain_text_file_is_no_cache_file() {
    assert!(!is_cache_file("notes.txt"));
    assert!(!is_cache_file("docs/notes.txt"));
    assert!(!is_cache_file("/home/user/docs/notes.txt"));
}

#[test]
fn log_comes_before_temporary() {
    assert_eq!(classify_cache_file("access.log.tmp"), Some(CacheCategory::Log));
    assert_eq!(
        classify_cache_file("data/access.log.tmp"),
        Some(CacheCategory::Log)
    );
    assert_eq!(categorize("access.log.tmp", "data/access.log.tmp"), CacheCategory::Log);
}

#[test]
fn browser_comes_before_log() {
    assert_eq!(
        classify_cache_file("chrome/access.log.tmp"),
        Some(CacheCategory::Browser)
    );
}

#[test]
fn categories_follow_their_order() {
    assert_eq!(categorize("a.tmp", "x/a.tmp"), CacheCategory::Temporary);
    assert_eq!(categorize("a.tmp.bak", "x/a.tmp.bak"), CacheCategory::Temporary);
    assert_eq!(categorize("a.bak", "cache/a.bak"), CacheCategory::Backup);
    assert_eq!(categorize("a.bin", "system/a.bin"), CacheCategory::System);
    assert_eq!(categorize("a.bin", "x/.cache/a.bin"), CacheCategory::System);
    assert_eq!(categorize("a.bin", "cache/app/a.bin"), CacheCategory::System);
    assert_eq!(categorize("a.bin", "app/a.bin"), CacheCategory::Application);
    assert_eq!(categorize("a.bin", "x/y.app/a.bin"), CacheCategory::Application);
    assert_eq!(categorize("a.bin", "x/a.bin"), CacheCategory::Other);
}

#[test]
fn every_browser_name_gives_browser() {
    for name in ["chrome", "firefox", "edge", "safari", "browser", "mozilla"] {
        let path = format!("home/{}/data/file.bin", name);
        assert_eq!(classify_cache_file(&path), Some(CacheCategory::Browser));
    }
}

#[test]
fn every_temporary_pattern_gives_temporary() {
    for pattern in [".tmp", ".temp", ".swp", ".swo", ".crdownload", ".part", "tmp", "temp"] {
        let path = format!("x/file{}", pattern);
        assert_eq!(classify_cache_file(&path), Some(CacheCategory::Temporary));
    }
}

#[test]
fn every_backup_pattern_gives_backup() {
    for pattern in [".bak", ".backup", ".old", "backup"] {
        let path = format!("x/file{}", pattern);
        assert_eq!(classify_cache_file(&path), Some(CacheCategory::Backup));
    }
}

#[test]
fn file_name_pattern_counts_for_the_category() {
    assert_eq!(categorize("a.log", "x"), CacheCategory::Log);
    assert_eq!(categorize("a.swp", "x"), CacheCategory::Temporary);
    assert_eq!(categorize("a.old", "x"), CacheCategory::Backup);
}

#[test]
fn path_without_file_name_has_no_category() {
    assert_eq!(classify_cache_file(""), None);
    assert_eq!(classify_cache_file("/"), None);
    assert_eq!(classify_cache_file("cache/.."), None);
    assert_eq!(classify_cache_file(".."), None);
    assert_eq!(classify_cache_file("."), None);
}

#[test]
fn unmatched_path_is_other() {
    assert_eq!(classify_cache_file("notes.txt"), Some(CacheCategory::Other));
}

#[test]
fn classification_is_repeatable() {
    let first = classify_cache_file("var/cache/data.bin");
    let second = classify_cache_file("var/cache/data.bin");
    assert_eq!(first, second);
    assert_eq!(first, Some(CacheCategory::System));
    assert_eq!(is_cache_file("var/cache/data.bin"), is_cache_file("var/cache/data.bin"));
}

#[test]
fn every_extension_marks_a_cache_file() {
    for extension in [
        ".cache", ".tmp", ".temp", ".swp", ".swo", ".bak", ".log", ".old", ".backup",
        ".crdownload", ".part",
    ] {
        let path = format!("docs/file{}", extension);
        assert!(is_cache_file(&path), "{}", path);
        assert!(matches_cache_rules(&format!("file{}", extension), "docs"));
    }
}

#[test]
fn every_cache_directory_marks_its_files() {
    for directory in [
        "cache", "caches", ".cache", "temp", ".temp", "tmp", ".tmp", "logs", ".logs", "backup",
        ".backup", "old", ".old",
    ] {
        let path = format!("home/{}/data.bin", directory);
        assert!(is_cache_file(&path), "{}", path);
        assert!(matches_cache_rules("data.bin", directory));
    }
}

#[test]
fn directory_name_must_match_whole() {
    assert!(!is_cache_file("home/cache2/data.bin"));
    assert!(!is_cache_file("home/mycache/data.bin"));
    assert!(!matches_cache_rules("data.bin", "cache2"));
}

#[test]
fn only_the_immediate_directory_counts() {
    assert!(!is_cache_file("cache/sub/data.bin"));
    assert!(is_cache_file("sub/cache/data.bin"));
}

#[test]
fn every_fragment_marks_a_cache_file() {
    for fragment in [
        "cache", "temp", "tmp", "log", "backup", "old", ".swp", ".swo", "crdownload", "part",
        "~$", ".ds_store",
    ] {
        let path = format!("docs/a{}b.bin", fragment);
        assert!(is_cache_file(&path), "{}", path);
        assert!(matches_cache_rules(&format!("a{}b.bin", fragment), "docs"));
    }
}

#[test]
fn path_without_parent_name_is_no_cache_file() {
    assert!(!is_cache_file("report.bak"));
    assert!(!is_cache_file("/report.bak"));
    assert!(!is_cache_file("./report.bak"));
    assert!(!is_cache_file("../report.bak"));
    assert!(!is_cache_file(""));
    assert!(!is_cache_file("cache/.."));
}

#[test]
fn filter_ignores_case() {
    assert!(is_cache_file("docs/REPORT.BAK"));
    assert!(is_cache_file("docs/Report.Bak"));
    assert!(is_cache_file("docs/report.bak"));
    assert!(is_cache_file("home/CACHE/data.bin"));
    assert!(is_cache_file("home/Cache/data.bin"));
    assert!(is_cache_file("docs/.DS_Store"));
    assert!(!is_cache_file("DOCS/NOTES.TXT"));
    assert!(!is_cache_file("docs/notes.txt"));
}

#[test]
fn category_ignores_case() {
    assert_eq!(classify_cache_file("REPORT.BAK"), Some(CacheCategory::Backup));
    assert_eq!(
        classify_cache_file("FireFox/Cache2/Entries"),
        Some(CacheCategory::Browser)
    );
    assert_eq!(classify_cache_file("/VAR/LOG/SYSLOG"), Some(CacheCategory::Log));
}

#[test]
fn lowercase_reaches_beyond_ascii() {
    // U+212A, the Kelvin sign, has the lowercase form `k`.
    assert!(is_cache_file("docs/bac\u{212A}up.bin"));
    assert_eq!(
        classify_cache_file("docs/bac\u{212A}up.bin"),
        Some(CacheCategory::Backup)
    );
}

#[test]
fn rules_take_lowercase_text_as_it_is() {
    assert!(matches_cache_rules("a.tmp", "docs"));
    assert!(!matches_cache_rules("A.TMP", "docs"));
    assert!(!matches_cache_rules("a.bin", "CACHE"));
    assert_eq!(categorize("a.bin", "CHROME/a.bin"), CacheCategory::Other);
}

#[test]
fn cache_file_always_has_a_category() {
    for path in [
        "docs/report.bak",
        "home/cache/data.bin",
        "var/log/syslog",
        "x/y/file.part",
        "a/b~$c.docx",
    ] {
        assert!(is_cache_file(path));
        assert!(classify_cache_file(path).is_some());
    }
}

#[test]
fn separators_and_dots_are_left_out_of_names() {
    assert!(is_cache_file("home//cache//data.bin"));
    assert!(is_cache_file("home/cache/./data.bin"));
    assert!(is_cache_file("home/cache/data.bin/"));
    assert!(!is_cache_file("home/cache/../data.bin"));
}
