//! The two layers of classification: the filter that tells whether a path
//! names a cache file at all, and the rules that give a path its category.
//! Both go by the lowercase form of the text, so that case plays no part.

use vstd::prelude::*;
use crate::category::CacheCategory;
use crate::path::{file_name, file_name_of, parent_name, parent_name_of};
use crate::text::{
    chars_of, contains, ends_with, has_substring, has_suffix, lowercase_of, same_text,
};

verus! {

/// Whether a lowercase file name ends with one of the extensions of cache files.
pub open spec fn has_cache_extension(name: Seq<char>) -> bool {
    ||| ends_with(name, ".cache"@)
    ||| ends_with(name, ".tmp"@)
    ||| ends_with(name, ".temp"@)
    ||| ends_with(name, ".swp"@)
    ||| ends_with(name, ".swo"@)
    ||| ends_with(name, ".bak"@)
    ||| ends_with(name, ".log"@)
    ||| ends_with(name, ".old"@)
    ||| ends_with(name, ".backup"@)
    ||| ends_with(name, ".crdownload"@)
    ||| ends_with(name, ".part"@)
}

/// Whether a lowercase directory name is one of the names of cache directories.
pub open spec fn is_cache_directory(parent: Seq<char>) -> bool {
    ||| parent == "cache"@
    ||| parent == "caches"@
    ||| parent == ".cache"@
    ||| parent == "temp"@
    ||| parent == ".temp"@
    ||| parent == "tmp"@
    ||| parent == ".tmp"@
    ||| parent == "logs"@
    ||| parent == ".logs"@
    ||| parent == "backup"@
    ||| parent == ".backup"@
    ||| parent == "old"@
    ||| parent == ".old"@
}

/// Whether a lowercase file name holds one of the fragments that mark a cache file.
pub open spec fn has_cache_fragment(name: Seq<char>) -> bool {
    ||| contains(name, "cache"@)
    ||| contains(name, "temp"@)
    ||| contains(name, "tmp"@)
    ||| contains(name, "log"@)
    ||| contains(name, "backup"@)
    ||| contains(name, "old"@)
    ||| contains(name, ".swp"@)
    ||| contains(name, ".swo"@)
    ||| contains(name, "crdownload"@)
    ||| contains(name, "part"@)
    ||| contains(name, "~$"@)
    ||| contains(name, ".ds_store"@)
}

/// Whether a file with the lowercase name `name`, in a directory with the
/// lowercase name `parent`, counts as a cache file: by its extension, by
/// its directory, or by a fragment of its name.
pub open spec fn cache_rules_match(name: Seq<char>, parent: Seq<char>) -> bool {
    has_cache_extension(name) || is_cache_directory(parent) || has_cache_fragment(name)
}

/// Whether `path` names a cache file. A path without a file name or without
/// a parent name does not.
pub open spec fn is_cache_path(path: Seq<char>) -> bool {
    match (file_name(path), parent_name(path)) {
        (Some(name), Some(parent)) => cache_rules_match(lowercase_of(name), lowercase_of(parent)),
        _ => false,
    }
}

/// Whether a lowercase path belongs to a browser.
pub open spec fn is_browser_path(path: Seq<char>) -> bool {
    ||| contains(path, "chrome"@)
    ||| contains(path, "firefox"@)
    ||| contains(path, "edge"@)
    ||| contains(path, "safari"@)
    ||| contains(path, "browser"@)
    ||| contains(path, "mozilla"@)
}

/// Whether a lowercase file name, or the lowercase path it ends, marks a log.
pub open spec fn is_log_path(name: Seq<char>, path: Seq<char>) -> bool {
    ends_with(name, ".log"@) || contains(path, "log"@)
}

/// Whether `pattern` occurs in the file name or in the path.
pub open spec fn either_contains(name: Seq<char>, path: Seq<char>, pattern: Seq<char>) -> bool {
    contains(name, pattern) || contains(path, pattern)
}

/// Whether a lowercase file name, or the lowercase path it ends, marks a
/// temporary file.
pub open spec fn is_temporary_path(name: Seq<char>, path: Seq<char>) -> bool {
    ||| either_contains(name, path, ".tmp"@)
    ||| either_contains(name, path, ".temp"@)
    ||| either_contains(name, path, ".swp"@)
    ||| either_contains(name, path, ".swo"@)
    ||| either_contains(name, path, ".crdownload"@)
    ||| either_contains(name, path, ".part"@)
    ||| either_contains(name, path, "tmp"@)
    ||| either_contains(name, path, "temp"@)
}

/// Whether a lowercase file name, or the lowercase path it ends, marks a backup.
pub open spec fn is_backup_path(name: Seq<char>, path: Seq<char>) -> bool {
    ||| either_contains(name, path, ".bak"@)
    ||| either_contains(name, path, ".backup"@)
    ||| either_contains(name, path, ".old"@)
    ||| either_contains(name, path, "backup"@)
}

/// Whether a lowercase path belongs to a system cache.
pub open spec fn is_system_path(path: Seq<char>) -> bool {
    ||| contains(path, "system"@)
    ||| contains(path, ".cache"@)
    ||| contains(path, "cache"@)
}

/// Whether a lowercase path belongs to an application.
pub open spec fn is_application_path(path: Seq<char>) -> bool {
    ||| contains(path, "app"@)
    ||| contains(path, "application"@)
    ||| contains(path, ".app"@)
}

/// The category of a file with the lowercase name `name` and the lowercase
/// path `path`: that of the first rule that matches, in the order browser,
/// log, temporary, backup, system, application; `Other` if none does.
pub open spec fn category_of(name: Seq<char>, path: Seq<char>) -> CacheCategory {
    if is_browser_path(path) {
        CacheCategory::Browser
    } else if is_log_path(name, path) {
        CacheCategory::Log
    } else if is_temporary_path(name, path) {
        CacheCategory::Temporary
    } else if is_backup_path(name, path) {
        CacheCategory::Backup
    } else if is_system_path(path) {
        CacheCategory::System
    } else if is_application_path(path) {
        CacheCategory::Application
    } else {
        CacheCategory::Other
    }
}

/// The category of `path`, if it has a file name.
pub open spec fn classify_path(path: Seq<char>) -> Option<CacheCategory> {
    match file_name(path) {
        Some(name) => Some(category_of(lowercase_of(name), lowercase_of(path))),
        None => None,
    }
}

/// Tests whether `text` ends with `pattern`.
fn ends_in(text: &Vec<char>, pattern: &str) -> (found: bool)
    ensures
        found == ends_with(text@, pattern@),
{
    let pattern = chars_of(pattern);
    has_suffix(text, &pattern)
}

/// Tests whether `text` is `pattern`.
fn equals(text: &Vec<char>, pattern: &str) -> (same: bool)
    ensures
        same == (text@ == pattern@),
{
    let pattern = chars_of(pattern);
    same_text(text, &pattern)
}

/// Tests whether `pattern` occurs in `text`.
fn has(text: &Vec<char>, pattern: &str) -> (found: bool)
    ensures
        found == contains(text@, pattern@),
{
    let pattern = chars_of(pattern);
    has_substring(text, &pattern)
}

/// Tests whether `pattern` occurs in `name` or in `path`.
fn either_has(name: &Vec<char>, path: &Vec<char>, pattern: &str) -> (found: bool)
    ensures
        found == either_contains(name@, path@, pattern@),
{
    has(name, pattern) || has(path, pattern)
}

/// Tells whether a file counts as a cache file, given the lowercase form
/// of its name and of the name of its directory.
pub fn matches_cache_rules(name: &str, parent: &str) -> (matched: bool)
    ensures
        matched == cache_rules_match(name@, parent@),
{
    let name = chars_of(name);
    let parent = chars_of(parent);
    let by_extension: bool = ends_in(&name, ".cache")
        || ends_in(&name, ".tmp")
        || ends_in(&name, ".temp")
        || ends_in(&name, ".swp")
        || ends_in(&name, ".swo")
        || ends_in(&name, ".bak")
        || ends_in(&name, ".log")
        || ends_in(&name, ".old")
        || ends_in(&name, ".backup")
        || ends_in(&name, ".crdownload")
        || ends_in(&name, ".part");
    if by_extension {
        return true;
    }
    let by_directory: bool = equals(&parent, "cache")
        || equals(&parent, "caches")
        || equals(&parent, ".cache")
        || equals(&parent, "temp")
        || equals(&parent, ".temp")
        || equals(&parent, "tmp")
        || equals(&parent, ".tmp")
        || equals(&parent, "logs")
        || equals(&parent, ".logs")
        || equals(&parent, "backup")
        || equals(&parent, ".backup")
        || equals(&parent, "old")
        || equals(&parent, ".old");
    if by_directory {
        return true;
    }
    has(&name, "cache")
        || has(&name, "temp")
        || has(&name, "tmp")
        || has(&name, "log")
        || has(&name, "backup")
        || has(&name, "old")
        || has(&name, ".swp")
        || has(&name, ".swo")
        || has(&name, "crdownload")
        || has(&name, "part")
        || has(&name, "~$")
        || has(&name, ".ds_store")
}

/// Tells whether `path` names a cache file.
pub fn is_cache_file(path: &str) -> (cache: bool)
    ensures
        cache == is_cache_path(path@),
{
    let name = match file_name_of(path) {
        Some(name) => name,
        None => {
            return false;
        },
    };
    let parent = match parent_name_of(path) {
        Some(parent) => parent,
        None => {
            return false;
        },
    };
    let name = name.as_str().to_lowercase();
    let parent = parent.as_str().to_lowercase();
    matches_cache_rules(name.as_str(), parent.as_str())
}

/// Gives the category of a file, given the lowercase form of its name and
/// of its whole path.
pub fn categorize(name: &str, path: &str) -> (category: CacheCategory)
    ensures
        category == category_of(name@, path@),
{
    let name = chars_of(name);
    let path = chars_of(path);
    let browser: bool = has(&path, "chrome")
        || has(&path, "firefox")
        || has(&path, "edge")
        || has(&path, "safari")
        || has(&path, "browser")
        || has(&path, "mozilla");
    if browser {
        return CacheCategory::Browser;
    }
    let log: bool = ends_in(&name, ".log") || has(&path, "log");
    if log {
        return CacheCategory::Log;
    }
    let temporary: bool = either_has(&name, &path, ".tmp")
        || either_has(&name, &path, ".temp")
        || either_has(&name, &path, ".swp")
        || either_has(&name, &path, ".swo")
        || either_has(&name, &path, ".crdownload")
        || either_has(&name, &path, ".part")
        || either_has(&name, &path, "tmp")
        || either_has(&name, &path, "temp");
    if temporary {
        return CacheCategory::Temporary;
    }
    let backup: bool = either_has(&name, &path, ".bak")
        || either_has(&name, &path, ".backup")
        || either_has(&name, &path, ".old")
        || either_has(&name, &path, "backup");
    if backup {
        return CacheCategory::Backup;
    }
    let system: bool = has(&path, "system") || has(&path, ".cache") || has(&path, "cache");
    if system {
        return CacheCategory::System;
    }
    let application: bool = has(&path, "app") || has(&path, "application") || has(&path, ".app");
    if application {
        return CacheCategory::Application;
    }
    CacheCategory::Other
}

/// Gives the category of `path`, or nothing if the path has no file name.
pub fn classify_cache_file(path: &str) -> (category: Option<CacheCategory>)
    ensures
        category == classify_path(path@),
{
    let name = match file_name_of(path) {
        Some(name) => name,
        None => {
            return None;
        },
    };
    let name = name.as_str().to_lowercase();
    let lower = path.to_lowercase();
    Some(categorize(name.as_str(), lower.as_str()))
}

/// Whether two names differ in case at most: both are absent, or both are
/// there and have the same lowercase form.
pub open spec fn same_but_for_case(first: Option<Seq<char>>, second: Option<Seq<char>>) -> bool {
    match (first, second) {
        (Some(a), Some(b)) => lowercase_of(a) == lowercase_of(b),
        (None, None) => true,
        _ => false,
    }
}

/// The filter does not look at case: of two paths whose file names differ
/// in case at most, and whose parent names differ in case at most, both
/// name a cache file or neither does.
pub proof fn lemma_filter_ignores_case(first: Seq<char>, second: Seq<char>)
    requires
        same_but_for_case(file_name(first), file_name(second)),
        same_but_for_case(parent_name(first), parent_name(second)),
    ensures
        is_cache_path(first) == is_cache_path(second),
{
}

/// The category does not look at case: two paths that have the same
/// lowercase form, and whose file names differ in case at most, have the
/// same category.
pub proof fn lemma_category_ignores_case(first: Seq<char>, second: Seq<char>)
    requires
        same_but_for_case(file_name(first), file_name(second)),
        lowercase_of(first) == lowercase_of(second),
    ensures
        classify_path(first) == classify_path(second),
{
}

/// Every path that names a cache file has a category.
pub proof fn lemma_cache_file_has_category(path: Seq<char>)
    requires
        is_cache_path(path),
    ensures
        classify_path(path) is Some,
{
}

/// A file that a log rule matches is never put under `Temporary`, whatever
/// else matches.
pub proof fn lemma_log_is_never_temporary(name: Seq<char>, path: Seq<char>)
    requires
        is_log_path(name, path),
    ensures
        category_of(name, path) != CacheCategory::Temporary,
{
}

/// Log comes before temporary: a file that a log rule and a temporary rule
/// both match, and no browser rule, is put under `Log`.
pub proof fn lemma_log_precedes_temporary(name: Seq<char>, path: Seq<char>)
    requires
        is_log_path(name, path),
        is_temporary_path(name, path),
        !is_browser_path(path),
    ensures
        category_of(name, path) == CacheCategory::Log,
{
}

} // verus!
