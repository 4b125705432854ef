//! The descriptor of a cache file: its path, its size and its category.

use vstd::prelude::*;
use crate::category::CacheCategory;
use crate::classify::{classify_cache_file, classify_path};

verus! {

/// What a metadata lookup found at a path.
#[derive(Debug, Clone, Copy, PartialEq, Eq, Structural)]
pub enum EntryKind {
    /// A regular file.
    File,
    /// A directory.
    Directory,
    /// Anything else.
    Other,
}

/// The result of a metadata lookup that succeeded.
#[derive(Debug, Clone, Copy, PartialEq, Eq, Structural)]
pub struct FileStat {
    /// What stands at the path.
    pub kind: EntryKind,
    /// Its size in bytes.
    pub size: u64,
}

/// What a descriptor holds: the path of a file, its size in bytes when it
/// was found, and its category.
pub struct Descriptor {
    pub path: Seq<char>,
    pub size: u64,
    pub category: CacheCategory,
}

/// One cache file that a scan found. The category is that of the path and
/// never changes.
#[derive(Debug)]
pub struct CacheFile {
    path: String,
    size: u64,
    category: CacheCategory,
}

/// The category under which a file at `path` is counted: that of the path,
/// or `Other` for a path that has none.
pub open spec fn category_or_other(path: Seq<char>) -> CacheCategory {
    match classify_path(path) {
        Some(category) => category,
        None => CacheCategory::Other,
    }
}

/// The descriptor of the file at `path`, given what the metadata lookup
/// returned: there is one if the lookup succeeded and found a regular file.
pub open spec fn describe(path: Seq<char>, stat: Option<FileStat>) -> Option<Descriptor> {
    match stat {
        Some(found) => if found.kind == EntryKind::File {
            Some(Descriptor { path, size: found.size, category: category_or_other(path) })
        } else {
            None
        },
        None => None,
    }
}

impl View for CacheFile {
    type V = Descriptor;

    closed spec fn view(&self) -> Descriptor {
        Descriptor { path: self.path@, size: self.size, category: self.category }
    }
}

/// What a collection of cache files holds, file by file.
pub open spec fn descriptors(files: Seq<CacheFile>) -> Seq<Descriptor> {
    files.map_values(|file: CacheFile| file@)
}

impl CacheFile {
    #[verifier::type_invariant]
    spec fn classified(&self) -> bool {
        self.category == category_or_other(self.path@)
    }

    /// Builds the descriptor of the file at `path` from what the metadata
    /// lookup for that path returned, `None` standing for a lookup that
    /// failed. Nothing is built unless the lookup found a regular file.
    pub fn new(path: String, stat: Option<FileStat>) -> (file: Option<CacheFile>)
        ensures
            match file {
                Some(built) => describe(path@, stat) == Some(built@),
                None => describe(path@, stat) is None,
            },
    {
        match stat {
            Some(found) => {
                if found.kind == EntryKind::File {
                    let category = match classify_cache_file(path.as_str()) {
                        Some(category) => category,
                        None => CacheCategory::Other,
                    };
                    Some(CacheFile { path, size: found.size, category })
                } else {
                    None
                }
            },
            None => None,
        }
    }

    /// The path of the file.
    pub fn path(&self) -> (path: &str)
        ensures
            path@ == self@.path,
    {
        self.path.as_str()
    }

    /// The size of the file in bytes, as it was when the file was found.
    pub fn size(&self) -> (size: u64)
        ensures
            size == self@.size,
    {
        self.size
    }

    /// The category of the file, which is that of its path.
    pub fn category(&self) -> (category: CacheCategory)
        ensures
            category == self@.category,
            category == category_or_other(self@.path),
    {
        proof {
            use_type_invariant(self);
        }
        self.category
    }
}

} // verus!
