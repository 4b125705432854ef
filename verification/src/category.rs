//! The categories a cache file can belong to.

use vstd::prelude::*;

verus! {

/// The bucket a cache file is counted under. Every file belongs to exactly one.
#[derive(Debug, Clone, Copy, PartialEq, Eq, Hash, Structural)]
pub enum CacheCategory {
    Browser,
    System,
    Application,
    Log,
    Temporary,
    Backup,
    Other,
}

impl CacheCategory {
    /// The display name of the category.
    pub open spec fn name(self) -> Seq<char> {
        match self {
            CacheCategory::Browser => "Browser"@,
            CacheCategory::System => "System"@,
            CacheCategory::Application => "Application"@,
            CacheCategory::Log => "Log"@,
            CacheCategory::Temporary => "Temporary"@,
            CacheCategory::Backup => "Backup"@,
            CacheCategory::Other => "Other"@,
        }
    }

    /// Returns the display name of the category.
    pub fn as_str(&self) -> (text: &'static str)
        ensures
            text@ == self.name(),
    {
        match self {
            CacheCategory::Browser => "Browser",
            CacheCategory::System => "System",
            CacheCategory::Application => "Application",
            CacheCategory::Log => "Log",
            CacheCategory::Temporary => "Temporary",
            CacheCategory::Backup => "Backup",
            CacheCategory::Other => "Other",
        }
    }
}

} // verus!
