//! The scan: the pass over the files of a walk that picks out the cache
//! files and builds their descriptors.
//!
//! The scan decides and the caller reads the disk. `Scan::advance` takes the
//! next path: one that names no cache file is passed over, and for one that
//! does the caller is told to look up its metadata, which `Scan::record`
//! takes in. The position of the scan among the paths can be shown as its
//! progress at any time.

use vstd::prelude::*;
use crate::classify::{is_cache_file, is_cache_path};
use crate::descriptor::{
    category_or_other, describe, descriptors, CacheFile, Descriptor, FileStat,
};
use crate::text::texts;

verus! {

/// What a scan tells the caller to do.
#[derive(Debug)]
pub enum ScanAction {
    /// Look up the metadata of this path, which names a cache file, and
    /// hand the result to `Scan::record`.
    Inspect(String),
    /// The next path names no cache file and was passed over.
    Skipped,
    /// Every path has been dealt with.
    Finished,
}

/// What a scan holds.
pub struct ScanState {
    /// All paths of the scan, in order.
    pub paths: Seq<Seq<char>>,
    /// How many of them have been dealt with.
    pub position: nat,
    /// Whether the metadata of the path at `position` is awaited.
    pub awaiting: bool,
    /// The descriptors built so far.
    pub found: Seq<Descriptor>,
}

impl ScanState {
    /// Whether a scan can be in this state: the position lies among the
    /// paths, an awaited path names a cache file, and every descriptor
    /// built so far is that of a cache file, under the category of its
    /// path.
    pub open spec fn fits(self) -> bool {
        &&& self.position <= self.paths.len()
        &&& self.awaiting ==> self.position < self.paths.len() && is_cache_path(
            self.paths[self.position as int],
        )
        &&& forall|i: int|
            0 <= i < self.found.len() ==> {
                &&& is_cache_path((#[trigger] self.found[i]).path)
                &&& self.found[i].category == category_or_other(self.found[i].path)
            }
    }

    /// The state after the scan has taken its next path. A path that names
    /// a cache file is held until its metadata comes in, any other is
    /// passed over. Nothing changes while metadata is awaited, or when no
    /// path is left.
    pub open spec fn advanced(self) -> ScanState {
        if self.position >= self.paths.len() || self.awaiting {
            self
        } else if is_cache_path(self.paths[self.position as int]) {
            ScanState { awaiting: true, ..self }
        } else {
            ScanState { position: self.position + 1, ..self }
        }
    }

    /// The state after the metadata lookup for the awaited path returned
    /// `stat`: the descriptor is added if there is one, and the scan moves
    /// past the path. Without an awaited path nothing changes.
    pub open spec fn recorded(self, stat: Option<FileStat>) -> ScanState {
        if self.awaiting && self.position < self.paths.len() {
            ScanState {
                position: self.position + 1,
                awaiting: false,
                found: match describe(self.paths[self.position as int], stat) {
                    Some(descriptor) => self.found.push(descriptor),
                    None => self.found,
                },
                ..self
            }
        } else {
            self
        }
    }
}

/// A scan over the paths that a walk found.
#[derive(Debug)]
pub struct Scan {
    paths: Vec<String>,
    position: usize,
    awaiting: bool,
    found: Vec<CacheFile>,
}

impl View for Scan {
    type V = ScanState;

    closed spec fn view(&self) -> ScanState {
        ScanState {
            paths: texts(self.paths@),
            position: self.position as nat,
            awaiting: self.awaiting,
            found: descriptors(self.found@),
        }
    }
}

impl Scan {
    /// Starts a scan over `paths`.
    pub fn new(paths: Vec<String>) -> (scan: Scan)
        ensures
            scan@.paths == texts(paths@),
            scan@.position == 0,
            !scan@.awaiting,
            scan@.found == Seq::<Descriptor>::empty(),
            scan@.fits(),
    {
        let scan = Scan { paths, position: 0, awaiting: false, found: Vec::new() };
        assert(scan@.found =~= Seq::<Descriptor>::empty());
        scan
    }

    /// The number of paths of the scan.
    pub fn total(&self) -> (total: usize)
        ensures
            total == self@.paths.len(),
    {
        self.paths.len()
    }

    /// The number of paths that have been dealt with.
    pub fn position(&self) -> (position: usize)
        ensures
            position == self@.position,
    {
        self.position
    }

    /// Takes the next path and tells the caller what to do: look up the
    /// metadata of a path that names a cache file, go on after a path that
    /// names none, or stop when no path is left. While the metadata of a
    /// path is awaited, that path is handed out again.
    pub fn advance(&mut self) -> (action: ScanAction)
        ensures
            final(self)@ == old(self)@.advanced(),
            old(self)@.fits() ==> final(self)@.fits(),
            match action {
                ScanAction::Inspect(path) => {
                    &&& old(self)@.position < old(self)@.paths.len()
                    &&& path@ == old(self)@.paths[old(self)@.position as int]
                    &&& final(self)@.awaiting
                },
                ScanAction::Skipped => final(self)@.position == old(self)@.position + 1,
                ScanAction::Finished => old(self)@.position >= old(self)@.paths.len(),
            },
    {
        if self.position >= self.paths.len() {
            return ScanAction::Finished;
        }
        let path = self.paths[self.position].clone();
        if self.awaiting {
            return ScanAction::Inspect(path);
        }
        if is_cache_file(path.as_str()) {
            self.awaiting = true;
            ScanAction::Inspect(path)
        } else {
            self.position = self.position + 1;
            ScanAction::Skipped
        }
    }

    /// Takes in what the metadata lookup for the awaited path returned,
    /// `None` standing for a lookup that failed, and tells whether a
    /// descriptor was added. Without an awaited path nothing changes.
    pub fn record(&mut self, stat: Option<FileStat>) -> (added: bool)
        ensures
            final(self)@ == old(self)@.recorded(stat),
            old(self)@.fits() ==> final(self)@.fits(),
            added == (final(self)@.found.len() == old(self)@.found.len() + 1),
    {
        if !self.awaiting || self.position >= self.paths.len() {
            return false;
        }
        let path = self.paths[self.position].clone();
        self.awaiting = false;
        self.position = self.position + 1;
        match CacheFile::new(path, stat) {
            Some(file) => {
                self.found.push(file);
                assert(self@.found =~= old(self)@.found.push(file@));
                true
            },
            None => false,
        }
    }

    /// Ends the scan and hands out the descriptors that it built.
    pub fn into_found(self) -> (found: Vec<CacheFile>)
        ensures
            descriptors(found@) == self@.found,
    {
        self.found
    }
}

/// The descriptors that a scan over `paths` builds, where the metadata
/// lookup for each path would return what `stats` holds at the same place:
/// one for each path, in order, that names a cache file and is found to be
/// a regular file.
pub open spec fn scan_result(paths: Seq<Seq<char>>, stats: Seq<Option<FileStat>>) -> Seq<
    Descriptor,
>
    decreases paths.len(),
{
    if paths.len() == 0 {
        Seq::empty()
    } else {
        let before = scan_result(paths.drop_last(), stats.drop_last());
        if is_cache_path(paths.last()) {
            match describe(paths.last(), stats.last()) {
                Some(descriptor) => before.push(descriptor),
                None => before,
            }
        } else {
            before
        }
    }
}

/// The state of a scan over `paths` that has dealt with the first `count`
/// of them, each path that it inspected having met with the metadata that
/// `stats` holds at the same place.
pub open spec fn scanned(
    paths: Seq<Seq<char>>,
    stats: Seq<Option<FileStat>>,
    count: nat,
) -> ScanState
    decreases count,
{
    if count == 0 {
        ScanState { paths, position: 0, awaiting: false, found: Seq::empty() }
    } else {
        scanned(paths, stats, (count - 1) as nat).advanced().recorded(stats[count - 1])
    }
}

/// Where a scan stands after the first `count` paths: past them, with the
/// descriptors of the cache files among them.
proof fn lemma_scan_progress(paths: Seq<Seq<char>>, stats: Seq<Option<FileStat>>, count: nat)
    requires
        stats.len() == paths.len(),
        count <= paths.len(),
    ensures
        scanned(paths, stats, count) == (ScanState {
            paths,
            position: count,
            awaiting: false,
            found: scan_result(paths.take(count as int), stats.take(count as int)),
        }),
    decreases count,
{
    if count > 0 {
        lemma_scan_progress(paths, stats, (count - 1) as nat);
        assert(paths.take(count as int).drop_last() =~= paths.take(count - 1));
        assert(stats.take(count as int).drop_last() =~= stats.take(count - 1));
    }
}

/// A scan builds the descriptor of every cache file among its paths, and
/// no other: when it has dealt with all paths, it holds one descriptor for
/// each path, in order, that names a cache file and was found to be a
/// regular file.
pub proof fn lemma_scan_finds_every_cache_file(
    paths: Seq<Seq<char>>,
    stats: Seq<Option<FileStat>>,
)
    requires
        stats.len() == paths.len(),
    ensures
        scanned(paths, stats, paths.len()) == (ScanState {
            paths,
            position: paths.len(),
            awaiting: false,
            found: scan_result(paths, stats),
        }),
        paths.len() == 0 ==> scan_result(paths, stats) == Seq::<Descriptor>::empty(),
{
    lemma_scan_progress(paths, stats, paths.len());
    assert(paths.take(paths.len() as int) =~= paths);
    assert(stats.take(stats.len() as int) =~= stats);
}

/// A scan finds cache files only: its steps lead from a state that a scan
/// can be in to another such state, and in every such state the path of
/// each descriptor names a cache file, and its category is that of the
/// path.
pub proof fn lemma_scan_finds_cache_files_only(state: ScanState, stat: Option<FileStat>)
    requires
        state.fits(),
    ensures
        state.advanced().fits(),
        state.recorded(stat).fits(),
        forall|i: int|
            0 <= i < state.found.len() ==> {
                &&& is_cache_path((#[trigger] state.found[i]).path)
                &&& state.found[i].category == category_or_other(state.found[i].path)
            },
{
}

} // verus!
