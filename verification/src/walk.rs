//! The walk over a directory tree, kept as a stack of directories that
//! still have to be listed.
//!
//! The walker decides and the caller reads the disk: the caller asks for
//! the next directory, lists it, looks up the metadata of each entry, and
//! hands the entries back. Directories among them go onto the stack,
//! regular files into the result, and everything else is left out.

use vstd::prelude::*;
use crate::descriptor::{EntryKind, FileStat};
use crate::text::texts;

verus! {

/// One entry of a directory listing.
#[derive(Debug)]
pub struct Entry {
    /// The path of the entry.
    pub path: String,
    /// What the metadata lookup for the path returned, `None` standing for
    /// a lookup that failed.
    pub stat: Option<FileStat>,
}

/// Whether a metadata lookup found something of the `kind`.
pub open spec fn found_kind(stat: Option<FileStat>, kind: EntryKind) -> bool {
    match stat {
        Some(found) => found.kind == kind,
        None => false,
    }
}

/// The paths of those of `entries`, in order, whose metadata lookup found
/// something of the `kind`.
pub open spec fn paths_of_kind(entries: Seq<Entry>, kind: EntryKind) -> Seq<Seq<char>>
    decreases entries.len(),
{
    if entries.len() == 0 {
        Seq::empty()
    } else {
        let before = paths_of_kind(entries.drop_last(), kind);
        if found_kind(entries.last().stat, kind) {
            before.push(entries.last().path@)
        } else {
            before
        }
    }
}

/// What a walker holds.
pub struct WalkerState {
    /// The directories that still have to be listed; the last one is next.
    pub pending: Seq<Seq<char>>,
    /// The regular files found so far.
    pub files: Seq<Seq<char>>,
}

/// A walk over a directory tree.
#[derive(Debug)]
pub struct Walker {
    pending: Vec<String>,
    files: Vec<String>,
}

impl View for Walker {
    type V = WalkerState;

    closed spec fn view(&self) -> WalkerState {
        WalkerState { pending: texts(self.pending@), files: texts(self.files@) }
    }
}

impl Walker {
    /// Starts a walk at `root`: the root is the one directory to list, and
    /// no file has been found.
    pub fn new(root: String) -> (walker: Walker)
        ensures
            walker@.pending == seq![root@],
            walker@.files == Seq::<Seq<char>>::empty(),
    {
        let mut pending: Vec<String> = Vec::new();
        pending.push(root);
        let walker = Walker { pending, files: Vec::new() };
        assert(walker@.pending =~= seq![root@]);
        assert(walker@.files =~= Seq::<Seq<char>>::empty());
        walker
    }

    /// Takes the next directory to list off the stack. Returns nothing,
    /// and changes nothing, when no directory is left: the walk is over.
    pub fn next_directory(&mut self) -> (directory: Option<String>)
        ensures
            final(self)@.files == old(self)@.files,
            match directory {
                Some(path) => {
                    &&& old(self)@.pending.len() > 0
                    &&& path@ == old(self)@.pending.last()
                    &&& final(self)@.pending == old(self)@.pending.drop_last()
                },
                None => {
                    &&& old(self)@.pending.len() == 0
                    &&& final(self)@.pending == old(self)@.pending
                },
            },
    {
        let directory = self.pending.pop();
        assert(directory is Some ==> self@.pending =~= old(self)@.pending.drop_last());
        directory
    }

    /// Takes in the entries of a directory that was listed: the
    /// directories among them are added to the stack and the regular files
    /// to the files found, both in the order of the listing. Entries whose
    /// metadata lookup failed, or found something else, are left out.
    pub fn record(&mut self, entries: &Vec<Entry>)
        ensures
            final(self)@.pending == old(self)@.pending + paths_of_kind(
                entries@,
                EntryKind::Directory,
            ),
            final(self)@.files == old(self)@.files + paths_of_kind(entries@, EntryKind::File),
    {
        let mut i: usize = 0;
        while i < entries.len()
            invariant
                i <= entries@.len(),
                self@.pending == old(self)@.pending + paths_of_kind(
                    entries@.take(i as int),
                    EntryKind::Directory,
                ),
                self@.files == old(self)@.files + paths_of_kind(
                    entries@.take(i as int),
                    EntryKind::File,
                ),
            decreases entries@.len() - i,
        {
            assert(entries@.take(i + 1).drop_last() =~= entries@.take(i as int));
            let ghost before = self@;
            match entries[i].stat {
                Some(found) => {
                    match found.kind {
                        EntryKind::Directory => {
                            self.pending.push(entries[i].path.clone());
                            assert(self@.pending =~= before.pending.push(entries@[i as int].path@));
                        },
                        EntryKind::File => {
                            self.files.push(entries[i].path.clone());
                            assert(self@.files =~= before.files.push(entries@[i as int].path@));
                        },
                        EntryKind::Other => {},
                    }
                },
                None => {},
            }
            i += 1;
        }
        assert(entries@.take(i as int) =~= entries@);
    }

    /// Tells whether the walk is over: no directory is left to list.
    pub fn is_finished(&self) -> (finished: bool)
        ensures
            finished == (self@.pending.len() == 0),
    {
        self.pending.len() == 0
    }

    /// Ends the walk and hands out the regular files that it found.
    pub fn into_files(self) -> (files: Vec<String>)
        ensures
            texts(files@) == self@.files,
    {
        self.files
    }
}

} // verus!
