//! Paths as text. A path is a sequence of characters in which `/` separates
//! the components; empty runs and runs that are a single dot name no
//! component, and a run of two dots is a link to the parent directory.

use vstd::prelude::*;
use vstd::string::StrSliceExecFns;
use crate::text::chars_of;

verus! {

/// Whether `c` separates two components of a path.
pub open spec fn is_separator(c: char) -> bool {
    c == '/'
}

/// Whether a run between two separators counts as a component: it does
/// unless it is empty or a single dot.
pub open spec fn is_component(run: Seq<char>) -> bool {
    run.len() > 0 && run != seq!['.']
}

/// Whether a component is the link to the parent directory, two dots.
pub open spec fn is_parent_link(component: Seq<char>) -> bool {
    component == seq!['.', '.']
}

/// The components `done` with `run` added at the end if it counts as one.
pub open spec fn close_run(done: Seq<Seq<char>>, run: Seq<char>) -> Seq<Seq<char>> {
    if is_component(run) {
        done.push(run)
    } else {
        done
    }
}

/// Reads `path` from left to right. The first part of the result holds the
/// components that a separator has closed, the second the run that follows
/// the last separator.
pub open spec fn read_runs(path: Seq<char>) -> (Seq<Seq<char>>, Seq<char>)
    decreases path.len(),
{
    if path.len() == 0 {
        (Seq::empty(), Seq::empty())
    } else {
        let (done, run) = read_runs(path.drop_last());
        if is_separator(path.last()) {
            (close_run(done, run), Seq::empty())
        } else {
            (done, run.push(path.last()))
        }
    }
}

/// The components of `path`, in order.
pub open spec fn components(path: Seq<char>) -> Seq<Seq<char>> {
    let (done, run) = read_runs(path);
    close_run(done, run)
}

/// The file name of `path`: its last component, unless that is a link to
/// the parent directory. A path without components has no file name.
pub open spec fn file_name(path: Seq<char>) -> Option<Seq<char>> {
    let parts = components(path);
    if parts.len() >= 1 && !is_parent_link(parts.last()) {
        Some(parts.last())
    } else {
        None
    }
}

/// The name of the directory that holds the last component of `path`: the
/// component before the last, unless that is a link to the parent
/// directory. A path with fewer than two components has no parent name.
pub open spec fn parent_name(path: Seq<char>) -> Option<Seq<char>> {
    let parts = components(path);
    if parts.len() >= 2 && !is_parent_link(parts[parts.len() - 2]) {
        Some(parts[parts.len() - 2])
    } else {
        None
    }
}

/// Whether `run` holds no separator.
pub open spec fn is_unbroken(run: Seq<char>) -> bool {
    forall|i: int| 0 <= i < run.len() ==> !is_separator(#[trigger] run[i])
}

/// What reading leaves behind: every component that was closed counts as
/// one and holds no separator, and the run that is still open holds none.
proof fn lemma_runs_are_unbroken(path: Seq<char>)
    ensures
        is_unbroken(read_runs(path).1),
        forall|k: int|
            0 <= k < read_runs(path).0.len() ==> {
                let part = #[trigger] read_runs(path).0[k];
                is_component(part) && is_unbroken(part)
            },
    decreases path.len(),
{
    if path.len() > 0 {
        lemma_runs_are_unbroken(path.drop_last());
    }
}

/// Every component of a path is a name: it is not empty, it is not a
/// single dot, and it holds no separator.
pub proof fn lemma_components_are_names(path: Seq<char>)
    ensures
        forall|k: int|
            0 <= k < components(path).len() ==> {
                let part = #[trigger] components(path)[k];
                is_component(part) && is_unbroken(part)
            },
{
    lemma_runs_are_unbroken(path);
}

/// Whether `ranges` gives, in order, the places in `path` of the components `parts`.
spec fn locates(path: Seq<char>, ranges: Seq<(usize, usize)>, parts: Seq<Seq<char>>) -> bool {
    &&& ranges.len() == parts.len()
    &&& forall|k: int|
        0 <= k < ranges.len() ==> {
            &&& (#[trigger] ranges[k]).0 <= ranges[k].1 <= path.len()
            &&& path.subrange(ranges[k].0 as int, ranges[k].1 as int) == parts[k]
        }
}

/// Adds the run of `path` from `start` to `end` to `ranges` if it counts as
/// a component.
fn close_range(
    path: &Vec<char>,
    ranges: &mut Vec<(usize, usize)>,
    start: usize,
    end: usize,
    Ghost(done): Ghost<Seq<Seq<char>>>,
)
    requires
        start <= end <= path@.len(),
        locates(path@, old(ranges)@, done),
    ensures
        locates(
            path@,
            final(ranges)@,
            close_run(done, path@.subrange(start as int, end as int)),
        ),
{
    let single_dot: bool = end - start == 1 && path[start] == '.';
    proof {
        let run = path@.subrange(start as int, end as int);
        if single_dot {
            assert(run =~= seq!['.']);
        } else if run.len() == 1 {
            assert(run[0] != '.');
        }
    }
    if end > start && !single_dot {
        ranges.push((start, end));
    }
}

/// Finds the components of `path`: for each its first index and the index
/// after its last.
fn locate_components(path: &Vec<char>) -> (ranges: Vec<(usize, usize)>)
    ensures
        locates(path@, ranges@, components(path@)),
{
    let mut ranges: Vec<(usize, usize)> = Vec::new();
    let mut start: usize = 0;
    let mut i: usize = 0;
    let n: usize = path.len();
    while i < n
        invariant
            n == path@.len(),
            start <= i <= n,
            locates(path@, ranges@, read_runs(path@.take(i as int)).0),
            read_runs(path@.take(i as int)).1 == path@.subrange(start as int, i as int),
        decreases n - i,
    {
        let ghost before = read_runs(path@.take(i as int));
        assert(path@.take(i + 1).drop_last() =~= path@.take(i as int));
        if path[i] == '/' {
            close_range(path, &mut ranges, start, i, Ghost(before.0));
            start = i + 1;
            assert(path@.subrange(start as int, i + 1) =~= Seq::<char>::empty());
        } else {
            assert(path@.subrange(start as int, i + 1) =~= path@.subrange(
                start as int,
                i as int,
            ).push(path@[i as int]));
        }
        i += 1;
    }
    assert(path@.take(n as int) =~= path@);
    close_range(path, &mut ranges, start, n, Ghost(read_runs(path@).0));
    ranges
}

/// Whether the run of `path` from `start` to `end` is a link to the parent
/// directory.
fn is_parent_link_at(path: &Vec<char>, start: usize, end: usize) -> (link: bool)
    requires
        start <= end <= path@.len(),
    ensures
        link == is_parent_link(path@.subrange(start as int, end as int)),
{
    let link: bool = end - start == 2 && path[start] == '.' && path[start + 1] == '.';
    proof {
        let run = path@.subrange(start as int, end as int);
        if link {
            assert(run =~= seq!['.', '.']);
        } else if run.len() == 2 {
            assert(run[0] != '.' || run[1] != '.');
        }
    }
    link
}

/// Whether `name` holds the same text as `expected`, or both are absent.
pub open spec fn same_name(name: Option<String>, expected: Option<Seq<char>>) -> bool {
    match name {
        Some(text) => expected == Some(text@),
        None => expected is None,
    }
}

/// Returns the file name of `path`, if it has one.
pub fn file_name_of(path: &str) -> (name: Option<String>)
    ensures
        same_name(name, file_name(path@)),
{
    let chars = chars_of(path);
    let ranges = locate_components(&chars);
    let count: usize = ranges.len();
    if count < 1 {
        return None;
    }
    let (start, end) = ranges[count - 1];
    if is_parent_link_at(&chars, start, end) {
        None
    } else {
        Some(path.substring_char(start, end).to_owned())
    }
}

/// Returns the name of the directory that holds the last component of
/// `path`, if it has one.
pub fn parent_name_of(path: &str) -> (name: Option<String>)
    ensures
        same_name(name, parent_name(path@)),
{
    let chars = chars_of(path);
    let ranges = locate_components(&chars);
    let count: usize = ranges.len();
    if count < 2 {
        return None;
    }
    let (start, end) = ranges[count - 2];
    if is_parent_link_at(&chars, start, end) {
        None
    } else {
        Some(path.substring_char(start, end).to_owned())
    }
}

} // verus!
