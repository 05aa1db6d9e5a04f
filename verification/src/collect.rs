//! The depth-bounded path collector.
//!
//! The collector works on a picture of the file system: for every input, what
//! kind of entry it is, and for every directory, the entries it lists. It
//! turns that tree into the flat list of the PDF files in it, in the order in
//! which the tree names them, and goes no deeper than the depth allows.
use vstd::prelude::*;
use vstd::string::*;
use crate::depth::Depth;
use crate::errors::MergeRunError;
use crate::path::{has_pdf_extension, is_pdf_file_name};

verus! {

/// What an entry of the file system is.
#[derive(Debug, PartialEq)]
pub enum EntryState {
    /// Whether the entry exists could not be found out.
    Unknown,
    /// The entry does not exist.
    Missing,
    /// A regular file.
    File,
    /// A directory that could not be listed.
    Locked,
    /// A directory, with the entries it lists.
    Directory(Vec<Entry>),
    /// Something else that exists.
    Other,
}

/// A path and what was found there.
#[derive(Debug, PartialEq)]
pub struct Entry {
    /// The path of the entry.
    pub path: String,
    /// What the entry is.
    pub state: EntryState,
}

/// The depth after one more step down. The count stops at the largest number.
pub open spec fn deeper(depth: usize) -> usize {
    if depth < usize::MAX {
        (depth + 1) as usize
    } else {
        depth
    }
}

/// Whether the collector turns back at `cur`: it does beyond a `Max` depth,
/// and nowhere else.
pub open spec fn turns_back(cur: usize, max_depth: Depth) -> bool {
    max_depth matches Depth::Max(deep) && cur > deep
}

/// Whether the collector turns back at `cur`.
pub fn stops_at(cur: usize, max_depth: &Depth) -> (r: bool)
    ensures
        r == turns_back(cur, *max_depth),
{
    match max_depth {
        Depth::Max(deep) => cur > *deep,
        _ => false,
    }
}

/// The depth after one more step down.
pub fn step_down(depth: usize) -> (r: usize)
    ensures
        r == deeper(depth),
{
    if depth < usize::MAX {
        depth + 1
    } else {
        depth
    }
}

/// What the entries give at depth `cur`, one after the other: a PDF file gives
/// its path, a directory what its entries give one level deeper, unless the
/// collector turns back there. The first entry that is missing or cannot be
/// read ends the walk.
pub open spec fn gathered(entries: Seq<Entry>, cur: usize, max_depth: Depth) -> Result<
    Seq<String>,
    MergeRunError,
>
    decreases entries,
{
    if entries.len() == 0 {
        Ok(Seq::empty())
    } else {
        match gathered(entries.drop_last(), cur, max_depth) {
            Err(e) => Err(e),
            Ok(found) => {
                let entry = entries.last();
                match entry.state {
                    EntryState::Unknown => Err(MergeRunError::CouldNotReadEntry(entry.path)),
                    EntryState::Missing => Err(MergeRunError::EntryDoesNotExists(entry.path)),
                    EntryState::File => if has_pdf_extension(entry.path@) {
                        Ok(found.push(entry.path))
                    } else {
                        Ok(found)
                    },
                    EntryState::Locked => Err(MergeRunError::CouldNotReadEntry(entry.path)),
                    EntryState::Directory(children) => if turns_back(deeper(cur), max_depth) {
                        Ok(found)
                    } else {
                        match gathered(children@, deeper(cur), max_depth) {
                            Err(e) => Err(e),
                            Ok(more) => Ok(found + more),
                        }
                    },
                    EntryState::Other => Ok(found),
                }
            },
        }
    }
}

/// The PDF files of the entries, for a walk that stands at depth `cur`.
pub open spec fn collected(entries: Seq<Entry>, cur: usize, max_depth: Depth) -> Result<
    Seq<String>,
    MergeRunError,
> {
    if turns_back(cur, max_depth) {
        Ok(Seq::empty())
    } else {
        gathered(entries, cur, max_depth)
    }
}

/// Collects the PDF files of the entries, directories searched as deep as
/// `max_depth` allows. The order of the entries is kept.
pub fn get_pdf_paths(paths: &Vec<Entry>, cur_depth: usize, max_depth: &Depth) -> (r: Result<
    Vec<String>,
    MergeRunError,
>)
    ensures
        match collected(paths@, cur_depth, *max_depth) {
            Ok(found) => r matches Ok(list) && list@ == found,
            Err(e) => r == Err::<Vec<String>, MergeRunError>(e),
        },
    decreases paths,
{
    if stops_at(cur_depth, max_depth) {
        return Ok(Vec::new());
    }
    let next = step_down(cur_depth);
    let mut result: Vec<String> = Vec::new();
    let mut i: usize = 0;
    assert(paths@.take(0) == Seq::<Entry>::empty());
    while i < paths.len()
        invariant
            i <= paths@.len(),
            next == deeper(cur_depth),
            !turns_back(cur_depth, *max_depth),
            gathered(paths@.take(i as int), cur_depth, *max_depth) == Ok::<
                Seq<String>,
                MergeRunError,
            >(result@),
        decreases paths@.len() - i,
    {
        let entry = &paths[i];
        proof {
            assert(paths@.take(i + 1).drop_last() == paths@.take(i as int));
            assert(paths@.take(i + 1).last() == paths@[i as int]);
        }
        match &entry.state {
            EntryState::Unknown => {
                proof {
                    lemma_failure_stays(paths@, i + 1, cur_depth, *max_depth);
                }
                return Err(MergeRunError::CouldNotReadEntry(entry.path.clone()));
            },
            EntryState::Missing => {
                proof {
                    lemma_failure_stays(paths@, i + 1, cur_depth, *max_depth);
                }
                return Err(MergeRunError::EntryDoesNotExists(entry.path.clone()));
            },
            EntryState::File => {
                if is_pdf_file_name(entry.path.as_str()) {
                    result.push(entry.path.clone());
                }
            },
            EntryState::Locked => {
                proof {
                    lemma_failure_stays(paths@, i + 1, cur_depth, *max_depth);
                }
                return Err(MergeRunError::CouldNotReadEntry(entry.path.clone()));
            },
            EntryState::Directory(children) => {
                match get_pdf_paths(children, next, max_depth) {
                    Ok(more) => {
                        let mut more = more;
                        result.append(&mut more);
                    },
                    Err(e) => {
                        proof {
                            lemma_failure_stays(paths@, i + 1, cur_depth, *max_depth);
                        }
                        return Err(e);
                    },
                }
            },
            EntryState::Other => {},
        }
        i += 1;
    }
    assert(paths@.take(i as int) == paths@);
    Ok(result)
}

/// A walk that fails among the first `n` entries fails the same way on all.
proof fn lemma_failure_stays(entries: Seq<Entry>, n: int, cur: usize, max_depth: Depth)
    requires
        0 <= n <= entries.len(),
        gathered(entries.take(n), cur, max_depth) is Err,
    ensures
        gathered(entries, cur, max_depth) == gathered(entries.take(n), cur, max_depth),
    decreases entries.len() - n,
{
    if n == entries.len() {
        assert(entries.take(n) == entries);
    } else {
        assert(entries.take(n + 1).drop_last() == entries.take(n));
        lemma_failure_stays(entries, n + 1, cur, max_depth);
    }
}

/// The entries of a flat list of files: each path as a regular file.
pub open spec fn as_files(paths: Seq<String>) -> Seq<Entry> {
    Seq::new(paths.len(), |i: int| Entry { path: paths[i], state: EntryState::File })
}

/// Every path that a walk gives ends in `.pdf`.
proof fn lemma_gathered_are_pdf(entries: Seq<Entry>, cur: usize, max_depth: Depth)
    requires
        gathered(entries, cur, max_depth) is Ok,
    ensures
        forall|i: int|
            0 <= i < gathered(entries, cur, max_depth)->Ok_0.len() ==> has_pdf_extension(
                (#[trigger] gathered(entries, cur, max_depth)->Ok_0[i])@,
            ),
    decreases entries,
{
    if entries.len() > 0 {
        lemma_gathered_are_pdf(entries.drop_last(), cur, max_depth);
        match entries.last().state {
            EntryState::Directory(children) => {
                if !turns_back(deeper(cur), max_depth) {
                    lemma_gathered_are_pdf(children@, deeper(cur), max_depth);
                }
            },
            _ => {},
        }
    }
}

/// A flat list of PDF files gives itself, at every depth.
proof fn lemma_files_give_themselves(paths: Seq<String>, cur: usize, max_depth: Depth)
    requires
        forall|i: int| 0 <= i < paths.len() ==> has_pdf_extension((#[trigger] paths[i])@),
    ensures
        gathered(as_files(paths), cur, max_depth) == Ok::<Seq<String>, MergeRunError>(paths),
    decreases paths.len(),
{
    if paths.len() == 0 {
        assert(as_files(paths) == Seq::<Entry>::empty());
        assert(paths == Seq::<String>::empty());
    } else {
        let front = paths.drop_last();
        assert forall|i: int| 0 <= i < front.len() implies has_pdf_extension(
            (#[trigger] front[i])@,
        ) by {
            assert(front[i] == paths[i]);
        }
        lemma_files_give_themselves(front, cur, max_depth);
        assert(as_files(paths).drop_last() == as_files(front));
        assert(as_files(paths).last().path == paths.last());
        assert(has_pdf_extension(paths[paths.len() - 1]@));
        assert(front.push(paths.last()) == paths);
    }
}

/// Expanding what an expansion gave changes nothing: the files that the
/// collector found, given to it again as inputs, come back as they are,
/// whatever the depth of the second walk.
pub proof fn lemma_expansion_is_fixed_point(
    entries: Seq<Entry>,
    cur: usize,
    max_depth: Depth,
    again: Depth,
)
    requires
        collected(entries, cur, max_depth) is Ok,
    ensures
        collected(as_files(collected(entries, cur, max_depth)->Ok_0), 0, again) == collected(
            entries,
            cur,
            max_depth,
        ),
{
    let found = collected(entries, cur, max_depth)->Ok_0;
    if !turns_back(cur, max_depth) {
        lemma_gathered_are_pdf(entries, cur, max_depth);
    }
    lemma_files_give_themselves(found, 0, again);
}

} // verus!
