//! From one scan of a directory to the collection of items that a carousel
//! is made of.
//!
//! Reading the directory is the host's work. It hands over what the scan
//! produced: that the directory could not be opened, or one record for each
//! entry in the order in which the file system gave them, each record either
//! the entry's path or the reason why the entry could not be read.

use vstd::prelude::*;

verus! {

/// Why a directory, or one of its entries, could not be read.
#[derive(Clone, Copy, Debug, PartialEq, Eq, Structural)]
pub enum ReadError {
    /// There is nothing at the path.
    NotFound,
    /// The path may not be read.
    PermissionDenied,
    /// The path leads to something that is no directory.
    NotADirectory,
    /// Any other failure.
    Other,
}

/// What reading one entry produced: its path, or a failure.
pub type Entry = Result<String, ReadError>;

/// What one scan of a directory produced: its entries in the order in which
/// they were read, or the failure to open it.
pub type Scan = Result<Vec<Entry>, ReadError>;

/// The directory was opened and every entry of it was read.
pub open spec fn readable(scan: Scan) -> bool {
    scan matches Ok(entries) && forall|i: int| 0 <= i < entries@.len() ==> entries@[i] is Ok
}

/// The paths that the entries hold, one for each entry and in the same order.
pub open spec fn paths(entries: Seq<Entry>) -> Seq<String> {
    Seq::new(entries.len(), |i: int| entries[i]->Ok_0)
}

/// `error` is the failure that a read of `scan` stops at: that of opening
/// the directory, else that of the first entry that could not be read.
pub open spec fn stops_at(scan: Scan, error: ReadError) -> bool {
    match scan {
        Err(unopened) => error == unopened,
        Ok(entries) => exists|i: int|
            {
                &&& 0 <= i < entries@.len()
                &&& #[trigger] entries@[i] == Err::<String, ReadError>(error)
                &&& forall|j: int| 0 <= j < i ==> entries@[j] is Ok
            },
    }
}

/// The items that a scan yields: the paths of its entries where all of it
/// could be read, and nothing otherwise.
pub open spec fn loaded(scan: Scan) -> Seq<String> {
    if readable(scan) {
        paths(scan->Ok_0@)
    } else {
        Seq::empty()
    }
}

/// Collects the paths of a scan, in scan order, or reports the first failure.
pub fn read_svg_dir(scan: Scan) -> (read: Result<Vec<String>, ReadError>)
    ensures
        read is Ok <==> readable(scan),
        read matches Ok(svgs) ==> svgs@ == paths(scan->Ok_0@),
        read matches Err(error) ==> stops_at(scan, error),
{
    let entries = match scan {
        Ok(entries) => entries,
        Err(unopened) => {
            return Err(unopened);
        },
    };
    let mut svg_array: Vec<String> = Vec::new();
    for entry in it: entries
        invariant
            scan == Ok::<Vec<Entry>, ReadError>(entries),
            it.seq() == entries@,
            svg_array@.len() == it.index(),
            forall|j: int| 0 <= j < it.index() ==> entries@[j] == Ok::<String, ReadError>(svg_array@[j]),
    {
        match entry {
            Ok(path) => {
                svg_array.push(path);
            },
            Err(error) => {
                return Err(error);
            },
        }
    }
    assert(svg_array@ =~= paths(entries@));
    Ok(svg_array)
}

/// The items of a scan, with every failure taken for an empty directory.
pub fn safe_read_svg_dir(scan: Scan) -> (svgs: Vec<String>)
    ensures
        svgs@ == loaded(scan),
        !readable(scan) ==> svgs@.len() == 0,
        readable(scan) ==> svgs@.len() == scan->Ok_0@.len(),
{
    let anything = read_svg_dir(scan);
    let svg_array = match anything {
        Ok(svg) => svg,
        Err(_) => Vec::new(),
    };
    svg_array
}

} // verus!
