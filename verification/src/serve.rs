//! The decisions of a file server: what a request finds, which status
//! answers it, and how a directory is listed.
use vstd::prelude::*;
use crate::bytes::texts;

verus! {

/// The status of an answer that holds what was asked for.
pub const STATUS_OK: u16 = 200;

/// The status of an answer to a request for what does not exist.
pub const STATUS_NOT_FOUND: u16 = 404;

/// The status of an answer when reading failed.
pub const STATUS_INTERNAL_SERVER_ERROR: u16 = 500;

/// What a request finds at its path.
#[derive(Debug, Clone, Copy, PartialEq, Eq, Structural)]
pub enum Found {
    Missing,
    File,
    Directory,
}

/// What is found at a path: whatever exists and is no file counts as a
/// directory.
pub open spec fn found_at(exists: bool, is_file: bool) -> Found {
    if !exists {
        Found::Missing
    } else if is_file {
        Found::File
    } else {
        Found::Directory
    }
}

/// The status of the answer: not found for what is missing, else a server
/// error where reading failed.
pub open spec fn status_of(found: Found, read_ok: bool) -> u16 {
    if found == Found::Missing {
        STATUS_NOT_FOUND
    } else if read_ok {
        STATUS_OK
    } else {
        STATUS_INTERNAL_SERVER_ERROR
    }
}

/// Tells what was found at a path.
pub fn classify(exists: bool, is_file: bool) -> (r: Found)
    ensures
        r == found_at(exists, is_file),
{
    if !exists {
        Found::Missing
    } else if is_file {
        Found::File
    } else {
        Found::Directory
    }
}

/// Chooses the status that answers a request.
pub fn status_for(found: Found, read_ok: bool) -> (r: u16)
    ensures
        r == status_of(found, read_ok),
{
    match found {
        Found::Missing => STATUS_NOT_FOUND,
        _ => if read_ok {
            STATUS_OK
        } else {
            STATUS_INTERNAL_SERVER_ERROR
        },
    }
}

/// One entry of a directory: its path as shown, and whether it is a
/// directory itself.
pub struct Entry {
    pub path: String,
    pub is_dir: bool,
}

/// The paths of the entries that are directories (`dirs`) or that are not,
/// in the order of the listing.
pub open spec fn paths_of(entries: Seq<Entry>, dirs: bool) -> Seq<Seq<char>>
    decreases entries.len(),
{
    if entries.len() == 0 {
        seq![]
    } else {
        let before = paths_of(entries.drop_last(), dirs);
        if entries.last().is_dir == dirs {
            before.push(entries.last().path@)
        } else {
            before
        }
    }
}

/// Splits a listing into its directories and its other entries, each in
/// the order of the listing.
pub fn split_entries(entries: &Vec<Entry>) -> (r: (Vec<String>, Vec<String>))
    ensures
        texts(r.0@) == paths_of(entries@, true),
        texts(r.1@) == paths_of(entries@, false),
{
    let mut directories: Vec<String> = Vec::new();
    let mut files: Vec<String> = Vec::new();
    let mut i: usize = 0;
    while i < entries.len()
        invariant
            i <= entries@.len(),
            texts(directories@) =~= paths_of(entries@.take(i as int), true),
            texts(files@) =~= paths_of(entries@.take(i as int), false),
        decreases entries@.len() - i,
    {
        assert(entries@.take(i + 1).drop_last() =~= entries@.take(i as int));
        let path = entries[i].path.clone();
        if entries[i].is_dir {
            directories.push(path);
        } else {
            files.push(path);
        }
        i += 1;
    }
    assert(entries@.take(i as int) =~= entries@);
    (directories, files)
}

} // verus!
