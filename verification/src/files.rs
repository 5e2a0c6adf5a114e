//! Checks on the file names that a command is given.
use vstd::prelude::*;
use crate::bytes::text_equal;

verus! {

/// `Path::exists` of std on the path made of `path`. What it returns
/// depends on the file system at the moment of the call.
#[verifier::external_body]
fn path_exists(path: &str) -> (r: bool) {
    std::path::Path::new(path).exists()
}

/// `Path::is_dir` of std on the path made of `path`. What it returns
/// depends on the file system at the moment of the call.
#[verifier::external_body]
fn path_is_dir(path: &str) -> (r: bool) {
    std::path::Path::new(path).is_dir()
}

/// Whether `filename` names the standard input.
pub open spec fn is_stdin(filename: Seq<char>) -> bool {
    filename == "-"@
}

/// Accepts an input that is the standard input or a file that was found.
pub fn accept_file(filename: &str, found: bool) -> (r: Result<String, &'static str>)
    ensures
        match r {
            Ok(name) => (is_stdin(filename@) || found) && name@ == filename@,
            Err(msg) => !is_stdin(filename@) && !found && msg@ == "File does not exist"@,
        },
{
    if found || text_equal(filename, "-") {
        Ok(filename.to_owned())
    } else {
        Err("File does not exist")
    }
}

/// Accepts `-`, for the standard input, and the name of whatever exists in
/// the file system; the file system is not asked about `-`.
pub fn verify_file(filename: &str) -> (r: Result<String, &'static str>)
    ensures
        is_stdin(filename@) ==> r is Ok,
        match r {
            Ok(name) => name@ == filename@,
            Err(msg) => msg@ == "File does not exist"@,
        },
{
    if text_equal(filename, "-") {
        accept_file(filename, false)
    } else {
        accept_file(filename, path_exists(filename))
    }
}

/// Accepts an input file that was found.
pub fn accept_input_file(filename: &str, found: bool) -> (r: Result<String, &'static str>)
    ensures
        match r {
            Ok(name) => found && name@ == filename@,
            Err(msg) => !found && msg@ == "Input file not found"@,
        },
{
    if found {
        Ok(filename.to_owned())
    } else {
        Err("Input file not found")
    }
}

/// Accepts the name of whatever exists in the file system.
pub fn verify_input_file(filename: &str) -> (r: Result<String, &'static str>)
    ensures
        match r {
            Ok(name) => name@ == filename@,
            Err(msg) => msg@ == "Input file not found"@,
        },
{
    accept_input_file(filename, path_exists(filename))
}

/// Accepts a path that was found and is a directory.
pub fn accept_path(path: &str, found: bool, is_dir: bool) -> (r: Result<String, &'static str>)
    ensures
        match r {
            Ok(name) => found && is_dir && name@ == path@,
            Err(msg) => !(found && is_dir) && msg@ == "Path does not exist or is not a directory"@,
        },
{
    if found && is_dir {
        Ok(path.to_owned())
    } else {
        Err("Path does not exist or is not a directory")
    }
}

/// Accepts the path of a directory that exists in the file system.
pub fn verify_path(path: &str) -> (r: Result<String, &'static str>)
    ensures
        match r {
            Ok(name) => name@ == path@,
            Err(msg) => msg@ == "Path does not exist or is not a directory"@,
        },
{
    let found = path_exists(path);
    let is_dir = found && path_is_dir(path);
    accept_path(path, found, is_dir)
}

} // verus!
