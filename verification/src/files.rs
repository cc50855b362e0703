//! What is asked of the file to scan before it is opened.

use crate::error::{ScanError, ScanFailure};
use vstd::prelude::*;
use vstd::string::StringExecFns;

verus! {

/// What the check of a path comes to, given what was found under it: the
/// path itself where a regular file is there.
pub open spec fn file_check(path: Seq<char>, exists: bool, is_file: bool) -> Result<
    Seq<char>,
    ScanFailure,
> {
    if !exists {
        Err(ScanFailure::NoSuchFile { path })
    } else if !is_file {
        Err(ScanFailure::NotAFile { path })
    } else {
        Ok(path)
    }
}

/// Accepts the path `s` if something exists under it (`exists`) that is a
/// regular file (`is_file`).
pub fn check_file(s: &str, exists: bool, is_file: bool) -> (r: Result<String, ScanError>)
    ensures
        match r {
            Ok(path) => file_check(s@, exists, is_file) == Ok::<Seq<char>, ScanFailure>(path@),
            Err(e) => file_check(s@, exists, is_file) == Err::<Seq<char>, ScanFailure>(e@),
        },
{
    if !exists {
        Err(ScanError::NoSuchFile { path: String::from_str(s) })
    } else if !is_file {
        Err(ScanError::NotAFile { path: String::from_str(s) })
    } else {
        Ok(String::from_str(s))
    }
}

} // verus!
