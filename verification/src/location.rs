//! Where the record is kept: one file of a fixed name in the data directory
//! that the host names.
//!
//! Paths belong to the operating system. The library carries them from the
//! driver's reports into the steps, and makes one path from another in one
//! place, [`token_file_in`]; it never looks into one.

use std::path::PathBuf;
use vstd::prelude::*;

verus! {

/// `std::path::PathBuf`, with its inside hidden; [`path_bytes`] names what
/// it holds.
#[verifier::external_type_specification]
#[verifier::external_body]
pub struct ExPathBuf(PathBuf);

/// The bytes that a path holds, in the encoding of the platform.
pub uninterp spec fn path_bytes(path: PathBuf) -> Seq<u8>;

/// What `std::path::Path::join` makes of a directory and a name: the bytes of
/// the joined path.
pub uninterp spec fn joined_path(dir: Seq<u8>, name: Seq<char>) -> Seq<u8>;

/// `std::path::Path::join` with a string as the path to adjoin. What the
/// result holds depends only on what the directory holds and on the name, and
/// is what [`joined_path`] names.
#[verifier::external_body]
pub(crate) fn join_path(dir: &PathBuf, name: &str) -> (path: PathBuf)
    ensures
        path_bytes(path) == joined_path(path_bytes(*dir), name@),
{
    dir.join(name)
}

/// The name of the token file inside the data directory.
pub const TOKEN_FILE_NAME: &'static str = "tokens.json";

/// The token file of a data directory, both as the bytes of their paths.
pub open spec fn token_file(dir: Seq<u8>) -> Seq<u8> {
    joined_path(dir, "tokens.json"@)
}

/// The path of the token file in `dir`. The same directory always gives the
/// same path.
pub fn token_file_in(dir: &PathBuf) -> (file: PathBuf)
    ensures
        path_bytes(file) == token_file(path_bytes(*dir)),
{
    join_path(dir, TOKEN_FILE_NAME)
}

} // verus!
