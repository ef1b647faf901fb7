//! Inputs: the values that are handed to the target.

use vstd::prelude::*;
use crate::error::Error;

verus! {

/// A value that can be run against the target and kept in a file.
///
/// The two relations say which outcomes a write or a read may have. An
/// implementation may narrow them; as they stand they admit every outcome. The
/// library proves nothing from them but that an outcome came from the call it
/// names.
pub trait Input: Sized {
    /// A write of `self` to the file at `path` may end in `result`.
    open spec fn writes(&self, path: Seq<char>, result: Result<(), Error>) -> bool {
        true
    }

    /// A read of the file at `path` may end in `result`.
    open spec fn reads(path: Seq<char>, result: Result<Self, Error>) -> bool {
        true
    }

    /// Writes this input to the file at `path`.
    fn to_file(&self, path: &str) -> (result: Result<(), Error>)
        ensures
            self.writes(path@, result),
    ;

    /// Reads an input back from the file at `path`.
    fn from_file(path: &str) -> (result: Result<Self, Error>)
        ensures
            Self::reads(path@, result),
    ;
}

} // verus!
