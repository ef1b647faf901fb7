//! The failures that the engine reports.

use vstd::prelude::*;

verus! {

/// Why an operation of the engine failed.
#[derive(Debug, PartialEq, Eq)]
pub enum Error {
    /// A stored value could not be written out or read back in its serial form.
    Serialize(String),
    /// A backing file is missing or could not be read or written.
    File(String),
    /// The target run, or an observer step around it, failed.
    Execution(String),
    /// There was nothing to select from.
    Empty(String),
}

} // verus!
