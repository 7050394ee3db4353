use vstd::prelude::*;

verus! {

/// Failures of the storage operations, each with the backend's message.
#[derive(Debug)]
pub enum Errs {
    /// A local file could not be read.
    ReadFile(String),
    /// Putting an object failed.
    Put(String),
    /// Deleting one object or a batch of objects failed.
    Delete(String),
    /// Listing the objects under a prefix failed.
    List(String),
}

} // verus!
