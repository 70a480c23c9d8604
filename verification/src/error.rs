//! The errors the store can signal. Every failing operation returns one of
//! these; no error is swallowed, and no partial mutation is observable after
//! a failure.

use vstd::prelude::*;

verus! {

/// The error taxonomy of the store.
#[derive(Clone, Copy, Debug, PartialEq, Eq, Structural)]
pub enum StoreError {
    /// The backing file could not be opened or created, or the record
    /// table's schema could not be ensured. Fatal to construction.
    Initialization,
    /// An insert collided with an id already stored. Recoverable; the
    /// caller decides what to do.
    DuplicateKey,
    /// An update targeted an id that is not stored.
    NotFound,
    /// The backing engine failed during an operation (I/O fault, disk
    /// full, corruption). The operation had no effect.
    Storage,
}

impl StoreError {
    /// The caller-visible description of this error.
    pub open spec fn spec_message(self) -> Seq<char> {
        match self {
            StoreError::Initialization => "failed to initialize the store"@,
            StoreError::DuplicateKey => "a record with this id already exists"@,
            StoreError::NotFound => "no record with this id exists"@,
            StoreError::Storage => "the backing storage failed"@,
        }
    }

    /// A caller-visible message; the surrounding application is responsible
    /// for presentation.
    pub fn message(&self) -> (r: &'static str)
        ensures
            r@ == self.spec_message(),
    {
        match self {
            StoreError::Initialization => "failed to initialize the store",
            StoreError::DuplicateKey => "a record with this id already exists",
            StoreError::NotFound => "no record with this id exists",
            StoreError::Storage => "the backing storage failed",
        }
    }
}

} // verus!
