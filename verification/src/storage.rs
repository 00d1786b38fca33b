//! Blob storage for the video pipeline: the provider tags and the no-op
//! provider used when no cloud storage is configured. The cloud client
//! itself lives with the application shell.

use vstd::prelude::*;

use crate::document::Document;
use crate::errors::Errors;

verus! {

/// The tag of a storage backend.
#[derive(PartialEq, Eq, Structural, Clone, Copy, Debug)]
pub enum StorageService {
    Aws,
    Unknown,
    Disabled,
}

/// A storage provider that accepts everything and stores nothing; the
/// stand-in when no blob storage is configured.
pub struct NullProvider {}

impl NullProvider {
    /// Accepts any document without storing it.
    pub fn store(&self, document: &Document) -> (r: Result<(), Errors>)
        ensures
            r is Ok,
    {
        let _ = document;
        Ok(())
    }
}

} // verus!
