//! Synthesis of schema statements from entity metadata.

use vstd::prelude::*;
use crate::backend::DbBackend;

pub mod entity;
pub mod laws;

verus! {

/// Writes schema statements for one backend.
#[derive(Debug)]
pub struct Schema {
    backend: DbBackend,
}

impl Schema {
    /// The backend that statements are written for.
    pub closed spec fn spec_backend(&self) -> DbBackend {
        self.backend
    }

    /// A schema writer for the given backend.
    pub fn new(backend: DbBackend) -> (schema: Schema)
        ensures
            schema.spec_backend() == backend,
    {
        Schema { backend }
    }

    /// The backend that statements are written for.
    #[verifier::when_used_as_spec(spec_backend)]
    pub fn backend(&self) -> (backend: DbBackend)
        ensures
            backend == self.spec_backend(),
    {
        self.backend
    }
}

} // verus!
