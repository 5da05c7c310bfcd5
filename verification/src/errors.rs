//! Error taxonomy of the repository and API layer.

use vstd::prelude::*;

verus! {

/// Which required fields of a creation payload were found empty.
#[derive(Clone, Copy, Debug, PartialEq, Eq, Structural)]
pub struct ValidationFault {
    pub empty_title: bool,
    pub empty_description: bool,
}

impl ValidationFault {
    /// A fault is meaningful only if it names at least one offending field.
    pub open spec fn wf(self) -> bool {
        self.empty_title || self.empty_description
    }
}

/// How a repository operation can fail: the client's data was invalid, or
/// the underlying storage refused the operation.
#[derive(Clone, Copy, Debug, PartialEq, Eq, Structural)]
pub enum RepoError {
    Validation(ValidationFault),
    Persistence,
}

} // verus!
