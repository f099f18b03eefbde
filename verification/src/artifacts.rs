//! What loading a contract's build artifacts yields, as far as the options
//! read it.
//!
//! Finding and parsing the artifacts is the work of a loader that the caller
//! supplies; its errors pass through this library unchanged.

use vstd::prelude::*;

verus! {

/// The artifacts of a contract build that a loader found.
#[derive(Clone, Copy, Debug, PartialEq, Eq)]
pub struct ContractArtifacts {
    /// Whether the build is flagged as one that can be verified independently.
    pub verifiable: bool,
}

impl ContractArtifacts {
    /// Artifacts with the given flag.
    pub fn new(verifiable: bool) -> (r: Self)
        ensures
            r.verifiable == verifiable,
    {
        ContractArtifacts { verifiable }
    }

    /// Whether the build is flagged as one that can be verified independently.
    pub fn is_verifiable(&self) -> (r: bool)
        ensures
            r == self.verifiable,
    {
        self.verifiable
    }
}

/// Whether what a loader returned is verifiable: the flag of the artifacts
/// where it loaded them, and the loader's own error where it did not.
pub open spec fn verifiable_outcome<E>(loaded: Result<ContractArtifacts, E>) -> Result<bool, E> {
    match loaded {
        Ok(artifacts) => Ok(artifacts.verifiable),
        Err(e) => Err(e),
    }
}

/// Reads the flag out of what a loader returned, and hands its error on.
pub fn verifiable<E>(loaded: Result<ContractArtifacts, E>) -> (r: Result<bool, E>)
    ensures
        r == verifiable_outcome(loaded),
{
    match loaded {
        Ok(artifacts) => Ok(artifacts.is_verifiable()),
        Err(e) => Err(e),
    }
}

/// Asking whether the artifacts are verifiable fails exactly when loading them
/// failed, and then with the loader's error; when loading succeeded, the
/// answer is the flag of what was loaded.
pub proof fn lemma_verifiable_fails_as_loading<E>(loaded: Result<ContractArtifacts, E>)
    ensures
        verifiable_outcome(loaded) is Err <==> loaded is Err,
        loaded matches Err(e) ==> verifiable_outcome(loaded) == Err::<bool, E>(e),
        loaded matches Ok(artifacts) ==> verifiable_outcome(loaded) == Ok::<bool, E>(
            artifacts.verifiable,
        ),
{
}

} // verus!
