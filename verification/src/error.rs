//! The kinds of failure that the registry reports.

use vstd::prelude::*;

verus! {

/// Why a registry operation did not produce its result.
#[derive(Clone, Copy, Debug, PartialEq, Eq, Structural)]
pub enum RegistryError {
    /// No link has the slug, or the URL, that was asked for.
    NotFound,
    /// The URL is already registered under another slug.
    Conflict,
    /// Every candidate slug of a creation collided with an existing one.
    PkRaceExhausted,
    /// The store could not be reached, or failed in a way that was not expected.
    Unavailable,
}

impl RegistryError {
    /// The kind under which the error is shown to the client: exhausted
    /// collision retries are reported as a store that is unavailable.
    pub open spec fn spec_surfaced(self) -> RegistryError {
        match self {
            RegistryError::PkRaceExhausted => RegistryError::Unavailable,
            other => other,
        }
    }

    /// The HTTP status that stands for each kind.
    pub open spec fn spec_status(self) -> u16 {
        match self {
            RegistryError::NotFound => 404,
            RegistryError::Conflict => 409,
            RegistryError::PkRaceExhausted => 503,
            RegistryError::Unavailable => 503,
        }
    }

    /// The kind under which the error is shown to the client.
    #[verifier::when_used_as_spec(spec_surfaced)]
    pub fn surfaced(self) -> (shown: RegistryError)
        ensures
            shown == self.spec_surfaced(),
    {
        match self {
            RegistryError::PkRaceExhausted => RegistryError::Unavailable,
            other => other,
        }
    }

    /// The HTTP status that the transport answers with.
    #[verifier::when_used_as_spec(spec_status)]
    pub fn status(self) -> (code: u16)
        ensures
            code == self.spec_status(),
    {
        match self {
            RegistryError::NotFound => 404,
            RegistryError::Conflict => 409,
            RegistryError::PkRaceExhausted => 503,
            RegistryError::Unavailable => 503,
        }
    }
}

} // verus!
