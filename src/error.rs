use vstd::prelude::*;

verus! {

/// The ways a relayed translation request can fail.
#[derive(Debug, Clone, Copy, PartialEq, Eq, Structural)]
pub enum RelayError {
    /// The caller's bearer credential is missing or does not match the key.
    Unauthorized,
    /// The upstream answered 429: the caller must slow down.
    RateLimited,
    /// The upstream answered with another status outside 200..=299.
    UpstreamStatus(u16),
    /// Transport failure, or an upstream body that is not JSON.
    Gateway,
    /// A local fatal condition (clock before the epoch, no client pool).
    Internal,
}

impl RelayError {
    /// The HTTP status under which the error is reported to the caller.
    pub fn status_code(&self) -> (r: u16)
        ensures
            r == match self {
                RelayError::Unauthorized => 401u16,
                RelayError::RateLimited => 429u16,
                RelayError::UpstreamStatus(_) => 500u16,
                RelayError::Gateway => 502u16,
                RelayError::Internal => 500u16,
            },
    {
        match self {
            RelayError::Unauthorized => 401,
            RelayError::RateLimited => 429,
            RelayError::UpstreamStatus(_) => 500,
            RelayError::Gateway => 502,
            RelayError::Internal => 500,
        }
    }
}

} // verus!
