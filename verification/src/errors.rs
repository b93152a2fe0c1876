use vstd::prelude::*;

verus! {

/// The ways a request can fail, mirroring the responses the proxy gives.
#[derive(Clone, Copy, PartialEq, Eq, Structural, Debug)]
pub enum GeoError {
    /// The caller has exhausted its daily quota.
    RateLimited,
    /// The provider rejected or failed the request; carries the provider's
    /// HTTP status code.
    Upstream(u16),
    /// The call to the provider could not be completed (network failure,
    /// timeout, or a malformed response body).
    Transport,
}

impl GeoError {
    /// The HTTP status code this error is surfaced with: 429 for a denied
    /// admission, 502 for a provider error, 500 for a transport fault.
    pub fn status_code(&self) -> (code: u16)
        ensures
            code == (match *self {
                GeoError::RateLimited => 429u16,
                GeoError::Upstream(_) => 502u16,
                GeoError::Transport => 500u16,
            }),
    {
        match *self {
            GeoError::RateLimited => 429,
            GeoError::Upstream(_) => 502,
            GeoError::Transport => 500,
        }
    }
}

} // verus!
