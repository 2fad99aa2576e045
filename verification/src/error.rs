//! Typed failures of the identity layer and how they appear to a client.

use vstd::prelude::*;

verus! {

/// Why a request could not be authenticated.
///
/// Every variant is answered with the same status and an empty body, so a
/// client cannot tell which check failed.
#[derive(Clone, Copy, Debug, PartialEq, Eq, Structural)]
pub enum AuthError {
    MissingCredential,
    MalformedToken,
    UnknownKey,
    InvalidSignature,
    ExpiredToken,
    AudienceMismatch,
    IssuerMismatch,
    CsrfMismatch,
}

/// Why the provider's signing keys could not be obtained.
#[derive(Clone, Copy, Debug, PartialEq, Eq, Structural)]
pub enum KeyFetchError {
    /// The request to the discovery endpoint failed or timed out.
    Network,
    /// The response body is not a JSON document.
    MalformedBody,
    /// The document has no `keys` array.
    MissingKeys,
}

/// Failure of a session lookup.
#[derive(Clone, Copy, Debug, PartialEq, Eq, Structural)]
pub enum SessionError {
    NotFound,
}

/// A required configuration value is absent. Fatal at startup.
#[derive(Clone, Copy, Debug, PartialEq, Eq, Structural)]
pub enum ConfigError {
    MissingTenantId,
    MissingClientId,
    MissingClientSecret,
    MissingAudience,
    /// The tenant id is not a plain identifier.
    InvalidTenantId,
    /// The redirect address is no URL.
    InvalidRedirectUrl,
}

/// HTTP status for "unauthorized".
pub const UNAUTHORIZED: u16 = 401;

/// HTTP status for a temporary redirect.
pub const TEMPORARY_REDIRECT: u16 = 307;

impl AuthError {
    /// The status a client sees: the same for every variant.
    pub fn status_code(&self) -> (code: u16)
        ensures
            code == UNAUTHORIZED,
    {
        UNAUTHORIZED
    }

    /// Whether the failure marks hostile input, to be logged at elevated
    /// severity and never retried.
    pub open spec fn spec_is_hostile(&self) -> bool {
        *self == AuthError::CsrfMismatch || *self == AuthError::InvalidSignature
    }

    /// Whether the same request may succeed when it is made again: a
    /// credential was missing or could not be had in time, or a signing key
    /// could not be fetched.
    pub open spec fn spec_is_retryable(&self) -> bool {
        *self == AuthError::MissingCredential || *self == AuthError::UnknownKey
    }

    #[verifier::when_used_as_spec(spec_is_retryable)]
    pub fn is_retryable(&self) -> (retry: bool)
        ensures
            retry == self.spec_is_retryable(),
    {
        match self {
            AuthError::MissingCredential => true,
            AuthError::UnknownKey => true,
            _ => false,
        }
    }

    #[verifier::when_used_as_spec(spec_is_hostile)]
    pub fn is_hostile(&self) -> (hostile: bool)
        ensures
            hostile == self.spec_is_hostile(),
    {
        match self {
            AuthError::CsrfMismatch => true,
            AuthError::InvalidSignature => true,
            _ => false,
        }
    }
}

impl KeyFetchError {
    /// A key that could not be fetched is a key that is not known: the
    /// verification fails with `UnknownKey`.
    pub fn as_auth_error(&self) -> (e: AuthError)
        ensures
            e == AuthError::UnknownKey,
    {
        AuthError::UnknownKey
    }

    /// Fetch failures may be retried by the caller.
    pub fn is_retryable(&self) -> (retry: bool)
        ensures
            retry,
    {
        true
    }
}

/// Rejection of a browser request that carries no usable session: the
/// browser is sent to the login endpoint.
#[derive(Clone, Copy, Debug, PartialEq, Eq, Structural)]
pub struct AuthRedirect;

impl AuthRedirect {
    pub fn status_code(&self) -> (code: u16)
        ensures
            code == TEMPORARY_REDIRECT,
    {
        TEMPORARY_REDIRECT
    }

    /// Where the browser is sent.
    pub fn location(&self) -> (path: &'static str)
        ensures
            path@ == "/auth/login"@,
    {
        "/auth/login"
    }
}

} // verus!
