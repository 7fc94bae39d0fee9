//! Stable, redacted failures for transport-neutral service requests.

use vstd::prelude::*;

verus! {

/// Stable machine-readable failures returned by the service contracts.
#[derive(Clone, Copy, Debug, PartialEq, Eq, Structural, Hash)]
#[non_exhaustive]
pub enum ApiDomainErrorCode {
    /// A supplied value is empty or violates its documented syntax.
    InvalidArgument,
    /// The caller requested a service-request version this crate does not support.
    UnsupportedVersion,
    /// A supplied value exceeds its documented hard limit.
    LimitExceeded,
    /// The operation conflicts with current state.
    Conflict,
    /// The caller cancelled the operation.
    Cancelled,
    /// The operation deadline expired.
    DeadlineExceeded,
    /// A bounded resource budget was exhausted.
    ResourceExhausted,
    /// A required capability is unavailable.
    Unavailable,
    /// The operation failed without a safe external explanation.
    Internal,
}

/// The external machine code of each failure.
pub open spec fn domain_code_text(code: ApiDomainErrorCode) -> Seq<char> {
    match code {
        ApiDomainErrorCode::InvalidArgument => "API_DOMAIN_INVALID_ARGUMENT"@,
        ApiDomainErrorCode::UnsupportedVersion => "API_DOMAIN_UNSUPPORTED_VERSION"@,
        ApiDomainErrorCode::LimitExceeded => "API_DOMAIN_LIMIT_EXCEEDED"@,
        ApiDomainErrorCode::Conflict => "API_DOMAIN_CONFLICT"@,
        ApiDomainErrorCode::Cancelled => "API_DOMAIN_CANCELLED"@,
        ApiDomainErrorCode::DeadlineExceeded => "API_DOMAIN_DEADLINE_EXCEEDED"@,
        ApiDomainErrorCode::ResourceExhausted => "API_DOMAIN_RESOURCE_EXHAUSTED"@,
        ApiDomainErrorCode::Unavailable => "API_DOMAIN_UNAVAILABLE"@,
        ApiDomainErrorCode::Internal => "API_DOMAIN_INTERNAL"@,
    }
}

impl ApiDomainErrorCode {
    /// Returns the stable external machine code.
    pub fn as_str(self) -> (res: &'static str)
        ensures
            res@ == domain_code_text(self),
    {
        match self {
            ApiDomainErrorCode::InvalidArgument => "API_DOMAIN_INVALID_ARGUMENT",
            ApiDomainErrorCode::UnsupportedVersion => "API_DOMAIN_UNSUPPORTED_VERSION",
            ApiDomainErrorCode::LimitExceeded => "API_DOMAIN_LIMIT_EXCEEDED",
            ApiDomainErrorCode::Conflict => "API_DOMAIN_CONFLICT",
            ApiDomainErrorCode::Cancelled => "API_DOMAIN_CANCELLED",
            ApiDomainErrorCode::DeadlineExceeded => "API_DOMAIN_DEADLINE_EXCEEDED",
            ApiDomainErrorCode::ResourceExhausted => "API_DOMAIN_RESOURCE_EXHAUSTED",
            ApiDomainErrorCode::Unavailable => "API_DOMAIN_UNAVAILABLE",
            ApiDomainErrorCode::Internal => "API_DOMAIN_INTERNAL",
        }
    }
}

/// A redacted request-contract error that never retains rejected input.
#[derive(Clone, Copy, Debug, PartialEq, Eq, Structural)]
pub struct ApiDomainError {
    /// The stable machine-readable code; the only state an error carries.
    pub code: ApiDomainErrorCode,
}

impl ApiDomainError {
    /// Creates an error from a stable machine-readable code.
    pub fn new(code: ApiDomainErrorCode) -> (res: Self)
        ensures
            res.code == code,
    {
        ApiDomainError { code }
    }

    /// Returns the stable machine-readable code.
    pub fn code(self) -> (res: ApiDomainErrorCode)
        ensures
            res == self.code,
    {
        self.code
    }
}

/// Builds a redacted invalid-argument failure.
pub fn invalid_argument() -> (res: ApiDomainError)
    ensures
        res.code == ApiDomainErrorCode::InvalidArgument,
{
    ApiDomainError::new(ApiDomainErrorCode::InvalidArgument)
}

/// Builds a redacted hard-limit failure.
pub fn limit_exceeded() -> (res: ApiDomainError)
    ensures
        res.code == ApiDomainErrorCode::LimitExceeded,
{
    ApiDomainError::new(ApiDomainErrorCode::LimitExceeded)
}

/// Builds a redacted state-conflict failure.
pub fn conflict() -> (res: ApiDomainError)
    ensures
        res.code == ApiDomainErrorCode::Conflict,
{
    ApiDomainError::new(ApiDomainErrorCode::Conflict)
}

/// Distinct failure codes have distinct external machine codes.
pub proof fn domain_codes_are_distinct(a: ApiDomainErrorCode, b: ApiDomainErrorCode)
    requires
        a != b,
    ensures
        domain_code_text(a) != domain_code_text(b),
{
    reveal_strlit("API_DOMAIN_INVALID_ARGUMENT");
    reveal_strlit("API_DOMAIN_UNSUPPORTED_VERSION");
    reveal_strlit("API_DOMAIN_LIMIT_EXCEEDED");
    reveal_strlit("API_DOMAIN_CONFLICT");
    reveal_strlit("API_DOMAIN_CANCELLED");
    reveal_strlit("API_DOMAIN_DEADLINE_EXCEEDED");
    reveal_strlit("API_DOMAIN_RESOURCE_EXHAUSTED");
    reveal_strlit("API_DOMAIN_UNAVAILABLE");
    reveal_strlit("API_DOMAIN_INTERNAL");
    if domain_code_text(a) == domain_code_text(b) {
        assert(domain_code_text(a).len() == domain_code_text(b).len());
        assert(domain_code_text(a)[11] == domain_code_text(b)[11]);
    }
}

} // verus!
