//! Redacted failure classification shared by protocol adapters.

use vstd::prelude::*;

use crate::domain::error::{ApiDomainError, ApiDomainErrorCode};
use crate::domain::request::{ResponseMode, ServiceRequest};
use crate::http::error::{ApiHttpError, ApiHttpErrorCode};

verus! {

/// A redacted failure retaining HTTP-facing versus service-domain
/// classification; it never retains credentials, body data or diagnostics.
#[derive(Clone, Copy, Debug, PartialEq, Eq, Structural)]
#[non_exhaustive]
pub enum ProtocolFailure {
    /// A stable HTTP-facing failure without authentication provenance.
    Http(ApiHttpError),
    /// A failure owned by transport-neutral request or dispatch semantics.
    Domain(ApiDomainError),
}

impl ProtocolFailure {
    /// Returns the stable HTTP code when this is an HTTP-ingress failure.
    pub fn http_code(self) -> (res: Option<ApiHttpErrorCode>)
        ensures
            res == (match self {
                ProtocolFailure::Http(e) => Some(e.code),
                ProtocolFailure::Domain(_) => None,
            }),
    {
        match self {
            ProtocolFailure::Http(error) => Some(error.code()),
            ProtocolFailure::Domain(_) => None,
        }
    }

    /// Returns the stable domain code when this is a service-domain failure.
    pub fn domain_code(self) -> (res: Option<ApiDomainErrorCode>)
        ensures
            res == (match self {
                ProtocolFailure::Domain(e) => Some(e.code),
                ProtocolFailure::Http(_) => None,
            }),
    {
        match self {
            ProtocolFailure::Domain(error) => Some(error.code()),
            ProtocolFailure::Http(_) => None,
        }
    }
}

impl From<ApiHttpError> for ProtocolFailure {
    fn from(error: ApiHttpError) -> (res: Self) {
        ProtocolFailure::Http(error)
    }
}

impl vstd::std_specs::convert::FromSpecImpl<ApiHttpError> for ProtocolFailure {
    open spec fn obeys_from_spec() -> bool {
        true
    }

    open spec fn from_spec(v: ApiHttpError) -> Self {
        ProtocolFailure::Http(v)
    }
}

impl From<ApiDomainError> for ProtocolFailure {
    fn from(error: ApiDomainError) -> (res: Self) {
        ProtocolFailure::Domain(error)
    }
}

impl vstd::std_specs::convert::FromSpecImpl<ApiDomainError> for ProtocolFailure {
    open spec fn obeys_from_spec() -> bool {
        true
    }

    open spec fn from_spec(v: ApiDomainError) -> Self {
        ProtocolFailure::Domain(v)
    }
}

/// The redacted internal transport failure.
pub open spec fn internal_failure_spec() -> ProtocolFailure {
    ProtocolFailure::Http(ApiHttpError { code: ApiHttpErrorCode::Internal })
}

/// Builds the redacted internal transport failure.
pub fn internal_failure() -> (res: ProtocolFailure)
    ensures
        res == internal_failure_spec(),
{
    ProtocolFailure::Http(ApiHttpError::new(ApiHttpErrorCode::Internal))
}

/// The activity of the request a response is projected for.
pub trait ResponseActivity {
    /// The failure of the request's activity check (cancellation or a passed
    /// deadline) as a domain failure, or `None` while the request is active.
    fn check_active(&self) -> Option<ApiDomainError>;
}

/// The absence of a request context: a projection that nothing cancels.
pub struct NoRequestContext;

impl ResponseActivity for NoRequestContext {
    fn check_active(&self) -> Option<ApiDomainError> {
        None
    }
}

/// Checks the request `context`, when there is one: an inactive request
/// fails with its domain failure; with no context nothing fails.
pub fn check_response_context<C: ResponseActivity>(context: Option<&C>) -> (res: Result<(), ProtocolFailure>)
    ensures
        context is None ==> res is Ok,
        res matches Err(e) ==> context is Some && e is Domain,
{
    match context {
        Some(c) => match c.check_active() {
            Some(e) => Err(ProtocolFailure::Domain(e)),
            None => Ok(()),
        },
        None => Ok(()),
    }
}

/// The delivery mode a request carries, when the protocol surface supports it:
/// text and chat requests choose theirs, embeddings are always complete.
pub open spec fn request_response_mode(request: ServiceRequest) -> Option<ResponseMode> {
    match request {
        ServiceRequest::Text(r) => Some(r@.response_mode),
        ServiceRequest::Chat(r) => Some(r@.response_mode),
        ServiceRequest::Embedding(_) => Some(ResponseMode::Complete),
        _ => None,
    }
}

/// Checks that a protocol adapter declared the delivery mode its request
/// actually carries; any other request or a mismatch is an internal failure.
pub fn validate_request_mode(request: &ServiceRequest, declared: ResponseMode) -> (res: Result<(), ProtocolFailure>)
    ensures
        res is Ok <==> request_response_mode(*request) == Some(declared),
        res is Err ==> res == Err::<(), ProtocolFailure>(internal_failure_spec()),
{
    let actual = match request {
        ServiceRequest::Text(request) => request.response_mode(),
        ServiceRequest::Chat(request) => request.response_mode(),
        ServiceRequest::Embedding(_) => ResponseMode::Complete,
        _ => {
            return Err(internal_failure());
        },
    };
    if actual != declared {
        return Err(internal_failure());
    }
    Ok(())
}

/// A decoded request whose declared delivery mode is the one it carries.
pub struct ProtocolRequest {
    request: ServiceRequest,
    response_mode: ResponseMode,
}

impl ProtocolRequest {
    #[verifier::type_invariant]
    spec fn mode_matches(self) -> bool {
        request_response_mode(self.request) == Some(self.response_mode)
    }

    /// Checks a decoded request against its declared delivery mode; a
    /// mismatch or a request the public surface does not deliver is the
    /// internal failure.
    pub fn new(request: ServiceRequest, response_mode: ResponseMode) -> (res: Result<Self, ProtocolFailure>)
        ensures
            res is Ok <==> request_response_mode(request) == Some(response_mode),
            res is Err ==> res == Err::<ProtocolRequest, ProtocolFailure>(internal_failure_spec()),
            res matches Ok(r) ==> r.request_spec() == request && r.response_mode_spec() == response_mode,
    {
        validate_request_mode(&request, response_mode)?;
        Ok(ProtocolRequest { request, response_mode })
    }

    /// The checked request.
    pub closed spec fn request_spec(&self) -> ServiceRequest {
        self.request
    }

    /// The checked delivery mode.
    pub closed spec fn response_mode_spec(&self) -> ResponseMode {
        self.response_mode
    }

    /// Borrows the checked request.
    pub fn request(&self) -> (res: &ServiceRequest)
        ensures
            *res == self.request_spec(),
    {
        &self.request
    }

    /// Returns the checked delivery mode, which the request carries.
    pub fn response_mode(&self) -> (res: ResponseMode)
        ensures
            res == self.response_mode_spec(),
            request_response_mode(self.request_spec()) == Some(res),
    {
        proof {
            use_type_invariant(self);
        }
        self.response_mode
    }

    /// Hands over the request and its delivery mode.
    pub fn into_parts(self) -> (res: (ServiceRequest, ResponseMode))
        ensures
            res.0 == self.request_spec(),
            res.1 == self.response_mode_spec(),
    {
        (self.request, self.response_mode)
    }
}

} // verus!
