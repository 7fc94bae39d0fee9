//! Stable public HTTP error contracts and their redacted response projections.

use vstd::prelude::*;

use crate::domain::error::{ApiDomainError, ApiDomainErrorCode, domain_code_text};
use crate::files::{ApiFilesError, ApiFilesErrorCode, files_code_text};

verus! {

/// Stable transport failures produced before or around service dispatch.
#[derive(Clone, Copy, Debug, PartialEq, Eq, Structural, Hash)]
#[non_exhaustive]
pub enum ApiHttpErrorCode {
    /// Request syntax, headers, or framing are invalid.
    InvalidRequest,
    /// Authentication evidence is absent or invalid.
    Unauthenticated,
    /// The authenticated principal lacks permission.
    Forbidden,
    /// The request context was cancelled.
    Cancelled,
    /// The absolute request deadline elapsed.
    DeadlineExceeded,
    /// No public route matches the request target.
    NotFound,
    /// The route does not support the request method.
    MethodNotAllowed,
    /// The encoded request body exceeds its hard limit.
    PayloadTooLarge,
    /// Every public ingress execution permit is in use.
    ResourceExhausted,
    /// An authoritative authentication dependency is unavailable.
    Unavailable,
    /// The request media type is not supported.
    UnsupportedMediaType,
    /// The optional response-stream bridge is unavailable.
    StreamUnavailable,
    /// The transport failed without a safe external explanation.
    Internal,
}

/// The stable transport machine code of each failure.
pub open spec fn http_code_text(code: ApiHttpErrorCode) -> Seq<char> {
    match code {
        ApiHttpErrorCode::InvalidRequest => "API_HTTP_INVALID_REQUEST"@,
        ApiHttpErrorCode::Unauthenticated => "API_HTTP_UNAUTHENTICATED"@,
        ApiHttpErrorCode::Forbidden => "API_HTTP_FORBIDDEN"@,
        ApiHttpErrorCode::Cancelled => "API_HTTP_CANCELLED"@,
        ApiHttpErrorCode::DeadlineExceeded => "API_HTTP_DEADLINE_EXCEEDED"@,
        ApiHttpErrorCode::NotFound => "API_HTTP_NOT_FOUND"@,
        ApiHttpErrorCode::MethodNotAllowed => "API_HTTP_METHOD_NOT_ALLOWED"@,
        ApiHttpErrorCode::PayloadTooLarge => "API_HTTP_PAYLOAD_TOO_LARGE"@,
        ApiHttpErrorCode::ResourceExhausted => "API_HTTP_RESOURCE_EXHAUSTED"@,
        ApiHttpErrorCode::Unavailable => "API_HTTP_UNAVAILABLE"@,
        ApiHttpErrorCode::UnsupportedMediaType => "API_HTTP_UNSUPPORTED_MEDIA_TYPE"@,
        ApiHttpErrorCode::StreamUnavailable => "API_HTTP_STREAM_UNAVAILABLE"@,
        ApiHttpErrorCode::Internal => "API_HTTP_INTERNAL"@,
    }
}

/// Whether a transport failure is one of the five basic request failures.
pub open spec fn is_basic_http_code(code: ApiHttpErrorCode) -> bool {
    match code {
        ApiHttpErrorCode::InvalidRequest | ApiHttpErrorCode::Unauthenticated | ApiHttpErrorCode::Forbidden
        | ApiHttpErrorCode::NotFound | ApiHttpErrorCode::MethodNotAllowed => true,
        _ => false,
    }
}

/// Whether a transport failure concerns the service rather than the request.
pub open spec fn is_service_http_code(code: ApiHttpErrorCode) -> bool {
    match code {
        ApiHttpErrorCode::Cancelled | ApiHttpErrorCode::DeadlineExceeded | ApiHttpErrorCode::ResourceExhausted
        | ApiHttpErrorCode::Unavailable | ApiHttpErrorCode::Internal => true,
        _ => false,
    }
}

impl ApiHttpErrorCode {
    /// Returns the stable transport machine code.
    pub fn as_str(self) -> (res: &'static str)
        ensures
            res@ == http_code_text(self),
    {
        match self {
            ApiHttpErrorCode::InvalidRequest => "API_HTTP_INVALID_REQUEST",
            ApiHttpErrorCode::Unauthenticated => "API_HTTP_UNAUTHENTICATED",
            ApiHttpErrorCode::Forbidden => "API_HTTP_FORBIDDEN",
            ApiHttpErrorCode::NotFound => "API_HTTP_NOT_FOUND",
            ApiHttpErrorCode::MethodNotAllowed => "API_HTTP_METHOD_NOT_ALLOWED",
            ApiHttpErrorCode::PayloadTooLarge | ApiHttpErrorCode::Cancelled | ApiHttpErrorCode::DeadlineExceeded
            | ApiHttpErrorCode::ResourceExhausted | ApiHttpErrorCode::Unavailable
            | ApiHttpErrorCode::UnsupportedMediaType | ApiHttpErrorCode::StreamUnavailable
            | ApiHttpErrorCode::Internal => extended_http_code(self),
        }
    }
}

fn extended_http_code(code: ApiHttpErrorCode) -> (res: &'static str)
    ensures
        !is_basic_http_code(code) ==> res@ == http_code_text(code),
{
    match code {
        ApiHttpErrorCode::PayloadTooLarge => "API_HTTP_PAYLOAD_TOO_LARGE",
        ApiHttpErrorCode::UnsupportedMediaType => "API_HTTP_UNSUPPORTED_MEDIA_TYPE",
        ApiHttpErrorCode::StreamUnavailable => "API_HTTP_STREAM_UNAVAILABLE",
        ApiHttpErrorCode::Cancelled | ApiHttpErrorCode::DeadlineExceeded | ApiHttpErrorCode::ResourceExhausted
        | ApiHttpErrorCode::Unavailable | ApiHttpErrorCode::Internal => service_http_code(code),
        _ => "API_HTTP_INTERNAL",
    }
}

fn service_http_code(code: ApiHttpErrorCode) -> (res: &'static str)
    ensures
        is_service_http_code(code) ==> res@ == http_code_text(code),
{
    match code {
        ApiHttpErrorCode::Cancelled => "API_HTTP_CANCELLED",
        ApiHttpErrorCode::DeadlineExceeded => "API_HTTP_DEADLINE_EXCEEDED",
        ApiHttpErrorCode::ResourceExhausted => "API_HTTP_RESOURCE_EXHAUSTED",
        ApiHttpErrorCode::Unavailable => "API_HTTP_UNAVAILABLE",
        ApiHttpErrorCode::Internal => "API_HTTP_INTERNAL",
        _ => "API_HTTP_INTERNAL",
    }
}

/// A redacted HTTP adapter error that retains no request material.
#[derive(Clone, Copy, Debug, PartialEq, Eq, Structural)]
pub struct ApiHttpError {
    /// The stable transport error code; the only state an error carries.
    pub code: ApiHttpErrorCode,
}

impl ApiHttpError {
    /// Creates a redacted error from its stable code.
    pub fn new(code: ApiHttpErrorCode) -> (res: Self)
        ensures
            res.code == code,
    {
        ApiHttpError { code }
    }

    /// Returns the stable transport error code.
    pub fn code(self) -> (res: ApiHttpErrorCode)
        ensures
            res == self.code,
    {
        self.code
    }
}

/// Builds the redacted invalid-request failure.
pub fn invalid_request() -> (res: ApiHttpError)
    ensures
        res.code == ApiHttpErrorCode::InvalidRequest,
{
    ApiHttpError::new(ApiHttpErrorCode::InvalidRequest)
}

/// Builds the redacted unauthenticated failure.
pub fn unauthenticated() -> (res: ApiHttpError)
    ensures
        res.code == ApiHttpErrorCode::Unauthenticated,
{
    ApiHttpError::new(ApiHttpErrorCode::Unauthenticated)
}

/// The redacted response projection of one failure: HTTP status, machine
/// code, fixed message and whether a retry may succeed.
pub struct ErrorProjection {
    /// The HTTP status code.
    pub status: u16,
    /// The stable machine code.
    pub code: &'static str,
    /// The fixed redacted message.
    pub message: &'static str,
    /// Whether retrying the request may succeed.
    pub retryable: bool,
}

/// Whether `p` carries exactly the given status, code, message and retry hint.
pub open spec fn projects(p: ErrorProjection, status: u16, code: Seq<char>, message: Seq<char>, retryable: bool) -> bool {
    p.status == status && p.code@ == code && p.message@ == message && p.retryable == retryable
}

/// The HTTP status of each transport failure.
pub open spec fn http_status_of(code: ApiHttpErrorCode) -> u16 {
    match code {
        ApiHttpErrorCode::InvalidRequest => 400,
        ApiHttpErrorCode::Unauthenticated => 401,
        ApiHttpErrorCode::Forbidden => 403,
        ApiHttpErrorCode::Cancelled => 499,
        ApiHttpErrorCode::DeadlineExceeded => 504,
        ApiHttpErrorCode::NotFound => 404,
        ApiHttpErrorCode::MethodNotAllowed => 405,
        ApiHttpErrorCode::PayloadTooLarge => 413,
        ApiHttpErrorCode::ResourceExhausted => 429,
        ApiHttpErrorCode::Unavailable => 503,
        ApiHttpErrorCode::UnsupportedMediaType => 415,
        ApiHttpErrorCode::StreamUnavailable => 503,
        ApiHttpErrorCode::Internal => 500,
    }
}

/// The fixed message of each transport failure.
pub open spec fn http_message_text(code: ApiHttpErrorCode) -> Seq<char> {
    match code {
        ApiHttpErrorCode::InvalidRequest => "The request is invalid."@,
        ApiHttpErrorCode::Unauthenticated => "Authentication is required."@,
        ApiHttpErrorCode::Forbidden => "The request is not permitted."@,
        ApiHttpErrorCode::Cancelled => "The request was cancelled."@,
        ApiHttpErrorCode::DeadlineExceeded => "The request deadline was exceeded."@,
        ApiHttpErrorCode::NotFound => "The requested endpoint was not found."@,
        ApiHttpErrorCode::MethodNotAllowed => "The request method is not supported."@,
        ApiHttpErrorCode::PayloadTooLarge => "The request body is too large."@,
        ApiHttpErrorCode::ResourceExhausted => "Public request capacity is exhausted."@,
        ApiHttpErrorCode::Unavailable => "An authentication dependency is unavailable."@,
        ApiHttpErrorCode::UnsupportedMediaType => "The request media type is not supported."@,
        ApiHttpErrorCode::StreamUnavailable => "Response streaming is unavailable."@,
        ApiHttpErrorCode::Internal => "The request could not be completed."@,
    }
}

/// Whether retrying after a transport failure may succeed.
pub open spec fn http_retryable(code: ApiHttpErrorCode) -> bool {
    match code {
        ApiHttpErrorCode::DeadlineExceeded | ApiHttpErrorCode::ResourceExhausted
        | ApiHttpErrorCode::StreamUnavailable | ApiHttpErrorCode::Unavailable => true,
        _ => false,
    }
}

/// Projects a transport failure onto its redacted response.
pub fn project_http_error(error: ApiHttpError) -> (res: ErrorProjection)
    ensures
        projects(res, http_status_of(error.code), http_code_text(error.code), http_message_text(error.code), http_retryable(error.code)),
{
    let code = error.code();
    let retryable = match code {
        ApiHttpErrorCode::DeadlineExceeded | ApiHttpErrorCode::ResourceExhausted
        | ApiHttpErrorCode::StreamUnavailable | ApiHttpErrorCode::Unavailable => true,
        _ => false,
    };
    ErrorProjection { status: http_status(code), code: code.as_str(), message: http_message(code), retryable }
}

fn http_status(code: ApiHttpErrorCode) -> (res: u16)
    ensures
        res == http_status_of(code),
{
    match code {
        ApiHttpErrorCode::InvalidRequest => 400,
        ApiHttpErrorCode::Unauthenticated => 401,
        ApiHttpErrorCode::Forbidden => 403,
        ApiHttpErrorCode::NotFound => 404,
        ApiHttpErrorCode::MethodNotAllowed => 405,
        ApiHttpErrorCode::PayloadTooLarge | ApiHttpErrorCode::Cancelled | ApiHttpErrorCode::DeadlineExceeded
        | ApiHttpErrorCode::ResourceExhausted | ApiHttpErrorCode::Unavailable
        | ApiHttpErrorCode::UnsupportedMediaType | ApiHttpErrorCode::StreamUnavailable
        | ApiHttpErrorCode::Internal => extended_http_status(code),
    }
}

fn extended_http_status(code: ApiHttpErrorCode) -> (res: u16)
    ensures
        !is_basic_http_code(code) ==> res == http_status_of(code),
{
    match code {
        ApiHttpErrorCode::PayloadTooLarge => 413,
        ApiHttpErrorCode::UnsupportedMediaType => 415,
        ApiHttpErrorCode::StreamUnavailable => 503,
        ApiHttpErrorCode::Cancelled | ApiHttpErrorCode::DeadlineExceeded | ApiHttpErrorCode::ResourceExhausted
        | ApiHttpErrorCode::Unavailable | ApiHttpErrorCode::Internal => service_http_status(code),
        _ => 500,
    }
}

fn service_http_status(code: ApiHttpErrorCode) -> (res: u16)
    ensures
        is_service_http_code(code) ==> res == http_status_of(code),
{
    match code {
        ApiHttpErrorCode::Cancelled => status_499(),
        ApiHttpErrorCode::DeadlineExceeded => 504,
        ApiHttpErrorCode::ResourceExhausted => 429,
        ApiHttpErrorCode::Unavailable => 503,
        ApiHttpErrorCode::Internal => 500,
        _ => 500,
    }
}

/// The non-standard status reported for a request its client cancelled.
fn status_499() -> (res: u16)
    ensures
        res == 499,
{
    499
}

fn http_message(code: ApiHttpErrorCode) -> (res: &'static str)
    ensures
        res@ == http_message_text(code),
{
    match code {
        ApiHttpErrorCode::InvalidRequest => "The request is invalid.",
        ApiHttpErrorCode::Unauthenticated => "Authentication is required.",
        ApiHttpErrorCode::Forbidden => "The request is not permitted.",
        ApiHttpErrorCode::NotFound => "The requested endpoint was not found.",
        ApiHttpErrorCode::MethodNotAllowed => "The request method is not supported.",
        ApiHttpErrorCode::PayloadTooLarge | ApiHttpErrorCode::Cancelled | ApiHttpErrorCode::DeadlineExceeded
        | ApiHttpErrorCode::ResourceExhausted | ApiHttpErrorCode::Unavailable
        | ApiHttpErrorCode::UnsupportedMediaType | ApiHttpErrorCode::StreamUnavailable
        | ApiHttpErrorCode::Internal => extended_http_message(code),
    }
}

fn extended_http_message(code: ApiHttpErrorCode) -> (res: &'static str)
    ensures
        !is_basic_http_code(code) ==> res@ == http_message_text(code),
{
    match code {
        ApiHttpErrorCode::PayloadTooLarge => "The request body is too large.",
        ApiHttpErrorCode::UnsupportedMediaType => "The request media type is not supported.",
        ApiHttpErrorCode::StreamUnavailable => "Response streaming is unavailable.",
        ApiHttpErrorCode::Cancelled | ApiHttpErrorCode::DeadlineExceeded | ApiHttpErrorCode::ResourceExhausted
        | ApiHttpErrorCode::Unavailable | ApiHttpErrorCode::Internal => service_http_message(code),
        _ => "The request could not be completed.",
    }
}

fn service_http_message(code: ApiHttpErrorCode) -> (res: &'static str)
    ensures
        is_service_http_code(code) ==> res@ == http_message_text(code),
{
    match code {
        ApiHttpErrorCode::Cancelled => "The request was cancelled.",
        ApiHttpErrorCode::DeadlineExceeded => "The request deadline was exceeded.",
        ApiHttpErrorCode::ResourceExhausted => "Public request capacity is exhausted.",
        ApiHttpErrorCode::Unavailable => "An authentication dependency is unavailable.",
        ApiHttpErrorCode::Internal => "The request could not be completed.",
        _ => "The request could not be completed.",
    }
}

/// The HTTP status of each domain failure.
pub open spec fn domain_status_of(code: ApiDomainErrorCode) -> u16 {
    match code {
        ApiDomainErrorCode::InvalidArgument => 422,
        ApiDomainErrorCode::UnsupportedVersion => 422,
        ApiDomainErrorCode::LimitExceeded => 422,
        ApiDomainErrorCode::Conflict => 409,
        ApiDomainErrorCode::Cancelled => 499,
        ApiDomainErrorCode::DeadlineExceeded => 504,
        ApiDomainErrorCode::ResourceExhausted => 429,
        ApiDomainErrorCode::Unavailable => 503,
        ApiDomainErrorCode::Internal => 500,
    }
}

/// The fixed message of each domain failure.
pub open spec fn domain_message_text(code: ApiDomainErrorCode) -> Seq<char> {
    match code {
        ApiDomainErrorCode::InvalidArgument => "A request value is invalid."@,
        ApiDomainErrorCode::UnsupportedVersion => "The request version is not supported."@,
        ApiDomainErrorCode::LimitExceeded => "A request limit was exceeded."@,
        ApiDomainErrorCode::Conflict => "The request conflicts with current state."@,
        ApiDomainErrorCode::Cancelled => "The request was cancelled."@,
        ApiDomainErrorCode::DeadlineExceeded => "The request deadline was exceeded."@,
        ApiDomainErrorCode::ResourceExhausted => "A request resource was exhausted."@,
        ApiDomainErrorCode::Unavailable => "A required service is unavailable."@,
        ApiDomainErrorCode::Internal => "The request could not be completed."@,
    }
}

/// Whether retrying after a domain failure may succeed.
pub open spec fn domain_retryable(code: ApiDomainErrorCode) -> bool {
    match code {
        ApiDomainErrorCode::DeadlineExceeded | ApiDomainErrorCode::Unavailable
        | ApiDomainErrorCode::ResourceExhausted => true,
        _ => false,
    }
}

/// Whether a domain failure is a request-validation or state failure.
pub open spec fn is_request_domain_code(code: ApiDomainErrorCode) -> bool {
    match code {
        ApiDomainErrorCode::InvalidArgument | ApiDomainErrorCode::UnsupportedVersion
        | ApiDomainErrorCode::LimitExceeded | ApiDomainErrorCode::Conflict => true,
        _ => false,
    }
}

/// Whether a domain failure concerns service capacity or availability.
pub open spec fn is_service_domain_code(code: ApiDomainErrorCode) -> bool {
    match code {
        ApiDomainErrorCode::Unavailable | ApiDomainErrorCode::ResourceExhausted | ApiDomainErrorCode::Internal => true,
        _ => false,
    }
}

/// Projects a domain failure onto its redacted response.
pub fn project_domain_error(error: ApiDomainError) -> (res: ErrorProjection)
    ensures
        projects(res, domain_status_of(error.code), domain_code_text(error.code), domain_message_text(error.code), domain_retryable(error.code)),
{
    let code = error.code();
    ErrorProjection {
        status: domain_status(code),
        code: code.as_str(),
        message: domain_message(code),
        retryable: is_domain_retryable(code),
    }
}

fn domain_status(code: ApiDomainErrorCode) -> (res: u16)
    ensures
        res == domain_status_of(code),
{
    match code {
        ApiDomainErrorCode::InvalidArgument | ApiDomainErrorCode::UnsupportedVersion
        | ApiDomainErrorCode::LimitExceeded => 422,
        ApiDomainErrorCode::Conflict => 409,
        ApiDomainErrorCode::Cancelled => status_499(),
        ApiDomainErrorCode::DeadlineExceeded => 504,
        ApiDomainErrorCode::Unavailable | ApiDomainErrorCode::ResourceExhausted
        | ApiDomainErrorCode::Internal => service_domain_status(code),
    }
}

fn service_domain_status(code: ApiDomainErrorCode) -> (res: u16)
    ensures
        is_service_domain_code(code) ==> res == domain_status_of(code),
{
    match code {
        ApiDomainErrorCode::Unavailable => 503,
        ApiDomainErrorCode::ResourceExhausted => 429,
        ApiDomainErrorCode::Internal => 500,
        _ => 500,
    }
}

fn domain_message(code: ApiDomainErrorCode) -> (res: &'static str)
    ensures
        res@ == domain_message_text(code),
{
    match code {
        ApiDomainErrorCode::InvalidArgument | ApiDomainErrorCode::UnsupportedVersion
        | ApiDomainErrorCode::LimitExceeded | ApiDomainErrorCode::Conflict => request_domain_message(code),
        ApiDomainErrorCode::Cancelled => "The request was cancelled.",
        ApiDomainErrorCode::DeadlineExceeded => "The request deadline was exceeded.",
        ApiDomainErrorCode::Unavailable | ApiDomainErrorCode::ResourceExhausted
        | ApiDomainErrorCode::Internal => service_domain_message(code),
    }
}

fn request_domain_message(code: ApiDomainErrorCode) -> (res: &'static str)
    ensures
        is_request_domain_code(code) ==> res@ == domain_message_text(code),
{
    match code {
        ApiDomainErrorCode::InvalidArgument => "A request value is invalid.",
        ApiDomainErrorCode::UnsupportedVersion => "The request version is not supported.",
        ApiDomainErrorCode::LimitExceeded => "A request limit was exceeded.",
        ApiDomainErrorCode::Conflict => "The request conflicts with current state.",
        _ => "The request could not be completed.",
    }
}

fn service_domain_message(code: ApiDomainErrorCode) -> (res: &'static str)
    ensures
        is_service_domain_code(code) ==> res@ == domain_message_text(code),
{
    match code {
        ApiDomainErrorCode::Unavailable => "A required service is unavailable.",
        ApiDomainErrorCode::ResourceExhausted => "A request resource was exhausted.",
        ApiDomainErrorCode::Internal => "The request could not be completed.",
        _ => "The request could not be completed.",
    }
}

fn is_domain_retryable(code: ApiDomainErrorCode) -> (res: bool)
    ensures
        res == domain_retryable(code),
{
    match code {
        ApiDomainErrorCode::DeadlineExceeded | ApiDomainErrorCode::Unavailable
        | ApiDomainErrorCode::ResourceExhausted => true,
        _ => false,
    }
}

/// The HTTP status of each file failure.
pub open spec fn files_status_of(code: ApiFilesErrorCode) -> u16 {
    match code {
        ApiFilesErrorCode::InvalidArgument => 400,
        ApiFilesErrorCode::LimitExceeded => 413,
        ApiFilesErrorCode::Unauthenticated => 401,
        ApiFilesErrorCode::NotFound => 404,
        ApiFilesErrorCode::Conflict => 409,
        ApiFilesErrorCode::IntegrityFailure => 500,
        ApiFilesErrorCode::PolicyRejected => 403,
        ApiFilesErrorCode::Cancelled => 499,
        ApiFilesErrorCode::DeadlineExceeded => 504,
        ApiFilesErrorCode::ResourceExhausted => 429,
        ApiFilesErrorCode::Unavailable => 503,
        ApiFilesErrorCode::CommitIndeterminate => 503,
        ApiFilesErrorCode::Internal => 500,
    }
}

/// The fixed message of each file failure.
pub open spec fn files_message_text(code: ApiFilesErrorCode) -> Seq<char> {
    match code {
        ApiFilesErrorCode::InvalidArgument => "A file request value is invalid."@,
        ApiFilesErrorCode::LimitExceeded => "A file request limit was exceeded."@,
        ApiFilesErrorCode::Unauthenticated => "Authentication is required."@,
        ApiFilesErrorCode::NotFound => "The requested file was not found."@,
        ApiFilesErrorCode::Conflict => "The file request conflicts with current state."@,
        ApiFilesErrorCode::IntegrityFailure => "The file request could not be completed."@,
        ApiFilesErrorCode::PolicyRejected => "The file request is not permitted."@,
        ApiFilesErrorCode::Cancelled => "The file request was cancelled."@,
        ApiFilesErrorCode::DeadlineExceeded => "The file request deadline was exceeded."@,
        ApiFilesErrorCode::ResourceExhausted => "File service capacity is exhausted."@,
        ApiFilesErrorCode::Unavailable => "The file service is unavailable."@,
        ApiFilesErrorCode::CommitIndeterminate => "The file commit requires reconciliation."@,
        ApiFilesErrorCode::Internal => "The file request could not be completed."@,
    }
}

/// Whether retrying after a file failure may succeed.
pub open spec fn files_retryable(code: ApiFilesErrorCode) -> bool {
    match code {
        ApiFilesErrorCode::DeadlineExceeded | ApiFilesErrorCode::ResourceExhausted
        | ApiFilesErrorCode::Unavailable => true,
        _ => false,
    }
}

/// Whether a file failure is attributable to the client request.
pub open spec fn is_client_files_code(code: ApiFilesErrorCode) -> bool {
    match code {
        ApiFilesErrorCode::InvalidArgument | ApiFilesErrorCode::LimitExceeded
        | ApiFilesErrorCode::Unauthenticated | ApiFilesErrorCode::NotFound => true,
        _ => false,
    }
}

/// Whether a file failure arises while operating on current state.
pub open spec fn is_operational_files_code(code: ApiFilesErrorCode) -> bool {
    match code {
        ApiFilesErrorCode::Conflict | ApiFilesErrorCode::PolicyRejected | ApiFilesErrorCode::Cancelled
        | ApiFilesErrorCode::DeadlineExceeded | ApiFilesErrorCode::ResourceExhausted => true,
        _ => false,
    }
}

/// Projects a file failure onto its redacted response.
pub fn project_files_error(error: ApiFilesError) -> (res: ErrorProjection)
    ensures
        projects(res, files_status_of(error.code), files_code_text(error.code), files_message_text(error.code), files_retryable(error.code)),
{
    let code = error.code();
    ErrorProjection {
        status: files_status(code),
        code: code.as_str(),
        message: files_message(code),
        retryable: is_files_retryable(code),
    }
}

fn files_status(code: ApiFilesErrorCode) -> (res: u16)
    ensures
        res == files_status_of(code),
{
    match code {
        ApiFilesErrorCode::InvalidArgument | ApiFilesErrorCode::LimitExceeded
        | ApiFilesErrorCode::Unauthenticated | ApiFilesErrorCode::NotFound => files_client_status(code),
        ApiFilesErrorCode::Conflict | ApiFilesErrorCode::PolicyRejected | ApiFilesErrorCode::Cancelled
        | ApiFilesErrorCode::DeadlineExceeded | ApiFilesErrorCode::ResourceExhausted => files_operational_status(code),
        ApiFilesErrorCode::Unavailable | ApiFilesErrorCode::CommitIndeterminate => 503,
        ApiFilesErrorCode::IntegrityFailure | ApiFilesErrorCode::Internal => internal_status(),
    }
}

fn files_client_status(code: ApiFilesErrorCode) -> (res: u16)
    ensures
        is_client_files_code(code) ==> res == files_status_of(code),
{
    match code {
        ApiFilesErrorCode::InvalidArgument => 400,
        ApiFilesErrorCode::LimitExceeded => 413,
        ApiFilesErrorCode::Unauthenticated => 401,
        ApiFilesErrorCode::NotFound => 404,
        _ => 500,
    }
}

fn files_operational_status(code: ApiFilesErrorCode) -> (res: u16)
    ensures
        is_operational_files_code(code) ==> res == files_status_of(code),
{
    match code {
        ApiFilesErrorCode::Conflict => 409,
        ApiFilesErrorCode::PolicyRejected => 403,
        ApiFilesErrorCode::Cancelled => status_499(),
        ApiFilesErrorCode::DeadlineExceeded => 504,
        ApiFilesErrorCode::ResourceExhausted => 429,
        _ => 500,
    }
}

fn internal_status() -> (res: u16)
    ensures
        res == 500,
{
    500
}

fn files_message(code: ApiFilesErrorCode) -> (res: &'static str)
    ensures
        res@ == files_message_text(code),
{
    match code {
        ApiFilesErrorCode::InvalidArgument | ApiFilesErrorCode::LimitExceeded
        | ApiFilesErrorCode::Unauthenticated | ApiFilesErrorCode::NotFound => files_client_message(code),
        ApiFilesErrorCode::Conflict | ApiFilesErrorCode::PolicyRejected | ApiFilesErrorCode::Cancelled
        | ApiFilesErrorCode::DeadlineExceeded | ApiFilesErrorCode::ResourceExhausted => files_operational_message(code),
        ApiFilesErrorCode::Unavailable | ApiFilesErrorCode::CommitIndeterminate => files_availability_message(code),
        ApiFilesErrorCode::IntegrityFailure | ApiFilesErrorCode::Internal => "The file request could not be completed.",
    }
}

fn files_client_message(code: ApiFilesErrorCode) -> (res: &'static str)
    ensures
        is_client_files_code(code) ==> res@ == files_message_text(code),
{
    match code {
        ApiFilesErrorCode::InvalidArgument => "A file request value is invalid.",
        ApiFilesErrorCode::LimitExceeded => "A file request limit was exceeded.",
        ApiFilesErrorCode::Unauthenticated => "Authentication is required.",
        ApiFilesErrorCode::NotFound => "The requested file was not found.",
        _ => "The file request could not be completed.",
    }
}

fn files_operational_message(code: ApiFilesErrorCode) -> (res: &'static str)
    ensures
        is_operational_files_code(code) ==> res@ == files_message_text(code),
{
    match code {
        ApiFilesErrorCode::Conflict => "The file request conflicts with current state.",
        ApiFilesErrorCode::PolicyRejected => "The file request is not permitted.",
        ApiFilesErrorCode::Cancelled => "The file request was cancelled.",
        ApiFilesErrorCode::DeadlineExceeded => "The file request deadline was exceeded.",
        ApiFilesErrorCode::ResourceExhausted => "File service capacity is exhausted.",
        _ => "The file request could not be completed.",
    }
}

fn files_availability_message(code: ApiFilesErrorCode) -> (res: &'static str)
    ensures
        (code == ApiFilesErrorCode::Unavailable || code == ApiFilesErrorCode::CommitIndeterminate) ==> res@
            == files_message_text(code),
{
    match code {
        ApiFilesErrorCode::Unavailable => "The file service is unavailable.",
        ApiFilesErrorCode::CommitIndeterminate => "The file commit requires reconciliation.",
        _ => "The file request could not be completed.",
    }
}

fn is_files_retryable(code: ApiFilesErrorCode) -> (res: bool)
    ensures
        res == files_retryable(code),
{
    match code {
        ApiFilesErrorCode::DeadlineExceeded | ApiFilesErrorCode::ResourceExhausted
        | ApiFilesErrorCode::Unavailable => true,
        _ => false,
    }
}

/// Only authentication failures are answered `401` (the status that carries
/// the Bearer challenge), and every retry hint marks a transient failure.
pub proof fn only_authentication_failures_challenge(
    http: ApiHttpErrorCode,
    domain: ApiDomainErrorCode,
    files: ApiFilesErrorCode,
)
    ensures
        http_status_of(http) == 401 <==> http == ApiHttpErrorCode::Unauthenticated,
        domain_status_of(domain) != 401,
        files_status_of(files) == 401 <==> files == ApiFilesErrorCode::Unauthenticated,
        http_retryable(http) ==> http_status_of(http) == 503 || http_status_of(http) == 504 || http_status_of(http) == 429,
        domain_retryable(domain) ==> domain_status_of(domain) == 503 || domain_status_of(domain) == 504 || domain_status_of(domain) == 429,
        files_retryable(files) ==> files_status_of(files) == 503 || files_status_of(files) == 504 || files_status_of(files) == 429,
{
}

/// Each transport failure is answered with its standard HTTP status: 400 Bad
/// Request, 401 Unauthorized, 403 Forbidden, 404 Not Found, 405 Method Not
/// Allowed, 413 Payload Too Large, 415 Unsupported Media Type, 429 Too Many
/// Requests, 499 for a cancelled request, 500 Internal Server Error, 503
/// Service Unavailable and 504 Gateway Timeout; only a passed deadline,
/// exhausted capacity and unavailability are worth retrying.
pub proof fn http_statuses_are_standard(code: ApiHttpErrorCode)
    ensures
        code == ApiHttpErrorCode::InvalidRequest ==> http_status_of(code) == 400,
        code == ApiHttpErrorCode::Unauthenticated ==> http_status_of(code) == 401,
        code == ApiHttpErrorCode::Forbidden ==> http_status_of(code) == 403,
        code == ApiHttpErrorCode::NotFound ==> http_status_of(code) == 404,
        code == ApiHttpErrorCode::MethodNotAllowed ==> http_status_of(code) == 405,
        code == ApiHttpErrorCode::PayloadTooLarge ==> http_status_of(code) == 413,
        code == ApiHttpErrorCode::UnsupportedMediaType ==> http_status_of(code) == 415,
        code == ApiHttpErrorCode::ResourceExhausted ==> http_status_of(code) == 429,
        code == ApiHttpErrorCode::Cancelled ==> http_status_of(code) == 499,
        code == ApiHttpErrorCode::Internal ==> http_status_of(code) == 500,
        code == ApiHttpErrorCode::Unavailable ==> http_status_of(code) == 503,
        code == ApiHttpErrorCode::StreamUnavailable ==> http_status_of(code) == 503,
        code == ApiHttpErrorCode::DeadlineExceeded ==> http_status_of(code) == 504,
        http_retryable(code) <==> (code == ApiHttpErrorCode::DeadlineExceeded || code
            == ApiHttpErrorCode::ResourceExhausted || code == ApiHttpErrorCode::StreamUnavailable || code
            == ApiHttpErrorCode::Unavailable),
{
}

/// Each domain failure is answered with its standard HTTP status: 422
/// Unprocessable Entity for invalid, unsupported or over-limit requests, 409
/// Conflict, 499 for a cancelled request, 504 Gateway Timeout, 429 Too Many
/// Requests, 503 Service Unavailable and 500 Internal Server Error; only a
/// passed deadline, exhausted capacity and unavailability are worth retrying.
pub proof fn domain_statuses_are_standard(code: ApiDomainErrorCode)
    ensures
        code == ApiDomainErrorCode::InvalidArgument ==> domain_status_of(code) == 422,
        code == ApiDomainErrorCode::UnsupportedVersion ==> domain_status_of(code) == 422,
        code == ApiDomainErrorCode::LimitExceeded ==> domain_status_of(code) == 422,
        code == ApiDomainErrorCode::Conflict ==> domain_status_of(code) == 409,
        code == ApiDomainErrorCode::Cancelled ==> domain_status_of(code) == 499,
        code == ApiDomainErrorCode::DeadlineExceeded ==> domain_status_of(code) == 504,
        code == ApiDomainErrorCode::ResourceExhausted ==> domain_status_of(code) == 429,
        code == ApiDomainErrorCode::Unavailable ==> domain_status_of(code) == 503,
        code == ApiDomainErrorCode::Internal ==> domain_status_of(code) == 500,
        domain_retryable(code) <==> (code == ApiDomainErrorCode::DeadlineExceeded || code
            == ApiDomainErrorCode::ResourceExhausted || code == ApiDomainErrorCode::Unavailable),
{
}

/// Each file failure is answered with its standard HTTP status: 400 Bad
/// Request, 413 Payload Too Large for an exceeded limit, 401 Unauthorized,
/// 404 Not Found, 409 Conflict, 403 Forbidden for a policy rejection, 499 for
/// a cancelled request, 504 Gateway Timeout, 429 Too Many Requests, 503
/// Service Unavailable (also for an indeterminate commit) and 500 Internal
/// Server Error (also for an integrity failure); only a passed deadline,
/// exhausted capacity and unavailability are worth retrying.
pub proof fn files_statuses_are_standard(code: ApiFilesErrorCode)
    ensures
        code == ApiFilesErrorCode::InvalidArgument ==> files_status_of(code) == 400,
        code == ApiFilesErrorCode::LimitExceeded ==> files_status_of(code) == 413,
        code == ApiFilesErrorCode::Unauthenticated ==> files_status_of(code) == 401,
        code == ApiFilesErrorCode::NotFound ==> files_status_of(code) == 404,
        code == ApiFilesErrorCode::Conflict ==> files_status_of(code) == 409,
        code == ApiFilesErrorCode::PolicyRejected ==> files_status_of(code) == 403,
        code == ApiFilesErrorCode::Cancelled ==> files_status_of(code) == 499,
        code == ApiFilesErrorCode::DeadlineExceeded ==> files_status_of(code) == 504,
        code == ApiFilesErrorCode::ResourceExhausted ==> files_status_of(code) == 429,
        code == ApiFilesErrorCode::Unavailable ==> files_status_of(code) == 503,
        code == ApiFilesErrorCode::CommitIndeterminate ==> files_status_of(code) == 503,
        code == ApiFilesErrorCode::IntegrityFailure ==> files_status_of(code) == 500,
        code == ApiFilesErrorCode::Internal ==> files_status_of(code) == 500,
        files_retryable(code) <==> (code == ApiFilesErrorCode::DeadlineExceeded || code
            == ApiFilesErrorCode::ResourceExhausted || code == ApiFilesErrorCode::Unavailable),
{
}

} // verus!
