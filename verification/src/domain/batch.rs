//! Provider-neutral, bounded Batch operation values.

use vstd::prelude::*;

use crate::platform::CoreErrorCode;
use crate::domain::error::{ApiDomainError, ApiDomainErrorCode};
use crate::domain::file::{FileByteLength, FileReference};
use crate::domain::request::{IdempotencyKey, optional_key, optional_key_view};
use crate::text::{
    all_chars, char_is_ascii_alphanumeric, contains_control, has_control, is_ascii_alphanumeric, str_equals,
    utf8_byte_len, utf8_len,
};

verus! {

/// Maximum encoded size of one Batch input file in bytes.
pub const MAX_BATCH_INPUT_BYTES: usize = 209_715_200;

/// Maximum number of non-empty JSONL requests in one Batch input file.
pub const MAX_BATCH_REQUESTS: usize = 50_000;

/// Maximum encoded size of one caller-provided Batch custom identifier.
pub const MAX_BATCH_CUSTOM_ID_BYTES: usize = 512;

/// Maximum encoded size of one durable Batch operation identifier.
pub const MAX_BATCH_OPERATION_ID_BYTES: usize = 128;

/// Maximum number of itemized validation errors retained in one Batch object.
pub const MAX_BATCH_ERROR_ITEMS: usize = 1_000;

/// Default number of Batch objects returned by one list request.
pub const DEFAULT_BATCH_LIST_LIMIT: usize = 20;

/// Maximum number of Batch objects returned by one list request.
pub const MAX_BATCH_LIST_LIMIT: usize = 100;

/// Stable machine-readable failures returned by the Batch contract.
#[derive(Clone, Copy, Debug, PartialEq, Eq, Structural, Hash)]
#[non_exhaustive]
pub enum ApiBatchErrorCode {
    /// A supplied value is empty or violates its documented syntax.
    InvalidArgument,
    /// A supplied value exceeds a documented hard limit.
    LimitExceeded,
    /// The request has no authenticated tenant context.
    Unauthenticated,
    /// The requested Batch operation is not visible in authoritative state.
    NotFound,
    /// The requested operation conflicts with authoritative state.
    Conflict,
    /// Trusted operation evidence failed integrity validation.
    IntegrityFailure,
    /// Request cancellation stopped the operation.
    Cancelled,
    /// The request deadline expired before the operation completed.
    DeadlineExceeded,
    /// A bounded operation resource budget was exhausted.
    ResourceExhausted,
    /// The injected durable operation capability is unavailable.
    Unavailable,
    /// The operation failed without a safe external explanation.
    Internal,
}

/// The external machine code of each Batch failure.
pub open spec fn batch_code_text(code: ApiBatchErrorCode) -> Seq<char> {
    match code {
        ApiBatchErrorCode::InvalidArgument => "API_BATCH_INVALID_ARGUMENT"@,
        ApiBatchErrorCode::LimitExceeded => "API_BATCH_LIMIT_EXCEEDED"@,
        ApiBatchErrorCode::Unauthenticated => "API_BATCH_UNAUTHENTICATED"@,
        ApiBatchErrorCode::NotFound => "API_BATCH_NOT_FOUND"@,
        ApiBatchErrorCode::Conflict => "API_BATCH_CONFLICT"@,
        ApiBatchErrorCode::IntegrityFailure => "API_BATCH_INTEGRITY_FAILURE"@,
        ApiBatchErrorCode::Cancelled => "API_BATCH_CANCELLED"@,
        ApiBatchErrorCode::DeadlineExceeded => "API_BATCH_DEADLINE_EXCEEDED"@,
        ApiBatchErrorCode::ResourceExhausted => "API_BATCH_RESOURCE_EXHAUSTED"@,
        ApiBatchErrorCode::Unavailable => "API_BATCH_UNAVAILABLE"@,
        ApiBatchErrorCode::Internal => "API_BATCH_INTERNAL"@,
    }
}

/// Whether a failure is raised by request validation rather than execution.
pub open spec fn is_request_batch_code(code: ApiBatchErrorCode) -> bool {
    match code {
        ApiBatchErrorCode::InvalidArgument | ApiBatchErrorCode::LimitExceeded
        | ApiBatchErrorCode::Unauthenticated | ApiBatchErrorCode::NotFound
        | ApiBatchErrorCode::Conflict | ApiBatchErrorCode::IntegrityFailure => true,
        _ => false,
    }
}

impl ApiBatchErrorCode {
    /// Returns the stable external machine code.
    pub fn as_str(self) -> (res: &'static str)
        ensures
            res@ == batch_code_text(self),
    {
        match self {
            ApiBatchErrorCode::InvalidArgument | ApiBatchErrorCode::LimitExceeded
            | ApiBatchErrorCode::Unauthenticated | ApiBatchErrorCode::NotFound
            | ApiBatchErrorCode::Conflict | ApiBatchErrorCode::IntegrityFailure => request_error_code(self),
            ApiBatchErrorCode::Cancelled | ApiBatchErrorCode::DeadlineExceeded
            | ApiBatchErrorCode::ResourceExhausted | ApiBatchErrorCode::Unavailable
            | ApiBatchErrorCode::Internal => execution_error_code(self),
        }
    }
}

fn request_error_code(code: ApiBatchErrorCode) -> (res: &'static str)
    ensures
        is_request_batch_code(code) ==> res@ == batch_code_text(code),
        !is_request_batch_code(code) ==> res@ == "API_BATCH_INTERNAL"@,
{
    match code {
        ApiBatchErrorCode::InvalidArgument => "API_BATCH_INVALID_ARGUMENT",
        ApiBatchErrorCode::LimitExceeded => "API_BATCH_LIMIT_EXCEEDED",
        ApiBatchErrorCode::Unauthenticated => "API_BATCH_UNAUTHENTICATED",
        ApiBatchErrorCode::NotFound => "API_BATCH_NOT_FOUND",
        ApiBatchErrorCode::Conflict => "API_BATCH_CONFLICT",
        ApiBatchErrorCode::IntegrityFailure => "API_BATCH_INTEGRITY_FAILURE",
        _ => "API_BATCH_INTERNAL",
    }
}

fn execution_error_code(code: ApiBatchErrorCode) -> (res: &'static str)
    ensures
        !is_request_batch_code(code) ==> res@ == batch_code_text(code),
        is_request_batch_code(code) ==> res@ == "API_BATCH_INTERNAL"@,
{
    match code {
        ApiBatchErrorCode::Cancelled => "API_BATCH_CANCELLED",
        ApiBatchErrorCode::DeadlineExceeded => "API_BATCH_DEADLINE_EXCEEDED",
        ApiBatchErrorCode::ResourceExhausted => "API_BATCH_RESOURCE_EXHAUSTED",
        ApiBatchErrorCode::Unavailable => "API_BATCH_UNAVAILABLE",
        ApiBatchErrorCode::Internal => "API_BATCH_INTERNAL",
        _ => "API_BATCH_INTERNAL",
    }
}

/// Distinct Batch failure codes have distinct external machine codes.
pub proof fn batch_codes_are_distinct(a: ApiBatchErrorCode, b: ApiBatchErrorCode)
    requires
        a != b,
    ensures
        batch_code_text(a) != batch_code_text(b),
{
    reveal_strlit("API_BATCH_INVALID_ARGUMENT");
    reveal_strlit("API_BATCH_LIMIT_EXCEEDED");
    reveal_strlit("API_BATCH_UNAUTHENTICATED");
    reveal_strlit("API_BATCH_NOT_FOUND");
    reveal_strlit("API_BATCH_CONFLICT");
    reveal_strlit("API_BATCH_INTEGRITY_FAILURE");
    reveal_strlit("API_BATCH_CANCELLED");
    reveal_strlit("API_BATCH_DEADLINE_EXCEEDED");
    reveal_strlit("API_BATCH_RESOURCE_EXHAUSTED");
    reveal_strlit("API_BATCH_UNAVAILABLE");
    reveal_strlit("API_BATCH_INTERNAL");
    if batch_code_text(a) == batch_code_text(b) {
        assert(batch_code_text(a).len() == batch_code_text(b).len());
        assert(batch_code_text(a)[10] == batch_code_text(b)[10]);
        assert(batch_code_text(a)[11] == batch_code_text(b)[11]);
    }
}

/// A redacted Batch error that retains only its stable code.
#[derive(Clone, Copy, Debug, PartialEq, Eq, Structural)]
pub struct ApiBatchError {
    /// The stable machine-readable code; the only state an error carries.
    pub code: ApiBatchErrorCode,
}

impl ApiBatchError {
    /// Creates an error from a stable machine-readable code.
    pub fn new(code: ApiBatchErrorCode) -> (res: Self)
        ensures
            res.code == code,
    {
        ApiBatchError { code }
    }

    /// Returns the stable machine-readable code.
    pub fn code(self) -> (res: ApiBatchErrorCode)
        ensures
            res == self.code,
    {
        self.code
    }
}

/// The Batch failure that a domain validation failure projects to.
pub open spec fn batch_code_of_domain(code: ApiDomainErrorCode) -> ApiBatchErrorCode {
    match code {
        ApiDomainErrorCode::InvalidArgument | ApiDomainErrorCode::UnsupportedVersion => ApiBatchErrorCode::InvalidArgument,
        ApiDomainErrorCode::LimitExceeded => ApiBatchErrorCode::LimitExceeded,
        ApiDomainErrorCode::Conflict => ApiBatchErrorCode::Conflict,
        ApiDomainErrorCode::Cancelled => ApiBatchErrorCode::Cancelled,
        ApiDomainErrorCode::DeadlineExceeded => ApiBatchErrorCode::DeadlineExceeded,
        ApiDomainErrorCode::Unavailable => ApiBatchErrorCode::Unavailable,
        ApiDomainErrorCode::ResourceExhausted => ApiBatchErrorCode::ResourceExhausted,
        ApiDomainErrorCode::Internal => ApiBatchErrorCode::Internal,
    }
}

/// The Batch failure that a platform-core failure projects to.
pub open spec fn batch_code_of_core(code: CoreErrorCode) -> ApiBatchErrorCode {
    match code {
        CoreErrorCode::InvalidArgument => ApiBatchErrorCode::InvalidArgument,
        CoreErrorCode::Conflict => ApiBatchErrorCode::Conflict,
        CoreErrorCode::Cancelled => ApiBatchErrorCode::Cancelled,
        CoreErrorCode::DeadlineExceeded => ApiBatchErrorCode::DeadlineExceeded,
        CoreErrorCode::Unavailable => ApiBatchErrorCode::Unavailable,
        CoreErrorCode::ResourceExhausted => ApiBatchErrorCode::ResourceExhausted,
        CoreErrorCode::Internal => ApiBatchErrorCode::Internal,
    }
}

impl From<ApiDomainError> for ApiBatchError {
    fn from(value: ApiDomainError) -> (res: Self) {
        ApiBatchError::new(map_domain_error(value.code))
    }
}

impl vstd::std_specs::convert::FromSpecImpl<ApiDomainError> for ApiBatchError {
    open spec fn obeys_from_spec() -> bool {
        true
    }

    open spec fn from_spec(v: ApiDomainError) -> Self {
        ApiBatchError { code: batch_code_of_domain(v.code) }
    }
}

impl From<CoreErrorCode> for ApiBatchError {
    fn from(value: CoreErrorCode) -> (res: Self) {
        ApiBatchError::new(map_core_error(value))
    }
}

impl vstd::std_specs::convert::FromSpecImpl<CoreErrorCode> for ApiBatchError {
    open spec fn obeys_from_spec() -> bool {
        true
    }

    open spec fn from_spec(v: CoreErrorCode) -> Self {
        ApiBatchError { code: batch_code_of_core(v) }
    }
}

fn map_domain_error(code: ApiDomainErrorCode) -> (res: ApiBatchErrorCode)
    ensures
        res == batch_code_of_domain(code),
{
    match code {
        ApiDomainErrorCode::InvalidArgument | ApiDomainErrorCode::UnsupportedVersion => ApiBatchErrorCode::InvalidArgument,
        other => map_domain_execution_error(other),
    }
}

fn map_domain_execution_error(code: ApiDomainErrorCode) -> (res: ApiBatchErrorCode)
    ensures
        res == batch_code_of_domain(code),
{
    match code {
        ApiDomainErrorCode::InvalidArgument | ApiDomainErrorCode::UnsupportedVersion => ApiBatchErrorCode::InvalidArgument,
        ApiDomainErrorCode::LimitExceeded => ApiBatchErrorCode::LimitExceeded,
        ApiDomainErrorCode::Conflict => ApiBatchErrorCode::Conflict,
        other => map_domain_runtime_error(other),
    }
}

fn map_domain_runtime_error(code: ApiDomainErrorCode) -> (res: ApiBatchErrorCode)
    ensures
        match code {
            ApiDomainErrorCode::InvalidArgument | ApiDomainErrorCode::UnsupportedVersion
            | ApiDomainErrorCode::LimitExceeded | ApiDomainErrorCode::Conflict => res == ApiBatchErrorCode::Internal,
            _ => res == batch_code_of_domain(code),
        },
{
    match code {
        ApiDomainErrorCode::Cancelled => ApiBatchErrorCode::Cancelled,
        ApiDomainErrorCode::DeadlineExceeded => ApiBatchErrorCode::DeadlineExceeded,
        ApiDomainErrorCode::Unavailable => ApiBatchErrorCode::Unavailable,
        ApiDomainErrorCode::ResourceExhausted => ApiBatchErrorCode::ResourceExhausted,
        ApiDomainErrorCode::Internal => ApiBatchErrorCode::Internal,
        _ => ApiBatchErrorCode::Internal,
    }
}

fn map_core_error(code: CoreErrorCode) -> (res: ApiBatchErrorCode)
    ensures
        res == batch_code_of_core(code),
{
    match code {
        CoreErrorCode::InvalidArgument => ApiBatchErrorCode::InvalidArgument,
        CoreErrorCode::Conflict => ApiBatchErrorCode::Conflict,
        CoreErrorCode::Cancelled => ApiBatchErrorCode::Cancelled,
        CoreErrorCode::DeadlineExceeded => ApiBatchErrorCode::DeadlineExceeded,
        CoreErrorCode::Unavailable => ApiBatchErrorCode::Unavailable,
        CoreErrorCode::ResourceExhausted => ApiBatchErrorCode::ResourceExhausted,
        CoreErrorCode::Internal => ApiBatchErrorCode::Internal,
    }
}

/// Builds a redacted invalid-argument Batch failure.
pub fn batch_invalid_argument() -> (res: ApiBatchError)
    ensures
        res.code == ApiBatchErrorCode::InvalidArgument,
{
    ApiBatchError::new(ApiBatchErrorCode::InvalidArgument)
}

/// Builds a redacted hard-limit Batch failure.
pub fn batch_limit_exceeded() -> (res: ApiBatchError)
    ensures
        res.code == ApiBatchErrorCode::LimitExceeded,
{
    ApiBatchError::new(ApiBatchErrorCode::LimitExceeded)
}

/// Builds a redacted state-conflict Batch failure.
pub fn batch_conflict() -> (res: ApiBatchError)
    ensures
        res.code == ApiBatchErrorCode::Conflict,
{
    ApiBatchError::new(ApiBatchErrorCode::Conflict)
}

/// Builds a redacted integrity Batch failure.
pub fn batch_integrity_failure() -> (res: ApiBatchError)
    ensures
        res.code == ApiBatchErrorCode::IntegrityFailure,
{
    ApiBatchError::new(ApiBatchErrorCode::IntegrityFailure)
}

/// Whether an exec result carries exactly the outcome `spec`.
pub open spec fn same_batch_outcome<T>(res: Result<T, ApiBatchError>, spec: Result<(), ApiBatchErrorCode>) -> bool {
    match res {
        Ok(_) => spec is Ok,
        Err(e) => spec == Err::<(), ApiBatchErrorCode>(e.code),
    }
}

/// An endpoint whose request grammar is implemented by the Batch profile.
#[derive(Clone, Copy, Debug, PartialEq, Eq, Structural, Hash, PartialOrd, Ord)]
pub enum BatchEndpoint {
    /// Responses requests.
    Responses,
    /// Chat Completions requests.
    ChatCompletions,
    /// Embeddings requests.
    Embeddings,
    /// Legacy Completions requests.
    Completions,
    /// Image-generation requests.
    ImagesGenerations,
}

/// The exact relative endpoint path of each endpoint.
pub open spec fn endpoint_text(e: BatchEndpoint) -> Seq<char> {
    match e {
        BatchEndpoint::Responses => "/v1/responses"@,
        BatchEndpoint::ChatCompletions => "/v1/chat/completions"@,
        BatchEndpoint::Embeddings => "/v1/embeddings"@,
        BatchEndpoint::Completions => "/v1/completions"@,
        BatchEndpoint::ImagesGenerations => "/v1/images/generations"@,
    }
}

/// The supported endpoint named by a path, if any.
pub open spec fn endpoint_of_text(s: Seq<char>) -> Option<BatchEndpoint> {
    if s == "/v1/responses"@ {
        Some(BatchEndpoint::Responses)
    } else if s == "/v1/chat/completions"@ {
        Some(BatchEndpoint::ChatCompletions)
    } else if s == "/v1/embeddings"@ {
        Some(BatchEndpoint::Embeddings)
    } else if s == "/v1/completions"@ {
        Some(BatchEndpoint::Completions)
    } else if s == "/v1/images/generations"@ {
        Some(BatchEndpoint::ImagesGenerations)
    } else {
        None
    }
}

impl BatchEndpoint {
    /// Parses one exact supported endpoint path; every other path, including
    /// those of later phases, is `InvalidArgument`.
    pub fn parse(value: &str) -> (res: Result<Self, ApiBatchError>)
        ensures
            match endpoint_of_text(value@) {
                Some(e) => res == Ok::<BatchEndpoint, ApiBatchError>(e),
                None => res == Err::<BatchEndpoint, ApiBatchError>(
                    ApiBatchError { code: ApiBatchErrorCode::InvalidArgument },
                ),
            },
    {
        if str_equals(value, "/v1/responses") {
            Ok(BatchEndpoint::Responses)
        } else if str_equals(value, "/v1/chat/completions") {
            Ok(BatchEndpoint::ChatCompletions)
        } else if str_equals(value, "/v1/embeddings") {
            Ok(BatchEndpoint::Embeddings)
        } else if str_equals(value, "/v1/completions") {
            Ok(BatchEndpoint::Completions)
        } else if str_equals(value, "/v1/images/generations") {
            Ok(BatchEndpoint::ImagesGenerations)
        } else {
            Err(batch_invalid_argument())
        }
    }

    /// Returns the exact relative endpoint path used in a JSONL request line.
    pub fn as_str(self) -> (res: &'static str)
        ensures
            res@ == endpoint_text(self),
    {
        match self {
            BatchEndpoint::Responses => "/v1/responses",
            BatchEndpoint::ChatCompletions => "/v1/chat/completions",
            BatchEndpoint::Embeddings => "/v1/embeddings",
            BatchEndpoint::Completions => "/v1/completions",
            BatchEndpoint::ImagesGenerations => "/v1/images/generations",
        }
    }
}

/// Parsing an endpoint's own path gives back that endpoint, and every parsed
/// path is exactly the path of the endpoint it names.
pub proof fn endpoint_text_round_trip(e: BatchEndpoint, s: Seq<char>)
    ensures
        endpoint_of_text(endpoint_text(e)) == Some(e),
        endpoint_of_text(s) == Some(e) ==> endpoint_text(e) == s,
{
    reveal_strlit("/v1/responses");
    reveal_strlit("/v1/chat/completions");
    reveal_strlit("/v1/embeddings");
    reveal_strlit("/v1/completions");
    reveal_strlit("/v1/images/generations");
    assert("/v1/responses"@.len() == 13);
    assert("/v1/chat/completions"@.len() == 20);
    assert("/v1/embeddings"@.len() == 14);
    assert("/v1/completions"@.len() == 15);
    assert("/v1/images/generations"@.len() == 22);
}

/// The only completion window accepted by the Batch profile.
#[derive(Clone, Copy, Debug, PartialEq, Eq, Structural, Hash, PartialOrd, Ord)]
pub enum BatchCompletionWindow {
    /// The owner-defined twenty-four-hour window.
    Hours24,
}

impl BatchCompletionWindow {
    /// Parses the exact completion-window value `24h`; every other value is
    /// `InvalidArgument`.
    pub fn parse(value: &str) -> (res: Result<Self, ApiBatchError>)
        ensures
            value@ == "24h"@ ==> res == Ok::<BatchCompletionWindow, ApiBatchError>(BatchCompletionWindow::Hours24),
            value@ != "24h"@ ==> res == Err::<BatchCompletionWindow, ApiBatchError>(
                ApiBatchError { code: ApiBatchErrorCode::InvalidArgument },
            ),
    {
        if str_equals(value, "24h") {
            Ok(BatchCompletionWindow::Hours24)
        } else {
            Err(batch_invalid_argument())
        }
    }

    /// Returns the exact completion-window value.
    pub fn as_str(self) -> (res: &'static str)
        ensures
            res@ == "24h"@,
    {
        "24h"
    }
}

/// Whether `c` may appear in a durable Batch operation identifier.
pub open spec fn is_batch_id_char(c: char) -> bool {
    is_ascii_alphanumeric(c) || c == '.' || c == '-' || c == '_' || c == ':'
}

/// Outcome of validating a durable Batch operation identifier.
pub open spec fn operation_id_check(s: Seq<char>) -> Result<(), ApiBatchErrorCode> {
    if utf8_len(s) > MAX_BATCH_OPERATION_ID_BYTES {
        Err(ApiBatchErrorCode::LimitExceeded)
    } else if s.len() == 0 || !all_chars(s, |c: char| is_batch_id_char(c)) {
        Err(ApiBatchErrorCode::InvalidArgument)
    } else {
        Ok(())
    }
}

fn all_batch_id_chars(value: &str) -> (res: bool)
    ensures
        res == all_chars(value@, |c: char| is_batch_id_char(c)),
{
    let mut ok = true;
    for c in it: value.chars()
        invariant
            it.seq() == value@,
            ok == (forall|j: int| 0 <= j < it.index() ==> is_batch_id_char(#[trigger] value@[j])),
    {
        if !(char_is_ascii_alphanumeric(c) || c == '.' || c == '-' || c == '_' || c == ':') {
            ok = false;
        }
    }
    ok
}

/// A bounded durable operation identifier returned by an injected operation port.
#[derive(Debug, PartialEq, Eq, Hash, PartialOrd, Ord)]
pub struct BatchOperationId(String);

impl View for BatchOperationId {
    type V = Seq<char>;

    closed spec fn view(&self) -> Seq<char> {
        self.0@
    }
}

impl Clone for BatchOperationId {
    fn clone(&self) -> (res: Self)
        ensures
            res@ == self@,
    {
        proof {
            use_type_invariant(self);
        }
        BatchOperationId(self.0.clone())
    }
}

impl BatchOperationId {
    #[verifier::type_invariant]
    spec fn valid(self) -> bool {
        operation_id_check(self.0@) is Ok
    }

    /// Parses an identity of at most 128 bytes made of ASCII letters, digits,
    /// `.`, `-`, `_` and `:`, so it can be embedded in a route segment.
    pub fn parse(value: &str) -> (res: Result<Self, ApiBatchError>)
        ensures
            same_batch_outcome(res, operation_id_check(value@)),
            res matches Ok(i) ==> i@ == value@,
    {
        if utf8_byte_len(value) > MAX_BATCH_OPERATION_ID_BYTES {
            return Err(batch_limit_exceeded());
        }
        if value.is_empty() || !all_batch_id_chars(value) {
            return Err(batch_invalid_argument());
        }
        Ok(BatchOperationId(value.to_owned()))
    }

    /// Returns the validated operation identity for wire serialization.
    pub fn as_str(&self) -> (res: &str)
        ensures
            res@ == self@,
            operation_id_check(res@) is Ok,
    {
        proof {
            use_type_invariant(self);
        }
        self.0.as_str()
    }

    /// Reports whether two identities are equal.
    pub fn same_id(&self, other: &BatchOperationId) -> (res: bool)
        ensures
            res == (self@ == other@),
    {
        self.0 == other.0
    }
}

impl std::str::FromStr for BatchOperationId {
    type Err = ApiBatchError;

    fn from_str(value: &str) -> Result<Self, Self::Err> {
        BatchOperationId::parse(value)
    }
}

/// A bounded lifecycle status for one Batch operation.
#[derive(Clone, Copy, Debug, PartialEq, Eq, Structural, Hash, PartialOrd, Ord)]
pub enum BatchStatus {
    /// Input is being validated.
    Validating,
    /// Input validation or execution failed.
    Failed,
    /// Requests are being processed.
    InProgress,
    /// Output files are being finalized.
    Finalizing,
    /// The operation completed successfully.
    Completed,
    /// The completion window expired.
    Expired,
    /// Cancellation has been requested.
    Cancelling,
    /// Cancellation completed.
    Cancelled,
}

/// The exact wire text of each status.
pub open spec fn status_text(s: BatchStatus) -> Seq<char> {
    match s {
        BatchStatus::Validating => "validating"@,
        BatchStatus::Failed => "failed"@,
        BatchStatus::InProgress => "in_progress"@,
        BatchStatus::Finalizing => "finalizing"@,
        BatchStatus::Completed => "completed"@,
        BatchStatus::Expired => "expired"@,
        BatchStatus::Cancelling => "cancelling"@,
        BatchStatus::Cancelled => "cancelled"@,
    }
}

/// The status named by a wire text, if any.
pub open spec fn status_of_text(s: Seq<char>) -> Option<BatchStatus> {
    if s == "validating"@ {
        Some(BatchStatus::Validating)
    } else if s == "failed"@ {
        Some(BatchStatus::Failed)
    } else if s == "in_progress"@ {
        Some(BatchStatus::InProgress)
    } else if s == "finalizing"@ {
        Some(BatchStatus::Finalizing)
    } else if s == "completed"@ {
        Some(BatchStatus::Completed)
    } else if s == "expired"@ {
        Some(BatchStatus::Expired)
    } else if s == "cancelling"@ {
        Some(BatchStatus::Cancelling)
    } else if s == "cancelled"@ {
        Some(BatchStatus::Cancelled)
    } else {
        None
    }
}

/// Whether a status is reported before the operation reaches an outcome.
pub open spec fn is_active_status(s: BatchStatus) -> bool {
    match s {
        BatchStatus::Validating | BatchStatus::Failed | BatchStatus::InProgress | BatchStatus::Finalizing => true,
        _ => false,
    }
}

impl BatchStatus {
    /// Parses one exact lifecycle status; unknown statuses are `InvalidArgument`.
    pub fn parse(value: &str) -> (res: Result<Self, ApiBatchError>)
        ensures
            match status_of_text(value@) {
                Some(s) => res == Ok::<BatchStatus, ApiBatchError>(s),
                None => res == Err::<BatchStatus, ApiBatchError>(
                    ApiBatchError { code: ApiBatchErrorCode::InvalidArgument },
                ),
            },
    {
        match parse_status(value) {
            Some(s) => Ok(s),
            None => Err(batch_invalid_argument()),
        }
    }

    /// Returns the exact wire status string.
    pub fn as_str(self) -> (res: &'static str)
        ensures
            res@ == status_text(self),
    {
        match self {
            BatchStatus::Validating | BatchStatus::Failed | BatchStatus::InProgress
            | BatchStatus::Finalizing => active_status_text(self),
            BatchStatus::Completed | BatchStatus::Expired | BatchStatus::Cancelling
            | BatchStatus::Cancelled => terminal_status_text(self),
        }
    }
}

fn parse_status(value: &str) -> (res: Option<BatchStatus>)
    ensures
        res == status_of_text(value@),
{
    if str_equals(value, "validating") {
        Some(BatchStatus::Validating)
    } else if str_equals(value, "failed") {
        Some(BatchStatus::Failed)
    } else if str_equals(value, "in_progress") {
        Some(BatchStatus::InProgress)
    } else if str_equals(value, "finalizing") {
        Some(BatchStatus::Finalizing)
    } else {
        parse_terminal_status(value)
    }
}

fn parse_terminal_status(value: &str) -> (res: Option<BatchStatus>)
    ensures
        value@ != "validating"@ && value@ != "failed"@ && value@ != "in_progress"@
            && value@ != "finalizing"@ ==> res == status_of_text(value@),
{
    if str_equals(value, "completed") {
        Some(BatchStatus::Completed)
    } else if str_equals(value, "expired") {
        Some(BatchStatus::Expired)
    } else if str_equals(value, "cancelling") {
        Some(BatchStatus::Cancelling)
    } else if str_equals(value, "cancelled") {
        Some(BatchStatus::Cancelled)
    } else {
        None
    }
}

fn active_status_text(status: BatchStatus) -> (res: &'static str)
    ensures
        is_active_status(status) ==> res@ == status_text(status),
{
    match status {
        BatchStatus::Validating => "validating",
        BatchStatus::Failed => "failed",
        BatchStatus::InProgress => "in_progress",
        BatchStatus::Finalizing => "finalizing",
        _ => "internal",
    }
}

fn terminal_status_text(status: BatchStatus) -> (res: &'static str)
    ensures
        !is_active_status(status) ==> res@ == status_text(status),
{
    match status {
        BatchStatus::Completed => "completed",
        BatchStatus::Expired => "expired",
        BatchStatus::Cancelling => "cancelling",
        BatchStatus::Cancelled => "cancelled",
        _ => "internal",
    }
}

/// Parsing a status's own wire text gives back that status, and every parsed
/// text is exactly the wire text of the status it names.
pub proof fn status_text_round_trip(s: BatchStatus, t: Seq<char>)
    ensures
        status_of_text(status_text(s)) == Some(s),
        status_of_text(t) == Some(s) ==> status_text(s) == t,
{
    reveal_strlit("validating");
    reveal_strlit("failed");
    reveal_strlit("in_progress");
    reveal_strlit("finalizing");
    reveal_strlit("completed");
    reveal_strlit("expired");
    reveal_strlit("cancelling");
    reveal_strlit("cancelled");
    assert("validating"@.len() == 10 && "validating"@[0] == 'v');
    assert("failed"@.len() == 6);
    assert("in_progress"@.len() == 11);
    assert("finalizing"@.len() == 10 && "finalizing"@[0] == 'f');
    assert("completed"@.len() == 9 && "completed"@[1] == 'o');
    assert("expired"@.len() == 7);
    assert("cancelling"@.len() == 10 && "cancelling"@[0] == 'c');
    assert("cancelled"@.len() == 9 && "cancelled"@[1] == 'a');
}

/// Outcome of validating a caller-provided custom identifier.
pub open spec fn custom_id_check(s: Seq<char>) -> Result<(), ApiBatchErrorCode> {
    if utf8_len(s) > MAX_BATCH_CUSTOM_ID_BYTES {
        Err(ApiBatchErrorCode::LimitExceeded)
    } else if s.len() == 0 || has_control(s) {
        Err(ApiBatchErrorCode::InvalidArgument)
    } else {
        Ok(())
    }
}

/// A bounded caller-unique identifier attached to one JSONL request line.
#[derive(PartialEq, Eq, Hash, PartialOrd, Ord)]
pub struct BatchCustomId(String);

impl View for BatchCustomId {
    type V = Seq<char>;

    closed spec fn view(&self) -> Seq<char> {
        self.0@
    }
}

impl Clone for BatchCustomId {
    fn clone(&self) -> (res: Self)
        ensures
            res@ == self@,
    {
        proof {
            use_type_invariant(self);
        }
        BatchCustomId(self.0.clone())
    }
}

impl BatchCustomId {
    #[verifier::type_invariant]
    spec fn valid(self) -> bool {
        custom_id_check(self.0@) is Ok
    }

    /// Validates and copies one custom identifier of at most 512 bytes without
    /// control characters; other UTF-8 text is preserved.
    pub fn new(value: &str) -> (res: Result<Self, ApiBatchError>)
        ensures
            same_batch_outcome(res, custom_id_check(value@)),
            res matches Ok(i) ==> i@ == value@,
    {
        if utf8_byte_len(value) > MAX_BATCH_CUSTOM_ID_BYTES {
            return Err(batch_limit_exceeded());
        }
        if value.is_empty() || contains_control(value) {
            return Err(batch_invalid_argument());
        }
        Ok(BatchCustomId(value.to_owned()))
    }

    /// Returns the validated custom identifier.
    pub fn as_str(&self) -> (res: &str)
        ensures
            res@ == self@,
            custom_id_check(res@) is Ok,
    {
        proof {
            use_type_invariant(self);
        }
        self.0.as_str()
    }

    /// Reports whether two identifiers are equal.
    pub fn same_id(&self, other: &BatchCustomId) -> (res: bool)
        ensures
            res == (self@ == other@),
    {
        self.0 == other.0
    }
}

/// One validated JSONL request-line summary for the fixed `POST` method.
#[derive(PartialEq, Eq)]
pub struct BatchRequestLine {
    custom_id: BatchCustomId,
    endpoint: BatchEndpoint,
}

/// Abstract contents of a [`BatchRequestLine`].
pub struct BatchRequestLineView {
    /// The caller-unique identifier text.
    pub custom_id: Seq<char>,
    /// The targeted endpoint.
    pub endpoint: BatchEndpoint,
}

impl View for BatchRequestLine {
    type V = BatchRequestLineView;

    closed spec fn view(&self) -> BatchRequestLineView {
        BatchRequestLineView { custom_id: self.custom_id@, endpoint: self.endpoint }
    }
}

impl Clone for BatchRequestLine {
    fn clone(&self) -> (res: Self)
        ensures
            res@ == self@,
    {
        BatchRequestLine { custom_id: self.custom_id.clone(), endpoint: self.endpoint }
    }
}

impl BatchRequestLine {
    /// Creates a request-line summary; fails as [`BatchCustomId::new`] does.
    pub fn new(custom_id: &str, endpoint: BatchEndpoint) -> (res: Result<Self, ApiBatchError>)
        ensures
            same_batch_outcome(res, custom_id_check(custom_id@)),
            res matches Ok(l) ==> l@ == (BatchRequestLineView { custom_id: custom_id@, endpoint }),
    {
        let custom_id = BatchCustomId::new(custom_id)?;
        Ok(BatchRequestLine { custom_id, endpoint })
    }

    /// Returns the caller-unique identifier.
    pub fn custom_id(&self) -> (res: &BatchCustomId)
        ensures
            res@ == self@.custom_id,
    {
        &self.custom_id
    }

    /// Returns the validated relative endpoint.
    pub fn endpoint(&self) -> (res: BatchEndpoint)
        ensures
            res == self@.endpoint,
    {
        self.endpoint
    }

    /// Returns the fixed HTTP method represented by this line.
    pub fn method(&self) -> (res: &'static str)
        ensures
            res@ == "POST"@,
    {
        "POST"
    }
}

/// Abstract contents of a sequence of request lines.
pub open spec fn lines_view(lines: Seq<BatchRequestLine>) -> Seq<BatchRequestLineView> {
    lines.map_values(|l: BatchRequestLine| l@)
}

/// Whether no two of the first `n` lines share a custom identifier.
pub open spec fn custom_ids_unique_within(lines: Seq<BatchRequestLineView>, n: int) -> bool {
    forall|i: int, j: int|
        #![trigger lines[i], lines[j]]
        0 <= i < j < n ==> lines[i].custom_id != lines[j].custom_id
}

/// Outcome of summarizing an input file of `byte_length` bytes holding `lines`.
///
/// The size bound is checked first; lines are then read in order, so a
/// duplicate among the first 50,000 lines is a conflict and a further line
/// beyond them exceeds the limit; an empty input is invalid.
pub open spec fn input_file_check(byte_length: nat, lines: Seq<BatchRequestLineView>) -> Result<(), ApiBatchErrorCode> {
    let read = if lines.len() <= MAX_BATCH_REQUESTS { lines.len() as int } else { MAX_BATCH_REQUESTS as int };
    if byte_length > MAX_BATCH_INPUT_BYTES {
        Err(ApiBatchErrorCode::LimitExceeded)
    } else if !custom_ids_unique_within(lines, read) {
        Err(ApiBatchErrorCode::Conflict)
    } else if lines.len() > MAX_BATCH_REQUESTS {
        Err(ApiBatchErrorCode::LimitExceeded)
    } else if lines.len() == 0 {
        Err(ApiBatchErrorCode::InvalidArgument)
    } else {
        Ok(())
    }
}

/// A bounded validation summary for one tenant-scoped Batch input file.
#[derive(PartialEq, Eq)]
pub struct BatchInputFile {
    reference: FileReference,
    byte_length: FileByteLength,
    lines: Vec<BatchRequestLine>,
}

/// Abstract contents of a [`BatchInputFile`].
pub struct BatchInputFileView {
    /// The tenant-scoped durable file reference.
    pub reference: FileReference,
    /// The verified input byte length.
    pub byte_length: nat,
    /// The request-line summaries in source order.
    pub lines: Seq<BatchRequestLineView>,
}

impl View for BatchInputFile {
    type V = BatchInputFileView;

    closed spec fn view(&self) -> BatchInputFileView {
        BatchInputFileView {
            reference: self.reference,
            byte_length: self.byte_length@,
            lines: lines_view(self.lines@),
        }
    }
}

impl Clone for BatchInputFile {
    fn clone(&self) -> (res: Self)
        ensures
            res@ == self@,
    {
        proof {
            use_type_invariant(self);
        }
        let mut lines: Vec<BatchRequestLine> = Vec::new();
        let mut i: usize = 0;
        while i < self.lines.len()
            invariant
                i <= self.lines@.len(),
                lines@.len() == i,
                forall|j: int| 0 <= j < i ==> #[trigger] lines@[j]@ == self.lines@[j]@,
            decreases self.lines@.len() - i,
        {
            lines.push(self.lines[i].clone());
            i = i + 1;
        }
        assert(lines_view(lines@) =~= lines_view(self.lines@));
        BatchInputFile { reference: self.reference, byte_length: self.byte_length, lines }
    }
}

impl BatchInputFile {
    #[verifier::type_invariant]
    spec fn valid(self) -> bool {
        input_file_check(self.byte_length@, lines_view(self.lines@)) is Ok
    }

    /// Builds a bounded summary from validated request-line summaries: at
    /// most 200 MiB and 50,000 lines, not empty, and no custom identifier twice.
    pub fn from_lines(reference: FileReference, byte_length: FileByteLength, lines: Vec<BatchRequestLine>) -> (res:
        Result<Self, ApiBatchError>)
        ensures
            same_batch_outcome(res, input_file_check(byte_length@, lines_view(lines@))),
            res matches Ok(f) ==> f@ == (BatchInputFileView {
                reference,
                byte_length: byte_length@,
                lines: lines_view(lines@),
            }),
    {
        validate_input_size(byte_length)?;
        check_lines(&lines)?;
        if lines.len() == 0 {
            return Err(batch_invalid_argument());
        }
        Ok(BatchInputFile { reference, byte_length, lines })
    }

    /// Returns the tenant-scoped durable file reference.
    pub fn reference(&self) -> (res: &FileReference)
        ensures
            *res == self@.reference,
    {
        &self.reference
    }

    /// Returns the verified input byte length.
    pub fn byte_length(&self) -> (res: FileByteLength)
        ensures
            res@ == self@.byte_length,
    {
        self.byte_length
    }

    /// Returns the number of validated request lines.
    pub fn line_count(&self) -> (res: usize)
        ensures
            res == self@.lines.len(),
            1 <= res <= MAX_BATCH_REQUESTS,
    {
        proof {
            use_type_invariant(self);
        }
        self.lines.len()
    }

    /// Returns the bounded request-line summaries in source order.
    pub fn lines(&self) -> (res: &[BatchRequestLine])
        ensures
            lines_view(res@) == self@.lines,
    {
        self.lines.as_slice()
    }

    /// Returns whether every line targets the supplied endpoint.
    pub fn targets(&self, endpoint: BatchEndpoint) -> (res: bool)
        ensures
            res == (forall|i: int| 0 <= i < self@.lines.len() ==> #[trigger] self@.lines[i].endpoint == endpoint),
    {
        let mut i: usize = 0;
        while i < self.lines.len()
            invariant
                i <= self.lines@.len(),
                forall|j: int| 0 <= j < i ==> #[trigger] lines_view(self.lines@)[j].endpoint == endpoint,
            decreases self.lines@.len() - i,
        {
            if self.lines[i].endpoint() != endpoint {
                proof {
                    assert(self@.lines[i as int].endpoint != endpoint);
                }
                return false;
            }
            i = i + 1;
        }
        true
    }
}

fn validate_input_size(byte_length: FileByteLength) -> (res: Result<(), ApiBatchError>)
    ensures
        res is Ok <==> byte_length@ <= MAX_BATCH_INPUT_BYTES,
        res is Err ==> res == Err::<(), ApiBatchError>(ApiBatchError { code: ApiBatchErrorCode::LimitExceeded }),
{
    if byte_length.get() > MAX_BATCH_INPUT_BYTES {
        return Err(batch_limit_exceeded());
    }
    Ok(())
}

/// Reads the lines in order: a line beyond the request limit is refused, and
/// a line repeating an earlier custom identifier is a conflict.
fn check_lines(lines: &Vec<BatchRequestLine>) -> (res: Result<(), ApiBatchError>)
    ensures
        ({
            let v = lines_view(lines@);
            let read = if v.len() <= MAX_BATCH_REQUESTS { v.len() as int } else { MAX_BATCH_REQUESTS as int };
            if !custom_ids_unique_within(v, read) {
                res == Err::<(), ApiBatchError>(ApiBatchError { code: ApiBatchErrorCode::Conflict })
            } else if v.len() > MAX_BATCH_REQUESTS {
                res == Err::<(), ApiBatchError>(ApiBatchError { code: ApiBatchErrorCode::LimitExceeded })
            } else {
                res is Ok
            }
        }),
{
    let ghost v = lines_view(lines@);
    let mut k: usize = 0;
    while k < lines.len()
        invariant
            v == lines_view(lines@),
            k <= lines@.len(),
            k <= MAX_BATCH_REQUESTS,
            custom_ids_unique_within(v, k as int),
        decreases lines@.len() - k,
    {
        if k >= MAX_BATCH_REQUESTS {
            return Err(batch_limit_exceeded());
        }
        let mut i: usize = 0;
        while i < k
            invariant
                v == lines_view(lines@),
                i <= k,
                k < lines@.len(),
                k < MAX_BATCH_REQUESTS,
                forall|j: int| 0 <= j < i ==> v[j].custom_id != v[k as int].custom_id,
            decreases k - i,
        {
            if lines[i].custom_id().same_id(lines[k].custom_id()) {
                proof {
                    assert(v[i as int].custom_id == v[k as int].custom_id);
                    assert(!custom_ids_unique_within(v, (k + 1) as int));
                    if v.len() > MAX_BATCH_REQUESTS {
                        assert(!custom_ids_unique_within(v, MAX_BATCH_REQUESTS as int)) by {
                            assert(v[i as int].custom_id == v[k as int].custom_id);
                        }
                    } else {
                        assert(!custom_ids_unique_within(v, v.len() as int)) by {
                            assert(v[i as int].custom_id == v[k as int].custom_id);
                        }
                    }
                }
                return Err(batch_conflict());
            }
            i = i + 1;
        }
        k = k + 1;
    }
    Ok(())
}

/// Whether every line of `lines` targets `endpoint`.
pub open spec fn all_lines_target(lines: Seq<BatchRequestLineView>, endpoint: BatchEndpoint) -> bool {
    forall|i: int| 0 <= i < lines.len() ==> #[trigger] lines[i].endpoint == endpoint
}

/// A validated Batch create request passed to the durable operation port.
#[derive(PartialEq, Eq)]
pub struct BatchCreateRequest {
    input_file: BatchInputFile,
    endpoint: BatchEndpoint,
    completion_window: BatchCompletionWindow,
    idempotency_key: Option<IdempotencyKey>,
}

/// Abstract contents of a [`BatchCreateRequest`].
pub struct BatchCreateRequestView {
    /// The bounded input-file summary.
    pub input_file: BatchInputFileView,
    /// The endpoint every line targets.
    pub endpoint: BatchEndpoint,
    /// The completion window.
    pub completion_window: BatchCompletionWindow,
    /// The optional idempotency key text.
    pub idempotency_key: Option<Seq<char>>,
}

impl View for BatchCreateRequest {
    type V = BatchCreateRequestView;

    closed spec fn view(&self) -> BatchCreateRequestView {
        BatchCreateRequestView {
            input_file: self.input_file@,
            endpoint: self.endpoint,
            completion_window: self.completion_window,
            idempotency_key: optional_key(self.idempotency_key),
        }
    }
}

impl BatchCreateRequest {
    #[verifier::type_invariant]
    spec fn valid(self) -> bool {
        all_lines_target(self.input_file@.lines, self.endpoint)
    }

    /// Creates a Batch request after checking that every input line targets
    /// `endpoint`; a line targeting another endpoint is `InvalidArgument`.
    pub fn new(
        input_file: BatchInputFile,
        endpoint: BatchEndpoint,
        completion_window: BatchCompletionWindow,
        idempotency_key: Option<IdempotencyKey>,
    ) -> (res: Result<Self, ApiBatchError>)
        ensures
            res is Ok <==> all_lines_target(input_file@.lines, endpoint),
            res is Err ==> res == Err::<BatchCreateRequest, ApiBatchError>(
                ApiBatchError { code: ApiBatchErrorCode::InvalidArgument },
            ),
            res matches Ok(r) ==> r@ == (BatchCreateRequestView {
                input_file: input_file@,
                endpoint,
                completion_window,
                idempotency_key: optional_key(idempotency_key),
            }),
    {
        if !input_file.targets(endpoint) {
            return Err(batch_invalid_argument());
        }
        Ok(BatchCreateRequest { input_file, endpoint, completion_window, idempotency_key })
    }

    /// Returns the bounded input-file summary.
    pub fn input_file(&self) -> (res: &BatchInputFile)
        ensures
            res@ == self@.input_file,
    {
        &self.input_file
    }

    /// Returns the selected endpoint.
    pub fn endpoint(&self) -> (res: BatchEndpoint)
        ensures
            res == self@.endpoint,
            all_lines_target(self@.input_file.lines, res),
    {
        proof {
            use_type_invariant(self);
        }
        self.endpoint
    }

    /// Returns the completion window.
    pub fn completion_window(&self) -> (res: BatchCompletionWindow)
        ensures
            res == self@.completion_window,
    {
        self.completion_window
    }

    /// Returns the optional idempotency key.
    pub fn idempotency_key(&self) -> (res: Option<&IdempotencyKey>)
        ensures
            optional_key_view(res) == self@.idempotency_key,
    {
        match &self.idempotency_key {
            Some(k) => Some(k),
            None => None,
        }
    }
}

/// A validated request to cancel one Batch operation.
#[derive(PartialEq, Eq)]
pub struct BatchCancelRequest {
    operation_id: BatchOperationId,
    idempotency_key: Option<IdempotencyKey>,
}

/// Abstract contents of a [`BatchCancelRequest`].
pub struct BatchCancelRequestView {
    /// The operation identity to cancel.
    pub operation_id: Seq<char>,
    /// The optional idempotency key text.
    pub idempotency_key: Option<Seq<char>>,
}

impl View for BatchCancelRequest {
    type V = BatchCancelRequestView;

    closed spec fn view(&self) -> BatchCancelRequestView {
        BatchCancelRequestView {
            operation_id: self.operation_id@,
            idempotency_key: optional_key(self.idempotency_key),
        }
    }
}

impl BatchCancelRequest {
    /// Creates a cancellation request for one operation identity.
    pub fn new(operation_id: BatchOperationId, idempotency_key: Option<IdempotencyKey>) -> (res: Self)
        ensures
            res@ == (BatchCancelRequestView {
                operation_id: operation_id@,
                idempotency_key: optional_key(idempotency_key),
            }),
    {
        BatchCancelRequest { operation_id, idempotency_key }
    }

    /// Returns the operation identity to cancel.
    pub fn operation_id(&self) -> (res: &BatchOperationId)
        ensures
            res@ == self@.operation_id,
    {
        &self.operation_id
    }

    /// Returns the optional idempotency key.
    pub fn idempotency_key(&self) -> (res: Option<&IdempotencyKey>)
        ensures
            optional_key_view(res) == self@.idempotency_key,
    {
        match &self.idempotency_key {
            Some(k) => Some(k),
            None => None,
        }
    }
}

/// A validated bounded list limit in `1..=100`.
#[derive(Clone, Copy, Debug, PartialEq, Eq, Structural, Hash, PartialOrd, Ord)]
pub struct BatchListLimit(usize);

impl View for BatchListLimit {
    type V = nat;

    closed spec fn view(&self) -> nat {
        self.0 as nat
    }
}

impl BatchListLimit {
    #[verifier::type_invariant]
    spec fn valid(self) -> bool {
        1 <= self.0 <= MAX_BATCH_LIST_LIMIT
    }

    /// Validates a list limit: zero is `InvalidArgument`, above 100 is
    /// `LimitExceeded`.
    pub fn new(value: usize) -> (res: Result<Self, ApiBatchError>)
        ensures
            res is Ok <==> 1 <= value <= MAX_BATCH_LIST_LIMIT,
            res matches Ok(l) ==> l@ == value,
            res matches Err(e) ==> e.code == (if value == 0 {
                ApiBatchErrorCode::InvalidArgument
            } else {
                ApiBatchErrorCode::LimitExceeded
            }),
    {
        if value == 0 {
            return Err(batch_invalid_argument());
        }
        if value > MAX_BATCH_LIST_LIMIT {
            return Err(batch_limit_exceeded());
        }
        Ok(BatchListLimit(value))
    }

    /// Returns the validated list limit.
    pub fn get(self) -> (res: usize)
        ensures
            res == self@,
            1 <= res <= MAX_BATCH_LIST_LIMIT,
    {
        proof {
            use_type_invariant(&self);
        }
        self.0
    }
}

impl Default for BatchListLimit {
    fn default() -> (res: Self)
        ensures
            res@ == DEFAULT_BATCH_LIST_LIMIT,
    {
        BatchListLimit(DEFAULT_BATCH_LIST_LIMIT)
    }
}

/// Operation identity text of an optional identifier.
pub open spec fn optional_operation_id(r: Option<BatchOperationId>) -> Option<Seq<char>> {
    match r {
        Some(id) => Some(id@),
        None => None,
    }
}

/// Operation identity text of an optional borrowed identifier.
pub open spec fn optional_operation_id_ref(r: Option<&BatchOperationId>) -> Option<Seq<char>> {
    match r {
        Some(id) => Some(id@),
        None => None,
    }
}

/// A cursor and limit for one Batch list operation.
#[derive(PartialEq, Eq)]
pub struct BatchListRequest {
    after: Option<BatchOperationId>,
    limit: BatchListLimit,
}

/// Abstract contents of a [`BatchListRequest`].
pub struct BatchListRequestView {
    /// The optional exclusive cursor.
    pub after: Option<Seq<char>>,
    /// The requested result limit.
    pub limit: nat,
}

impl View for BatchListRequest {
    type V = BatchListRequestView;

    closed spec fn view(&self) -> BatchListRequestView {
        BatchListRequestView { after: optional_operation_id(self.after), limit: self.limit@ }
    }
}

impl BatchListRequest {
    /// Creates a bounded list request.
    pub fn new(after: Option<BatchOperationId>, limit: BatchListLimit) -> (res: Self)
        ensures
            res@ == (BatchListRequestView { after: optional_operation_id(after), limit: limit@ }),
    {
        BatchListRequest { after, limit }
    }

    /// Returns the optional exclusive cursor.
    pub fn after(&self) -> (res: Option<&BatchOperationId>)
        ensures
            optional_operation_id_ref(res) == self@.after,
    {
        match &self.after {
            Some(id) => Some(id),
            None => None,
        }
    }

    /// Returns the requested result limit.
    pub fn limit(&self) -> (res: BatchListLimit)
        ensures
            res@ == self@.limit,
    {
        self.limit
    }
}

/// One bounded itemized validation or execution error in a Batch object.
#[derive(Clone, Copy, Debug, PartialEq, Eq, Structural)]
pub struct BatchValidationError {
    code: ApiBatchErrorCode,
    line: Option<u32>,
}

/// Abstract contents of a [`BatchValidationError`].
pub struct BatchValidationErrorView {
    /// The stable item error code.
    pub code: ApiBatchErrorCode,
    /// The optional one-based input line number.
    pub line: Option<u32>,
}

impl View for BatchValidationError {
    type V = BatchValidationErrorView;

    closed spec fn view(&self) -> BatchValidationErrorView {
        BatchValidationErrorView { code: self.code, line: self.line }
    }
}

impl BatchValidationError {
    #[verifier::type_invariant]
    spec fn valid(self) -> bool {
        self.line != Some(0u32)
    }

    /// Creates a redacted error optionally tied to a one-based line number;
    /// line zero is `InvalidArgument`.
    pub fn new(code: ApiBatchErrorCode, line: Option<u32>) -> (res: Result<Self, ApiBatchError>)
        ensures
            res is Ok <==> line != Some(0u32),
            res is Err ==> res == Err::<BatchValidationError, ApiBatchError>(
                ApiBatchError { code: ApiBatchErrorCode::InvalidArgument },
            ),
            res matches Ok(e) ==> e@ == (BatchValidationErrorView { code, line }),
    {
        if matches!(line, Some(0)) {
            return Err(batch_invalid_argument());
        }
        Ok(BatchValidationError { code, line })
    }

    /// Returns the stable item error code.
    pub fn code(self) -> (res: ApiBatchErrorCode)
        ensures
            res == self@.code,
    {
        self.code
    }

    /// Returns the optional one-based input line number.
    pub fn line(self) -> (res: Option<u32>)
        ensures
            res == self@.line,
            res != Some(0u32),
    {
        proof {
            use_type_invariant(&self);
        }
        self.line
    }
}

/// Outcome of validating request counts.
pub open spec fn request_counts_check(total: u32, completed: u32, failed: u32) -> Result<(), ApiBatchErrorCode> {
    if total == 0 {
        Err(ApiBatchErrorCode::InvalidArgument)
    } else if total > MAX_BATCH_REQUESTS {
        Err(ApiBatchErrorCode::LimitExceeded)
    } else if completed + failed > total {
        Err(ApiBatchErrorCode::InvalidArgument)
    } else {
        Ok(())
    }
}

/// Request counts reported by authoritative Batch operation evidence.
#[derive(Clone, Copy, Debug, PartialEq, Eq, Structural)]
pub struct BatchRequestCounts {
    total: u32,
    completed: u32,
    failed: u32,
}

/// Abstract contents of [`BatchRequestCounts`].
pub struct BatchRequestCountsView {
    /// Total input request count.
    pub total: nat,
    /// Completed request count.
    pub completed: nat,
    /// Failed request count.
    pub failed: nat,
}

impl View for BatchRequestCounts {
    type V = BatchRequestCountsView;

    closed spec fn view(&self) -> BatchRequestCountsView {
        BatchRequestCountsView {
            total: self.total as nat,
            completed: self.completed as nat,
            failed: self.failed as nat,
        }
    }
}

impl BatchRequestCounts {
    #[verifier::type_invariant]
    spec fn valid(self) -> bool {
        request_counts_check(self.total, self.completed, self.failed) is Ok
    }

    /// Creates counts with `1..=50,000` requests in total of which the
    /// completed and failed ones together are at most all.
    pub fn new(total: u32, completed: u32, failed: u32) -> (res: Result<Self, ApiBatchError>)
        ensures
            same_batch_outcome(res, request_counts_check(total, completed, failed)),
            res matches Ok(c) ==> c@ == (BatchRequestCountsView {
                total: total as nat,
                completed: completed as nat,
                failed: failed as nat,
            }),
    {
        validate_count_total(total)?;
        let processed = match completed.checked_add(failed) {
            Some(processed) => processed,
            None => {
                return Err(batch_invalid_argument());
            },
        };
        validate_count_values(total, completed, failed, processed)?;
        Ok(BatchRequestCounts { total, completed, failed })
    }

    /// Returns the total input request count.
    pub fn total(self) -> (res: u32)
        ensures
            res == self@.total,
            1 <= res <= MAX_BATCH_REQUESTS,
    {
        proof {
            use_type_invariant(&self);
        }
        self.total
    }

    /// Returns the completed request count.
    pub fn completed(self) -> (res: u32)
        ensures
            res == self@.completed,
    {
        self.completed
    }

    /// Returns the failed request count.
    pub fn failed(self) -> (res: u32)
        ensures
            res == self@.failed,
    {
        self.failed
    }
}

/// Every accepted set of counts accounts for no more requests than it has.
pub proof fn request_counts_are_consistent(total: u32, completed: u32, failed: u32)
    requires
        request_counts_check(total, completed, failed) is Ok,
    ensures
        completed <= total,
        failed <= total,
        completed + failed <= total,
        1 <= total <= MAX_BATCH_REQUESTS,
{
}

fn validate_count_total(total: u32) -> (res: Result<(), ApiBatchError>)
    ensures
        total == 0 ==> res == Err::<(), ApiBatchError>(ApiBatchError { code: ApiBatchErrorCode::InvalidArgument }),
        total > MAX_BATCH_REQUESTS ==> res == Err::<(), ApiBatchError>(
            ApiBatchError { code: ApiBatchErrorCode::LimitExceeded },
        ),
        1 <= total <= MAX_BATCH_REQUESTS ==> res is Ok,
{
    if total == 0 {
        return Err(batch_invalid_argument());
    }
    if total as usize > MAX_BATCH_REQUESTS {
        return Err(batch_limit_exceeded());
    }
    Ok(())
}

fn validate_count_values(total: u32, completed: u32, failed: u32, processed: u32) -> (res: Result<(), ApiBatchError>)
    ensures
        res is Ok <==> (completed <= total && failed <= total && processed <= total),
        res is Err ==> res == Err::<(), ApiBatchError>(ApiBatchError { code: ApiBatchErrorCode::InvalidArgument }),
{
    if completed > total || failed > total || processed > total {
        return Err(batch_invalid_argument());
    }
    Ok(())
}

} // verus!
