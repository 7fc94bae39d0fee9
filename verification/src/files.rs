//! Bounded provider-neutral file service values.

use vstd::prelude::*;

use crate::platform::CoreErrorCode;
use crate::domain::error::{ApiDomainError, ApiDomainErrorCode};
use crate::domain::file::{FileDescriptor, FileDescriptorView, FileReference, FileUploadSpecification, FileUploadSpecificationView};
use crate::domain::request::IdempotencyKey;

pub mod catalog;

verus! {

/// Maximum number of bytes carried by one in-memory file chunk.
pub const MAX_FILE_CHUNK_BYTES: usize = 65_536;

/// Maximum number of opaque bytes in one file-list cursor.
pub const MAX_FILE_LIST_CURSOR_BYTES: usize = 512;

/// Maximum number of file descriptors in one list page.
pub const MAX_FILE_PAGE_RESULTS: usize = 1_000;

/// Stable machine-readable failures returned by file operations.
#[derive(Clone, Copy, Debug, PartialEq, Eq, Structural, Hash)]
#[non_exhaustive]
pub enum ApiFilesErrorCode {
    /// A supplied value is empty or violates its documented syntax.
    InvalidArgument,
    /// A supplied value exceeds its documented hard limit.
    LimitExceeded,
    /// The operation has no authenticated principal.
    Unauthenticated,
    /// The requested file does not exist in authoritative state.
    NotFound,
    /// Current state conflicts with the requested operation.
    Conflict,
    /// Trusted file metadata or result state failed integrity validation.
    IntegrityFailure,
    /// Authoritative policy rejected the operation.
    PolicyRejected,
    /// Cancellation stopped the operation.
    Cancelled,
    /// The operation exceeded its declared deadline.
    DeadlineExceeded,
    /// A bounded resource budget was exhausted.
    ResourceExhausted,
    /// A required file capability is unavailable.
    Unavailable,
    /// Durable commit may have completed and requires reconciliation.
    CommitIndeterminate,
    /// The operation failed without a safe external explanation.
    Internal,
}

/// The external machine code of each file failure.
pub open spec fn files_code_text(code: ApiFilesErrorCode) -> Seq<char> {
    match code {
        ApiFilesErrorCode::InvalidArgument => "API_FILES_INVALID_ARGUMENT"@,
        ApiFilesErrorCode::LimitExceeded => "API_FILES_LIMIT_EXCEEDED"@,
        ApiFilesErrorCode::Unauthenticated => "API_FILES_UNAUTHENTICATED"@,
        ApiFilesErrorCode::NotFound => "API_FILES_NOT_FOUND"@,
        ApiFilesErrorCode::Conflict => "API_FILES_CONFLICT"@,
        ApiFilesErrorCode::IntegrityFailure => "API_FILES_INTEGRITY_FAILURE"@,
        ApiFilesErrorCode::PolicyRejected => "API_FILES_POLICY_REJECTED"@,
        ApiFilesErrorCode::Cancelled => "API_FILES_CANCELLED"@,
        ApiFilesErrorCode::DeadlineExceeded => "API_FILES_DEADLINE_EXCEEDED"@,
        ApiFilesErrorCode::ResourceExhausted => "API_FILES_RESOURCE_EXHAUSTED"@,
        ApiFilesErrorCode::Unavailable => "API_FILES_UNAVAILABLE"@,
        ApiFilesErrorCode::CommitIndeterminate => "API_FILES_COMMIT_INDETERMINATE"@,
        ApiFilesErrorCode::Internal => "API_FILES_INTERNAL"@,
    }
}

/// Whether a failure is reported while executing rather than validating.
pub open spec fn is_execution_files_code(code: ApiFilesErrorCode) -> bool {
    match code {
        ApiFilesErrorCode::InvalidArgument | ApiFilesErrorCode::LimitExceeded
        | ApiFilesErrorCode::Unauthenticated | ApiFilesErrorCode::NotFound
        | ApiFilesErrorCode::Conflict | ApiFilesErrorCode::IntegrityFailure => false,
        _ => true,
    }
}

impl ApiFilesErrorCode {
    /// Returns the stable external machine code.
    pub fn as_str(self) -> (res: &'static str)
        ensures
            res@ == files_code_text(self),
    {
        match self {
            ApiFilesErrorCode::InvalidArgument => "API_FILES_INVALID_ARGUMENT",
            ApiFilesErrorCode::LimitExceeded => "API_FILES_LIMIT_EXCEEDED",
            ApiFilesErrorCode::Unauthenticated => "API_FILES_UNAUTHENTICATED",
            ApiFilesErrorCode::NotFound => "API_FILES_NOT_FOUND",
            ApiFilesErrorCode::Conflict => "API_FILES_CONFLICT",
            ApiFilesErrorCode::IntegrityFailure => "API_FILES_INTEGRITY_FAILURE",
            ApiFilesErrorCode::PolicyRejected | ApiFilesErrorCode::Cancelled
            | ApiFilesErrorCode::DeadlineExceeded | ApiFilesErrorCode::ResourceExhausted
            | ApiFilesErrorCode::Unavailable | ApiFilesErrorCode::CommitIndeterminate
            | ApiFilesErrorCode::Internal => execution_machine_code(self),
        }
    }
}

fn execution_machine_code(code: ApiFilesErrorCode) -> (res: &'static str)
    ensures
        is_execution_files_code(code) ==> res@ == files_code_text(code),
        !is_execution_files_code(code) ==> res@ == "API_FILES_INTERNAL"@,
{
    match code {
        ApiFilesErrorCode::PolicyRejected => "API_FILES_POLICY_REJECTED",
        ApiFilesErrorCode::Cancelled => "API_FILES_CANCELLED",
        ApiFilesErrorCode::DeadlineExceeded => "API_FILES_DEADLINE_EXCEEDED",
        ApiFilesErrorCode::ResourceExhausted => "API_FILES_RESOURCE_EXHAUSTED",
        ApiFilesErrorCode::Unavailable => "API_FILES_UNAVAILABLE",
        ApiFilesErrorCode::CommitIndeterminate => "API_FILES_COMMIT_INDETERMINATE",
        ApiFilesErrorCode::Internal => "API_FILES_INTERNAL",
        _ => "API_FILES_INTERNAL",
    }
}

/// Distinct file failure codes have distinct external machine codes.
pub proof fn files_codes_are_distinct(a: ApiFilesErrorCode, b: ApiFilesErrorCode)
    requires
        a != b,
    ensures
        files_code_text(a) != files_code_text(b),
{
    reveal_strlit("API_FILES_INVALID_ARGUMENT");
    reveal_strlit("API_FILES_LIMIT_EXCEEDED");
    reveal_strlit("API_FILES_UNAUTHENTICATED");
    reveal_strlit("API_FILES_NOT_FOUND");
    reveal_strlit("API_FILES_CONFLICT");
    reveal_strlit("API_FILES_INTEGRITY_FAILURE");
    reveal_strlit("API_FILES_POLICY_REJECTED");
    reveal_strlit("API_FILES_CANCELLED");
    reveal_strlit("API_FILES_DEADLINE_EXCEEDED");
    reveal_strlit("API_FILES_RESOURCE_EXHAUSTED");
    reveal_strlit("API_FILES_UNAVAILABLE");
    reveal_strlit("API_FILES_COMMIT_INDETERMINATE");
    reveal_strlit("API_FILES_INTERNAL");
    if files_code_text(a) == files_code_text(b) {
        assert(files_code_text(a).len() == files_code_text(b).len());
        assert(files_code_text(a)[10] == files_code_text(b)[10]);
        assert(files_code_text(a)[11] == files_code_text(b)[11]);
        assert(files_code_text(a)[12] == files_code_text(b)[12]);
    }
}

/// A redacted file-operation error that retains only its stable code.
#[derive(Clone, Copy, Debug, PartialEq, Eq, Structural)]
pub struct ApiFilesError {
    /// The stable machine-readable code; the only state an error carries.
    pub code: ApiFilesErrorCode,
}

impl ApiFilesError {
    /// Creates an error from a stable machine-readable code.
    pub fn new(code: ApiFilesErrorCode) -> (res: Self)
        ensures
            res.code == code,
    {
        ApiFilesError { code }
    }

    /// Returns the stable machine-readable code.
    pub fn code(self) -> (res: ApiFilesErrorCode)
        ensures
            res == self.code,
    {
        self.code
    }
}

/// The file failure that a platform-core failure projects to.
pub open spec fn files_code_of_core(code: CoreErrorCode) -> ApiFilesErrorCode {
    match code {
        CoreErrorCode::InvalidArgument => ApiFilesErrorCode::InvalidArgument,
        CoreErrorCode::Conflict => ApiFilesErrorCode::Conflict,
        CoreErrorCode::Cancelled => ApiFilesErrorCode::Cancelled,
        CoreErrorCode::DeadlineExceeded => ApiFilesErrorCode::DeadlineExceeded,
        CoreErrorCode::ResourceExhausted => ApiFilesErrorCode::ResourceExhausted,
        CoreErrorCode::Unavailable => ApiFilesErrorCode::Unavailable,
        CoreErrorCode::Internal => ApiFilesErrorCode::Internal,
    }
}

/// The file failure that a domain failure projects to.
pub open spec fn files_code_of_domain(code: ApiDomainErrorCode) -> ApiFilesErrorCode {
    match code {
        ApiDomainErrorCode::InvalidArgument | ApiDomainErrorCode::UnsupportedVersion => ApiFilesErrorCode::InvalidArgument,
        ApiDomainErrorCode::LimitExceeded => ApiFilesErrorCode::LimitExceeded,
        ApiDomainErrorCode::Conflict => ApiFilesErrorCode::Conflict,
        ApiDomainErrorCode::Cancelled => ApiFilesErrorCode::Cancelled,
        ApiDomainErrorCode::DeadlineExceeded => ApiFilesErrorCode::DeadlineExceeded,
        ApiDomainErrorCode::ResourceExhausted => ApiFilesErrorCode::ResourceExhausted,
        ApiDomainErrorCode::Unavailable => ApiFilesErrorCode::Unavailable,
        ApiDomainErrorCode::Internal => ApiFilesErrorCode::Internal,
    }
}

impl From<CoreErrorCode> for ApiFilesError {
    fn from(value: CoreErrorCode) -> (res: Self) {
        ApiFilesError::new(project_core_error(value))
    }
}

impl vstd::std_specs::convert::FromSpecImpl<CoreErrorCode> for ApiFilesError {
    open spec fn obeys_from_spec() -> bool {
        true
    }

    open spec fn from_spec(v: CoreErrorCode) -> Self {
        ApiFilesError { code: files_code_of_core(v) }
    }
}

impl From<ApiDomainError> for ApiFilesError {
    fn from(value: ApiDomainError) -> (res: Self) {
        ApiFilesError::new(project_domain_error(value.code))
    }
}

impl vstd::std_specs::convert::FromSpecImpl<ApiDomainError> for ApiFilesError {
    open spec fn obeys_from_spec() -> bool {
        true
    }

    open spec fn from_spec(v: ApiDomainError) -> Self {
        ApiFilesError { code: files_code_of_domain(v.code) }
    }
}

fn project_core_error(code: CoreErrorCode) -> (res: ApiFilesErrorCode)
    ensures
        res == files_code_of_core(code),
{
    match code {
        CoreErrorCode::InvalidArgument => ApiFilesErrorCode::InvalidArgument,
        CoreErrorCode::Conflict => ApiFilesErrorCode::Conflict,
        CoreErrorCode::Cancelled => ApiFilesErrorCode::Cancelled,
        CoreErrorCode::DeadlineExceeded => ApiFilesErrorCode::DeadlineExceeded,
        CoreErrorCode::ResourceExhausted => ApiFilesErrorCode::ResourceExhausted,
        CoreErrorCode::Unavailable => ApiFilesErrorCode::Unavailable,
        CoreErrorCode::Internal => ApiFilesErrorCode::Internal,
    }
}

fn project_domain_error(code: ApiDomainErrorCode) -> (res: ApiFilesErrorCode)
    ensures
        res == files_code_of_domain(code),
{
    match code {
        ApiDomainErrorCode::InvalidArgument | ApiDomainErrorCode::UnsupportedVersion => ApiFilesErrorCode::InvalidArgument,
        ApiDomainErrorCode::LimitExceeded => ApiFilesErrorCode::LimitExceeded,
        ApiDomainErrorCode::Conflict => ApiFilesErrorCode::Conflict,
        ApiDomainErrorCode::Cancelled => ApiFilesErrorCode::Cancelled,
        _ => project_domain_service_error(code),
    }
}

fn project_domain_service_error(code: ApiDomainErrorCode) -> (res: ApiFilesErrorCode)
    ensures
        match code {
            ApiDomainErrorCode::DeadlineExceeded | ApiDomainErrorCode::ResourceExhausted
            | ApiDomainErrorCode::Unavailable | ApiDomainErrorCode::Internal => res == files_code_of_domain(code),
            _ => res == ApiFilesErrorCode::Internal,
        },
{
    match code {
        ApiDomainErrorCode::DeadlineExceeded => ApiFilesErrorCode::DeadlineExceeded,
        ApiDomainErrorCode::ResourceExhausted => ApiFilesErrorCode::ResourceExhausted,
        ApiDomainErrorCode::Unavailable => ApiFilesErrorCode::Unavailable,
        ApiDomainErrorCode::Internal => ApiFilesErrorCode::Internal,
        _ => ApiFilesErrorCode::Internal,
    }
}

/// Builds a redacted file failure with `code`.
pub fn files_error(code: ApiFilesErrorCode) -> (res: ApiFilesError)
    ensures
        res.code == code,
{
    ApiFilesError::new(code)
}

/// Outcome of validating a byte count that must lie in `1..=maximum`; the
/// upper bound is checked first.
pub open spec fn non_empty_length_check(length: nat, maximum: nat) -> Result<(), ApiFilesErrorCode> {
    if length > maximum {
        Err(ApiFilesErrorCode::LimitExceeded)
    } else if length == 0 {
        Err(ApiFilesErrorCode::InvalidArgument)
    } else {
        Ok(())
    }
}

/// Whether an exec result carries exactly the outcome `spec`.
pub open spec fn same_files_outcome<T>(res: Result<T, ApiFilesError>, spec: Result<(), ApiFilesErrorCode>) -> bool {
    match res {
        Ok(_) => spec is Ok,
        Err(e) => spec == Err::<(), ApiFilesErrorCode>(e.code),
    }
}

fn validate_non_empty_length(length: usize, maximum: usize) -> (res: Result<(), ApiFilesError>)
    ensures
        same_files_outcome(res, non_empty_length_check(length as nat, maximum as nat)),
{
    if length > maximum {
        return Err(files_error(ApiFilesErrorCode::LimitExceeded));
    }
    if length == 0 {
        return Err(files_error(ApiFilesErrorCode::InvalidArgument));
    }
    Ok(())
}

/// One non-empty bounded chunk of file bytes.
#[derive(PartialEq, Eq, Hash)]
pub struct FileChunk(Vec<u8>);

impl View for FileChunk {
    type V = Seq<u8>;

    closed spec fn view(&self) -> Seq<u8> {
        self.0@
    }
}

impl Clone for FileChunk {
    fn clone(&self) -> (res: Self)
        ensures
            res@ == self@,
    {
        proof {
            use_type_invariant(self);
        }
        FileChunk(vstd::slice::slice_to_vec(self.0.as_slice()))
    }
}

impl FileChunk {
    #[verifier::type_invariant]
    spec fn valid(self) -> bool {
        non_empty_length_check(self.0@.len(), MAX_FILE_CHUNK_BYTES as nat) is Ok
    }

    /// Validates and owns one chunk: empty is `InvalidArgument`, above 64 KiB
    /// is `LimitExceeded`.
    pub fn new(bytes: Vec<u8>) -> (res: Result<Self, ApiFilesError>)
        ensures
            same_files_outcome(res, non_empty_length_check(bytes@.len(), MAX_FILE_CHUNK_BYTES as nat)),
            res matches Ok(c) ==> c@ == bytes@,
    {
        validate_non_empty_length(bytes.len(), MAX_FILE_CHUNK_BYTES)?;
        Ok(FileChunk(bytes))
    }

    /// Returns the owned file bytes.
    pub fn as_bytes(&self) -> (res: &[u8])
        ensures
            res@ == self@,
    {
        self.0.as_slice()
    }

    /// Returns the chunk length in bytes.
    pub fn len(&self) -> (res: usize)
        ensures
            res == self@.len(),
            1 <= res <= MAX_FILE_CHUNK_BYTES,
    {
        proof {
            use_type_invariant(self);
        }
        self.0.len()
    }

    /// Reports whether the chunk is empty, which valid construction rules out.
    pub fn is_empty(&self) -> (res: bool)
        ensures
            res == (self@.len() == 0),
            !res,
    {
        proof {
            use_type_invariant(self);
        }
        self.0.len() == 0
    }

    /// Consumes the chunk and returns its owned bytes.
    pub fn into_bytes(self) -> (res: Vec<u8>)
        ensures
            res@ == self@,
    {
        self.0
    }
}

/// One copied, non-empty opaque cursor issued by a trusted file service.
#[derive(PartialEq, Eq, Hash)]
pub struct FileListCursor(Vec<u8>);

impl View for FileListCursor {
    type V = Seq<u8>;

    closed spec fn view(&self) -> Seq<u8> {
        self.0@
    }
}

impl Clone for FileListCursor {
    fn clone(&self) -> (res: Self)
        ensures
            res@ == self@,
    {
        proof {
            use_type_invariant(self);
        }
        FileListCursor(vstd::slice::slice_to_vec(self.0.as_slice()))
    }
}

impl FileListCursor {
    #[verifier::type_invariant]
    spec fn valid(self) -> bool {
        non_empty_length_check(self.0@.len(), MAX_FILE_LIST_CURSOR_BYTES as nat) is Ok
    }

    /// Validates and copies one cursor: empty is `InvalidArgument`, above 512
    /// bytes is `LimitExceeded`.
    pub fn new(bytes: &[u8]) -> (res: Result<Self, ApiFilesError>)
        ensures
            same_files_outcome(res, non_empty_length_check(bytes@.len(), MAX_FILE_LIST_CURSOR_BYTES as nat)),
            res matches Ok(c) ==> c@ == bytes@,
    {
        validate_non_empty_length(bytes.len(), MAX_FILE_LIST_CURSOR_BYTES)?;
        Ok(FileListCursor(vstd::slice::slice_to_vec(bytes)))
    }

    /// Returns the opaque cursor bytes to a trusted file adapter.
    pub fn as_bytes(&self) -> (res: &[u8])
        ensures
            res@ == self@,
            1 <= res@.len() <= MAX_FILE_LIST_CURSOR_BYTES,
    {
        proof {
            use_type_invariant(self);
        }
        self.0.as_slice()
    }
}

/// Cursor bytes of an optional cursor.
pub open spec fn optional_cursor(c: Option<FileListCursor>) -> Option<Seq<u8>> {
    match c {
        Some(c) => Some(c@),
        None => None,
    }
}

/// Cursor bytes of an optional borrowed cursor.
pub open spec fn optional_cursor_ref(c: Option<&FileListCursor>) -> Option<Seq<u8>> {
    match c {
        Some(c) => Some(c@),
        None => None,
    }
}

/// A validated non-zero maximum number of file descriptors in one page.
#[derive(Clone, Copy, Debug, PartialEq, Eq, Structural, Hash, PartialOrd, Ord)]
pub struct FilePageLimit(usize);

impl View for FilePageLimit {
    type V = nat;

    closed spec fn view(&self) -> nat {
        self.0 as nat
    }
}

impl FilePageLimit {
    #[verifier::type_invariant]
    spec fn valid(self) -> bool {
        1 <= self.0 <= MAX_FILE_PAGE_RESULTS
    }

    /// Validates a page size: above 1,000 is `LimitExceeded`, zero is
    /// `InvalidArgument`.
    pub fn new(value: usize) -> (res: Result<Self, ApiFilesError>)
        ensures
            same_files_outcome(res, non_empty_length_check(value as nat, MAX_FILE_PAGE_RESULTS as nat)),
            res matches Ok(l) ==> l@ == value,
    {
        if value > MAX_FILE_PAGE_RESULTS {
            return Err(files_error(ApiFilesErrorCode::LimitExceeded));
        }
        if value == 0 {
            return Err(files_error(ApiFilesErrorCode::InvalidArgument));
        }
        Ok(FilePageLimit(value))
    }

    /// Returns the validated result limit.
    pub fn get(self) -> (res: usize)
        ensures
            res == self@,
            1 <= res <= MAX_FILE_PAGE_RESULTS,
    {
        proof {
            use_type_invariant(&self);
        }
        self.0
    }
}

/// One bounded request for a page of file descriptors.
#[derive(PartialEq, Eq)]
pub struct FileListRequest {
    cursor: Option<FileListCursor>,
    limit: FilePageLimit,
}

/// Abstract contents of a [`FileListRequest`].
pub struct FileListRequestView {
    /// The optional continuation cursor bytes.
    pub cursor: Option<Seq<u8>>,
    /// The requested page result limit.
    pub limit: nat,
}

impl View for FileListRequest {
    type V = FileListRequestView;

    closed spec fn view(&self) -> FileListRequestView {
        FileListRequestView { cursor: optional_cursor(self.cursor), limit: self.limit@ }
    }
}

impl FileListRequest {
    /// Owns a validated cursor and page limit.
    pub fn new(cursor: Option<FileListCursor>, limit: FilePageLimit) -> (res: Self)
        ensures
            res@ == (FileListRequestView { cursor: optional_cursor(cursor), limit: limit@ }),
    {
        FileListRequest { cursor, limit }
    }

    /// Returns the optional opaque continuation cursor.
    pub fn cursor(&self) -> (res: Option<&FileListCursor>)
        ensures
            optional_cursor_ref(res) == self@.cursor,
    {
        match &self.cursor {
            Some(c) => Some(c),
            None => None,
        }
    }

    /// Returns the requested page result limit.
    pub fn limit(&self) -> (res: FilePageLimit)
        ensures
            res@ == self@.limit,
    {
        self.limit
    }
}

/// Outcome of validating a page of `count` descriptors returned for `limit`.
pub open spec fn page_result_check(count: nat, next_cursor_present: bool, limit: nat) -> Result<(), ApiFilesErrorCode> {
    if count > limit || (count == 0 && next_cursor_present) {
        Err(ApiFilesErrorCode::IntegrityFailure)
    } else {
        Ok(())
    }
}

/// Verified descriptor metadata of a sequence of descriptors.
pub open spec fn descriptors_view(files: Seq<FileDescriptor>) -> Seq<FileDescriptorView> {
    files.map_values(|f: FileDescriptor| f@)
}

/// One integrity-checked page returned by a trusted file service.
#[derive(PartialEq, Eq)]
pub struct FileListPage {
    files: Vec<FileDescriptor>,
    next_cursor: Option<FileListCursor>,
}

/// Abstract contents of a [`FileListPage`].
pub struct FileListPageView {
    /// The verified file descriptors of the page.
    pub files: Seq<FileDescriptorView>,
    /// The optional cursor bytes for the next page.
    pub next_cursor: Option<Seq<u8>>,
}

impl View for FileListPage {
    type V = FileListPageView;

    closed spec fn view(&self) -> FileListPageView {
        FileListPageView { files: descriptors_view(self.files@), next_cursor: optional_cursor(self.next_cursor) }
    }
}

impl FileListPage {
    #[verifier::type_invariant]
    spec fn valid(self) -> bool {
        page_result_check(self.files@.len(), self.next_cursor is Some, MAX_FILE_PAGE_RESULTS as nat) is Ok
    }

    /// Validates and owns one page: more descriptors than requested, or an
    /// empty page carrying a next cursor, is `IntegrityFailure`.
    pub fn new(files: Vec<FileDescriptor>, next_cursor: Option<FileListCursor>, requested_limit: FilePageLimit) -> (res:
        Result<Self, ApiFilesError>)
        ensures
            same_files_outcome(res, page_result_check(files@.len(), next_cursor is Some, requested_limit@)),
            res matches Ok(p) ==> p@ == (FileListPageView {
                files: descriptors_view(files@),
                next_cursor: optional_cursor(next_cursor),
            }),
    {
        validate_page_result(files.len(), next_cursor.is_some(), requested_limit)?;
        Ok(FileListPage { files, next_cursor })
    }

    /// Returns the verified file descriptors in this page.
    pub fn files(&self) -> (res: &[FileDescriptor])
        ensures
            descriptors_view(res@) == self@.files,
            res@.len() <= MAX_FILE_PAGE_RESULTS,
    {
        proof {
            use_type_invariant(self);
        }
        self.files.as_slice()
    }

    /// Returns the optional cursor for the next page, present only on a
    /// non-empty page.
    pub fn next_cursor(&self) -> (res: Option<&FileListCursor>)
        ensures
            optional_cursor_ref(res) == self@.next_cursor,
            res is Some ==> self@.files.len() > 0,
    {
        proof {
            use_type_invariant(self);
        }
        match &self.next_cursor {
            Some(c) => Some(c),
            None => None,
        }
    }
}

fn validate_page_result(result_count: usize, next_cursor_present: bool, requested_limit: FilePageLimit) -> (res:
    Result<(), ApiFilesError>)
    ensures
        same_files_outcome(res, page_result_check(result_count as nat, next_cursor_present, requested_limit@)),
        res is Ok ==> result_count <= MAX_FILE_PAGE_RESULTS,
{
    if result_count > requested_limit.get() || (result_count == 0 && next_cursor_present) {
        return Err(files_error(ApiFilesErrorCode::IntegrityFailure));
    }
    Ok(())
}

/// One validated upload request and its opaque idempotency key.
#[derive(PartialEq, Eq)]
pub struct FileUploadRequest {
    specification: FileUploadSpecification,
    idempotency_key: IdempotencyKey,
}

/// Abstract contents of a [`FileUploadRequest`].
pub struct FileUploadRequestView {
    /// The validated upload metadata.
    pub specification: FileUploadSpecificationView,
    /// The idempotency key text.
    pub idempotency_key: Seq<char>,
}

impl View for FileUploadRequest {
    type V = FileUploadRequestView;

    closed spec fn view(&self) -> FileUploadRequestView {
        FileUploadRequestView { specification: self.specification@, idempotency_key: self.idempotency_key@ }
    }
}

impl FileUploadRequest {
    /// Owns validated upload metadata and idempotency material.
    pub fn new(specification: FileUploadSpecification, idempotency_key: IdempotencyKey) -> (res: Self)
        ensures
            res@ == (FileUploadRequestView {
                specification: specification@,
                idempotency_key: idempotency_key@,
            }),
    {
        FileUploadRequest { specification, idempotency_key }
    }

    /// Returns the validated upload metadata.
    pub fn specification(&self) -> (res: &FileUploadSpecification)
        ensures
            res@ == self@.specification,
    {
        &self.specification
    }

    /// Returns the opaque idempotency key to a trusted adapter.
    pub fn idempotency_key(&self) -> (res: &IdempotencyKey)
        ensures
            res@ == self@.idempotency_key,
    {
        &self.idempotency_key
    }
}

/// One validated file deletion request and its opaque idempotency key.
#[derive(PartialEq, Eq)]
pub struct FileDeleteRequest {
    reference: FileReference,
    idempotency_key: IdempotencyKey,
}

/// Abstract contents of a [`FileDeleteRequest`].
pub struct FileDeleteRequestView {
    /// The service-issued file reference.
    pub reference: FileReference,
    /// The idempotency key text.
    pub idempotency_key: Seq<char>,
}

impl View for FileDeleteRequest {
    type V = FileDeleteRequestView;

    closed spec fn view(&self) -> FileDeleteRequestView {
        FileDeleteRequestView { reference: self.reference, idempotency_key: self.idempotency_key@ }
    }
}

impl FileDeleteRequest {
    /// Owns a service-issued file reference and validated idempotency material.
    pub fn new(reference: FileReference, idempotency_key: IdempotencyKey) -> (res: Self)
        ensures
            res@ == (FileDeleteRequestView { reference, idempotency_key: idempotency_key@ }),
    {
        FileDeleteRequest { reference, idempotency_key }
    }

    /// Returns the opaque file reference to a trusted adapter.
    pub fn reference(&self) -> (res: &FileReference)
        ensures
            *res == self@.reference,
    {
        &self.reference
    }

    /// Returns the opaque idempotency key to a trusted adapter.
    pub fn idempotency_key(&self) -> (res: &IdempotencyKey)
        ensures
            res@ == self@.idempotency_key,
    {
        &self.idempotency_key
    }
}

/// Authoritative reconciliation result for an indeterminate upload commit.
#[derive(PartialEq, Eq)]
pub enum FileUploadReconciliation {
    /// The upload committed with the returned verified descriptor.
    Committed(FileDescriptor),
    /// The upload did not commit.
    NotCommitted,
}

/// Authoritative reconciliation result for an indeterminate deletion commit.
#[derive(Clone, Copy, Debug, PartialEq, Eq, Structural, Hash)]
pub enum FileDeleteReconciliation {
    /// The file was deleted.
    Deleted,
    /// The file was not deleted.
    NotDeleted,
}

} // verus!
