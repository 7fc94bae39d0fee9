//! The decisions of the file routes around their awaits: what a request
//! must carry before it is authenticated, in which order its parts are
//! checked, how an authentication outcome becomes a request context, and how
//! a service outcome becomes the answer.

use vstd::prelude::*;

use crate::admin::command::AuthenticatedPrincipalEvidence;
use crate::domain::error::{ApiDomainError, domain_code_text};
use crate::domain::file::{FileDescriptor, FileReference, FileUploadSpecification};
use crate::domain::request::{IdempotencyKey, idempotency_key_check};
use crate::files::{ApiFilesError, ApiFilesErrorCode, FileListPage, FileListRequest, files_code_of_core, files_code_of_domain, files_error};
use crate::http::credentials::{PresentedBearer, bearer_credential};
use crate::http::error::{
    ApiHttpError, ApiHttpErrorCode, ErrorProjection, domain_message_text, domain_retryable,
    domain_status_of, files_message_text, files_retryable, files_status_of, http_code_text, http_message_text,
    http_retryable, http_status_of, project_domain_error, project_files_error, project_http_error, projects,
    unauthenticated,
};
use crate::files::files_code_text;
use crate::http::file_headers::{digest_bytes, parse_idempotency_key, parse_upload_headers, refused_as_file, required_text_of, upload_outcome};
use crate::http::file_list::{list_request_outcome, parse_list_request};
use crate::http::file_routes::{decode_reference, hex_reference};
use crate::http::headers::{HttpHeader, count_named, one_header, the_named};
use crate::platform::{CoreErrorCode, PrincipalContext, RequestContext};
use vstd::utf8::encode_utf8;

verus! {

/// Why a file route fails: a transport failure, a domain failure, or a file
/// failure, each answered with its own projection.
#[derive(Clone, Copy, Debug, PartialEq, Eq, Structural)]
pub enum FileFailure {
    /// A transport failure.
    Http(ApiHttpError),
    /// A domain failure.
    Domain(ApiDomainError),
    /// A file failure.
    Files(ApiFilesError),
}

/// Whether `p` is the redacted answer to `f`.
pub open spec fn projects_file_failure(p: ErrorProjection, f: FileFailure) -> bool {
    match f {
        FileFailure::Http(e) => projects(
            p,
            http_status_of(e.code),
            http_code_text(e.code),
            http_message_text(e.code),
            http_retryable(e.code),
        ),
        FileFailure::Domain(e) => projects(
            p,
            domain_status_of(e.code),
            domain_code_text(e.code),
            domain_message_text(e.code),
            domain_retryable(e.code),
        ),
        FileFailure::Files(e) => projects(
            p,
            files_status_of(e.code),
            files_code_text(e.code),
            files_message_text(e.code),
            files_retryable(e.code),
        ),
    }
}

/// Projects a file-route failure onto its redacted response.
pub fn project_file_failure(failure: FileFailure) -> (res: ErrorProjection)
    ensures
        projects_file_failure(res, failure),
{
    match failure {
        FileFailure::Http(e) => project_http_error(e),
        FileFailure::Domain(e) => project_domain_error(e),
        FileFailure::Files(e) => project_files_error(e),
    }
}

/// A file failure with `code`.
pub open spec fn files_failure(code: ApiFilesErrorCode) -> FileFailure {
    FileFailure::Files(ApiFilesError { code })
}

/// A transport failure with `code`.
pub open spec fn http_failure(code: ApiHttpErrorCode) -> FileFailure {
    FileFailure::Http(ApiHttpError { code })
}

/// How the Bearer authorization resolves: a repeated header is
/// `InvalidRequest`; a missing header or a field without a valid Bearer
/// credential is `Unauthenticated`.
pub open spec fn authorization_outcome(h: Seq<HttpHeader>) -> Result<Seq<u8>, ApiHttpErrorCode> {
    let n = count_named(h, "authorization"@);
    if n > 1 {
        Err(ApiHttpErrorCode::InvalidRequest)
    } else if n == 0 {
        Err(ApiHttpErrorCode::Unauthenticated)
    } else {
        match bearer_credential(the_named(h, "authorization"@).value@) {
            Some(t) => Ok(t),
            None => Err(ApiHttpErrorCode::Unauthenticated),
        }
    }
}

/// Parses the Bearer authorization of a public request.
pub fn parse_authorization(headers: &[HttpHeader]) -> (res: Result<PresentedBearer, ApiHttpError>)
    ensures
        match authorization_outcome(headers@) {
            Ok(t) => res matches Ok(b) && b@ == t,
            Err(c) => res == Err::<PresentedBearer, ApiHttpError>(ApiHttpError { code: c }),
        },
{
    let header = match one_header(headers, "authorization", false)? {
        Some(h) => h,
        None => {
            return Err(unauthenticated());
        },
    };
    PresentedBearer::parse(header.value.as_slice())
}

/// The text of an optional path segment.
pub open spec fn text_of(t: Option<&str>) -> Option<Seq<char>> {
    match t {
        Some(s) => Some(s@),
        None => None,
    }
}

/// The file reference a path segment names: exactly 64 lowercase
/// hexadecimal digits.
pub open spec fn reference_outcome(text: Option<Seq<char>>) -> Option<Seq<u8>> {
    match text {
        Some(t) => hex_reference(encode_utf8(t)),
        None => None,
    }
}

/// How the idempotency key of a mutating file request resolves.
pub open spec fn idempotency_key_outcome(h: Seq<HttpHeader>) -> Result<Seq<char>, ApiFilesErrorCode> {
    match required_text_of(h, "idempotency-key"@) {
        None => Err(ApiFilesErrorCode::InvalidArgument),
        Some(t) => match refused_as_file(idempotency_key_check(t)) {
            Ok(()) => Ok(t),
            Err(c) => Err(c),
        },
    }
}

fn reference_of(reference_text: Option<&str>) -> (res: Option<FileReference>)
    ensures
        match reference_outcome(text_of(reference_text)) {
            Some(r) => res matches Some(f) && f.0@ == r,
            None => res is None,
        },
{
    match reference_text {
        Some(t) => decode_reference(t),
        None => None,
    }
}

/// What a file deletion carries into authentication.
pub struct PreparedDelete {
    /// The file to delete.
    pub reference: FileReference,
    /// The caller's idempotency key.
    pub idempotency_key: IdempotencyKey,
    /// The presented credential.
    pub authorization: PresentedBearer,
}

/// Prepares a deletion, in order: the file service must be configured
/// (`Unavailable`), the idempotency key must be valid, the Bearer
/// authorization must be present and well formed, and the path must name a
/// reference (`NotFound`).
pub fn prepare_delete(service_available: bool, headers: &[HttpHeader], reference_text: Option<&str>) -> (res: Result<
    PreparedDelete,
    FileFailure,
>)
    ensures
        !service_available ==> res == Err::<PreparedDelete, FileFailure>(files_failure(ApiFilesErrorCode::Unavailable)),
        service_available ==> match idempotency_key_outcome(headers@) {
            Err(c) => res == Err::<PreparedDelete, FileFailure>(files_failure(c)),
            Ok(k) => match authorization_outcome(headers@) {
                Err(c) => res == Err::<PreparedDelete, FileFailure>(http_failure(c)),
                Ok(t) => match reference_outcome(text_of(reference_text)) {
                    None => res == Err::<PreparedDelete, FileFailure>(files_failure(ApiFilesErrorCode::NotFound)),
                    Some(r) => res matches Ok(p) && p.reference.0@ == r && p.idempotency_key@ == k
                        && p.authorization@ == t,
                },
            },
        },
{
    if !service_available {
        return Err(FileFailure::Files(files_error(ApiFilesErrorCode::Unavailable)));
    }
    let idempotency_key = match parse_idempotency_key(headers) {
        Ok(k) => k,
        Err(e) => {
            return Err(FileFailure::Files(e));
        },
    };
    let authorization = match parse_authorization(headers) {
        Ok(a) => a,
        Err(e) => {
            return Err(FileFailure::Http(e));
        },
    };
    match reference_of(reference_text) {
        Some(reference) => Ok(PreparedDelete { reference, idempotency_key, authorization }),
        None => Err(FileFailure::Files(files_error(ApiFilesErrorCode::NotFound))),
    }
}

/// What a lookup of one file carries into authentication.
pub struct PreparedLookup {
    /// The file to read.
    pub reference: FileReference,
    /// The presented credential.
    pub authorization: PresentedBearer,
}

/// The outcome of preparing a lookup of one file: the service, then the
/// authorization, then the reference.
pub open spec fn lookup_checks(
    service_available: bool,
    h: Seq<HttpHeader>,
    reference_text: Option<Seq<char>>,
    res: Result<PreparedLookup, FileFailure>,
) -> bool {
    if !service_available {
        res == Err::<PreparedLookup, FileFailure>(files_failure(ApiFilesErrorCode::Unavailable))
    } else {
        match authorization_outcome(h) {
            Err(c) => res == Err::<PreparedLookup, FileFailure>(http_failure(c)),
            Ok(t) => match reference_outcome(reference_text) {
                None => res == Err::<PreparedLookup, FileFailure>(files_failure(ApiFilesErrorCode::NotFound)),
                Some(r) => res matches Ok(p) && p.reference.0@ == r && p.authorization@ == t,
            },
        }
    }
}

/// Prepares a metadata lookup: the file service must be configured, the
/// Bearer authorization valid, and the path must name a reference.
pub fn prepare_metadata(service_available: bool, headers: &[HttpHeader], reference_text: Option<&str>) -> (res: Result<
    PreparedLookup,
    FileFailure,
>)
    ensures
        lookup_checks(service_available, headers@, text_of(reference_text), res),
{
    if !service_available {
        return Err(FileFailure::Files(files_error(ApiFilesErrorCode::Unavailable)));
    }
    let authorization = match parse_authorization(headers) {
        Ok(a) => a,
        Err(e) => {
            return Err(FileFailure::Http(e));
        },
    };
    match reference_of(reference_text) {
        Some(reference) => Ok(PreparedLookup { reference, authorization }),
        None => Err(FileFailure::Files(files_error(ApiFilesErrorCode::NotFound))),
    }
}

/// Prepares a content download with the same checks, in the same order, as
/// a metadata lookup.
pub fn prepare_content(service_available: bool, headers: &[HttpHeader], reference_text: Option<&str>) -> (res: Result<
    PreparedLookup,
    FileFailure,
>)
    ensures
        lookup_checks(service_available, headers@, text_of(reference_text), res),
{
    prepare_metadata(service_available, headers, reference_text)
}

/// What an upload carries into authentication.
pub struct PreparedUpload {
    /// The declared file.
    pub specification: FileUploadSpecification,
    /// The caller's idempotency key.
    pub idempotency_key: IdempotencyKey,
    /// The presented credential.
    pub authorization: PresentedBearer,
}

/// Prepares an upload, in order: the file service must be configured, the
/// upload headers valid, and the Bearer authorization valid.
pub fn prepare_upload(service_available: bool, headers: &[HttpHeader]) -> (res: Result<PreparedUpload, FileFailure>)
    ensures
        !service_available ==> res == Err::<PreparedUpload, FileFailure>(files_failure(ApiFilesErrorCode::Unavailable)),
        service_available ==> match upload_outcome(headers@) {
            Err(c) => res == Err::<PreparedUpload, FileFailure>(files_failure(c)),
            Ok(v) => match authorization_outcome(headers@) {
                Err(c) => res == Err::<PreparedUpload, FileFailure>(http_failure(c)),
                Ok(t) => res matches Ok(p) && p.specification@.byte_length == v.length
                    && p.specification@.media_type == v.media_type && p.specification@.display_name == v.display_name
                    && digest_bytes(p.specification@.expected_digest) == v.digest && p.idempotency_key@ == v.idempotency_key
                    && p.authorization@ == t,
            },
        },
{
    if !service_available {
        return Err(FileFailure::Files(files_error(ApiFilesErrorCode::Unavailable)));
    }
    let (specification, idempotency_key) = match parse_upload_headers(headers) {
        Ok(parsed) => parsed,
        Err(e) => {
            return Err(FileFailure::Files(e));
        },
    };
    match parse_authorization(headers) {
        Ok(authorization) => Ok(PreparedUpload { specification, idempotency_key, authorization }),
        Err(e) => Err(FileFailure::Http(e)),
    }
}

/// What a listing carries into authentication.
pub struct PreparedList {
    /// The page to list.
    pub request: FileListRequest,
    /// The presented credential.
    pub authorization: PresentedBearer,
}

/// Prepares a listing, in order: the file service must be configured, the
/// query valid, and the Bearer authorization valid.
pub fn prepare_list(service_available: bool, headers: &[HttpHeader], query: Option<&str>) -> (res: Result<
    PreparedList,
    FileFailure,
>)
    ensures
        !service_available ==> res == Err::<PreparedList, FileFailure>(files_failure(ApiFilesErrorCode::Unavailable)),
        service_available ==> match list_request_outcome(text_of(query)) {
            Err(c) => res == Err::<PreparedList, FileFailure>(files_failure(c)),
            Ok(r) => match authorization_outcome(headers@) {
                Err(c) => res == Err::<PreparedList, FileFailure>(http_failure(c)),
                Ok(t) => res matches Ok(p) && p.request@ == r && p.authorization@ == t,
            },
        },
{
    if !service_available {
        return Err(FileFailure::Files(files_error(ApiFilesErrorCode::Unavailable)));
    }
    let request = match parse_list_request(query) {
        Ok(r) => r,
        Err(e) => {
            return Err(FileFailure::Files(e));
        },
    };
    match parse_authorization(headers) {
        Ok(authorization) => Ok(PreparedList { request, authorization }),
        Err(e) => Err(FileFailure::Http(e)),
    }
}

/// Admits the anonymous context of a file request before authentication:
/// an inactive context fails as a domain failure.
pub fn admit_anonymous_context(failure: Option<ApiDomainError>) -> (res: Result<(), FileFailure>)
    ensures
        match failure {
            Some(e) => res == Err::<(), FileFailure>(FileFailure::Domain(e)),
            None => res is Ok,
        },
{
    match failure {
        Some(e) => Err(FileFailure::Domain(e)),
        None => Ok(()),
    }
}

/// Turns the outcome of authentication into the caller's context: a context
/// that ended while authenticating fails as a file failure of its class, a
/// refused credential as the transport failure the authentication reported,
/// and evidence binds the authenticated tenant and principal.
pub fn authenticate_context(outcome: Result<Result<AuthenticatedPrincipalEvidence, ApiHttpError>, ApiDomainError>) -> (res:
    Result<RequestContext, FileFailure>)
    ensures
        match outcome {
            Err(d) => res == Err::<RequestContext, FileFailure>(files_failure(files_code_of_domain(d.code))),
            Ok(Err(e)) => res == Err::<RequestContext, FileFailure>(FileFailure::Http(e)),
            Ok(Ok(evidence)) => res matches Ok(c) && c@ == Some(evidence@),
        },
{
    match outcome {
        Err(d) => Err(FileFailure::Files(ApiFilesError::from(d))),
        Ok(Err(e)) => Err(FileFailure::Http(e)),
        Ok(Ok(evidence)) => Ok(
            RequestContext::authenticated(
                PrincipalContext::new(evidence.tenant_id().clone(), evidence.principal_id().clone()),
            ),
        ),
    }
}

/// Answers a metadata lookup: the service's descriptor must be the one
/// asked for (else `NotFound`); a context that ended while waiting fails as
/// a file failure of its class.
pub fn finish_metadata(reference: &FileReference, outcome: Result<Result<FileDescriptor, ApiFilesError>, ApiDomainError>) -> (res:
    Result<FileDescriptor, FileFailure>)
    ensures
        match outcome {
            Err(d) => res == Err::<FileDescriptor, FileFailure>(files_failure(files_code_of_domain(d.code))),
            Ok(Err(e)) => res == Err::<FileDescriptor, FileFailure>(FileFailure::Files(e)),
            Ok(Ok(d)) => if d@.reference == *reference {
                res matches Ok(x) && x@ == d@
            } else {
                res == Err::<FileDescriptor, FileFailure>(files_failure(ApiFilesErrorCode::NotFound))
            },
        },
{
    match outcome {
        Err(d) => Err(FileFailure::Files(ApiFilesError::from(d))),
        Ok(Err(e)) => Err(FileFailure::Files(e)),
        Ok(Ok(descriptor)) => {
            if descriptor.reference().same_reference(reference) {
                Ok(descriptor)
            } else {
                Err(FileFailure::Files(files_error(ApiFilesErrorCode::NotFound)))
            }
        },
    }
}

/// Answers an upload: a descriptor counts only when the body was consumed
/// to its declared length (else `InvalidArgument`); a service failure is
/// returned as it is.
pub fn finish_upload(source_complete: bool, result: Result<FileDescriptor, ApiFilesError>) -> (res: Result<
    FileDescriptor,
    FileFailure,
>)
    ensures
        match result {
            Ok(d) => if source_complete {
                res matches Ok(x) && x@ == d@
            } else {
                res == Err::<FileDescriptor, FileFailure>(files_failure(ApiFilesErrorCode::InvalidArgument))
            },
            Err(e) => res == Err::<FileDescriptor, FileFailure>(FileFailure::Files(e)),
        },
{
    match result {
        Ok(descriptor) => if source_complete {
            Ok(descriptor)
        } else {
            Err(FileFailure::Files(files_error(ApiFilesErrorCode::InvalidArgument)))
        },
        Err(e) => Err(FileFailure::Files(e)),
    }
}

/// Answers a listing: a page as the service returned it, or the file
/// failure of the service or of a context that ended while waiting.
pub fn finish_list(outcome: Result<Result<FileListPage, ApiFilesError>, ApiDomainError>) -> (res: Result<FileListPage, FileFailure>)
    ensures
        match outcome {
            Err(d) => res == Err::<FileListPage, FileFailure>(files_failure(files_code_of_domain(d.code))),
            Ok(Err(e)) => res == Err::<FileListPage, FileFailure>(FileFailure::Files(e)),
            Ok(Ok(p)) => res matches Ok(x) && x@ == p@,
        },
{
    match outcome {
        Err(d) => Err(FileFailure::Files(ApiFilesError::from(d))),
        Ok(Err(e)) => Err(FileFailure::Files(e)),
        Ok(Ok(page)) => Ok(page),
    }
}

/// Admits the deletion itself: a context that is no longer active fails as
/// a file failure of its class before the service is called.
pub fn admit_delete(activity: Option<CoreErrorCode>) -> (res: Result<(), FileFailure>)
    ensures
        match activity {
            Some(c) => res == Err::<(), FileFailure>(files_failure(files_code_of_core(c))),
            None => res is Ok,
        },
{
    match activity {
        Some(c) => Err(FileFailure::Files(ApiFilesError::from(c))),
        None => Ok(()),
    }
}

} // verus!
