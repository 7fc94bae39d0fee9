use ariadnion_api::domain::error::{ApiDomainError, ApiDomainErrorCode};
use ariadnion_api::domain::file::{
    FileByteLength, FileDescriptor, FileDigest, FileDisplayName, FileMediaType, FileReference,
    FileUploadSpecification,
};
use ariadnion_api::domain::request::IdempotencyKey;
use ariadnion_api::files::catalog::FileCatalogRecord;
use ariadnion_api::files::{
    ApiFilesError, ApiFilesErrorCode, FileChunk, FileListCursor, FileListPage, FilePageLimit,
    FileUploadRequest,
};
use ariadnion_api::platform::{CoreErrorCode, PrincipalContext, PrincipalId, RequestContext, TenantId};

trait ExpectError<E> {
    fn error(self) -> E;
}

impl<T, E> ExpectError<E> for Result<T, E> {
    fn error(self) -> E {
        match self {
            Ok(_) => panic!("expected an error"),
            Err(error) => error,
        }
    }
}

fn descriptor(name: &str, length: usize, digest: u8) -> FileDescriptor {
    FileDescriptor::new(
        FileReference::new([1; 32]),
        FileDisplayName::new(name).unwrap(),
        FileMediaType::new("text/plain").unwrap(),
        FileByteLength::new(length).unwrap(),
        FileDigest::new([digest; 32]),
    )
}

fn upload(name: &str, length: usize, digest: Option<u8>) -> FileUploadRequest {
    FileUploadRequest::new(
        FileUploadSpecification::new(
            FileDisplayName::new(name).unwrap(),
            FileMediaType::new("text/plain").unwrap(),
            FileByteLength::new(length).unwrap(),
            digest.map(|d| FileDigest::new([d; 32])),
        ),
        IdempotencyKey::new("upload-1").unwrap(),
    )
}

fn owner() -> PrincipalContext {
    PrincipalContext::new(TenantId::new("tenant-1"), PrincipalId::new("principal-1"))
}

#[test]
fn files_codes_have_stable_texts() {
    assert_eq!(ApiFilesErrorCode::InvalidArgument.as_str(), "API_FILES_INVALID_ARGUMENT");
    assert_eq!(ApiFilesErrorCode::PolicyRejected.as_str(), "API_FILES_POLICY_REJECTED");
    assert_eq!(ApiFilesErrorCode::CommitIndeterminate.as_str(), "API_FILES_COMMIT_INDETERMINATE");
    assert_eq!(ApiFilesErrorCode::Internal.as_str(), "API_FILES_INTERNAL");
}

#[test]
fn core_and_domain_failures_project_onto_files_failures() {
    assert_eq!(ApiFilesError::from(CoreErrorCode::Conflict).code(), ApiFilesErrorCode::Conflict);
    assert_eq!(ApiFilesError::from(CoreErrorCode::Internal).code(), ApiFilesErrorCode::Internal);
    assert_eq!(
        ApiFilesError::from(ApiDomainError::new(ApiDomainErrorCode::UnsupportedVersion)).code(),
        ApiFilesErrorCode::InvalidArgument
    );
    assert_eq!(
        ApiFilesError::from(ApiDomainError::new(ApiDomainErrorCode::LimitExceeded)).code(),
        ApiFilesErrorCode::LimitExceeded
    );
}

#[test]
fn chunks_cursors_and_limits_are_bounded() {
    assert_eq!(FileChunk::new(vec![1, 2, 3]).unwrap().len(), 3);
    assert_eq!(FileChunk::new(Vec::new()).error().code(), ApiFilesErrorCode::InvalidArgument);
    assert_eq!(FileChunk::new(vec![0; 65_537]).error().code(), ApiFilesErrorCode::LimitExceeded);
    assert!(FileChunk::new(vec![0; 65_536]).is_ok());
    assert_eq!(FileListCursor::new(&[9; 512]).unwrap().as_bytes().len(), 512);
    assert_eq!(FileListCursor::new(&[9; 513]).error().code(), ApiFilesErrorCode::LimitExceeded);
    assert_eq!(FileListCursor::new(&[]).error().code(), ApiFilesErrorCode::InvalidArgument);
    assert_eq!(FilePageLimit::new(1000).unwrap().get(), 1000);
    assert_eq!(FilePageLimit::new(1001).error().code(), ApiFilesErrorCode::LimitExceeded);
    assert_eq!(FilePageLimit::new(0).error().code(), ApiFilesErrorCode::InvalidArgument);
}

#[test]
fn pages_hold_at_most_the_requested_number_of_files() {
    let limit = FilePageLimit::new(1).unwrap();
    let page = FileListPage::new(vec![descriptor("a.txt", 3, 0)], None, limit).unwrap();
    assert_eq!(page.files().len(), 1);
    assert!(page.next_cursor().is_none());
    let too_many = FileListPage::new(vec![descriptor("a.txt", 3, 0), descriptor("b.txt", 3, 0)], None, limit);
    assert_eq!(too_many.error().code(), ApiFilesErrorCode::IntegrityFailure);
    let empty_with_cursor = FileListPage::new(Vec::new(), Some(FileListCursor::new(&[1]).unwrap()), limit);
    assert_eq!(empty_with_cursor.error().code(), ApiFilesErrorCode::IntegrityFailure);
    assert!(FileListPage::new(Vec::new(), None, limit).is_ok());
}

#[test]
fn catalog_records_bind_exactly_the_uploaded_metadata() {
    let record = FileCatalogRecord::new(owner(), upload("a.txt", 3, Some(7)), descriptor("a.txt", 3, 7)).unwrap();
    assert_eq!(record.tenant_id().as_str(), "tenant-1");
    assert_eq!(record.principal_id().as_str(), "principal-1");
    assert_eq!(record.descriptor().byte_length().get(), 3);
    assert!(FileCatalogRecord::new(owner(), upload("a.txt", 3, None), descriptor("a.txt", 3, 9)).is_ok());
    for (request, stored) in [
        (upload("a.txt", 3, Some(7)), descriptor("a.txt", 3, 8)),
        (upload("a.txt", 3, None), descriptor("b.txt", 3, 8)),
        (upload("a.txt", 3, None), descriptor("a.txt", 4, 8)),
    ] {
        assert_eq!(
            FileCatalogRecord::new(owner(), request, stored).error().code(),
            ApiFilesErrorCode::IntegrityFailure
        );
    }
}

#[test]
fn anonymous_contexts_cannot_own_files() {
    let anonymous = FileCatalogRecord::from_authenticated_context(
        &RequestContext::anonymous(),
        upload("a.txt", 3, None),
        descriptor("a.txt", 3, 1),
    );
    assert_eq!(anonymous.error().code(), ApiFilesErrorCode::Unauthenticated);
    let authenticated = FileCatalogRecord::from_authenticated_context(
        &RequestContext::authenticated(owner()),
        upload("a.txt", 3, None),
        descriptor("a.txt", 3, 1),
    )
    .unwrap();
    assert_eq!(authenticated.owner().principal_id().as_str(), "principal-1");
}
