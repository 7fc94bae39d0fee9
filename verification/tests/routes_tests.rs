use ariadnion_api::admin::command::AuthenticatedPrincipalEvidence;
use ariadnion_api::domain::batch_timestamps::UnixInstant;
use ariadnion_api::domain::error::{ApiDomainError, ApiDomainErrorCode};
use ariadnion_api::domain::file::{
    FileByteLength, FileDescriptor, FileDigest, FileDisplayName, FileMediaType, FileReference,
};
use ariadnion_api::domain::request::{
    ModelSelector, OutputTokenLimit, ResponseMode, ServiceRequest, TextInput, TextServiceRequest,
};
use ariadnion_api::files::{ApiFilesError, ApiFilesErrorCode, FileListPage, FilePageLimit};
use ariadnion_api::http::error::{ApiHttpError, ApiHttpErrorCode};
use ariadnion_api::http::execution::{
    DispatchOutcomeKind, DispatchProjection, admit_before_body, admit_request_headers, admit_upgrade,
    authenticate_request, authenticate_in_context, authentication_failure, collected_body, complete_upgrade,
    admit_operation, dispatched, finalize_response_headers, finalize_upgrade_headers, finish_operation,
    project_dispatch_outcome,
    requested_request_id, websocket_buffers,
};
use ariadnion_api::http::file_download::{
    DownloadBody, DownloadLease, DownloadMessage, DownloadSinkState, completion_poll, context_error,
    download_lifetime_error, download_outcome, first_message, receive_first_chunk, validate_first_chunk,
};
use ariadnion_api::http::file_requests::{
    FileFailure, admit_anonymous_context, admit_delete, authenticate_context, finish_list, finish_metadata, finish_upload,
    parse_authorization, prepare_content, prepare_delete, prepare_list, prepare_metadata, prepare_upload,
    project_file_failure,
};
use ariadnion_api::http::headers::HttpHeader;
use ariadnion_api::http::json_body::BoundedJsonBody;
use ariadnion_api::http::media_encoding::{
    encode_audio, encode_image_item, encode_images, project_audio_response, project_audio_response_cancellable,
    project_image_response, project_image_response_cancellable,
};
use ariadnion_api::domain::audio::{AudioChannelCount, AudioMediaType, AudioSampleRate};
use ariadnion_api::domain::image::{GeneratedImage, GeneratedImages, ImageCount, ImageDimensions, ImageMediaType};
use ariadnion_api::domain::request::ServiceContractVersion;
use ariadnion_api::domain::response::{AudioServiceResponse, ImageServiceResponse};
use ariadnion_api::domain::wav::GeneratedAudio;
use ariadnion_api::http::protocol::{ProtocolFailure, ProtocolRequest, ResponseActivity};
use ariadnion_api::http::response::{ProtocolBufferedResponse, checked_stream_head};
use ariadnion_api::http::upgrade::ProtocolUpgradeLimits;
use ariadnion_api::platform::{CoreErrorCode, PrincipalId, TenantId};

trait ExpectError<E> {
    fn error(self) -> E;
}

impl<T, E> ExpectError<E> for Result<T, E> {
    fn error(self) -> E {
        match self {
            Ok(_) => panic!("expected an error"),
            Err(error) => error,
        }
    }
}

fn header(name: &str, value: &str) -> HttpHeader {
    HttpHeader { name: name.to_owned(), value: value.as_bytes().to_vec(), text: Some(value.to_owned()) }
}

const REFERENCE: &str = "0101010101010101010101010101010101010101010101010101010101010101";

fn descriptor(reference: u8, length: usize) -> FileDescriptor {
    FileDescriptor::new(
        FileReference::new([reference; 32]),
        FileDisplayName::new("notes.txt").unwrap(),
        FileMediaType::new("text/plain").unwrap(),
        FileByteLength::new(length).unwrap(),
        FileDigest::new([9; 32]),
    )
}

fn files_code(failure: FileFailure) -> ApiFilesErrorCode {
    match failure {
        FileFailure::Files(e) => e.code(),
        _ => panic!("expected a file failure"),
    }
}

fn http_code(failure: FileFailure) -> ApiHttpErrorCode {
    match failure {
        FileFailure::Http(e) => e.code(),
        _ => panic!("expected a transport failure"),
    }
}

fn evidence() -> AuthenticatedPrincipalEvidence {
    AuthenticatedPrincipalEvidence::new(TenantId::new("tenant-1"), PrincipalId::new("principal-1"))
}

#[test]
fn bearer_authorization_is_required_once_and_well_formed() {
    let bearer = parse_authorization(&[header("authorization", "Bearer token-1")]).unwrap();
    assert_eq!(bearer.credential_bytes(), b"token-1");
    assert_eq!(parse_authorization(&[]).error().code(), ApiHttpErrorCode::Unauthenticated);
    assert_eq!(
        parse_authorization(&[header("authorization", "Basic abc")]).error().code(),
        ApiHttpErrorCode::Unauthenticated
    );
    let twice = [header("authorization", "Bearer a"), header("authorization", "Bearer b")];
    assert_eq!(parse_authorization(&twice).error().code(), ApiHttpErrorCode::InvalidRequest);
}

#[test]
fn deletion_checks_service_key_authorization_and_reference_in_order() {
    let good = [header("idempotency-key", "delete-1"), header("authorization", "Bearer t")];
    assert_eq!(files_code(prepare_delete(false, &good, Some(REFERENCE)).error()), ApiFilesErrorCode::Unavailable);
    let without_key = [header("authorization", "Bearer t")];
    assert_eq!(
        files_code(prepare_delete(true, &without_key, Some("bad")).error()),
        ApiFilesErrorCode::InvalidArgument
    );
    let without_auth = [header("idempotency-key", "delete-1")];
    assert_eq!(
        http_code(prepare_delete(true, &without_auth, Some("bad")).error()),
        ApiHttpErrorCode::Unauthenticated
    );
    assert_eq!(files_code(prepare_delete(true, &good, Some("bad")).error()), ApiFilesErrorCode::NotFound);
    assert_eq!(files_code(prepare_delete(true, &good, None).error()), ApiFilesErrorCode::NotFound);
    let prepared = prepare_delete(true, &good, Some(REFERENCE)).unwrap();
    assert_eq!(prepared.reference.as_bytes(), &[1u8; 32]);
    assert_eq!(prepared.idempotency_key.as_str(), "delete-1");
    assert_eq!(prepared.authorization.credential_bytes(), b"t");
}

#[test]
fn lookups_check_service_authorization_and_reference() {
    let auth = [header("authorization", "Bearer t")];
    assert_eq!(files_code(prepare_metadata(false, &auth, Some(REFERENCE)).error()), ApiFilesErrorCode::Unavailable);
    assert_eq!(http_code(prepare_content(true, &[], Some("bad")).error()), ApiHttpErrorCode::Unauthenticated);
    assert_eq!(files_code(prepare_content(true, &auth, Some("zz")).error()), ApiFilesErrorCode::NotFound);
    let prepared = prepare_content(true, &auth, Some(REFERENCE)).unwrap();
    assert_eq!(prepared.reference.as_bytes(), &[1u8; 32]);
}

#[test]
fn uploads_and_listings_check_their_own_parts_before_authorization() {
    let upload = || {
        vec![
            header("content-length", "5"),
            header("content-type", "text/plain"),
            header("x-file-name", "notes.txt"),
            header("idempotency-key", "upload-1"),
        ]
    };
    assert_eq!(http_code(prepare_upload(true, &upload()).error()), ApiHttpErrorCode::Unauthenticated);
    assert_eq!(files_code(prepare_upload(true, &[]).error()), ApiFilesErrorCode::InvalidArgument);
    let mut authorized = upload();
    authorized.push(header("authorization", "Bearer t"));
    let prepared = prepare_upload(true, &authorized).unwrap();
    assert_eq!(prepared.specification.byte_length().get(), 5);
    assert_eq!(prepared.idempotency_key.as_str(), "upload-1");

    let auth = [header("authorization", "Bearer t")];
    assert_eq!(files_code(prepare_list(true, &auth, Some("limit=0")).error()), ApiFilesErrorCode::InvalidArgument);
    assert_eq!(http_code(prepare_list(true, &[], Some("limit=5")).error()), ApiHttpErrorCode::Unauthenticated);
    let listed = prepare_list(true, &auth, Some("limit=5")).unwrap();
    assert_eq!(listed.request.limit().get(), 5);
    assert_eq!(files_code(prepare_list(false, &auth, None).error()), ApiFilesErrorCode::Unavailable);
}

#[test]
fn authentication_outcomes_become_contexts_or_failures() {
    let inactive = ApiDomainError::new(ApiDomainErrorCode::DeadlineExceeded);
    assert!(matches!(admit_anonymous_context(Some(inactive)), Err(FileFailure::Domain(e)) if e.code() == ApiDomainErrorCode::DeadlineExceeded));
    assert!(admit_anonymous_context(None).is_ok());
    assert_eq!(
        files_code(authenticate_context(Err(ApiDomainError::new(ApiDomainErrorCode::Cancelled))).error()),
        ApiFilesErrorCode::Cancelled
    );
    assert_eq!(
        http_code(authenticate_context(Ok(Err(ApiHttpError::new(ApiHttpErrorCode::Forbidden)))).error()),
        ApiHttpErrorCode::Forbidden
    );
    let context = authenticate_context(Ok(Ok(evidence()))).unwrap();
    assert_eq!(context.principal().unwrap().tenant_id().as_str(), "tenant-1");
    assert_eq!(files_code(admit_delete(Some(CoreErrorCode::Cancelled)).error()), ApiFilesErrorCode::Cancelled);
}

#[test]
fn service_outcomes_become_answers() {
    let asked = FileReference::new([1; 32]);
    assert!(finish_metadata(&asked, Ok(Ok(descriptor(1, 4)))).is_ok());
    assert_eq!(files_code(finish_metadata(&asked, Ok(Ok(descriptor(2, 4)))).error()), ApiFilesErrorCode::NotFound);
    assert_eq!(
        files_code(finish_metadata(&asked, Err(ApiDomainError::new(ApiDomainErrorCode::DeadlineExceeded))).error()),
        ApiFilesErrorCode::DeadlineExceeded
    );
    assert_eq!(files_code(finish_upload(false, Ok(descriptor(1, 4))).error()), ApiFilesErrorCode::InvalidArgument);
    assert!(finish_upload(true, Ok(descriptor(1, 4))).is_ok());
    let limit = FilePageLimit::new(2).unwrap();
    let page = finish_list(Ok(Ok(FileListPage::new(vec![descriptor(1, 4)], None, limit).unwrap()))).unwrap();
    assert_eq!(page.files().len(), 1);
    assert_eq!(
        files_code(finish_list(Err(ApiDomainError::new(ApiDomainErrorCode::Cancelled))).error()),
        ApiFilesErrorCode::Cancelled
    );
    assert_eq!(
        files_code(finish_list(Ok(Err(ApiFilesError::new(ApiFilesErrorCode::NotFound)))).error()),
        ApiFilesErrorCode::NotFound
    );
    let projection = project_file_failure(FileFailure::Files(ApiFilesError::new(ApiFilesErrorCode::NotFound)));
    assert_eq!(projection.status, 404);
    let unauthenticated = project_file_failure(FileFailure::Http(ApiHttpError::new(ApiHttpErrorCode::Unauthenticated)));
    assert_eq!(unauthenticated.status, 401);
}

#[test]
fn a_download_yields_exactly_the_declared_length() {
    let mut body = DownloadBody::new(vec![1, 2], descriptor(1, 5));
    let first = body.poll_buffered(false, None).unwrap().unwrap().unwrap();
    assert_eq!(first, vec![1, 2]);
    assert!(body.poll_buffered(false, None).is_none());
    let next = body.process_message(DownloadMessage::Chunk(vec![3, 4, 5]), false, None).unwrap().unwrap();
    assert_eq!(next, vec![3, 4, 5]);
    assert_eq!(body.delivered(), 5);
    assert!(body.process_message(DownloadMessage::Complete(descriptor(1, 5)), false, None).is_none());
    assert!(body.is_done());
    assert!(body.poll_buffered(false, None).unwrap().is_none());
}

#[test]
fn a_download_refuses_overruns_short_completions_and_context_failures() {
    let mut over = DownloadBody::new(vec![1, 2, 3], descriptor(1, 4));
    assert!(over.poll_buffered(false, None).unwrap().unwrap().is_ok());
    let refused = over.process_message(DownloadMessage::Chunk(vec![4, 5]), false, None).unwrap();
    assert_eq!(refused.error().code(), ApiFilesErrorCode::IntegrityFailure);
    assert!(over.is_done());

    let mut short = DownloadBody::new(vec![1], descriptor(1, 4));
    assert!(short.poll_buffered(false, None).unwrap().unwrap().is_ok());
    let incomplete = short.process_message(DownloadMessage::Complete(descriptor(1, 4)), false, None).unwrap();
    assert_eq!(incomplete.error().code(), ApiFilesErrorCode::IntegrityFailure);

    let mut late = DownloadBody::new(vec![1], descriptor(1, 1));
    let expired = late.poll_buffered(true, None).unwrap().unwrap();
    assert_eq!(expired.error().code(), ApiFilesErrorCode::DeadlineExceeded);

    let mut failed = DownloadBody::new(vec![1], descriptor(1, 1));
    let error = ApiFilesError::new(ApiFilesErrorCode::Unavailable);
    let cancelled = failed.process_message(DownloadMessage::Error(error), false, Some(CoreErrorCode::Cancelled)).unwrap();
    assert_eq!(cancelled.error().code(), ApiFilesErrorCode::Cancelled);

    let mut closed = DownloadBody::new(vec![1], descriptor(1, 1));
    assert_eq!(closed.receiver_closed(false, None).unwrap().error().code(), ApiFilesErrorCode::Internal);
    let mut gone = DownloadBody::new(vec![1], descriptor(1, 1));
    assert_eq!(gone.producer_missing(true, None).unwrap().error().code(), ApiFilesErrorCode::DeadlineExceeded);
}

#[test]
fn download_helpers_classify_messages() {
    assert!(context_error(false, None).is_none());
    assert_eq!(context_error(true, None).unwrap().code(), ApiFilesErrorCode::DeadlineExceeded);
    assert_eq!(context_error(true, Some(CoreErrorCode::Cancelled)).unwrap().code(), ApiFilesErrorCode::Cancelled);
    assert!(completion_poll(true, None).is_none());
    assert_eq!(completion_poll(false, None).unwrap().error().code(), ApiFilesErrorCode::IntegrityFailure);
    assert_eq!(first_message(None, false).error().code(), ApiFilesErrorCode::Internal);
    assert_eq!(first_message(None, true).error().code(), ApiFilesErrorCode::IntegrityFailure);
    assert_eq!(receive_first_chunk(DownloadMessage::Chunk(vec![7])).unwrap(), vec![7]);
    assert_eq!(
        receive_first_chunk(DownloadMessage::Complete(descriptor(1, 1))).error().code(),
        ApiFilesErrorCode::IntegrityFailure
    );
    assert!(validate_first_chunk(&[1, 2], &descriptor(1, 2)).is_ok());
    assert_eq!(validate_first_chunk(&[1, 2, 3], &descriptor(1, 2)).error().code(), ApiFilesErrorCode::IntegrityFailure);
    assert_eq!(validate_first_chunk(&[], &descriptor(1, 2)).error().code(), ApiFilesErrorCode::IntegrityFailure);
    assert!(matches!(download_outcome(Ok(Ok(descriptor(1, 2))), true, &descriptor(1, 2)), DownloadMessage::Complete(_)));
    assert!(matches!(
        download_outcome(Ok(Ok(descriptor(1, 2))), false, &descriptor(1, 2)),
        DownloadMessage::Error(e) if e.code() == ApiFilesErrorCode::IntegrityFailure
    ));
    assert!(matches!(
        download_outcome(Ok(Ok(descriptor(2, 2))), true, &descriptor(1, 2)),
        DownloadMessage::Error(e) if e.code() == ApiFilesErrorCode::IntegrityFailure
    ));
    let (error, expired) = download_lifetime_error(Err(ApiDomainError::new(ApiDomainErrorCode::DeadlineExceeded)));
    assert_eq!((error.code(), expired), (ApiFilesErrorCode::DeadlineExceeded, true));
    let (error, expired) = download_lifetime_error(Ok(()));
    assert_eq!((error.code(), expired), (ApiFilesErrorCode::Internal, false));
}

#[test]
fn the_download_permit_is_released_once_after_both_transitions() {
    let mut lease = DownloadLease::new();
    assert!(lease.permit_held());
    assert!(!lease.request_release());
    assert!(lease.permit_held());
    assert!(lease.mark_producer_finished());
    assert!(!lease.permit_held());
    assert!(!lease.request_release());
    assert!(!lease.mark_producer_finished());
    lease.mark_deadline_expired();
    assert!(lease.deadline_expired());

    let mut sink = DownloadSinkState::new();
    assert!(sink.admit_chunk(None).is_ok());
    assert_eq!(sink.finish(Some(CoreErrorCode::Cancelled)).error().code(), ApiFilesErrorCode::Cancelled);
    assert!(!sink.finished());
    assert!(sink.finish(None).is_ok());
    assert_eq!(sink.finish(None).error().code(), ApiFilesErrorCode::IntegrityFailure);
    assert_eq!(sink.admit_chunk(None).error().code(), ApiFilesErrorCode::IntegrityFailure);
}

fn json_headers() -> Vec<HttpHeader> {
    vec![header("content-type", "application/json"), header("authorization", "Bearer t")]
}

#[test]
fn public_request_headers_are_admitted_in_order() {
    let now = UnixInstant::from_unix_nanos(1_000);
    let deadline = admit_request_headers(&json_headers(), now, true).unwrap();
    assert_eq!(deadline.unix_nanos(), 1_000 + 30_000_000_000);
    let with_id = || {
        let mut h = json_headers();
        h.push(header("x-request-id", "req-1"));
        h
    };
    let refused = admit_request_headers(&with_id(), now, false).error();
    assert!(!refused.under_requested_identity);
    assert_eq!(refused.failure.failure, ProtocolFailure::Http(ApiHttpError::new(ApiHttpErrorCode::InvalidRequest)));
    let mut text = with_id();
    text[0] = header("content-type", "text/plain");
    let unsupported = admit_request_headers(&text, now, true).error();
    assert!(unsupported.under_requested_identity);
    assert_eq!(
        unsupported.failure.failure,
        ProtocolFailure::Http(ApiHttpError::new(ApiHttpErrorCode::UnsupportedMediaType))
    );
    assert_eq!(requested_request_id(&with_id()).unwrap(), Some("req-1"));
    assert_eq!(requested_request_id(&json_headers()).unwrap(), None);
}

#[test]
fn only_unauthenticated_refusals_carry_the_challenge() {
    assert!(authentication_failure(ApiHttpError::new(ApiHttpErrorCode::Unauthenticated)).bearer_challenge);
    assert!(!authentication_failure(ApiHttpError::new(ApiHttpErrorCode::Forbidden)).bearer_challenge);
    let missing = admit_before_body(None, &[]).error();
    assert!(missing.bearer_challenge);
    let inactive = admit_before_body(Some(ApiDomainError::new(ApiDomainErrorCode::Cancelled)), &json_headers()).error();
    assert!(!inactive.bearer_challenge);
    assert!(admit_before_body(None, &json_headers()).is_ok());
    let too_large = collected_body(Ok(None)).error();
    assert_eq!(too_large.failure, ProtocolFailure::Http(ApiHttpError::new(ApiHttpErrorCode::PayloadTooLarge)));
    assert_eq!(collected_body(Ok(Some(vec![1]))).unwrap(), vec![1]);
}

#[test]
fn authentication_and_dispatch_outcomes_are_projected() {
    let streamed = authenticate_request(Ok(Ok(evidence())), ResponseMode::Stream, false).error();
    assert_eq!(streamed.failure, ProtocolFailure::Http(ApiHttpError::new(ApiHttpErrorCode::StreamUnavailable)));
    let refused = authenticate_request(Ok(Err(ApiHttpError::new(ApiHttpErrorCode::Unauthenticated))), ResponseMode::Complete, true).error();
    assert!(refused.bearer_challenge);
    let (who, context) = authenticate_request(Ok(Ok(evidence())), ResponseMode::Stream, true).unwrap();
    assert_eq!(who.principal_id().as_str(), "principal-1");
    assert_eq!(context.principal().unwrap().principal_id().as_str(), "principal-1");
    assert_eq!(project_dispatch_outcome(ResponseMode::Complete, DispatchOutcomeKind::Complete), DispatchProjection::Complete);
    assert_eq!(project_dispatch_outcome(ResponseMode::Stream, DispatchOutcomeKind::Stream), DispatchProjection::Stream);
    assert_eq!(
        project_dispatch_outcome(ResponseMode::Complete, DispatchOutcomeKind::Stream),
        DispatchProjection::CancelStreamThenFail
    );
    assert_eq!(project_dispatch_outcome(ResponseMode::Stream, DispatchOutcomeKind::Complete), DispatchProjection::Fail);
    let late = dispatched(Err(ApiDomainError::new(ApiDomainErrorCode::DeadlineExceeded))).error();
    assert_eq!(late.failure, ProtocolFailure::Domain(ApiDomainError::new(ApiDomainErrorCode::DeadlineExceeded)));
}

#[test]
fn answers_carry_the_request_id_and_the_challenge_only_when_asked() {
    let projected = || vec![header("content-type", "application/json"), header("x-request-id", "forged"), header("www-authenticate", "Basic")];
    let plain = finalize_response_headers(projected(), "req-1", false).unwrap();
    let names: Vec<&str> = plain.iter().map(|h| h.name.as_str()).collect();
    assert_eq!(names, vec!["content-type", "x-request-id"]);
    assert_eq!(plain[1].text.as_deref(), Some("req-1"));
    let challenged = finalize_response_headers(projected(), "req-1", true).unwrap();
    let names: Vec<&str> = challenged.iter().map(|h| h.name.as_str()).collect();
    assert_eq!(names, vec!["content-type", "www-authenticate", "x-request-id"]);
    assert_eq!(challenged[1].value, b"Bearer".to_vec());
    let many = || (0..64).map(|i| header(&format!("x-h{i}"), "v")).collect::<Vec<HttpHeader>>();
    assert_eq!(finalize_response_headers(many(), "req-1", false).error(), ProtocolFailure::Http(ApiHttpError::new(ApiHttpErrorCode::Internal)));
    assert_eq!(finalize_upgrade_headers(many(), "req-1", false).error(), ProtocolFailure::Http(ApiHttpError::new(ApiHttpErrorCode::InvalidRequest)));
}

#[test]
fn upgrades_are_admitted_in_order_and_sized_by_their_limits() {
    let limits = ProtocolUpgradeLimits::new(1_024, 512, 60_000_000_000).unwrap();
    let now = UnixInstant::from_unix_nanos(0);
    let auth = [header("authorization", "Bearer t")];
    let (deadline, bearer) = admit_upgrade(&auth, true, now, limits, true, None, Ok(())).unwrap();
    assert_eq!(deadline.unix_nanos(), 60_000_000_000);
    assert_eq!(bearer.credential_bytes(), b"t");
    let with_body = admit_upgrade(&auth, false, now, limits, true, None, Ok(())).error();
    assert_eq!(with_body.failure.failure, ProtocolFailure::Http(ApiHttpError::new(ApiHttpErrorCode::InvalidRequest)));
    let refused_session = ProtocolFailure::Domain(ApiDomainError::new(ApiDomainErrorCode::InvalidArgument));
    let unprepared = admit_upgrade(&auth, true, now, limits, true, None, Err(refused_session)).error();
    assert_eq!(unprepared.failure.failure, refused_session);
    let anonymous = admit_upgrade(&[], true, now, limits, true, None, Ok(())).error();
    assert!(anonymous.failure.bearer_challenge);
    let inactive = admit_upgrade(&auth, true, now, limits, true, Some(ApiDomainError::new(ApiDomainErrorCode::Cancelled)), Ok(())).error();
    assert_eq!(inactive.failure.failure, ProtocolFailure::Domain(ApiDomainError::new(ApiDomainErrorCode::Cancelled)));

    let context = authenticate_in_context(Ok(Ok(evidence())), None).unwrap();
    assert_eq!(context.principal().unwrap().tenant_id().as_str(), "tenant-1");
    assert!(authenticate_in_context(Ok(Ok(evidence())), Some(ApiDomainError::new(ApiDomainErrorCode::Cancelled))).is_err());
    assert!(complete_upgrade(false, None).is_err());
    assert!(complete_upgrade(true, None).is_ok());

    let buffers = websocket_buffers(limits);
    assert_eq!((buffers.read_buffer, buffers.write_buffer, buffers.max_write_buffer), (512, 0, 1_280));
    let large = ProtocolUpgradeLimits::new(262_144, 262_144, 1).unwrap();
    assert_eq!(websocket_buffers(large).read_buffer, 65_536);
}

#[test]
fn json_bodies_take_bounded_chunks_up_to_the_limit() {
    let mut body = BoundedJsonBody::new();
    assert_eq!(body.write(b"{}"), Some(2));
    let big = vec![b'a'; 20_000];
    assert_eq!(body.write(&big), Some(16_384));
    assert_eq!(body.len(), 16_386);
    let chunk = vec![b'b'; 16_384];
    while body.len() + 16_384 <= 8_388_608 {
        assert_eq!(body.write(&chunk), Some(16_384));
    }
    let left = 8_388_608 - body.len();
    assert_eq!(body.write(&chunk), Some(left));
    assert_eq!(body.write(b"x"), None);
    assert_eq!(body.write(b""), Some(0));
    let bytes = body.into_bytes();
    assert_eq!(bytes.len(), 8_388_608);
    assert_eq!(&bytes[..4], b"{}aa");
}

#[test]
fn generated_media_is_encoded_with_its_metadata() {
    let dims = ImageDimensions::new(2, 3).unwrap();
    let png = vec![0x89, 0x50, 0x4e, 0x47, 0x0d, 0x0a, 0x1a, 0x0a, 0x00];
    let image = GeneratedImage::new(ImageMediaType::Png, dims, png.clone()).unwrap();
    let item = encode_image_item(&image).unwrap();
    assert_eq!((item.media_type, item.width, item.height), ("image/png", 2, 3));
    assert_eq!(item.base64, "iVBORw0KGgoA");
    let second = GeneratedImage::new(ImageMediaType::Png, dims, png).unwrap();
    let images = GeneratedImages::new(vec![image, second], ImageCount::new(2).unwrap()).unwrap();
    let response = ImageServiceResponse::new(ServiceContractVersion::V1, images);
    let (version, encoded) = project_image_response(&response).unwrap();
    assert_eq!(version, 1);
    assert_eq!(encoded.len(), 2);
    assert_eq!(encoded[1].base64, "iVBORw0KGgoA");
    assert!(encode_images(&[]).unwrap().is_empty());

    let mut wav = Vec::new();
    wav.extend_from_slice(b"RIFF");
    wav.extend_from_slice(&38u32.to_le_bytes());
    wav.extend_from_slice(b"WAVEfmt ");
    wav.extend_from_slice(&16u32.to_le_bytes());
    wav.extend_from_slice(&1u16.to_le_bytes());
    wav.extend_from_slice(&1u16.to_le_bytes());
    wav.extend_from_slice(&8_000u32.to_le_bytes());
    wav.extend_from_slice(&16_000u32.to_le_bytes());
    wav.extend_from_slice(&2u16.to_le_bytes());
    wav.extend_from_slice(&16u16.to_le_bytes());
    wav.extend_from_slice(b"data");
    wav.extend_from_slice(&2u32.to_le_bytes());
    wav.extend_from_slice(&[0, 0]);
    let audio = GeneratedAudio::new(AudioMediaType::WavPcm16, AudioSampleRate::Hz8000, AudioChannelCount::Mono, wav).unwrap();
    let clip = encode_audio(&audio).unwrap();
    assert_eq!((clip.media_type, clip.sample_rate_hz, clip.channels, clip.duration_millis), ("audio/wav", 8_000, 1, 1));
    assert_eq!(clip.base64.len(), 64);
    assert!(clip.base64.starts_with("UklGRi"));
    let response = AudioServiceResponse::new(ServiceContractVersion::V1, audio);
    let (version, projected) = project_audio_response(&response).unwrap();
    assert_eq!(version, 1);
    assert_eq!(projected.base64, clip.base64);
}

#[test]
fn operations_are_admitted_and_finished_in_order() {
    let now = UnixInstant::from_unix_nanos(0);
    let auth = [header("authorization", "Bearer t")];
    let (deadline, bearer) = admit_operation(&auth, now, true, None).unwrap();
    assert_eq!(deadline.unix_nanos(), 30_000_000_000);
    assert_eq!(bearer.credential_bytes(), b"t");
    let refused = admit_operation(&[header("authorization", "Bearer")], now, true, None).error();
    assert!(refused.failure.bearer_challenge);
    let inactive = admit_operation(&auth, now, true, Some(ApiDomainError::new(ApiDomainErrorCode::Cancelled))).error();
    assert!(!inactive.failure.bearer_challenge);
    let with_id = [header("authorization", "Bearer t"), header("x-request-id", "req-9")];
    let rejected_id = admit_operation(&with_id, now, false, None).error();
    assert!(!rejected_id.under_requested_identity);
    let late = [header("authorization", "Bearer t"), header("x-request-id", "req-9"), header("x-ariadnion-deadline-unix-ms", "x")];
    assert!(admit_operation(&late, now, true, None).error().under_requested_identity);

    let failure = ProtocolFailure::Http(ApiHttpError::new(ApiHttpErrorCode::NotFound));
    assert_eq!(finish_operation(Err(failure), true, None).error().failure, failure);
    let cancelled = Some(ApiDomainError::new(ApiDomainErrorCode::Cancelled));
    assert!(finish_operation(Ok(()), true, cancelled).is_err());
    assert!(finish_operation(Ok(()), false, cancelled).is_ok());
    assert!(finish_operation(Ok(()), true, None).is_ok());
}

#[test]
fn buffered_responses_and_stream_heads_are_checked() {
    let response = ProtocolBufferedResponse::new(
        200,
        vec![header("content-type", "application/json"), header("x-request-id", "forged")],
        b"{}".to_vec(),
    )
    .unwrap();
    assert_eq!(response.status(), 200);
    assert_eq!(response.headers().len(), 1);
    assert_eq!(response.body(), b"{}");
    let (status, headers, body) = response.into_parts();
    assert_eq!((status, headers.len(), body.len()), (200, 1, 2));
    let internal = ProtocolFailure::Http(ApiHttpError::new(ApiHttpErrorCode::Internal));
    assert_eq!(ProtocolBufferedResponse::new(204, vec![], b"x".to_vec()).error(), internal);
    assert!(ProtocolBufferedResponse::new(204, vec![], vec![]).is_ok());
    assert_eq!(ProtocolBufferedResponse::new(101, vec![], vec![]).error(), internal);
    assert_eq!(
        ProtocolBufferedResponse::new(200, vec![header("transfer-encoding", "chunked")], vec![]).error(),
        internal
    );
    assert_eq!(checked_stream_head(200, vec![header("x-request-id", "a")]).unwrap().len(), 0);
    assert_eq!(checked_stream_head(304, vec![]).error(), internal);
}

#[test]
fn protocol_requests_carry_their_declared_mode() {
    let text = || {
        ServiceRequest::Text(TextServiceRequest::new(
            ServiceContractVersion::V1,
            ModelSelector::new("model-a").unwrap(),
            TextInput::new("hello").unwrap(),
            OutputTokenLimit::new(16).unwrap(),
            ResponseMode::Stream,
            None,
        ))
    };
    let request = ProtocolRequest::new(text(), ResponseMode::Stream).unwrap();
    assert_eq!(request.response_mode(), ResponseMode::Stream);
    assert!(matches!(request.request(), ServiceRequest::Text(_)));
    let (inner, mode) = request.into_parts();
    assert!(matches!(inner, ServiceRequest::Text(_)));
    assert_eq!(mode, ResponseMode::Stream);
    assert_eq!(
        ProtocolRequest::new(text(), ResponseMode::Complete).error(),
        ProtocolFailure::Http(ApiHttpError::new(ApiHttpErrorCode::Internal))
    );
}

struct RequestActivityState(Option<ariadnion_api::domain::error::ApiDomainError>);

impl ResponseActivity for RequestActivityState {
    fn check_active(&self) -> Option<ariadnion_api::domain::error::ApiDomainError> {
        self.0
    }
}

#[test]
fn cancellable_media_projection_checks_the_request() {

    let dims = ImageDimensions::new(2, 3).unwrap();
    let png = vec![0x89, 0x50, 0x4e, 0x47, 0x0d, 0x0a, 0x1a, 0x0a, 0x00];
    let image = GeneratedImage::new(ImageMediaType::Png, dims, png).unwrap();
    let images = GeneratedImages::new(vec![image], ImageCount::new(1).unwrap()).unwrap();
    let response = ImageServiceResponse::new(ServiceContractVersion::V1, images);
    let active = RequestActivityState(None);
    let (version, encoded) = project_image_response_cancellable(&response, &active).unwrap();
    assert_eq!(version, 1);
    assert_eq!(encoded[0].base64, "iVBORw0KGgoA");
    let late = RequestActivityState(Some(ApiDomainError::new(ApiDomainErrorCode::DeadlineExceeded)));
    match project_image_response_cancellable(&response, &late) {
        Err(ProtocolFailure::Domain(e)) => assert_eq!(e.code(), ApiDomainErrorCode::DeadlineExceeded),
        _ => panic!("expected the deadline failure"),
    }

    let mut wav = Vec::new();
    wav.extend_from_slice(b"RIFF");
    wav.extend_from_slice(&38u32.to_le_bytes());
    wav.extend_from_slice(b"WAVEfmt ");
    wav.extend_from_slice(&16u32.to_le_bytes());
    wav.extend_from_slice(&1u16.to_le_bytes());
    wav.extend_from_slice(&1u16.to_le_bytes());
    wav.extend_from_slice(&8_000u32.to_le_bytes());
    wav.extend_from_slice(&16_000u32.to_le_bytes());
    wav.extend_from_slice(&2u16.to_le_bytes());
    wav.extend_from_slice(&16u16.to_le_bytes());
    wav.extend_from_slice(b"data");
    wav.extend_from_slice(&2u32.to_le_bytes());
    wav.extend_from_slice(&[0, 0]);
    let audio = GeneratedAudio::new(AudioMediaType::WavPcm16, AudioSampleRate::Hz8000, AudioChannelCount::Mono, wav).unwrap();
    let audio_response = AudioServiceResponse::new(ServiceContractVersion::V1, audio);
    let (version, clip) = project_audio_response_cancellable(&audio_response, &active).unwrap();
    assert_eq!(version, 1);
    assert_eq!((clip.media_type, clip.sample_rate_hz, clip.channels), ("audio/wav", 8_000, 1));
    assert_eq!(clip.base64.len(), 64);
    let cancelled = RequestActivityState(Some(ApiDomainError::new(ApiDomainErrorCode::Cancelled)));
    match project_audio_response_cancellable(&audio_response, &cancelled) {
        Err(ProtocolFailure::Domain(e)) => assert_eq!(e.code(), ApiDomainErrorCode::Cancelled),
        _ => panic!("expected the cancellation"),
    }

    let mut body = BoundedJsonBody::new();
    assert_eq!(body.write_cancellable(b"{}", &active), Some(2));
    assert_eq!(body.write_cancellable(b"[]", &cancelled), None);
    assert_eq!(body.len(), 2);
    assert_eq!(body.into_bytes(), b"{}".to_vec());
}
