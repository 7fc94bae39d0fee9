use base64::Engine;

use ariadnion_api::domain::error::{ApiDomainError, ApiDomainErrorCode};
use ariadnion_api::files::{ApiFilesError, ApiFilesErrorCode};
use ariadnion_api::http::base64_encoding::{encode_bounded, encode_bounded_cancellable, encoded_length};
use ariadnion_api::http::credentials::{
    HttpAuthorization, PresentedBearer, UnavailableServiceAuthentication, project_context_error,
};
use ariadnion_api::http::error::{
    ApiHttpError, ApiHttpErrorCode, project_domain_error, project_files_error, project_http_error,
};
use ariadnion_api::http::file_list::{parse_cursor, parse_limit, parse_list_request, parse_query_pair};
use ariadnion_api::http::file_routes::{
    checked_chunk_length, content_reference, decode_digest, decode_reference, encode_hex,
};
use ariadnion_api::http::file_upload::{UploadBodyTracker, UploadStep};
use ariadnion_api::http::identity::{HttpRequestIdentity, MonotonicRequestIdentityIssuer, identity_for_sequence};
use ariadnion_api::http::protocol::{ProtocolFailure, ResponseActivity};
use ariadnion_api::http::upgrade::ProtocolUpgradeLimits;
use ariadnion_api::platform::CoreErrorCode;

trait ExpectError<E> {
    fn error(self) -> E;
}

impl<T, E> ExpectError<E> for Result<T, E> {
    fn error(self) -> E {
        match self {
            Ok(_) => panic!("expected an error"),
            Err(error) => error,
        }
    }
}

#[test]
fn http_codes_have_stable_texts() {
    assert_eq!(ApiHttpErrorCode::InvalidRequest.as_str(), "API_HTTP_INVALID_REQUEST");
    assert_eq!(ApiHttpErrorCode::PayloadTooLarge.as_str(), "API_HTTP_PAYLOAD_TOO_LARGE");
    assert_eq!(ApiHttpErrorCode::ResourceExhausted.as_str(), "API_HTTP_RESOURCE_EXHAUSTED");
    assert_eq!(ApiHttpErrorCode::Internal.as_str(), "API_HTTP_INTERNAL");
}

#[test]
fn http_failures_project_to_status_and_retry_hint() {
    let unauthenticated = project_http_error(ApiHttpError::new(ApiHttpErrorCode::Unauthenticated));
    assert_eq!(unauthenticated.status, 401);
    assert_eq!(unauthenticated.code, "API_HTTP_UNAUTHENTICATED");
    assert_eq!(unauthenticated.message, "Authentication is required.");
    assert!(!unauthenticated.retryable);
    let exhausted = project_http_error(ApiHttpError::new(ApiHttpErrorCode::ResourceExhausted));
    assert_eq!(exhausted.status, 429);
    assert!(exhausted.retryable);
    let cancelled = project_http_error(ApiHttpError::new(ApiHttpErrorCode::Cancelled));
    assert_eq!(cancelled.status, 499);
    assert!(!cancelled.retryable);
    assert_eq!(project_http_error(ApiHttpError::new(ApiHttpErrorCode::StreamUnavailable)).status, 503);
}

#[test]
fn domain_and_files_failures_project_to_status() {
    let unsupported = project_domain_error(ApiDomainError::new(ApiDomainErrorCode::UnsupportedVersion));
    assert_eq!(unsupported.code, "API_DOMAIN_UNSUPPORTED_VERSION");
    assert_eq!(project_domain_error(ApiDomainError::new(ApiDomainErrorCode::InvalidArgument)).status, 422);
    assert_eq!(project_domain_error(ApiDomainError::new(ApiDomainErrorCode::Conflict)).status, 409);
    assert_eq!(project_domain_error(ApiDomainError::new(ApiDomainErrorCode::Internal)).status, 500);
    let missing = project_files_error(ApiFilesError::new(ApiFilesErrorCode::NotFound));
    assert_eq!(missing.status, 404);
    assert_eq!(missing.code, "API_FILES_NOT_FOUND");
    assert_eq!(project_files_error(ApiFilesError::new(ApiFilesErrorCode::LimitExceeded)).status, 413);
    assert_eq!(project_files_error(ApiFilesError::new(ApiFilesErrorCode::PolicyRejected)).status, 403);
    assert_eq!(project_files_error(ApiFilesError::new(ApiFilesErrorCode::CommitIndeterminate)).status, 503);
    assert_eq!(project_files_error(ApiFilesError::new(ApiFilesErrorCode::IntegrityFailure)).status, 500);
}

#[test]
fn base64_is_standard_and_padded() {
    assert_eq!(encode_bounded(b"hello").unwrap(), "aGVsbG8=");
    assert_eq!(encode_bounded(b"").unwrap(), "");
    assert_eq!(encode_bounded(&[0xfb, 0xff]).unwrap(), "+/8=");
    assert_eq!(encoded_length(5).unwrap(), 8);
    assert_eq!(encoded_length(6).unwrap(), 8);
    assert_eq!(encoded_length(7).unwrap(), 12);
}

#[test]
fn base64_of_multiple_chunks_equals_one_pass_encoding() {
    // Two full 12 KiB chunks and a partial one; chunk boundaries are
    // multiples of three bytes, so the chunked text has padding only at the end.
    let input: Vec<u8> = (0..(12_288 * 2 + 100)).map(|i| (i % 251) as u8).collect();
    let encoded = encode_bounded(&input).unwrap();
    assert_eq!(encoded.len(), 4 * ((input.len() + 2) / 3));
    assert_eq!(encoded, base64::engine::general_purpose::STANDARD.encode(&input));
}

#[test]
fn oversized_base64_output_is_an_internal_failure() {
    let input = vec![0u8; 6_291_457];
    let failure = encode_bounded(&input).error();
    assert_eq!(failure.http_code(), Some(ApiHttpErrorCode::Internal));
    assert!(matches!(failure, ProtocolFailure::Http(_)));
}

#[test]
fn bearer_credentials_are_framed_strictly() {
    let bearer = PresentedBearer::parse(b"Bearer abc.DEF-123").unwrap();
    assert_eq!(bearer.credential_bytes(), b"abc.DEF-123");
    for rejected in [&b"bearer abc"[..], b"Bearer ", b"Bearer a b", b"Basic abc", b"Bearer\tabc"] {
        assert_eq!(PresentedBearer::parse(rejected).error().code(), ApiHttpErrorCode::Unauthenticated);
    }
    let authorization = HttpAuthorization::parse(b"Bearer token").unwrap();
    assert_eq!(authorization.credential_bytes(), b"Bearer token");
    assert!(HttpAuthorization::parse(b"").is_err());
    assert!(HttpAuthorization::parse(b"Bearer \x01").is_err());
}

#[test]
fn unavailable_authentication_refuses_every_request() {
    let service = UnavailableServiceAuthentication;
    assert_eq!(service.authenticate(None).code(), ApiHttpErrorCode::Unavailable);
    assert_eq!(service.authenticate(Some(CoreErrorCode::Cancelled)).code(), ApiHttpErrorCode::Cancelled);
    assert_eq!(project_context_error(CoreErrorCode::DeadlineExceeded), ApiHttpErrorCode::DeadlineExceeded);
    assert_eq!(project_context_error(CoreErrorCode::Internal), ApiHttpErrorCode::Unavailable);
}

#[test]
fn file_content_paths_name_one_identifier() {
    assert_eq!(content_reference("/v1/files/abc/content"), Some("abc"));
    assert_eq!(content_reference("/v1/files//content"), None);
    assert_eq!(content_reference("/v1/files/a/b/content"), None);
    assert_eq!(content_reference("/v1/files/abc"), None);
}

#[test]
fn references_are_sixty_four_lowercase_hex_digits() {
    let bytes: Vec<u8> = (0..32).collect();
    let text = encode_hex(&bytes);
    assert_eq!(text.len(), 64);
    assert!(text.starts_with("000102"));
    assert!(text.ends_with("1e1f"));
    assert_eq!(decode_reference(&text).unwrap().as_bytes().to_vec(), bytes);
    assert_eq!(decode_digest(&text).unwrap().as_bytes().to_vec(), bytes);
    assert!(decode_reference(&text.to_uppercase()).is_none());
    assert!(decode_reference(&text[..62]).is_none());
    assert_eq!(encode_hex(&[0xab, 0x01]), "ab01");
}

#[test]
fn downloaded_chunks_may_not_overrun_the_descriptor() {
    assert_eq!(checked_chunk_length(10, 0, 20), Ok(10));
    assert_eq!(checked_chunk_length(10, 10, 20), Ok(20));
    assert!(checked_chunk_length(11, 10, 20).is_err());
    assert!(checked_chunk_length(0, 10, 20).is_err());
}

#[test]
fn an_upload_delivers_exactly_the_declared_bytes_in_order() {
    let mut tracker = UploadBodyTracker::new(5);
    assert!(matches!(tracker.process_body_result(Ok(Some(b"abc".to_vec()))), Ok(UploadStep::Continue)));
    let chunk = tracker.take_pending_chunk().unwrap().unwrap();
    assert_eq!(chunk.as_bytes(), b"abc");
    assert!(matches!(tracker.process_body_result(Ok(Some(b"de".to_vec()))), Ok(UploadStep::Continue)));
    assert_eq!(tracker.take_pending_chunk().unwrap().unwrap().as_bytes(), b"de");
    assert!(tracker.take_pending_chunk().unwrap().is_none());
    assert!(matches!(tracker.process_body_result(Ok(None)), Ok(UploadStep::Eof)));
    assert!(tracker.is_complete());
}

#[test]
fn an_upload_longer_or_shorter_than_declared_fails() {
    let mut long = UploadBodyTracker::new(2);
    let error = long.process_body_result(Ok(Some(b"abc".to_vec()))).error();
    assert_eq!(error.code(), ApiFilesErrorCode::InvalidArgument);
    assert!(matches!(long.terminal_or_eof(), Some(Err(_))));
    let mut short = UploadBodyTracker::new(4);
    short.process_body_result(Ok(Some(b"ab".to_vec()))).unwrap();
    short.take_pending_chunk().unwrap();
    assert_eq!(short.process_body_result(Ok(None)).error().code(), ApiFilesErrorCode::InvalidArgument);
    assert!(!short.is_complete());
}

#[test]
fn upgrade_limits_are_bounded() {
    let limits = ProtocolUpgradeLimits::new(1024, 512, 60_000_000_000).unwrap();
    assert_eq!(limits.max_message_bytes(), 1024);
    assert_eq!(limits.max_frame_bytes(), 512);
    assert_eq!(limits.session_lifetime(), 60_000_000_000);
    assert!(ProtocolUpgradeLimits::new(512, 1024, 1).is_err());
    assert!(ProtocolUpgradeLimits::new(1024, 512, 0).is_err());
    assert!(ProtocolUpgradeLimits::new(262_145, 512, 1).is_err());
    assert!(ProtocolUpgradeLimits::new(1024, 512, 3_600_000_000_001).is_err());
}

#[test]
fn identities_are_issued_in_sequence_until_exhaustion() {
    let mut issuer = MonotonicRequestIdentityIssuer::new().unwrap();
    let first = issuer.issue().unwrap();
    assert_eq!(first.request_id(), "ariadnion-request-1");
    assert_eq!(first.trace_id(), "ariadnion-trace-1");
    let second = issuer.issue().unwrap();
    assert_eq!(second.request_id(), "ariadnion-request-2");
    assert!(!first.same_identity(&second));
    let fallback = issuer.fallback_identity();
    assert_eq!(fallback.request_id(), "ariadnion-request-fallback");
    assert_eq!(fallback.trace_id(), "ariadnion-trace-fallback");

    let mut last = MonotonicRequestIdentityIssuer::from_next_sequence(u64::MAX - 1).unwrap();
    assert_eq!(last.issue().unwrap().request_id(), "ariadnion-request-18446744073709551614");
    assert_eq!(last.issue().error().code(), ApiHttpErrorCode::ResourceExhausted);
    assert_eq!(last.issue().error().code(), ApiHttpErrorCode::ResourceExhausted);
    assert_eq!(identity_for_sequence(0).request_id(), "ariadnion-request-0");
    assert_eq!(identity_for_sequence(1_000).trace_id(), "ariadnion-trace-1000");
    let replaced = HttpRequestIdentity::new("a", "b").replace_request_id("c");
    assert_eq!((replaced.request_id(), replaced.trace_id()), ("c", "b"));
}

#[test]
fn list_queries_default_to_one_hundred_results() {
    let request = parse_list_request(None).unwrap();
    assert_eq!(request.limit().get(), 100);
    assert!(request.cursor().is_none());
    let only_cursor = parse_list_request(Some("cursor=AQI")).unwrap();
    assert_eq!(only_cursor.limit().get(), 100);
    assert_eq!(only_cursor.cursor().unwrap().as_bytes(), &[1, 2]);
}

#[test]
fn list_queries_accept_each_key_once_in_any_order() {
    let request = parse_list_request(Some("limit=25&cursor=AQI")).unwrap();
    assert_eq!(request.limit().get(), 25);
    assert_eq!(request.cursor().unwrap().as_bytes(), &[1, 2]);
    let reversed = parse_list_request(Some("cursor=AQI&limit=1000")).unwrap();
    assert_eq!(reversed.limit().get(), 1000);
    for rejected in [
        "",
        "limit=1&limit=2",
        "cursor=AQI&cursor=AQI",
        "limit=1&",
        "&limit=1",
        "limit",
        "limit=",
        "=1",
        "page=1",
        "limit=01",
        "limit=+1",
        "limit=0",
        "limit=99999999999999999999999",
        "cursor=AQI=",
        "cursor=AQJ",
        "cursor=@@",
    ] {
        let error = parse_list_request(Some(rejected)).error();
        assert_eq!(error.code(), ApiFilesErrorCode::InvalidArgument, "query {rejected:?}");
    }
    assert_eq!(parse_list_request(Some("limit=1001")).error().code(), ApiFilesErrorCode::LimitExceeded);
    let oversized = format!("limit=1&{}", "x".repeat(4096));
    assert_eq!(parse_list_request(Some(&oversized)).error().code(), ApiFilesErrorCode::InvalidArgument);
}

#[test]
fn list_query_pieces_parse_individually() {
    assert_eq!(parse_query_pair("a=b=c").unwrap(), ("a", "b=c"));
    assert!(parse_query_pair("ab").is_err());
    assert_eq!(parse_limit("7").unwrap().get(), 7);
    assert!(parse_limit("007").is_err());
    let cursor = parse_cursor("_-8").unwrap();
    assert_eq!(cursor.as_bytes(), &[0xff, 0xef]);
    assert!(parse_cursor("").is_err());
    // 513 decoded bytes exceed the cursor bound.
    let long = base64::engine::general_purpose::URL_SAFE_NO_PAD.encode(vec![7u8; 513]);
    assert_eq!(parse_cursor(&long).error().code(), ApiFilesErrorCode::LimitExceeded);
}

struct Activity(Option<ApiDomainError>);

impl ResponseActivity for Activity {
    fn check_active(&self) -> Option<ApiDomainError> {
        self.0
    }
}

#[test]
fn base64_groups_follow_the_standard_alphabet() {
    assert_eq!(encode_bounded(b"Man").unwrap(), "TWFu");
    assert_eq!(encode_bounded(b"Ma").unwrap(), "TWE=");
    assert_eq!(encode_bounded(b"M").unwrap(), "TQ==");
    assert_eq!(encode_bounded(&[0x00, 0x10, 0x83]).unwrap(), "ABCD");
    assert_eq!(encode_bounded(&[0xff, 0xff, 0xff]).unwrap(), "////");
}

#[test]
fn cancellable_base64_stops_for_an_inactive_request() {
    let active = Activity(None);
    assert_eq!(encode_bounded_cancellable(b"hello", &active).unwrap(), "aGVsbG8=");
    let cancelled = Activity(Some(ApiDomainError::new(ApiDomainErrorCode::Cancelled)));
    let failure = encode_bounded_cancellable(b"hello", &cancelled).error();
    assert!(matches!(failure, ProtocolFailure::Domain(e) if e.code() == ApiDomainErrorCode::Cancelled));
    let oversized = vec![0u8; 6_291_457];
    assert_eq!(encode_bounded_cancellable(&oversized, &active).error().http_code(), Some(ApiHttpErrorCode::Internal));
}
