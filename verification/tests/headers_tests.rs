use ariadnion_api::admin::command::AdminCommandReceipt;
use ariadnion_api::admin::{AdminCommandId, AdminError, AdminErrorCode};
use ariadnion_api::domain::batch_timestamps::UnixInstant;
use ariadnion_api::domain::request::ResponseMode;
use ariadnion_api::files::ApiFilesErrorCode;
use ariadnion_api::http::admin::{HttpAdminResponse, HttpRequestMetadata, HttpSuspendUserBody, status_for};
use ariadnion_api::http::error::ApiHttpErrorCode;
use ariadnion_api::http::file_headers::{parse_expected_digest, parse_length, parse_upload_headers};
use ariadnion_api::http::headers::{
    HttpHeader, one_header, parse_deadline, parse_u64_text, require_stream_capability, trim_whitespace,
    validate_content_length, validate_header_budget, validate_media_type,
};
use ariadnion_api::http::identity::HttpRequestIdentity;
use ariadnion_api::platform::TenantId;

trait ExpectError<E> {
    fn error(self) -> E;
}

impl<T, E> ExpectError<E> for Result<T, E> {
    fn error(self) -> E {
        match self {
            Ok(_) => panic!("expected an error"),
            Err(error) => error,
        }
    }
}

fn header(name: &str, value: &str) -> HttpHeader {
    HttpHeader { name: name.to_owned(), value: value.as_bytes().to_vec(), text: Some(value.to_owned()) }
}

fn binary(name: &str, value: &[u8]) -> HttpHeader {
    HttpHeader { name: name.to_owned(), value: value.to_vec(), text: None }
}

#[test]
fn header_budget_counts_headers_and_bytes() {
    let small: Vec<HttpHeader> = (0..64).map(|_| header("a", "b")).collect();
    assert!(validate_header_budget(&small).is_ok());
    let many: Vec<HttpHeader> = (0..65).map(|_| header("a", "b")).collect();
    assert_eq!(validate_header_budget(&many).error().code(), ApiHttpErrorCode::InvalidRequest);
    let large = vec![header("x", &"v".repeat(32_767))];
    assert!(validate_header_budget(&large).is_ok());
    let too_large = vec![header("xy", &"v".repeat(32_767))];
    assert_eq!(validate_header_budget(&too_large).error().code(), ApiHttpErrorCode::InvalidRequest);
}

#[test]
fn a_read_header_may_appear_once() {
    let headers = vec![header("a", "1"), header("b", "2"), header("a", "3")];
    assert_eq!(one_header(&headers, "a", false).error().code(), ApiHttpErrorCode::InvalidRequest);
    assert_eq!(one_header(&headers, "b", true).unwrap().unwrap().value, b"2");
    assert!(one_header(&headers, "c", false).unwrap().is_none());
    assert!(one_header(&headers, "c", true).is_err());
}

#[test]
fn numbers_parse_as_unsigned_decimal() {
    assert_eq!(parse_u64_text("0"), Some(0));
    assert_eq!(parse_u64_text("+42"), Some(42));
    assert_eq!(parse_u64_text("18446744073709551615"), Some(u64::MAX));
    assert_eq!(parse_u64_text("18446744073709551616"), None);
    assert_eq!(parse_u64_text(""), None);
    assert_eq!(parse_u64_text("+"), None);
    assert_eq!(parse_u64_text("-1"), None);
    assert_eq!(parse_u64_text(" 1"), None);
    assert_eq!(parse_u64_text("1a"), None);
}

#[test]
fn content_length_is_optional_and_bounded() {
    assert!(validate_content_length(&[]).is_ok());
    assert!(validate_content_length(&[header("content-length", "8388608")]).is_ok());
    assert_eq!(
        validate_content_length(&[header("content-length", "8388609")]).error().code(),
        ApiHttpErrorCode::PayloadTooLarge
    );
    assert_eq!(
        validate_content_length(&[header("content-length", "ten")]).error().code(),
        ApiHttpErrorCode::InvalidRequest
    );
    assert_eq!(
        validate_content_length(&[binary("content-length", &[0xff])]).error().code(),
        ApiHttpErrorCode::InvalidRequest
    );
}

#[test]
fn only_json_bodies_are_accepted() {
    assert_eq!(trim_whitespace("  a b\t"), "a b");
    assert_eq!(trim_whitespace(" \t "), "");
    assert!(validate_media_type(&[header("content-type", "application/json")]).is_ok());
    assert!(validate_media_type(&[header("content-type", " Application/JSON ; charset=utf-8")]).is_ok());
    for rejected in ["text/plain", "application/json+x", "application/ json"] {
        assert_eq!(
            validate_media_type(&[header("content-type", rejected)]).error().code(),
            ApiHttpErrorCode::UnsupportedMediaType
        );
    }
    assert_eq!(validate_media_type(&[]).error().code(), ApiHttpErrorCode::UnsupportedMediaType);
    let twice = [header("content-type", "application/json"), header("content-type", "application/json")];
    assert_eq!(validate_media_type(&twice).error().code(), ApiHttpErrorCode::InvalidRequest);
}

#[test]
fn deadlines_default_to_thirty_seconds_and_reach_two_minutes() {
    let now = UnixInstant::from_unix_nanos(1_000_000_000_000);
    assert_eq!(parse_deadline(&[], now).unwrap().unix_nanos(), 1_030_000_000_000);
    let name = "x-ariadnion-deadline-unix-ms";
    // 1,000,000 ms is now; 1,120,000 ms is exactly two minutes later.
    assert_eq!(parse_deadline(&[header(name, "1120000")], now).unwrap().unix_nanos(), 1_120_000_000_000);
    assert_eq!(
        parse_deadline(&[header(name, "1120001")], now).error().code(),
        ApiHttpErrorCode::InvalidRequest
    );
    // A deadline in the past is accepted as it is.
    assert_eq!(parse_deadline(&[header(name, "5")], now).unwrap().unix_nanos(), 5_000_000);
    assert!(parse_deadline(&[header(name, "")], now).is_err());
    assert!(parse_deadline(&[header(name, "000000000000000000001")], now).is_err());
    let late = UnixInstant::from_unix_nanos(i128::MAX - 1);
    assert_eq!(parse_deadline(&[], late).error().code(), ApiHttpErrorCode::Internal);
}

#[test]
fn streaming_needs_a_bridge() {
    assert!(require_stream_capability(ResponseMode::Complete, false).is_ok());
    assert!(require_stream_capability(ResponseMode::Stream, true).is_ok());
    assert_eq!(
        require_stream_capability(ResponseMode::Stream, false).error().code(),
        ApiHttpErrorCode::StreamUnavailable
    );
}

fn upload_headers(length: &str) -> Vec<HttpHeader> {
    vec![
        header("content-length", length),
        header("content-type", "Text/Plain"),
        header("x-file-name", "notes.txt"),
        header("idempotency-key", "upload-7"),
    ]
}

#[test]
fn upload_headers_describe_the_file() {
    let (spec, key) = parse_upload_headers(&upload_headers("12")).unwrap();
    assert_eq!(spec.byte_length().get(), 12);
    assert_eq!(spec.media_type().as_str(), "text/plain");
    assert_eq!(spec.display_name().as_str(), "notes.txt");
    assert_eq!(key.as_str(), "upload-7");
    assert!(spec.expected_digest().is_none());
    let mut with_digest = upload_headers("12");
    with_digest.push(header("x-file-digest", &"ab".repeat(32)));
    let (spec, _) = parse_upload_headers(&with_digest).unwrap();
    assert_eq!(spec.expected_digest().unwrap().as_bytes(), &[0xab; 32]);
}

#[test]
fn upload_headers_fail_in_order() {
    assert_eq!(parse_length(&upload_headers("0")).error().code(), ApiFilesErrorCode::InvalidArgument);
    assert_eq!(parse_length(&upload_headers("536870913")).error().code(), ApiFilesErrorCode::LimitExceeded);
    assert_eq!(parse_length(&upload_headers("x")).error().code(), ApiFilesErrorCode::InvalidArgument);
    let mut bad_name = upload_headers("1");
    bad_name[2] = header("x-file-name", "a/b");
    assert_eq!(parse_upload_headers(&bad_name).error().code(), ApiFilesErrorCode::InvalidArgument);
    let mut missing_key = upload_headers("1");
    missing_key.pop();
    assert_eq!(parse_upload_headers(&missing_key).error().code(), ApiFilesErrorCode::InvalidArgument);
    assert!(parse_expected_digest(&[header("x-file-digest", "AB")]).is_err());
    assert!(parse_expected_digest(&[]).unwrap().is_none());
}

#[test]
fn admin_metadata_bounds_body_and_headers() {
    let identity = || HttpRequestIdentity::new("req-1", "trace-1");
    assert_eq!(HttpRequestMetadata::new(identity(), 16_384, 32_768).unwrap().identity().request_id(), "req-1");
    assert_eq!(
        HttpRequestMetadata::new(identity(), 16_385, 0).error().code(),
        AdminErrorCode::InvalidArgument
    );
    assert!(HttpRequestMetadata::new(identity(), 0, 32_769).is_err());
    let body = HttpSuspendUserBody::new(
        AdminCommandId::parse("cmd-1").unwrap(),
        "decision-1".to_owned(),
        3,
        "user-1".to_owned(),
        "ABUSE",
    );
    assert!(body.is_ok());
    let refused = HttpSuspendUserBody::new(
        AdminCommandId::parse("cmd-1").unwrap(),
        "decision-1".to_owned(),
        3,
        "user-1".to_owned(),
        "abuse",
    );
    assert_eq!(refused.error().code(), AdminErrorCode::InvalidArgument);
}

#[test]
fn admin_outcomes_project_onto_status_and_code() {
    let receipt = AdminCommandReceipt::new(
        AdminCommandId::parse("cmd-1").unwrap(),
        TenantId::new("tenant-1"),
        "decision-1".to_owned(),
        3,
        UnixInstant::from_unix_nanos(1),
    );
    let ok = HttpAdminResponse::from_result(Ok(receipt));
    assert_eq!(ok.status(), 200);
    assert_eq!(ok.code(), "ADMIN_COMMAND_SUCCEEDED");
    assert!(ok.receipt().is_some());
    let denied = HttpAdminResponse::from_result(Err(AdminError::new(AdminErrorCode::TenantMismatch)));
    assert_eq!(denied.status(), 403);
    assert_eq!(denied.code(), "ADMIN_TENANT_MISMATCH");
    assert!(denied.receipt().is_none());
    assert_eq!(status_for(AdminErrorCode::InvalidArgument), 400);
    assert_eq!(status_for(AdminErrorCode::Cancelled), 499);
    assert_eq!(status_for(AdminErrorCode::Conflict), 409);
    assert_eq!(status_for(AdminErrorCode::DeadlineExceeded), 504);
    assert_eq!(status_for(AdminErrorCode::CommitIndeterminate), 503);
    assert_eq!(status_for(AdminErrorCode::IntegrityFailure), 500);
}

use ariadnion_api::domain::audio::{AudioChannelCount, AudioSampleRate};
use ariadnion_api::domain::image::{GeneratedImage, ImageDimensions, ImageMediaType};
use ariadnion_api::domain::request::ServiceContractVersion;
use ariadnion_api::domain::response::FinishReason;
use ariadnion_api::http::response::{
    checked_response_headers, content_disposition, parse_channel_count, parse_sample_rate,
    project_finish_reason, project_version, reject_unsafe_response_headers, validate_buffered_response_status,
    validate_encoded_budget, validate_final_response_status, validate_response_body,
    validate_stream_response_status,
};

#[test]
fn wire_values_of_contract_values() {
    assert_eq!(project_version(ServiceContractVersion::V1), Ok(1));
    assert_eq!(project_finish_reason(FinishReason::Completed), Ok("completed"));
    assert_eq!(project_finish_reason(FinishReason::OutputLimitReached), Ok("output_limit_reached"));
    assert_eq!(project_finish_reason(FinishReason::ContentFiltered).error().code(), ApiHttpErrorCode::Internal);
    assert_eq!(parse_sample_rate(48_000), Ok(AudioSampleRate::Hz48000));
    assert!(parse_sample_rate(44_100).is_err());
    assert_eq!(parse_channel_count(2), Ok(AudioChannelCount::Stereo));
    assert!(parse_channel_count(3).is_err());
}

#[test]
fn responses_have_final_statuses_and_bounded_bodies() {
    assert!(validate_final_response_status(200).is_ok());
    assert!(validate_final_response_status(101).is_err());
    assert!(validate_final_response_status(600).is_err());
    assert!(validate_buffered_response_status(204, 0).is_ok());
    assert!(validate_buffered_response_status(204, 1).is_err());
    assert!(validate_buffered_response_status(200, 1).is_ok());
    assert!(validate_stream_response_status(304).is_err());
    assert!(validate_stream_response_status(200).is_ok());
    assert!(validate_response_body(8_388_608).is_ok());
    assert!(validate_response_body(8_388_609).is_err());
}

#[test]
fn transport_headers_are_dropped_and_unsafe_ones_refused() {
    let headers = vec![
        header("content-type", "application/json"),
        header("x-request-id", "spoofed"),
        header("www-authenticate", "Bearer"),
        header("cache-control", "no-store"),
    ];
    let kept = checked_response_headers(headers).unwrap();
    let names: Vec<&str> = kept.iter().map(|h| h.name.as_str()).collect();
    assert_eq!(names, vec!["content-type", "cache-control"]);
    assert!(reject_unsafe_response_headers(&[header("upgrade", "websocket")]).is_err());
    assert!(checked_response_headers(vec![header("transfer-encoding", "chunked")]).is_err());
    assert!(reject_unsafe_response_headers(&[header("x-custom", "1")]).is_ok());
}

#[test]
fn encoded_images_share_the_body_budget() {
    let dims = ImageDimensions::new(1, 1).unwrap();
    let mut png = vec![0x89, 0x50, 0x4e, 0x47, 0x0d, 0x0a, 0x1a, 0x0a];
    png.resize(3_200_001, 0);
    let one = GeneratedImage::new(ImageMediaType::Png, dims, png.clone()).unwrap();
    assert!(validate_encoded_budget(&[one]).is_ok());
    let a = GeneratedImage::new(ImageMediaType::Png, dims, png.clone()).unwrap();
    let b = GeneratedImage::new(ImageMediaType::Png, dims, png).unwrap();
    // Two 4,266,668-character encodings exceed 8 MiB together.
    assert!(validate_encoded_budget(&[a, b]).is_err());
}

#[test]
fn download_names_are_percent_encoded() {
    assert_eq!(content_disposition("report.pdf"), "attachment; filename*=UTF-8''report.pdf");
    assert_eq!(content_disposition("a b"), "attachment; filename*=UTF-8''a%20b");
    assert_eq!(content_disposition("é"), "attachment; filename*=UTF-8''%C3%A9");
    assert_eq!(content_disposition("x;y=\"z\""), "attachment; filename*=UTF-8''x%3By%3D%22z%22");
}

use ariadnion_api::files::FileListCursor;
use ariadnion_api::http::file_list::{encode_cursor, parse_cursor};
use ariadnion_api::http::headers::{
    admit_headers, parse_content_length, parse_idempotency, parse_upgrade_deadline, validate_bodyless,
};
use ariadnion_api::http::protocol::ProtocolFailure;

#[test]
fn upgrade_deadlines_stay_within_the_session_lifetime() {
    let now = UnixInstant::from_unix_nanos(1_000_000_000_000);
    let name = "x-ariadnion-deadline-unix-ms";
    assert_eq!(parse_upgrade_deadline(&[], now, 60_000_000_000).unwrap().unix_nanos(), 1_060_000_000_000);
    assert!(parse_upgrade_deadline(&[header(name, "1060000")], now, 60_000_000_000).is_ok());
    assert!(parse_upgrade_deadline(&[header(name, "1060001")], now, 60_000_000_000).is_err());
}

#[test]
fn upgrades_carry_no_body() {
    assert!(validate_bodyless(&[], true).is_ok());
    assert!(validate_bodyless(&[header("content-length", "0")], true).is_ok());
    assert!(validate_bodyless(&[header("content-length", "1")], true).is_err());
    assert!(validate_bodyless(&[header("content-length", "+0")], true).is_err());
    assert!(validate_bodyless(&[header("transfer-encoding", "chunked")], true).is_err());
    assert!(validate_bodyless(&[], false).is_err());
    assert_eq!(parse_content_length(&header("content-length", "42")), Ok(42));
    assert!(parse_content_length(&header("content-length", "")).is_err());
}

#[test]
fn idempotency_keys_come_from_one_header() {
    assert!(parse_idempotency(&[]).unwrap().is_none());
    assert_eq!(parse_idempotency(&[header("idempotency-key", "k-1")]).unwrap().unwrap().as_str(), "k-1");
    let twice = [header("idempotency-key", "a"), header("idempotency-key", "b")];
    assert!(matches!(parse_idempotency(&twice).error(), ProtocolFailure::Http(_)));
    let spaced = parse_idempotency(&[header("idempotency-key", "a b")]).error();
    assert_eq!(spaced.domain_code(), Some(ariadnion_api::domain::error::ApiDomainErrorCode::InvalidArgument));
}

#[test]
fn request_headers_are_admitted_in_order() {
    let now = UnixInstant::from_unix_nanos(0);
    let json = header("content-type", "application/json");
    assert_eq!(admit_headers(&[json], now).unwrap().unix_nanos(), 30_000_000_000);
    assert_eq!(admit_headers(&[], now).error().code(), ApiHttpErrorCode::UnsupportedMediaType);
    let large = [header("content-type", "application/json"), header("content-length", "99999999")];
    assert_eq!(admit_headers(&large, now).error().code(), ApiHttpErrorCode::PayloadTooLarge);
}

#[test]
fn emitted_cursors_are_accepted_back() {
    for bytes in [vec![0u8], vec![0xff, 0xef], (0..=255u8).collect::<Vec<u8>>(), vec![7u8; 512]] {
        let cursor = FileListCursor::new(&bytes).unwrap();
        let text = encode_cursor(&cursor);
        assert_eq!(parse_cursor(&text).unwrap().as_bytes(), bytes.as_slice());
    }
    assert_eq!(encode_cursor(&FileListCursor::new(&[0xff, 0xef]).unwrap()), "_-8");
}

#[test]
fn received_headers_offer_visible_ascii_values_as_text() {
    let header = HttpHeader::new("Content-Type", b"Application/JSON; charset=utf-8".to_vec());
    assert_eq!(header.name, "content-type");
    assert_eq!(header.value, b"Application/JSON; charset=utf-8".to_vec());
    assert_eq!(header.text.as_deref(), Some("Application/JSON; charset=utf-8"));
    let tabbed = HttpHeader::new("x-tab", b"a\tb".to_vec());
    assert_eq!(tabbed.text.as_deref(), Some("a\tb"));
    let binary = HttpHeader::new("X-Raw", vec![0x61, 0x80, 0x62]);
    assert_eq!(binary.name, "x-raw");
    assert_eq!(binary.value, vec![0x61, 0x80, 0x62]);
    assert!(binary.text.is_none());
    let control = HttpHeader::new("x-ctl", vec![0x61, 0x7f]);
    assert!(control.text.is_none());
    let non_ascii_name = HttpHeader::new("Ä-Name", Vec::new());
    assert_eq!(non_ascii_name.name, "Ä-name");
    assert_eq!(non_ascii_name.text.as_deref(), Some(""));
}

#[test]
fn admin_errors_display_their_machine_code() {
    assert_eq!(AdminError::new(AdminErrorCode::Conflict).to_string(), "ADMIN_CONFLICT");
    assert_eq!(AdminError::new(AdminErrorCode::IntegrityFailure).to_string(), "ADMIN_INTEGRITY_FAILURE");
}

#[test]
fn cursor_text_is_unpadded_url_safe_base64() {
    assert_eq!(encode_cursor(&FileListCursor::new(b"Man").unwrap()), "TWFu");
    assert_eq!(encode_cursor(&FileListCursor::new(b"Ma").unwrap()), "TWE");
    assert_eq!(encode_cursor(&FileListCursor::new(b"M").unwrap()), "TQ");
    assert_eq!(encode_cursor(&FileListCursor::new(&[0xfb, 0xff]).unwrap()), "-_8");
    assert_eq!(encode_cursor(&FileListCursor::new(&[0xfb, 0xff, 0xbf, 0x00]).unwrap()), "-_-_AA");
}
