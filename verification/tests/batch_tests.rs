use ariadnion_api::domain::batch::{ApiBatchErrorCode, BatchEndpoint, BatchStatus};

#[test]
fn batch_endpoint_round_trips_through_its_path() {
    for endpoint in [
        BatchEndpoint::Responses,
        BatchEndpoint::ChatCompletions,
        BatchEndpoint::Embeddings,
        BatchEndpoint::Completions,
        BatchEndpoint::ImagesGenerations,
    ] {
        assert_eq!(BatchEndpoint::parse(endpoint.as_str()), Ok(endpoint));
    }
    let error = BatchEndpoint::parse("/v1/moderations").unwrap_err();
    assert_eq!(error.code(), ApiBatchErrorCode::InvalidArgument);
}

#[test]
fn batch_status_round_trips_through_its_wire_text() {
    assert_eq!(BatchStatus::parse("in_progress"), Ok(BatchStatus::InProgress));
    assert_eq!(BatchStatus::Cancelled.as_str(), "cancelled");
    assert!(BatchStatus::parse("running").is_err());
}

use ariadnion_api::domain::batch::{
    BatchCompletionWindow, BatchCreateRequest, BatchCustomId, BatchInputFile, BatchListLimit,
    BatchOperationId, BatchRequestCounts, BatchRequestLine,
};
use ariadnion_api::domain::batch_timestamps::{BatchTimestampTransitions, BatchTimestamps, UnixInstant};
use ariadnion_api::domain::file::{FileByteLength, FileReference};

fn line(custom_id: &str, endpoint: BatchEndpoint) -> BatchRequestLine {
    BatchRequestLine::new(custom_id, endpoint).unwrap()
}

fn batch_code<T>(result: Result<T, ariadnion_api::domain::batch::ApiBatchError>) -> ApiBatchErrorCode {
    match result {
        Ok(_) => panic!("expected an error"),
        Err(error) => error.code(),
    }
}

#[test]
fn batch_codes_have_stable_texts() {
    assert_eq!(ApiBatchErrorCode::InvalidArgument.as_str(), "API_BATCH_INVALID_ARGUMENT");
    assert_eq!(ApiBatchErrorCode::IntegrityFailure.as_str(), "API_BATCH_INTEGRITY_FAILURE");
    assert_eq!(ApiBatchErrorCode::Internal.as_str(), "API_BATCH_INTERNAL");
}

#[test]
fn input_files_refuse_duplicate_custom_ids() {
    let reference = FileReference::new([3; 32]);
    let length = FileByteLength::new(100).unwrap();
    let file = BatchInputFile::from_lines(
        reference,
        length,
        vec![line("a", BatchEndpoint::Embeddings), line("b", BatchEndpoint::Embeddings)],
    )
    .unwrap();
    assert_eq!(file.line_count(), 2);
    assert!(file.targets(BatchEndpoint::Embeddings));
    assert!(!file.targets(BatchEndpoint::Responses));
    let duplicated = BatchInputFile::from_lines(
        FileReference::new([3; 32]),
        FileByteLength::new(100).unwrap(),
        vec![line("a", BatchEndpoint::Embeddings), line("a", BatchEndpoint::Embeddings)],
    );
    assert_eq!(batch_code(duplicated), ApiBatchErrorCode::Conflict);
    let empty = BatchInputFile::from_lines(FileReference::new([3; 32]), FileByteLength::new(1).unwrap(), Vec::new());
    assert_eq!(batch_code(empty), ApiBatchErrorCode::InvalidArgument);
}

#[test]
fn create_requests_need_every_line_on_the_endpoint() {
    let file = BatchInputFile::from_lines(
        FileReference::new([3; 32]),
        FileByteLength::new(10).unwrap(),
        vec![line("a", BatchEndpoint::Embeddings), line("b", BatchEndpoint::Responses)],
    )
    .unwrap();
    let refused = BatchCreateRequest::new(file.clone(), BatchEndpoint::Embeddings, BatchCompletionWindow::Hours24, None);
    assert_eq!(batch_code(refused), ApiBatchErrorCode::InvalidArgument);
    let single = BatchInputFile::from_lines(
        FileReference::new([3; 32]),
        FileByteLength::new(10).unwrap(),
        vec![line("a", BatchEndpoint::Responses)],
    )
    .unwrap();
    let accepted =
        BatchCreateRequest::new(single, BatchEndpoint::Responses, BatchCompletionWindow::Hours24, None).unwrap();
    assert_eq!(accepted.endpoint(), BatchEndpoint::Responses);
}

#[test]
fn identifiers_and_limits_are_bounded() {
    assert_eq!(BatchOperationId::parse("batch_abc-1").unwrap().as_str(), "batch_abc-1");
    assert_eq!(batch_code(BatchOperationId::parse("")), ApiBatchErrorCode::InvalidArgument);
    assert_eq!(batch_code(BatchOperationId::parse(&"b".repeat(129))), ApiBatchErrorCode::LimitExceeded);
    assert_eq!(batch_code(BatchCustomId::new("a\nb")), ApiBatchErrorCode::InvalidArgument);
    assert_eq!(BatchListLimit::default().get(), 20);
    assert_eq!(batch_code(BatchListLimit::new(0)), ApiBatchErrorCode::InvalidArgument);
    assert_eq!(batch_code(BatchListLimit::new(101)), ApiBatchErrorCode::LimitExceeded);
    assert_eq!(BatchCompletionWindow::Hours24.as_str(), "24h");
}

#[test]
fn request_counts_never_exceed_their_total() {
    let counts = BatchRequestCounts::new(10, 6, 4).unwrap();
    assert_eq!((counts.total(), counts.completed(), counts.failed()), (10, 6, 4));
    assert_eq!(batch_code(BatchRequestCounts::new(10, 6, 5)), ApiBatchErrorCode::InvalidArgument);
    assert_eq!(batch_code(BatchRequestCounts::new(0, 0, 0)), ApiBatchErrorCode::InvalidArgument);
    assert_eq!(batch_code(BatchRequestCounts::new(50_001, 0, 0)), ApiBatchErrorCode::LimitExceeded);
}

#[test]
fn transition_times_may_not_precede_creation() {
    let created = UnixInstant::from_unix_nanos(100);
    let transitions = BatchTimestampTransitions::new()
        .with_in_progress_at(Some(UnixInstant::from_unix_nanos(100)))
        .with_completed_at(Some(UnixInstant::from_unix_nanos(200)));
    let timestamps = BatchTimestamps::new(created, transitions).unwrap();
    assert_eq!(timestamps.completed_at().unwrap().unix_nanos(), 200);
    assert!(timestamps.failed_at().is_none());
    let early = BatchTimestampTransitions::new().with_cancelled_at(Some(UnixInstant::from_unix_nanos(99)));
    assert_eq!(batch_code(BatchTimestamps::new(created, early)), ApiBatchErrorCode::InvalidArgument);
}
