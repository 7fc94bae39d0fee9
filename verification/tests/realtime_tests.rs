use ariadnion_api::domain::batch_timestamps::UnixInstant;
use ariadnion_api::domain::error::{ApiDomainError, ApiDomainErrorCode};
use ariadnion_api::domain::realtime::{
    RealtimeClientEvent, RealtimeConversationItem, RealtimeInputContent, RealtimeInputText,
    RealtimeResponseCancel, RealtimeResponseCreate, RealtimeResponseFinishReason, RealtimeResponseId,
    RealtimeServerEvent, RealtimeSessionId, RealtimeSessionLifetime, RealtimeSessionOpenRequest,
    RealtimeSessionUpdate, RealtimeTextFrame,
};
use ariadnion_api::domain::realtime_state::RealtimeSessionState;
use ariadnion_api::domain::request::{ModelSelector, OutputTokenLimit};
use ariadnion_api::platform::TenantId;
use ariadnion_api::realtime_runtime::{
    ApplyFailure, RealtimeFrameProjectorPort, RealtimeSessionQueue, initial_response_events,
    issue_response_id, matches_response,
};
use ariadnion_api::realtime_sessions::{RealtimeSessionTable, session_expiry};
use ariadnion_api::realtime_requests::{
    NextEventProgress, ReceiverSignal, authenticated_active_tenant, close_now, issue_counter, open_now, poll_session,
    submit_now,
};
use ariadnion_api::platform::{PrincipalContext, PrincipalId, RequestContext};

struct FixedProjector;

impl RealtimeFrameProjectorPort for FixedProjector {
    fn project(&self, _event: &RealtimeServerEvent) -> Result<RealtimeTextFrame, ApiDomainError> {
        RealtimeTextFrame::new("{\"type\":\"event\"}")
    }
}

struct FailingProjector;

impl RealtimeFrameProjectorPort for FailingProjector {
    fn project(&self, _event: &RealtimeServerEvent) -> Result<RealtimeTextFrame, ApiDomainError> {
        Err(ApiDomainError::new(ApiDomainErrorCode::Internal))
    }
}

fn open_request() -> RealtimeSessionOpenRequest {
    RealtimeSessionOpenRequest::new(
        ModelSelector::new("model-a").unwrap(),
        RealtimeSessionLifetime::new(60).unwrap(),
        OutputTokenLimit::new(100).unwrap(),
    )
}

fn text_item(text: &str) -> RealtimeConversationItem {
    RealtimeConversationItem::new(vec![RealtimeInputContent::text(
        RealtimeInputText::new(text).unwrap(),
    )])
    .unwrap()
}

fn response_of(event: &RealtimeServerEvent) -> Option<&str> {
    match event {
        RealtimeServerEvent::ResponseCreated(id)
        | RealtimeServerEvent::ResponseOutputItemAdded(id)
        | RealtimeServerEvent::ResponseContentPartAdded(id)
        | RealtimeServerEvent::ResponseOutputTextDone(id)
        | RealtimeServerEvent::ResponseContentPartDone(id)
        | RealtimeServerEvent::ResponseOutputItemDone(id) => Some(id.as_str()),
        RealtimeServerEvent::ResponseDone { response_id, .. } => Some(response_id.as_str()),
        _ => None,
    }
}

#[test]
fn lifetimes_are_bounded_to_one_hour() {
    assert!(RealtimeSessionLifetime::new(3600).is_ok());
    assert_eq!(
        RealtimeSessionLifetime::new(0).error().code(),
        ApiDomainErrorCode::InvalidArgument
    );
    assert!(RealtimeSessionLifetime::new(3601).is_err());
}

#[test]
fn session_expiry_is_lifetime_seconds_after_now() {
    let now = UnixInstant::from_unix_nanos(5);
    assert_eq!(session_expiry(now, 60).unwrap().unix_nanos(), 60_000_000_005);
    let late = UnixInstant::from_unix_nanos(i128::MAX - 1);
    assert_eq!(session_expiry(late, 1).error().code(), ApiDomainErrorCode::Internal);
}

#[test]
fn response_identifiers_are_decimal_counter_values() {
    let mut next = 41u64;
    let id = issue_response_id(&mut next).unwrap();
    assert_eq!(id.as_str(), "rt-response-41");
    assert_eq!(next, 42);
    let mut exhausted = u64::MAX;
    match issue_response_id(&mut exhausted) {
        Err(ApplyFailure::Rejected(error)) => {
            assert_eq!(error.code(), ApiDomainErrorCode::ResourceExhausted)
        }
        _ => panic!("expected exhaustion"),
    }
    assert_eq!(exhausted, u64::MAX);
}

#[test]
fn a_response_emits_seven_ordered_events_ending_completed() {
    let id = RealtimeResponseId::new("rt-response-1").unwrap();
    let events = initial_response_events(id.clone());
    assert_eq!(events.len(), 7);
    assert!(matches!(events[0], RealtimeServerEvent::ResponseCreated(_)));
    assert!(matches!(
        events[6],
        RealtimeServerEvent::ResponseDone { finish_reason: RealtimeResponseFinishReason::Completed, .. }
    ));
    assert!(events.iter().all(|event| matches_response(event, &id)));
    let other = RealtimeResponseId::new("rt-response-2").unwrap();
    assert!(!matches_response(&events[3], &other));
}

#[test]
fn only_one_response_is_active_at_a_time() {
    let mut state = RealtimeSessionState::new();
    state.start_response(RealtimeResponseId::new("r1").unwrap()).unwrap();
    assert_eq!(state.active_response().unwrap().as_str(), "r1");
    let second = state.start_response(RealtimeResponseId::new("r2").unwrap());
    assert_eq!(second.error().code(), ApiDomainErrorCode::Conflict);
    state.finish_response(&RealtimeResponseId::new("r1").unwrap()).unwrap();
    assert!(state.active_response().is_none());
    state.start_response(RealtimeResponseId::new("r2").unwrap()).unwrap();
}

#[test]
fn closed_state_refuses_every_operation() {
    let mut state = RealtimeSessionState::new();
    state.accept_conversation_item(&text_item("hello")).unwrap();
    assert_eq!(state.conversation_items(), 1);
    assert_eq!(state.accepted_text_bytes(), 5);
    state.close();
    assert!(state.is_closed());
    assert!(state.accept_conversation_item(&text_item("more")).is_err());
    assert!(state.start_response(RealtimeResponseId::new("r1").unwrap()).is_err());
    assert_eq!(state.conversation_items(), 1);
}

#[test]
fn queue_delivers_a_response_in_order_and_then_accepts_another() {
    let mut queue = RealtimeSessionQueue::new();
    let mut next = 1u64;
    let create = RealtimeClientEvent::ResponseCreate(RealtimeResponseCreate::new(None));
    queue.apply(&create, &FixedProjector, &mut next).unwrap();
    assert_eq!(queue.queued(), 7);
    assert_eq!(next, 2);
    // A second response cannot start while the first is active; the
    // identifier it was issued is spent.
    match queue.apply(&create, &FixedProjector, &mut next) {
        Err(ApplyFailure::Rejected(error)) => assert_eq!(error.code(), ApiDomainErrorCode::Conflict),
        _ => panic!("expected a conflict"),
    }
    assert_eq!(next, 3);
    assert_eq!(queue.queued(), 7);
    let mut seen = Vec::new();
    while let Some(event) = queue.pop_next() {
        seen.push(response_of(event.event()).map(str::to_owned));
    }
    assert_eq!(seen.len(), 7);
    assert!(seen.iter().all(|id| id.as_deref() == Some("rt-response-1")));
    assert!(queue.state().active_response().is_none());
    queue.apply(&create, &FixedProjector, &mut next).unwrap();
    assert_eq!(queue.state().active_response().unwrap().as_str(), "rt-response-3");
}

#[test]
fn cancel_replaces_pending_response_events_with_one_cancelled_done() {
    let mut queue = RealtimeSessionQueue::new();
    let mut next = 1u64;
    queue
        .apply(
            &RealtimeClientEvent::SessionUpdate(RealtimeSessionUpdate::text_only()),
            &FixedProjector,
            &mut next,
        )
        .unwrap();
    queue
        .apply(
            &RealtimeClientEvent::ResponseCreate(RealtimeResponseCreate::new(None)),
            &FixedProjector,
            &mut next,
        )
        .unwrap();
    assert_eq!(queue.queued(), 8);
    queue
        .apply(
            &RealtimeClientEvent::ResponseCancel(RealtimeResponseCancel::new(None)),
            &FixedProjector,
            &mut next,
        )
        .unwrap();
    assert_eq!(queue.queued(), 2);
    let first = queue.pop_next().unwrap();
    assert!(matches!(first.event(), RealtimeServerEvent::SessionUpdated));
    let done = queue.pop_next().unwrap();
    assert!(matches!(
        done.event(),
        RealtimeServerEvent::ResponseDone { finish_reason: RealtimeResponseFinishReason::Cancelled, .. }
    ));
    assert!(queue.pop_next().is_none());
    assert!(queue.state().active_response().is_none());
}

#[test]
fn cancelling_without_an_active_response_is_a_conflict() {
    let mut queue = RealtimeSessionQueue::new();
    let mut next = 1u64;
    let cancel = RealtimeClientEvent::ResponseCancel(RealtimeResponseCancel::new(None));
    match queue.apply(&cancel, &FixedProjector, &mut next) {
        Err(ApplyFailure::Rejected(error)) => assert_eq!(error.code(), ApiDomainErrorCode::Conflict),
        _ => panic!("expected a conflict"),
    }
    assert_eq!(queue.queued(), 0);
}

#[test]
fn projector_failure_is_reported_as_such() {
    let mut queue = RealtimeSessionQueue::new();
    let mut next = 1u64;
    let update = RealtimeClientEvent::SessionUpdate(RealtimeSessionUpdate::text_only());
    match queue.apply(&update, &FailingProjector, &mut next) {
        Err(ApplyFailure::Projector(error)) => assert_eq!(error.code(), ApiDomainErrorCode::Internal),
        _ => panic!("expected a projector failure"),
    }
}

#[test]
fn the_last_counter_values_still_issue_identifiers() {
    let mut next = u64::MAX - 1;
    let id = issue_response_id(&mut next).unwrap();
    assert_eq!(id.as_str(), "rt-response-18446744073709551614");
    assert_eq!(next, u64::MAX);
    let mut table = RealtimeSessionTable::new();
    let mut next_session = u64::MAX - 1;
    let expires = UnixInstant::from_unix_nanos(1_000);
    let descriptor = table
        .open_session(TenantId::new("tenant-a"), expires, &mut next_session, open_request())
        .unwrap();
    assert_eq!(descriptor.id().as_str(), "rt-session-18446744073709551614");
    assert_eq!(next_session, u64::MAX);
    let refused = table.open_session(TenantId::new("tenant-a"), expires, &mut next_session, open_request());
    assert_eq!(refused.error().code(), ApiDomainErrorCode::ResourceExhausted);
    assert_eq!(table.len(), 1);
}

#[test]
fn sessions_are_isolated_by_tenant_and_expire() {
    let mut table = RealtimeSessionTable::new();
    let mut next_session = 1u64;
    let mut next_response = 1u64;
    let tenant = TenantId::new("tenant-a");
    let stranger = TenantId::new("tenant-b");
    let opened_at = UnixInstant::from_unix_nanos(0);
    let expires = session_expiry(opened_at, 60).unwrap();
    let descriptor = table
        .open_session(tenant.clone(), expires, &mut next_session, open_request())
        .unwrap();
    assert_eq!(descriptor.id().as_str(), "rt-session-1");
    assert_eq!(next_session, 2);
    assert_eq!(table.len(), 1);
    let id = RealtimeSessionId::new(descriptor.id().as_str()).unwrap();
    let now = UnixInstant::from_unix_nanos(1);
    let update = RealtimeClientEvent::SessionUpdate(RealtimeSessionUpdate::text_only());

    // Another tenant sees the session as unavailable, exactly like a missing one.
    match table.submit(&id, &stranger, now, &update, &FixedProjector, &mut next_response) {
        Err(ApplyFailure::Rejected(error)) => assert_eq!(error.code(), ApiDomainErrorCode::Unavailable),
        _ => panic!("expected refusal"),
    }
    let missing = RealtimeSessionId::new("rt-session-9").unwrap();
    assert_eq!(
        table.next_event(&missing, &tenant, now, 1).error().code(),
        ApiDomainErrorCode::Unavailable
    );
    assert_eq!(
        table.next_event(&id, &stranger, now, 1).error().code(),
        ApiDomainErrorCode::Unavailable
    );

    table
        .submit(&id, &tenant, now, &update, &FixedProjector, &mut next_response)
        .unwrap();
    let event = table.next_event(&id, &tenant, now, 1).unwrap().unwrap();
    assert!(matches!(event.event(), RealtimeServerEvent::SessionUpdated));
    assert!(table.next_event(&id, &tenant, now, 1).unwrap().is_none());

    // At the deadline the session is gone.
    assert_eq!(
        table.next_event(&id, &tenant, expires, 2).error().code(),
        ApiDomainErrorCode::DeadlineExceeded
    );
    assert_eq!(table.len(), 0);
    // The receiver that was waiting learns why its session ended.
    let retired = table.take_retired();
    assert_eq!(retired.len(), 1);
    assert_eq!(retired[0].0, 1);
    assert_eq!(retired[0].1.code(), ApiDomainErrorCode::DeadlineExceeded);
    assert!(table.take_retired().is_empty());
}

#[test]
fn close_and_reclaim_remove_only_the_right_sessions() {
    let mut table = RealtimeSessionTable::new();
    let mut next_session = 1u64;
    let tenant = TenantId::new("tenant-a");
    let early = UnixInstant::from_unix_nanos(10);
    let late = UnixInstant::from_unix_nanos(20);
    let first = table.open_session(tenant.clone(), early, &mut next_session, open_request()).unwrap();
    let second = table.open_session(tenant.clone(), late, &mut next_session, open_request()).unwrap();
    let third = table.open_session(tenant.clone(), late, &mut next_session, open_request()).unwrap();
    assert_eq!(table.len(), 3);

    let stranger = TenantId::new("tenant-b");
    let third_id = RealtimeSessionId::new(third.id().as_str()).unwrap();
    assert_eq!(
        table.close(&third_id, &stranger).error().code(),
        ApiDomainErrorCode::Unavailable
    );
    table.close(&third_id, &tenant).unwrap();
    assert_eq!(table.len(), 2);

    let reclaimed = table.reclaim_expired(UnixInstant::from_unix_nanos(15));
    assert_eq!(reclaimed.len(), 1);
    assert_eq!(reclaimed[0].as_str(), first.id().as_str());
    assert_eq!(table.len(), 1);
    let second_id = RealtimeSessionId::new(second.id().as_str()).unwrap();
    assert!(table.next_event(&second_id, &tenant, UnixInstant::from_unix_nanos(15), 1).is_ok());
}

#[test]
fn the_table_holds_at_most_256_sessions() {
    let mut table = RealtimeSessionTable::new();
    let mut next_session = 1u64;
    let tenant = TenantId::new("tenant-a");
    let expires = UnixInstant::from_unix_nanos(1_000);
    for _ in 0..256 {
        table.open_session(tenant.clone(), expires, &mut next_session, open_request()).unwrap();
    }
    let refused = table.open_session(tenant.clone(), expires, &mut next_session, open_request());
    assert_eq!(refused.error().code(), ApiDomainErrorCode::ResourceExhausted);
    assert_eq!(next_session, 257);
    assert_eq!(table.len(), 256);
}

#[test]
fn one_receiver_waits_per_session() {
    let mut table = RealtimeSessionTable::new();
    let mut next_session = 1u64;
    let mut next_response = 1u64;
    let tenant = TenantId::new("tenant-a");
    let expires = UnixInstant::from_unix_nanos(1_000);
    let descriptor = table.open_session(tenant.clone(), expires, &mut next_session, open_request()).unwrap();
    let id = RealtimeSessionId::new(descriptor.id().as_str()).unwrap();
    let now = UnixInstant::from_unix_nanos(1);

    // With nothing queued the first receiver registers and waits.
    assert!(table.next_event(&id, &tenant, now, 7).unwrap().is_none());
    assert_eq!(table.waiting_receivers(), vec![7]);
    // A second receiver is refused while the first waits.
    assert_eq!(table.next_event(&id, &tenant, now, 8).error().code(), ApiDomainErrorCode::Conflict);
    // Releasing another lease changes nothing; releasing the waiting one frees the session.
    table.release_receiver(&id, 8);
    assert_eq!(table.waiting_receivers(), vec![7]);
    table.release_receiver(&id, 7);
    assert!(table.waiting_receivers().is_empty());
    assert!(table.next_event(&id, &tenant, now, 8).unwrap().is_none());

    // A delivered event releases the receiver.
    let update = RealtimeClientEvent::SessionUpdate(RealtimeSessionUpdate::text_only());
    table.submit(&id, &tenant, now, &update, &FixedProjector, &mut next_response).unwrap();
    assert!(table.next_event(&id, &tenant, now, 8).unwrap().is_some());
    assert!(table.waiting_receivers().is_empty());

    // Closing tells the waiting receiver the session is unavailable.
    assert!(table.next_event(&id, &tenant, now, 9).unwrap().is_none());
    table.close(&id, &tenant).unwrap();
    let retired = table.take_retired();
    assert_eq!(retired.len(), 1);
    assert_eq!(retired[0].0, 9);
    assert_eq!(retired[0].1.code(), ApiDomainErrorCode::Unavailable);
}

#[test]
fn a_failing_projector_retires_the_waiting_receiver_with_its_failure() {
    let mut table = RealtimeSessionTable::new();
    let mut next_session = 1u64;
    let mut next_response = 1u64;
    let tenant = TenantId::new("tenant-a");
    let descriptor = table
        .open_session(tenant.clone(), UnixInstant::from_unix_nanos(1_000), &mut next_session, open_request())
        .unwrap();
    let id = RealtimeSessionId::new(descriptor.id().as_str()).unwrap();
    let now = UnixInstant::from_unix_nanos(1);
    assert!(table.next_event(&id, &tenant, now, 3).unwrap().is_none());
    let update = RealtimeClientEvent::SessionUpdate(RealtimeSessionUpdate::text_only());
    match table.submit(&id, &tenant, now, &update, &FailingProjector, &mut next_response) {
        Err(ApplyFailure::Projector(error)) => assert_eq!(error.code(), ApiDomainErrorCode::Internal),
        _ => panic!("expected a projector failure"),
    }
    assert_eq!(table.len(), 0);
    let retired = table.take_retired();
    assert_eq!(retired.len(), 1);
    assert_eq!((retired[0].0, retired[0].1.code()), (3, ApiDomainErrorCode::Internal));
}

#[test]
fn reclaiming_retires_waiting_receivers_in_order() {
    let mut table = RealtimeSessionTable::new();
    let mut next_session = 1u64;
    let tenant = TenantId::new("tenant-a");
    let a = table.open_session(tenant.clone(), UnixInstant::from_unix_nanos(10), &mut next_session, open_request()).unwrap();
    let b = table.open_session(tenant.clone(), UnixInstant::from_unix_nanos(10), &mut next_session, open_request()).unwrap();
    let now = UnixInstant::from_unix_nanos(1);
    let a_id = RealtimeSessionId::new(a.id().as_str()).unwrap();
    let b_id = RealtimeSessionId::new(b.id().as_str()).unwrap();
    assert!(table.next_event(&b_id, &tenant, now, 20).unwrap().is_none());
    assert!(table.next_event(&a_id, &tenant, now, 10).unwrap().is_none());
    let reclaimed = table.reclaim_expired(UnixInstant::from_unix_nanos(10));
    assert_eq!(reclaimed.len(), 2);
    let retired = table.take_retired();
    assert_eq!(retired.iter().map(|(t, e)| (*t, e.code())).collect::<Vec<_>>(), vec![
        (10, ApiDomainErrorCode::DeadlineExceeded),
        (20, ApiDomainErrorCode::DeadlineExceeded),
    ]);
}

fn principal_context(tenant: &str) -> RequestContext {
    RequestContext::authenticated(PrincipalContext::new(TenantId::new(tenant), PrincipalId::new("user-1")))
}

#[test]
fn a_poll_needs_an_active_authenticated_tenant_and_no_recorded_failure() {
    let mut table = RealtimeSessionTable::new();
    let mut next_session = 1u64;
    let tenant = TenantId::new("tenant-a");
    let descriptor = table
        .open_session(tenant.clone(), UnixInstant::from_unix_nanos(1_000), &mut next_session, open_request())
        .unwrap();
    let id = RealtimeSessionId::new(descriptor.id().as_str()).unwrap();
    let now = UnixInstant::from_unix_nanos(1);
    let signal = ReceiverSignal::new();

    let anonymous = RequestContext::anonymous();
    assert_eq!(
        poll_session(&mut table, &id, &anonymous, None, &signal, now, 1).error().code(),
        ApiDomainErrorCode::Unavailable
    );
    let context = principal_context("tenant-a");
    let cancelled = ApiDomainError::new(ApiDomainErrorCode::Cancelled);
    assert_eq!(
        poll_session(&mut table, &id, &context, Some(cancelled), &signal, now, 1).error().code(),
        ApiDomainErrorCode::Cancelled
    );
    assert!(poll_session(&mut table, &id, &context, None, &signal, now, 1).unwrap().is_none());

    let mut ended = ReceiverSignal::new();
    ended.set_terminal(ApiDomainError::new(ApiDomainErrorCode::DeadlineExceeded));
    ended.set_terminal(ApiDomainError::new(ApiDomainErrorCode::Unavailable));
    assert_eq!(ended.terminal_error().unwrap().code(), ApiDomainErrorCode::DeadlineExceeded);
    assert_eq!(
        poll_session(&mut table, &id, &context, None, &ended, now, 1).error().code(),
        ApiDomainErrorCode::DeadlineExceeded
    );
    assert_eq!(
        authenticated_active_tenant(&principal_context("tenant-b"), None).unwrap().as_str(),
        "tenant-b"
    );
}

#[test]
fn a_wait_takes_one_lease_and_answers_once() {
    let mut next_receiver = 5u64;
    let mut wait = NextEventProgress::new();
    assert_eq!(wait.begin_poll(&mut next_receiver).unwrap(), 5);
    assert_eq!(next_receiver, 6);
    // Nothing yet and the timer runs: the wait stays pending with its lease.
    let pending = wait.finish_poll(None, Ok(()));
    assert!(pending.answer.is_none());
    assert!(pending.release.is_none());
    assert_eq!(wait.begin_poll(&mut next_receiver).unwrap(), 5);
    assert_eq!(next_receiver, 6);
    assert_eq!(wait.abandon(), Some(5));
    // A timer that cannot start ends the wait and releases the lease.
    let failed = wait.finish_poll(None, Err(ApiDomainError::new(ApiDomainErrorCode::Unavailable)));
    assert_eq!(failed.release, Some(5));
    assert_eq!(failed.answer.unwrap().error().code(), ApiDomainErrorCode::Unavailable);
    assert_eq!(wait.abandon(), None);
    assert_eq!(wait.begin_poll(&mut next_receiver).error().code(), ApiDomainErrorCode::Internal);

    let mut exhausted = u64::MAX;
    let mut other = NextEventProgress::new();
    assert_eq!(other.begin_poll(&mut exhausted).error().code(), ApiDomainErrorCode::ResourceExhausted);
    assert_eq!(other.abandon(), None);
    let mut counter = 41u64;
    assert_eq!(issue_counter(&mut counter).unwrap(), 41);
    assert_eq!(counter, 42);
}

trait ExpectError<E> {
    fn error(self) -> E;
}

impl<T, E> ExpectError<E> for Result<T, E> {
    fn error(self) -> E {
        match self {
            Ok(_) => panic!("expected an error"),
            Err(error) => error,
        }
    }
}

#[test]
fn opening_reclaims_expired_sessions_before_counting_capacity() {
    let mut table = RealtimeSessionTable::new();
    let mut next_session = 1u64;
    let context = principal_context("tenant-a");
    let start = UnixInstant::from_unix_nanos(0);
    for _ in 0..256 {
        open_now(&mut table, &context, None, start, &mut next_session, open_request()).unwrap();
    }
    assert_eq!(
        open_now(&mut table, &context, None, start, &mut next_session, open_request()).error().code(),
        ApiDomainErrorCode::ResourceExhausted
    );
    // Sixty seconds later every session has expired and makes room.
    let later = UnixInstant::from_unix_nanos(60_000_000_000);
    let descriptor = open_now(&mut table, &context, None, later, &mut next_session, open_request()).unwrap();
    assert_eq!(table.len(), 1);
    let id = RealtimeSessionId::new(descriptor.id().as_str()).unwrap();
    let update = RealtimeClientEvent::SessionUpdate(RealtimeSessionUpdate::text_only());
    let mut next_response = 1u64;
    let stranger = principal_context("tenant-b");
    assert_eq!(
        submit_now(&mut table, &id, &stranger, None, later, &update, &FixedProjector, &mut next_response)
            .error()
            .code(),
        ApiDomainErrorCode::Unavailable
    );
    submit_now(&mut table, &id, &context, None, later, &update, &FixedProjector, &mut next_response).unwrap();
    assert_eq!(close_now(&mut table, &id, &RequestContext::anonymous()).error().code(), ApiDomainErrorCode::Unavailable);
    close_now(&mut table, &id, &context).unwrap();
    assert_eq!(table.len(), 0);
    assert_eq!(
        open_now(&mut table, &RequestContext::anonymous(), None, later, &mut next_session, open_request()).error().code(),
        ApiDomainErrorCode::Unavailable
    );
}

#[test]
fn session_counters_sum_the_accepted_items() {
    let mut state = RealtimeSessionState::new();
    assert!(state.accept_conversation_item(&text_item("hello")).is_ok());
    assert!(state.accept_conversation_item(&text_item("abc")).is_ok());
    let id = RealtimeResponseId::new("rt-response-1").unwrap();
    assert!(state.start_response(id).is_ok());
    assert!(state.accept_conversation_item(&text_item("xy")).is_ok());
    assert_eq!(state.conversation_items(), 3);
    assert_eq!(state.accepted_text_bytes(), 10);
    state.close();
    assert!(state.accept_conversation_item(&text_item("ignored")).is_err());
    assert_eq!(state.conversation_items(), 3);
    assert_eq!(state.accepted_text_bytes(), 10);
    assert!(state.active_response().is_none());
}
