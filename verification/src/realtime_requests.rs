//! The requests of a Realtime runtime as its callers make them: the
//! caller's tenant and activity come first; then sessions are opened,
//! driven and closed in the session table, and a wait for the next event
//! holds one receiver lease until it answers.

use vstd::prelude::*;

use crate::domain::batch_timestamps::UnixInstant;
use crate::domain::error::{ApiDomainError, ApiDomainErrorCode};
use crate::domain::realtime::{
    RealtimeClientEvent, RealtimeOutboundEvent, RealtimeSessionDescriptor, RealtimeSessionDescriptorView,
    RealtimeSessionId, RealtimeSessionOpenRequest,
};
use crate::platform::{PrincipalContextView, RequestContext, TenantId};
use crate::realtime_runtime::pop_outcome;
use crate::realtime_runtime::{ApplyFailure, RealtimeFrameProjectorPort, RealtimeSessionQueueView, apply_outcome};
use crate::realtime_sessions::{
    MAX_LIVE_REALTIME_SESSIONS, NANOS_PER_SECOND, RealtimeSessionEntryView, RealtimeSessionTable, expired_at,
    expiry_retirement, fresh_queue, issued_session_id, live_at, only_queue_changed, only_session_changed, owned_lookup,
    retirements, session_index,
    session_expiry, with_session,
};

verus! {

/// The tenant a request acts for: a request without an authenticated
/// principal is `Unavailable`.
pub fn authenticated_tenant_identity(context: &RequestContext) -> (res: Result<&TenantId, ApiDomainError>)
    ensures
        match context@ {
            Some(p) => res matches Ok(t) && t@ == p.tenant_id,
            None => res == Err::<&TenantId, ApiDomainError>(ApiDomainError { code: ApiDomainErrorCode::Unavailable }),
        },
{
    match context.principal() {
        Some(p) => Ok(p.tenant_id()),
        None => Err(ApiDomainError::new(ApiDomainErrorCode::Unavailable)),
    }
}

/// The tenant an active request acts for: without a principal it is
/// `Unavailable`, and an inactive context fails with `context_failure`.
pub fn authenticated_active_tenant(context: &RequestContext, context_failure: Option<ApiDomainError>) -> (res: Result<
    &TenantId,
    ApiDomainError,
>)
    ensures
        match context@ {
            None => res == Err::<&TenantId, ApiDomainError>(ApiDomainError { code: ApiDomainErrorCode::Unavailable }),
            Some(p) => match context_failure {
                Some(e) => res == Err::<&TenantId, ApiDomainError>(e),
                None => res matches Ok(t) && t@ == p.tenant_id,
            },
        },
{
    let tenant = authenticated_tenant_identity(context)?;
    match context_failure {
        Some(e) => Err(e),
        None => Ok(tenant),
    }
}

/// Takes the next value of a runtime counter; an exhausted counter is
/// `ResourceExhausted` and stays as it is.
pub fn issue_counter(counter: &mut u64) -> (res: Result<u64, ApiDomainError>)
    ensures
        *old(counter) == u64::MAX ==> res == Err::<u64, ApiDomainError>(
            ApiDomainError { code: ApiDomainErrorCode::ResourceExhausted },
        ) && *final(counter) == *old(counter),
        *old(counter) < u64::MAX ==> res == Ok::<u64, ApiDomainError>(*old(counter)) && *final(counter) == *old(counter) + 1,
{
    if *counter == u64::MAX {
        return Err(ApiDomainError::new(ApiDomainErrorCode::ResourceExhausted));
    }
    let value = *counter;
    *counter = value + 1;
    Ok(value)
}

/// The failure a receiver lease reports once its session was retired; the
/// first failure recorded is the one that stays.
pub struct ReceiverSignal {
    terminal: Option<ApiDomainError>,
}

impl View for ReceiverSignal {
    type V = Option<ApiDomainError>;

    closed spec fn view(&self) -> Option<ApiDomainError> {
        self.terminal
    }
}

impl ReceiverSignal {
    /// A signal with no failure recorded.
    pub fn new() -> (res: Self)
        ensures
            res@ is None,
    {
        ReceiverSignal { terminal: None }
    }

    /// Records `error` unless a failure was already recorded.
    pub fn set_terminal(&mut self, error: ApiDomainError)
        ensures
            final(self)@ == match old(self)@ {
                Some(e) => Some(e),
                None => Some(error),
            },
    {
        if self.terminal.is_none() {
            self.terminal = Some(error);
        }
    }

    /// The recorded failure, if any.
    pub fn terminal_error(&self) -> (res: Option<ApiDomainError>)
        ensures
            res == self@,
    {
        self.terminal
    }
}

/// Answers one poll of a wait on behalf of the request `context`: the
/// request must act for an authenticated tenant and be active; a failure
/// recorded for the lease ends the wait; otherwise the session answers the
/// receiver holding `token` at `now` (`Ok(None)`: nothing yet, the receiver
/// now waits).
pub fn poll_session(
    table: &mut RealtimeSessionTable,
    id: &RealtimeSessionId,
    context: &RequestContext,
    context_failure: Option<ApiDomainError>,
    signal: &ReceiverSignal,
    now: UnixInstant,
    token: u64,
) -> (res: Result<Option<RealtimeOutboundEvent>, ApiDomainError>)
    ensures
        context@ is None ==> res == Err::<Option<RealtimeOutboundEvent>, ApiDomainError>(
            ApiDomainError { code: ApiDomainErrorCode::Unavailable },
        ) && final(table)@ == old(table)@ && final(table).retired() == old(table).retired(),
        context@ is Some && context_failure is Some ==> res == Err::<Option<RealtimeOutboundEvent>, ApiDomainError>(
            context_failure->0,
        ) && final(table)@ == old(table)@ && final(table).retired() == old(table).retired(),
        context@ is Some && context_failure is None && signal@ is Some ==> res == Err::<
            Option<RealtimeOutboundEvent>,
            ApiDomainError,
        >(signal@->0) && final(table)@ == old(table)@ && final(table).retired() == old(table).retired(),
        context@ is Some && context_failure is None && signal@ is None ==> (match owned_lookup(
            old(table)@,
            id@,
            context@->0.tenant_id,
            now@,
        ) {
            Err(code) => res == Err::<Option<RealtimeOutboundEvent>, ApiDomainError>(ApiDomainError { code }),
            Ok(i) => if old(table)@[i].waiting matches Some(t) && t != token {
                res == Err::<Option<RealtimeOutboundEvent>, ApiDomainError>(
                    ApiDomainError { code: ApiDomainErrorCode::Conflict },
                ) && final(table)@ == old(table)@
            } else {
                res matches Ok(o) && only_session_changed(old(table)@, final(table)@, i) && pop_outcome(
                    old(table)@[i].queue,
                    final(table)@[i].queue,
                    match o {
                        Some(e) => Some(e@),
                        None => None,
                    },
                ) && final(table)@[i].waiting == if o is Some {
                    None
                } else {
                    Some(token)
                }
            },
        }) && final(table).retired() == old(table).retired() + expiry_retirement(
            old(table)@,
            id@,
            context@->0.tenant_id,
            now@,
        ),
{
    let tenant = authenticated_active_tenant(context, context_failure)?;
    if let Some(e) = signal.terminal_error() {
        return Err(e);
    }
    table.next_event(id, tenant, now, token)
}

/// Opens a session for the caller at `now`: the request must act for an
/// active authenticated tenant, and its lifetime must end at a representable
/// instant (else `Internal`); expired sessions are reclaimed first, so they
/// never count against the capacity, and then the session is opened as by
/// [`RealtimeSessionTable::open_session`].
pub fn open_now(
    table: &mut RealtimeSessionTable,
    context: &RequestContext,
    context_failure: Option<ApiDomainError>,
    now: UnixInstant,
    next_session: &mut u64,
    request: RealtimeSessionOpenRequest,
) -> (res: Result<RealtimeSessionDescriptor, ApiDomainError>)
    ensures
        context@ is None ==> res == Err::<RealtimeSessionDescriptor, ApiDomainError>(
            ApiDomainError { code: ApiDomainErrorCode::Unavailable },
        ) && final(table)@ == old(table)@ && final(table).retired() == old(table).retired() && *final(next_session)
            == *old(next_session),
        context@ is Some && context_failure is Some ==> res == Err::<RealtimeSessionDescriptor, ApiDomainError>(
            context_failure->0,
        ) && final(table)@ == old(table)@ && final(table).retired() == old(table).retired() && *final(next_session)
            == *old(next_session),
        context@ is Some && context_failure is None && now@ + request@.lifetime@ * NANOS_PER_SECOND > i128::MAX ==> res
            == Err::<RealtimeSessionDescriptor, ApiDomainError>(ApiDomainError { code: ApiDomainErrorCode::Internal })
            && final(table)@ == old(table)@ && final(table).retired() == old(table).retired() && *final(next_session)
            == *old(next_session),
        context@ is Some && context_failure is None && now@ + request@.lifetime@ * NANOS_PER_SECOND <= i128::MAX ==> ({
            let live = old(table)@.filter(live_at(now@));
            &&& final(table).retired() == old(table).retired() + retirements(
                old(table)@.filter(expired_at(now@)),
                ApiDomainError { code: ApiDomainErrorCode::DeadlineExceeded },
            )
            &&& (live.len() >= MAX_LIVE_REALTIME_SESSIONS || *old(next_session) == u64::MAX ==> res == Err::<
                RealtimeSessionDescriptor,
                ApiDomainError,
            >(ApiDomainError { code: ApiDomainErrorCode::ResourceExhausted }) && final(table)@ == live
                && *final(next_session) == *old(next_session))
            &&& (live.len() < MAX_LIVE_REALTIME_SESSIONS && *old(next_session) < u64::MAX ==> *final(next_session)
                == *old(next_session) + 1 && (res matches Ok(d) && d@ == (RealtimeSessionDescriptorView {
                id: issued_session_id(*old(next_session) as nat),
                request: request@,
            }) && final(table)@ == with_session(
                live,
                RealtimeSessionEntryView {
                    id: issued_session_id(*old(next_session) as nat),
                    tenant: context@->0.tenant_id,
                    expires_at: now@ + request@.lifetime@ * NANOS_PER_SECOND,
                    queue: fresh_queue(),
                    waiting: None,
                },
            )))
        }),
{
    let tenant = authenticated_active_tenant(context, context_failure)?.clone();
    let expires_at = session_expiry(now, request.lifetime().seconds())?;
    let _reclaimed = table.reclaim_expired(now);
    table.open_session(tenant, expires_at, next_session, request)
}

/// Applies one client event for the caller at `now`: the request must act
/// for an active authenticated tenant; then the session applies it as by
/// [`RealtimeSessionTable::submit`].
pub fn submit_now<P: RealtimeFrameProjectorPort>(
    table: &mut RealtimeSessionTable,
    id: &RealtimeSessionId,
    context: &RequestContext,
    context_failure: Option<ApiDomainError>,
    now: UnixInstant,
    event: &RealtimeClientEvent,
    projector: &P,
    next_response: &mut u64,
) -> (res: Result<(), ApiDomainError>)
    ensures
        context@ is None ==> res == Err::<(), ApiDomainError>(ApiDomainError { code: ApiDomainErrorCode::Unavailable })
            && final(table)@ == old(table)@ && final(table).retired() == old(table).retired() && *final(next_response)
            == *old(next_response),
        context@ is Some && context_failure is Some ==> res == Err::<(), ApiDomainError>(context_failure->0)
            && final(table)@ == old(table)@ && final(table).retired() == old(table).retired() && *final(next_response)
            == *old(next_response),
        context@ is Some && context_failure is None ==> match owned_lookup(old(table)@, id@, context@->0.tenant_id, now@) {
            Err(code) => res == Err::<(), ApiDomainError>(ApiDomainError { code })
                && *final(next_response) == *old(next_response) && (if code == ApiDomainErrorCode::DeadlineExceeded {
                final(table)@ == old(table)@.remove(session_index(old(table)@, id@)->0)
            } else {
                final(table)@ == old(table)@
            }),
            Ok(i) => exists|applied: Result<(), ApplyFailure>|
                #[trigger] applied_answer(applied) == res && (exists|q: RealtimeSessionQueueView|
                    apply_outcome(
                        old(table)@[i].queue,
                        q,
                        applied,
                        *event,
                        *old(next_response),
                        *final(next_response),
                        *projector,
                    )) && (if applied matches Err(ApplyFailure::Projector(_)) {
                    final(table)@ == old(table)@.remove(i)
                } else {
                    only_queue_changed(old(table)@, final(table)@, i) && apply_outcome(
                        old(table)@[i].queue,
                        final(table)@[i].queue,
                        applied,
                        *event,
                        *old(next_response),
                        *final(next_response),
                        *projector,
                    )
                }),
        },
{
    let tenant = authenticated_active_tenant(context, context_failure)?;
    let applied = table.submit(id, tenant, now, event, projector, next_response);
    let res = match applied {
        Ok(()) => Ok(()),
        Err(ApplyFailure::Rejected(e)) => Err(e),
        Err(ApplyFailure::Projector(e)) => Err(e),
    };
    proof {
        assert(applied_answer(applied) == res);
    }
    res
}

/// What the caller of a submission is answered: the session's refusal or
/// the projector's failure, both as they were reported.
pub open spec fn applied_answer(applied: Result<(), ApplyFailure>) -> Result<(), ApiDomainError> {
    match applied {
        Ok(()) => Ok(()),
        Err(ApplyFailure::Rejected(e)) => Err(e),
        Err(ApplyFailure::Projector(e)) => Err(e),
    }
}

/// Closes a session for the caller: the request must act for an
/// authenticated tenant (an inactive one may still close), and the session
/// is closed as by [`RealtimeSessionTable::close`].
pub fn close_now(table: &mut RealtimeSessionTable, id: &RealtimeSessionId, context: &RequestContext) -> (res: Result<
    (),
    ApiDomainError,
>)
    ensures
        context@ is None ==> res == Err::<(), ApiDomainError>(ApiDomainError { code: ApiDomainErrorCode::Unavailable })
            && final(table)@ == old(table)@ && final(table).retired() == old(table).retired(),
        context@ is Some ==> match session_index(old(table)@, id@) {
            Some(i) => if old(table)@[i].tenant == context@->0.tenant_id {
                res is Ok && final(table)@ == old(table)@.remove(i)
            } else {
                res == Err::<(), ApiDomainError>(ApiDomainError { code: ApiDomainErrorCode::Unavailable }) && final(table)@
                    == old(table)@
            },
            None => res == Err::<(), ApiDomainError>(ApiDomainError { code: ApiDomainErrorCode::Unavailable })
                && final(table)@ == old(table)@,
        },
{
    let tenant = authenticated_tenant_identity(context)?;
    table.close(id, tenant)
}

/// Abstract state of one wait.
pub struct NextEventProgressView {
    /// The receiver lease token, once one was issued.
    pub lease: Option<u64>,
    /// Whether the wait has answered.
    pub complete: bool,
}

/// The progress of one wait for the next event: it takes one receiver lease
/// on its first poll and answers once.
pub struct NextEventProgress {
    lease: Option<u64>,
    complete: bool,
}

impl View for NextEventProgress {
    type V = NextEventProgressView;

    closed spec fn view(&self) -> NextEventProgressView {
        NextEventProgressView { lease: self.lease, complete: self.complete }
    }
}

/// What a wait does after a poll: answer, or stay pending; and whether the
/// receiver lease must be released from the session.
pub struct PollDecision {
    /// The answer, or `None` while the wait stays pending.
    pub answer: Option<Result<RealtimeOutboundEvent, ApiDomainError>>,
    /// The lease to release from the session, if any.
    pub release: Option<u64>,
}

impl NextEventProgress {
    /// A wait that has not polled yet.
    pub fn new() -> (res: Self)
        ensures
            res@ == (NextEventProgressView { lease: None, complete: false }),
    {
        NextEventProgress { lease: None, complete: false }
    }

    /// Begins a poll and returns the lease to poll with: an answered wait is
    /// `Internal`; the first poll takes the next receiver token, and an
    /// exhausted counter ends the wait with `ResourceExhausted`.
    pub fn begin_poll(&mut self, next_receiver: &mut u64) -> (res: Result<u64, ApiDomainError>)
        ensures
            old(self)@.complete ==> res == Err::<u64, ApiDomainError>(ApiDomainError { code: ApiDomainErrorCode::Internal })
                && final(self)@ == old(self)@ && *final(next_receiver) == *old(next_receiver),
            !old(self)@.complete && old(self)@.lease is Some ==> res == Ok::<u64, ApiDomainError>(old(self)@.lease->0)
                && final(self)@ == old(self)@ && *final(next_receiver) == *old(next_receiver),
            !old(self)@.complete && old(self)@.lease is None && *old(next_receiver) == u64::MAX ==> res == Err::<
                u64,
                ApiDomainError,
            >(ApiDomainError { code: ApiDomainErrorCode::ResourceExhausted }) && final(self)@ == (NextEventProgressView {
                lease: None,
                complete: true,
            }) && *final(next_receiver) == *old(next_receiver),
            !old(self)@.complete && old(self)@.lease is None && *old(next_receiver) < u64::MAX ==> res == Ok::<
                u64,
                ApiDomainError,
            >(*old(next_receiver)) && final(self)@ == (NextEventProgressView {
                lease: Some(*old(next_receiver)),
                complete: false,
            }) && *final(next_receiver) == *old(next_receiver) + 1,
    {
        if self.complete {
            return Err(ApiDomainError::new(ApiDomainErrorCode::Internal));
        }
        match self.lease {
            Some(t) => Ok(t),
            None => match issue_counter(next_receiver) {
                Ok(t) => {
                    self.lease = Some(t);
                    Ok(t)
                },
                Err(e) => {
                    self.complete = true;
                    Err(e)
                },
            },
        }
    }

    /// Finishes a poll with the session's answer (`None`: nothing yet) and,
    /// when nothing came, the outcome of starting the wake-up timer: an
    /// answer, or a timer that could not start, completes the wait and
    /// releases its lease; otherwise the wait stays pending.
    pub fn finish_poll(&mut self, answer: Option<Result<RealtimeOutboundEvent, ApiDomainError>>, timer: Result<
        (),
        ApiDomainError,
    >) -> (res: PollDecision)
        ensures
            match answer {
                Some(a) => res.answer == Some(a) && res.release == old(self)@.lease && final(self)@.complete,
                None => match timer {
                    Ok(()) => res.answer is None && res.release is None && final(self)@ == old(self)@,
                    Err(e) => res.answer == Some(Err::<RealtimeOutboundEvent, ApiDomainError>(e)) && res.release
                        == old(self)@.lease && final(self)@.complete,
                },
            },
            final(self)@.lease == old(self)@.lease,
    {
        match answer {
            Some(a) => {
                self.complete = true;
                PollDecision { answer: Some(a), release: self.lease }
            },
            None => match timer {
                Ok(()) => PollDecision { answer: None, release: None },
                Err(e) => {
                    self.complete = true;
                    PollDecision { answer: Some(Err(e)), release: self.lease }
                },
            },
        }
    }

    /// The lease an abandoned wait must release: its lease unless it
    /// already answered.
    pub fn abandon(&self) -> (res: Option<u64>)
        ensures
            res == if self@.complete {
                None
            } else {
                self@.lease
            },
    {
        if self.complete {
            None
        } else {
            self.lease
        }
    }
}

} // verus!
