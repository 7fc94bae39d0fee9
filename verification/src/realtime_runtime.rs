//! Runtime-owned Realtime session queues, without protocol grammar or transport I/O.

use vstd::prelude::*;
use std::collections::VecDeque;

use crate::domain::error::{ApiDomainError, ApiDomainErrorCode, conflict};
use crate::text::{decimal_text, prefixed_decimal};
use crate::domain::realtime::{
    MAX_REALTIME_OUTBOUND_QUEUE_EVENTS, RealtimeClientEvent, RealtimeOutboundEvent, RealtimeOutboundEventView,
    RealtimeConversationItem, RealtimeResponseCancel, RealtimeResponseFinishReason, RealtimeResponseId, RealtimeServerEvent, RealtimeTextFrame,
    content_parts_bytes, lemma_counter_runtime_id,
    optional_response_ref_view,
};
use crate::domain::realtime_state::{
    RealtimeSessionState, RealtimeSessionStateView, accept_item_transition, cancel_target, close_transition,
    finish_response_transition, lemma_transitions_keep_bounds, session_state_bounded, start_response_transition,
};

verus! {

/// Number of outbound events one started response queues.
pub const RESPONSE_EVENT_COUNT: usize = 7;

/// Projects one semantic runtime event into an already bounded protocol frame.
///
/// The runtime owns queue capacity and lifecycle order, while the injected
/// projector owns the public protocol grammar. A projector must be pure for a
/// given event and must not perform transport I/O.
pub trait RealtimeFrameProjectorPort {
    /// The frame text, or the redacted error, that this projector gives for
    /// `event`; a projector is pure, so it gives the same for the same event.
    /// A verified implementation defines it; nothing is known of the default.
    closed spec fn projection(&self, event: RealtimeServerEvent) -> Result<Seq<char>, ApiDomainError> {
        arbitrary()
    }

    /// Creates the exact bounded protocol frame for one semantic event, or a
    /// redacted error when the protocol cannot represent it.
    fn project(&self, event: &RealtimeServerEvent) -> (res: Result<RealtimeTextFrame, ApiDomainError>)
        ensures
            match res {
                Ok(frame) => self.projection(*event) == Ok::<Seq<char>, ApiDomainError>(frame@),
                Err(e) => self.projection(*event) == Err::<Seq<char>, ApiDomainError>(e),
            },
    ;
}

/// Why one submitted client event was not applied.
#[derive(Clone, Copy, Debug, PartialEq, Eq, Structural)]
pub enum ApplyFailure {
    /// The session rules refused the event; the session stays usable.
    Rejected(ApiDomainError),
    /// The projector could not represent an event; the session must close.
    Projector(ApiDomainError),
}

/// The response a server event belongs to, if any.
pub open spec fn event_response_id(event: RealtimeServerEvent) -> Option<Seq<char>> {
    match event {
        RealtimeServerEvent::ResponseCreated(id) => Some(id@),
        RealtimeServerEvent::ResponseOutputItemAdded(id) => Some(id@),
        RealtimeServerEvent::ResponseContentPartAdded(id) => Some(id@),
        RealtimeServerEvent::ResponseOutputTextDone(id) => Some(id@),
        RealtimeServerEvent::ResponseContentPartDone(id) => Some(id@),
        RealtimeServerEvent::ResponseOutputItemDone(id) => Some(id@),
        RealtimeServerEvent::ResponseOutputTextDelta { response_id, .. } => Some(response_id@),
        RealtimeServerEvent::ResponseDone { response_id, .. } => Some(response_id@),
        _ => None,
    }
}

/// Reports whether `event` belongs to the response `response_id`.
pub fn matches_response(event: &RealtimeServerEvent, response_id: &RealtimeResponseId) -> (res: bool)
    ensures
        res == (event_response_id(*event) == Some(response_id@)),
{
    match event {
        RealtimeServerEvent::ResponseCreated(value) | RealtimeServerEvent::ResponseOutputItemAdded(value)
        | RealtimeServerEvent::ResponseContentPartAdded(value) | RealtimeServerEvent::ResponseOutputTextDone(value)
        | RealtimeServerEvent::ResponseContentPartDone(value) | RealtimeServerEvent::ResponseOutputItemDone(value) =>
            value.same_id(response_id),
        RealtimeServerEvent::ResponseOutputTextDelta { response_id: value, .. } => value.same_id(response_id),
        RealtimeServerEvent::ResponseDone { response_id: value, .. } => value.same_id(response_id),
        _ => false,
    }
}

/// Whether `e` is the `k`-th event of the lifecycle of response `id`:
/// created, output item added, content part added, output text done,
/// content part done, output item done, and done as completed.
pub open spec fn is_initial_response_event(id: Seq<char>, k: int, e: RealtimeServerEvent) -> bool {
    if k == 0 {
        e matches RealtimeServerEvent::ResponseCreated(r) && r@ == id
    } else if k == 1 {
        e matches RealtimeServerEvent::ResponseOutputItemAdded(r) && r@ == id
    } else if k == 2 {
        e matches RealtimeServerEvent::ResponseContentPartAdded(r) && r@ == id
    } else if k == 3 {
        e matches RealtimeServerEvent::ResponseOutputTextDone(r) && r@ == id
    } else if k == 4 {
        e matches RealtimeServerEvent::ResponseContentPartDone(r) && r@ == id
    } else if k == 5 {
        e matches RealtimeServerEvent::ResponseOutputItemDone(r) && r@ == id
    } else {
        e matches RealtimeServerEvent::ResponseDone { response_id, finish_reason } && response_id@ == id
            && finish_reason == RealtimeResponseFinishReason::Completed
    }
}

/// The seven lifecycle events of one text response, in order.
pub fn initial_response_events(response_id: RealtimeResponseId) -> (res: Vec<RealtimeServerEvent>)
    ensures
        res@.len() == RESPONSE_EVENT_COUNT,
        forall|k: int| 0 <= k < RESPONSE_EVENT_COUNT ==> is_initial_response_event(response_id@, k, #[trigger] res@[k]),
{
    let mut events: Vec<RealtimeServerEvent> = Vec::new();
    events.push(RealtimeServerEvent::ResponseCreated(response_id.clone()));
    events.push(RealtimeServerEvent::ResponseOutputItemAdded(response_id.clone()));
    events.push(RealtimeServerEvent::ResponseContentPartAdded(response_id.clone()));
    events.push(RealtimeServerEvent::ResponseOutputTextDone(response_id.clone()));
    events.push(RealtimeServerEvent::ResponseContentPartDone(response_id.clone()));
    events.push(RealtimeServerEvent::ResponseOutputItemDone(response_id.clone()));
    let ghost id = response_id@;
    events.push(
        RealtimeServerEvent::ResponseDone { response_id, finish_reason: RealtimeResponseFinishReason::Completed },
    );
    assert(forall|k: int| 0 <= k < RESPONSE_EVENT_COUNT ==> is_initial_response_event(id, k, #[trigger] events@[k]));
    events
}

/// Projects one event, pairing it with its frame; a projector failure is a
/// `Projector` failure.
pub fn project_event<P: RealtimeFrameProjectorPort>(projector: &P, event: RealtimeServerEvent) -> (res: Result<
    RealtimeOutboundEvent,
    ApplyFailure,
>)
    ensures
        match projector.projection(event) {
            Ok(frame) => res matches Ok(o) && o@.event == event,
            Err(e) => res == Err::<RealtimeOutboundEvent, ApplyFailure>(ApplyFailure::Projector(e)),
        },
{
    match projector.project(&event) {
        Ok(frame) => Ok(RealtimeOutboundEvent::new(event, frame)),
        Err(error) => Err(ApplyFailure::Projector(error)),
    }
}

/// Projects events in order, stopping at the first projector failure.
pub fn project_events<P: RealtimeFrameProjectorPort>(projector: &P, events: Vec<RealtimeServerEvent>) -> (res:
    Result<Vec<RealtimeOutboundEvent>, ApplyFailure>)
    ensures
        res matches Ok(v) ==> v@.len() == events@.len() && forall|i: int|
            0 <= i < events@.len() ==> (#[trigger] v@[i])@.event == events@[i],
        res matches Err(f) ==> f is Projector && exists|i: int|
            0 <= i < events@.len() && #[trigger] projector.projection(events@[i]) == Err::<Seq<char>, ApiDomainError>(
                f->Projector_0,
            ),
        (forall|i: int| 0 <= i < events@.len() ==> (#[trigger] projector.projection(events@[i])) is Ok) ==> res is Ok,
{
    let ghost original = events@;
    let mut remaining = events;
    let mut projected: Vec<RealtimeOutboundEvent> = Vec::new();
    while remaining.len() > 0
        invariant
            original == events@,
            remaining@ == original.skip(projected@.len() as int),
            projected@.len() <= original.len(),
            forall|i: int| 0 <= i < projected@.len() ==> (#[trigger] projected@[i])@.event == original[i],
        decreases remaining@.len(),
    {
        let event = remaining.remove(0);
        let ghost at = projected@.len() as int;
        proof {
            assert(event == original[at]);
        }
        let outbound = match project_event(projector, event) {
            Ok(o) => o,
            Err(f) => {
                proof {
                    assert(projector.projection(original[at]) == Err::<Seq<char>, ApiDomainError>(f->Projector_0));
                }
                return Err(f);
            },
        };
        projected.push(outbound);
        assert(remaining@ =~= original.skip(projected@.len() as int));
    }
    Ok(projected)
}

/// The identifier text the runtime issues for counter value `n`.
pub open spec fn issued_response_id(n: nat) -> Seq<char> {
    "rt-response-"@ + decimal_text(n)
}

/// The response identifier text of counter value `value`.
fn response_id_text(value: u64) -> (res: String)
    ensures
        res@ == issued_response_id(value as nat),
{
    prefixed_decimal("rt-response-", value)
}

/// Issues the next response identifier from the runtime counter; an
/// exhausted counter is `Rejected` as `ResourceExhausted`.
pub fn issue_response_id(next_response: &mut u64) -> (res: Result<RealtimeResponseId, ApplyFailure>)
    ensures
        *old(next_response) == u64::MAX ==> res == Err::<RealtimeResponseId, ApplyFailure>(
            ApplyFailure::Rejected(ApiDomainError { code: ApiDomainErrorCode::ResourceExhausted }),
        ) && *final(next_response) == *old(next_response),
        *old(next_response) < u64::MAX ==> *final(next_response) == *old(next_response) + 1,
        *old(next_response) < u64::MAX ==> (res matches Ok(id) && id@ == issued_response_id(*old(next_response) as nat)),
{
    if *next_response == u64::MAX {
        return Err(ApplyFailure::Rejected(ApiDomainError::new(ApiDomainErrorCode::ResourceExhausted)));
    }
    let value = *next_response;
    *next_response = value + 1;
    let text = response_id_text(value);
    proof {
        reveal_strlit("rt-response-");
        lemma_counter_runtime_id("rt-response-"@, value);
    }
    match RealtimeResponseId::new(text.as_str()) {
        Ok(id) => Ok(id),
        Err(_) => Err(ApplyFailure::Projector(ApiDomainError::new(ApiDomainErrorCode::Internal))),
    }
}

/// Whether an event completes or cancels its response.
pub open spec fn is_response_done(e: RealtimeServerEvent) -> bool {
    e is ResponseDone
}

/// Abstract contents of a [`RealtimeSessionQueue`].
pub struct RealtimeSessionQueueView {
    /// The session lifecycle state.
    pub state: RealtimeSessionStateView,
    /// The projected outbound events awaiting delivery, oldest first.
    pub outbound: Seq<RealtimeOutboundEventView>,
}

/// Abstract contents of a sequence of outbound events.
pub open spec fn outbound_view(events: Seq<RealtimeOutboundEvent>) -> Seq<RealtimeOutboundEventView> {
    events.map_values(|e: RealtimeOutboundEvent| e@)
}

/// Whether a queued event does not belong to response `id`.
pub open spec fn unrelated_to(id: Seq<char>) -> spec_fn(RealtimeOutboundEventView) -> bool {
    |e: RealtimeOutboundEventView| event_response_id(e.event) != Some(id)
}

/// What every session queue keeps: a bounded session state; at most 16
/// queued events; queued
/// response events all belong to the active response; nothing of a response
/// follows a done event; and the active response's done event stays queued
/// until it is delivered.
pub open spec fn queue_consistent(q: RealtimeSessionQueueView) -> bool {
    &&& session_state_bounded(q.state)
    &&& q.outbound.len() <= MAX_REALTIME_OUTBOUND_QUEUE_EVENTS
    &&& forall|i: int|
        0 <= i < q.outbound.len() && (#[trigger] event_response_id(q.outbound[i].event)) is Some
            ==> q.state.active_response == event_response_id(q.outbound[i].event)
    &&& forall|i: int, j: int|
        #![trigger is_response_done(q.outbound[i].event), event_response_id(q.outbound[j].event)]
        0 <= i < j < q.outbound.len() && is_response_done(q.outbound[i].event) ==> event_response_id(
            q.outbound[j].event,
        ) is None
    &&& q.state.active_response is Some ==> exists|i: int|
        0 <= i < q.outbound.len() && #[trigger] is_response_done(q.outbound[i].event) && event_response_id(
            q.outbound[i].event,
        ) == q.state.active_response
}

/// The refusal of an event that does not fit in the outbound queue.
pub open spec fn queue_full() -> ApplyFailure {
    ApplyFailure::Rejected(ApiDomainError { code: ApiDomainErrorCode::ResourceExhausted })
}

/// What applying a session update did: a full queue refuses it; a projector
/// that cannot represent the confirmation fails with its error; otherwise the
/// confirmation is queued.
pub open spec fn session_update_outcome<P: RealtimeFrameProjectorPort>(
    old: RealtimeSessionQueueView,
    new: RealtimeSessionQueueView,
    res: Result<(), ApplyFailure>,
    projector: P,
) -> bool {
    if old.outbound.len() + 1 > MAX_REALTIME_OUTBOUND_QUEUE_EVENTS {
        res == Err::<(), ApplyFailure>(queue_full()) && new == old
    } else {
        match projector.projection(RealtimeServerEvent::SessionUpdated) {
            Ok(_) => res is Ok && new.state == old.state && new.outbound.len() == old.outbound.len() + 1
                && new.outbound.drop_last() == old.outbound && new.outbound.last().event
                == RealtimeServerEvent::SessionUpdated,
            Err(e) => res == Err::<(), ApplyFailure>(ApplyFailure::Projector(e)) && new == old,
        }
    }
}

/// Whether `projector` refuses, with `error`, one of the seven lifecycle
/// events of response `id`.
pub open spec fn refuses_response_event<P: RealtimeFrameProjectorPort>(
    projector: P,
    id: Seq<char>,
    error: ApiDomainError,
) -> bool {
    exists|k: int, e: RealtimeServerEvent|
        0 <= k < RESPONSE_EVENT_COUNT && #[trigger] is_initial_response_event(id, k, e) && projector.projection(e)
            == Err::<Seq<char>, ApiDomainError>(error)
}

/// Whether `projector` represents every lifecycle event of response `id`.
pub open spec fn projects_response_events<P: RealtimeFrameProjectorPort>(projector: P, id: Seq<char>) -> bool {
    forall|k: int, e: RealtimeServerEvent|
        0 <= k < RESPONSE_EVENT_COUNT && #[trigger] is_initial_response_event(id, k, e) ==> projector.projection(e) is Ok
}

/// Whether `e` is the cancelled done event of response `id`.
pub open spec fn is_cancelled_done(id: Seq<char>, e: RealtimeServerEvent) -> bool {
    e matches RealtimeServerEvent::ResponseDone { response_id, finish_reason } && response_id@ == id
        && finish_reason == RealtimeResponseFinishReason::Cancelled
}

/// What accepting a conversation item of `item_bytes` text bytes did: the
/// session rules decide, and the queue is untouched.
pub open spec fn item_outcome(
    old: RealtimeSessionQueueView,
    new: RealtimeSessionQueueView,
    res: Result<(), ApplyFailure>,
    item_bytes: nat,
) -> bool {
    &&& new.outbound == old.outbound
    &&& match accept_item_transition(old.state, item_bytes) {
        Ok(next) => res is Ok && new.state == next,
        Err(code) => res == Err::<(), ApplyFailure>(ApplyFailure::Rejected(ApiDomainError { code }))
            && new.state == old.state,
    }
}

/// What creating a response did, with the response counter going from
/// `before` to `after`: a full queue or an exhausted counter refuses it;
/// otherwise the counter advances and the next identifier is issued; a
/// projector failure on one of the response's seven lifecycle events ends it
/// with that failure, and a projector that represents them all never fails
/// it; otherwise the session rules decide whether the response starts with
/// its seven lifecycle events queued.
pub open spec fn response_outcome<P: RealtimeFrameProjectorPort>(
    old: RealtimeSessionQueueView,
    new: RealtimeSessionQueueView,
    res: Result<(), ApplyFailure>,
    before: u64,
    after: u64,
    projector: P,
) -> bool {
    if old.outbound.len() + RESPONSE_EVENT_COUNT > MAX_REALTIME_OUTBOUND_QUEUE_EVENTS || before == u64::MAX {
        res == Err::<(), ApplyFailure>(queue_full()) && new == old && after == before
    } else {
        let id = issued_response_id(before as nat);
        &&& after == before + 1
        &&& projects_response_events(projector, id) ==> !(res matches Err(ApplyFailure::Projector(_)))
        &&& match res {
            Ok(()) => start_response_transition(old.state, id) == Ok::<RealtimeSessionStateView, ApiDomainErrorCode>(
                new.state,
            ) && new.outbound.len() == old.outbound.len() + RESPONSE_EVENT_COUNT && new.outbound.take(
                old.outbound.len() as int,
            ) == old.outbound && forall|k: int|
                0 <= k < RESPONSE_EVENT_COUNT ==> is_initial_response_event(
                    id,
                    k,
                    #[trigger] new.outbound[old.outbound.len() + k].event,
                ),
            Err(f) => new == old && match f {
                ApplyFailure::Rejected(e) => start_response_transition(old.state, id) == Err::<
                    RealtimeSessionStateView,
                    ApiDomainErrorCode,
                >(e.code),
                ApplyFailure::Projector(e) => refuses_response_event(projector, id, e),
            },
        }
    }
}

/// What cancelling a response named by `requested` did: the session rules
/// resolve the target; a projector failure on its cancelled done event ends
/// it with that failure, and a projector that represents that event never
/// fails it; otherwise every queued event of that response is dropped and
/// its cancelled done event is queued.
pub open spec fn cancel_outcome<P: RealtimeFrameProjectorPort>(
    old: RealtimeSessionQueueView,
    new: RealtimeSessionQueueView,
    res: Result<(), ApplyFailure>,
    requested: Option<Seq<char>>,
    projector: P,
) -> bool {
    match cancel_target(old.state, requested) {
        Err(code) => res == Err::<(), ApplyFailure>(ApplyFailure::Rejected(ApiDomainError { code })) && new == old,
        Ok(id) => ((forall|e: RealtimeServerEvent| #[trigger] is_cancelled_done(id, e) ==> projector.projection(e) is Ok)
            ==> res is Ok) && match res {
            Ok(()) => {
                &&& new.state == old.state
                &&& new.outbound.len() > 0
                &&& new.outbound.drop_last() == old.outbound.filter(unrelated_to(id))
                &&& new.outbound.last().event matches RealtimeServerEvent::ResponseDone { response_id, finish_reason }
                    && response_id@ == id && finish_reason == RealtimeResponseFinishReason::Cancelled
            },
            Err(f) => new == old && (f matches ApplyFailure::Projector(e) && exists|d: RealtimeServerEvent|
                #[trigger] is_cancelled_done(id, d) && projector.projection(d) == Err::<Seq<char>, ApiDomainError>(e)),
        },
    }
}

/// What applying `event` did to a queue, with the response counter going
/// from `before` to `after` and frames made by `projector`.
pub open spec fn apply_outcome<P: RealtimeFrameProjectorPort>(
    old: RealtimeSessionQueueView,
    new: RealtimeSessionQueueView,
    res: Result<(), ApplyFailure>,
    event: RealtimeClientEvent,
    before: u64,
    after: u64,
    projector: P,
) -> bool {
    &&& !(event is ResponseCreate) ==> after == before
    &&& match event {
        RealtimeClientEvent::SessionUpdate(_) => session_update_outcome(old, new, res, projector),
        RealtimeClientEvent::ConversationItemCreate(item) => item_outcome(old, new, res, content_parts_bytes(item@)),
        RealtimeClientEvent::ResponseCreate(_) => response_outcome(old, new, res, before, after, projector),
        RealtimeClientEvent::ResponseCancel(cancel) => cancel_outcome(old, new, res, cancel@, projector),
    }
}

/// What delivering the oldest queued event did: nothing when the queue is
/// empty; otherwise that event is handed out, the rest keep their order, and
/// a done event ends its response.
pub open spec fn pop_outcome(
    old: RealtimeSessionQueueView,
    new: RealtimeSessionQueueView,
    res: Option<RealtimeOutboundEventView>,
) -> bool {
    if old.outbound.len() == 0 {
        res is None && new == old
    } else {
        &&& res == Some(old.outbound[0])
        &&& new.outbound == old.outbound.skip(1)
        &&& if is_response_done(old.outbound[0].event) {
            finish_response_transition(old.state, event_response_id(old.outbound[0].event)->0)
                == Ok::<RealtimeSessionStateView, ApiDomainErrorCode>(new.state)
        } else {
            new.state == old.state
        }
    }
}

/// Queuing an event of no response keeps a queue consistent while it fits.
proof fn lemma_push_unrelated(q: RealtimeSessionQueueView, e: RealtimeOutboundEventView)
    requires
        queue_consistent(q),
        q.outbound.len() < MAX_REALTIME_OUTBOUND_QUEUE_EVENTS,
        event_response_id(e.event) is None,
    ensures
        queue_consistent(RealtimeSessionQueueView { state: q.state, outbound: q.outbound.push(e) }),
{
    let n = RealtimeSessionQueueView { state: q.state, outbound: q.outbound.push(e) };
    assert forall|i: int| 0 <= i < q.outbound.len() implies #[trigger] n.outbound[i] == q.outbound[i] by {}
    assert(!is_response_done(e.event));
    if q.state.active_response is Some {
        let w = choose|i: int|
            0 <= i < q.outbound.len() && #[trigger] is_response_done(q.outbound[i].event) && event_response_id(
                q.outbound[i].event,
            ) == q.state.active_response;
        assert(n.outbound[w] == q.outbound[w]);
    }
}

/// Takes the oldest event out of a non-empty queue.
fn pop_oldest(queue: &mut VecDeque<RealtimeOutboundEvent>) -> (res: RealtimeOutboundEvent)
    requires
        old(queue)@.len() > 0,
    ensures
        res == old(queue)@[0],
        final(queue)@ == old(queue)@.remove(0),
{
    let res = queue.pop_front().unwrap();
    proof {
        assert(queue@ =~= old(queue)@.remove(0));
    }
    res
}

/// One session's lifecycle state and its bounded queue of projected outbound
/// events.
pub struct RealtimeSessionQueue {
    state: RealtimeSessionState,
    outbound: VecDeque<RealtimeOutboundEvent>,
}

impl View for RealtimeSessionQueue {
    type V = RealtimeSessionQueueView;

    closed spec fn view(&self) -> RealtimeSessionQueueView {
        RealtimeSessionQueueView { state: self.state@, outbound: outbound_view(self.outbound@) }
    }
}

impl RealtimeSessionQueue {
    #[verifier::type_invariant]
    spec fn valid(self) -> bool {
        queue_consistent(self@)
    }

    /// Creates the queue of a freshly opened session.
    pub fn new() -> (res: Self)
        ensures
            res@.state == crate::domain::realtime_state::open_session_state(),
            res@.outbound.len() == 0,
    {
        RealtimeSessionQueue { state: RealtimeSessionState::new(), outbound: VecDeque::new() }
    }

    /// Returns the session lifecycle state.
    pub fn state(&self) -> (res: &RealtimeSessionState)
        ensures
            res@ == self@.state,
    {
        &self.state
    }

    /// Returns the number of queued outbound events, never above 16.
    pub fn queued(&self) -> (res: usize)
        ensures
            res == self@.outbound.len(),
            res <= MAX_REALTIME_OUTBOUND_QUEUE_EVENTS,
            queue_consistent(self@),
    {
        proof {
            use_type_invariant(self);
        }
        self.outbound.len()
    }

    fn ensure_capacity(&self, additional: usize) -> (res: Result<(), ApplyFailure>)
        ensures
            res is Ok <==> self@.outbound.len() + additional <= MAX_REALTIME_OUTBOUND_QUEUE_EVENTS,
            res is Err ==> res == Err::<(), ApplyFailure>(
                ApplyFailure::Rejected(ApiDomainError { code: ApiDomainErrorCode::ResourceExhausted }),
            ),
    {
        if self.outbound.len().saturating_add(additional) > MAX_REALTIME_OUTBOUND_QUEUE_EVENTS {
            return Err(ApplyFailure::Rejected(ApiDomainError::new(ApiDomainErrorCode::ResourceExhausted)));
        }
        Ok(())
    }
}

impl RealtimeSessionQueue {
    /// Moves the state and the queue out, leaving a fresh empty queue behind.
    fn take_parts(&mut self) -> (res: (RealtimeSessionState, VecDeque<RealtimeOutboundEvent>))
        ensures
            res.0@ == old(self)@.state,
            outbound_view(res.1@) == old(self)@.outbound,
            queue_consistent(old(self)@),
    {
        let mut taken = RealtimeSessionQueue::new();
        std::mem::swap(&mut taken, self);
        proof {
            use_type_invariant(&taken);
        }
        let RealtimeSessionQueue { state, outbound } = taken;
        (state, outbound)
    }

    fn queue_session_updated<P: RealtimeFrameProjectorPort>(&mut self, projector: &P) -> (res: Result<(), ApplyFailure>)
        ensures
            session_update_outcome(old(self)@, final(self)@, res, *projector),
    {
        self.ensure_capacity(1)?;
        let event = project_event(projector, RealtimeServerEvent::SessionUpdated)?;
        let (state, mut outbound) = self.take_parts();
        let ghost old_q = outbound_view(outbound@);
        outbound.push_back(event);
        proof {
            let v = outbound_view(outbound@);
            assert(v =~= old_q.push(v.last()));
            assert(v.drop_last() =~= old_q);
            lemma_push_unrelated(RealtimeSessionQueueView { state: state@, outbound: old_q }, v.last());
        }
        *self = RealtimeSessionQueue { state, outbound };
        Ok(())
    }

    fn accept_item(&mut self, item: &RealtimeConversationItem) -> (res: Result<(), ApplyFailure>)
        ensures
            item_outcome(old(self)@, final(self)@, res, content_parts_bytes(item@)),
    {
        let (mut state, outbound) = self.take_parts();
        let ghost before = state@;
        let result = state.accept_conversation_item(item);
        proof {
            lemma_transitions_keep_bounds(before, content_parts_bytes(item@), Seq::empty());
            assert(state@.active_response == before.active_response);
            let nq = RealtimeSessionQueueView { state: state@, outbound: outbound_view(outbound@) };
            assert(nq.outbound == old(self)@.outbound);
            assert(queue_consistent(nq));
        }
        *self = RealtimeSessionQueue { state, outbound };
        match result {
            Ok(()) => Ok(()),
            Err(e) => Err(ApplyFailure::Rejected(e)),
        }
    }

    fn queue_response<P: RealtimeFrameProjectorPort>(&mut self, projector: &P, next_response: &mut u64) -> (res:
        Result<(), ApplyFailure>)
        ensures
            response_outcome(old(self)@, final(self)@, res, *old(next_response), *final(next_response), *projector),
    {
        self.ensure_capacity(RESPONSE_EVENT_COUNT)?;
        let response_id = issue_response_id(next_response)?;
        let ghost id = response_id@;
        let events = initial_response_events(response_id.clone());
        let ghost event_seq = events@;
        let projected = match project_events(projector, events) {
            Ok(v) => v,
            Err(f) => {
                proof {
                    let i = choose|i: int|
                        0 <= i < event_seq.len() && #[trigger] projector.projection(event_seq[i]) == Err::<
                            Seq<char>,
                            ApiDomainError,
                        >(f->Projector_0);
                    assert(is_initial_response_event(id, i, event_seq[i]));
                }
                return Err(f);
            },
        };
        let (mut state, mut outbound) = self.take_parts();
        let ghost old_q = outbound_view(outbound@);
        let started = state.start_response(response_id);
        match started {
            Ok(()) => {},
            Err(e) => {
                *self = RealtimeSessionQueue { state, outbound };
                return Err(ApplyFailure::Rejected(e));
            },
        }
        let mut rest = projected;
        let ghost added = rest@;
        let mut k: usize = 0;
        while rest.len() > 0
            invariant
                rest@ == added.skip(k as int),
                added.len() == RESPONSE_EVENT_COUNT,
                k <= RESPONSE_EVENT_COUNT,
                outbound@.len() == old_q.len() + k,
                outbound_view(outbound@).take(old_q.len() as int) == old_q,
                forall|j: int| 0 <= j < k ==> (#[trigger] outbound@[old_q.len() + j]) == added[j],
            decreases rest@.len(),
        {
            let e = rest.remove(0);
            outbound.push_back(e);
            k = k + 1;
            proof {
                assert(rest@ =~= added.skip(k as int));
                assert(outbound_view(outbound@).take(old_q.len() as int) =~= old_q);
            }
        }
        proof {
            let v = outbound_view(outbound@);
            assert forall|j: int| 0 <= j < RESPONSE_EVENT_COUNT implies is_initial_response_event(
                id,
                j,
                #[trigger] v[old_q.len() + j].event,
            ) by {
                assert(v[old_q.len() + j] == outbound@[old_q.len() + j]@);
                assert(added[j]@.event == event_seq[j]);
            }
            assert(old(self)@.state.active_response is None);
            assert forall|i: int| 0 <= i < old_q.len() implies event_response_id(#[trigger] old_q[i].event) is None by {
                if event_response_id(old_q[i].event) is Some {
                    assert(old(self)@.outbound[i] == old_q[i]);
                }
            }
            assert forall|i: int| 0 <= i < v.len() && (#[trigger] event_response_id(v[i].event)) is Some implies state@.active_response
                == event_response_id(v[i].event) by {
                if i >= old_q.len() {
                    let j = i - old_q.len();
                    assert(is_initial_response_event(id, j, v[old_q.len() + j].event));
                } else {
                    assert(v[i] == old_q[i]);
                }
            }
            assert forall|i: int, j: int|
                #![trigger is_response_done(v[i].event), event_response_id(v[j].event)]
                0 <= i < j < v.len() && is_response_done(v[i].event) implies event_response_id(v[j].event) is None by {
                if i < old_q.len() {
                    assert(v[i] == old_q[i]);
                    assert(event_response_id(old_q[i].event) is None);
                } else {
                    let k = i - old_q.len();
                    assert(is_initial_response_event(id, k, v[old_q.len() + k].event));
                }
            }
            assert(is_initial_response_event(id, 6, v[old_q.len() + 6int].event));
            assert(is_response_done(v[old_q.len() + 6int].event));
            let nq = RealtimeSessionQueueView { state: state@, outbound: v };
            assert(queue_consistent(nq));
        }
        *self = RealtimeSessionQueue { state, outbound };
        Ok(())
    }

    fn cancel_response<P: RealtimeFrameProjectorPort>(&mut self, projector: &P, cancel: &RealtimeResponseCancel) -> (res:
        Result<(), ApplyFailure>)
        ensures
            cancel_outcome(old(self)@, final(self)@, res, cancel@, *projector),
    {
        proof {
            use_type_invariant(&*self);
        }
        let response_id = match self.state.cancel_response(cancel.response_id()) {
            Ok(id) => id,
            Err(e) => {
                return Err(ApplyFailure::Rejected(e));
            },
        };
        let ghost id = response_id@;
        let done = RealtimeServerEvent::ResponseDone {
            response_id: response_id.clone(),
            finish_reason: RealtimeResponseFinishReason::Cancelled,
        };
        proof {
            assert(is_cancelled_done(id, done));
        }
        let event = project_event(projector, done)?;
        let (state, outbound) = self.take_parts();
        let ghost old_q = outbound_view(outbound@);
        let ghost pred = unrelated_to(id);
        let ghost w = choose|i: int|
            0 <= i < old_q.len() && #[trigger] is_response_done(old_q[i].event) && event_response_id(old_q[i].event)
                == Some(id);
        let mut rest = outbound;
        let mut kept: VecDeque<RealtimeOutboundEvent> = VecDeque::new();
        let mut i: usize = 0;
        while rest.len() > 0
            invariant
                outbound_view(rest@) == old_q.skip(i as int),
                i <= old_q.len(),
                old_q.len() <= MAX_REALTIME_OUTBOUND_QUEUE_EVENTS,
                0 <= w < old_q.len(),
                !pred(old_q[w]),
                pred == unrelated_to(id),
                response_id@ == id,
                queue_consistent(RealtimeSessionQueueView { state: state@, outbound: old_q }),
                state@.active_response == Some(id),
                outbound_view(kept@) == old_q.take(i as int).filter(pred),
                kept@.len() <= i,
                i > w ==> kept@.len() < i,
                forall|j: int| 0 <= j < kept@.len() ==> event_response_id(#[trigger] kept@[j]@.event) is None,
            decreases rest@.len(),
        {
            let ghost rest_before = rest@;
            proof {
                assert(outbound_view(rest_before).len() == rest_before.len());
                assert(rest_before.len() == old_q.len() - i);
                assert(outbound_view(rest_before)[0] == old_q.skip(i as int)[0]);
            }
            let e = pop_oldest(&mut rest);
            let event_ref = e.event();
            let keep = !matches_response(event_ref, &response_id);
            proof {
                assert(e@ == old_q[i as int]);
                assert(old_q.take(i + 1).drop_last() =~= old_q.take(i as int));
                assert(old_q.take(i + 1).last() == old_q[i as int]);
                reveal(Seq::filter);
                assert(pred(old_q[i as int]) == (event_response_id(old_q[i as int].event) != Some(id)));
                assert(keep == pred(old_q[i as int]));
            }
            if keep {
                proof {
                    if event_response_id(e@.event) is Some {
                        assert(event_response_id(old_q[i as int].event) == state@.active_response);
                    }
                }
                kept.push_back(e);
                proof {
                    assert(outbound_view(kept@) =~= old_q.take(i as int).filter(pred).push(old_q[i as int]));
                }
            }
            i = i + 1;
            proof {
                assert forall|j: int| 0 <= j < rest@.len() implies #[trigger] outbound_view(rest@)[j] == old_q.skip(i as int)[j] by {
                    assert(rest@[j] == rest_before[j + 1]);
                    assert(outbound_view(rest_before)[j + 1] == old_q.skip(i - 1)[j + 1]);
                }
                assert(outbound_view(rest@) =~= old_q.skip(i as int));
            }
        }
        proof {
            assert(old_q.take(old_q.len() as int) =~= old_q);
        }
        let ghost kept_q = outbound_view(kept@);
        kept.push_back(event);
        proof {
            let v = outbound_view(kept@);
            assert(v.drop_last() =~= kept_q);
            assert forall|j: int| 0 <= j < kept_q.len() implies #[trigger] v[j] == kept_q[j] by {}
            assert forall|j: int| 0 <= j < kept_q.len() implies event_response_id(#[trigger] kept_q[j].event) is None by {
                assert(kept_q[j] == kept@[j]@);
            }
            assert(is_response_done(v.last().event));
            assert(event_response_id(v.last().event) == Some(id));
            assert forall|a: int, b: int|
                #![trigger is_response_done(v[a].event), event_response_id(v[b].event)]
                0 <= a < b < v.len() && is_response_done(v[a].event) implies event_response_id(v[b].event) is None by {
                assert(v[a] == kept_q[a]);
            }
            assert forall|j: int| 0 <= j < v.len() && (#[trigger] event_response_id(v[j].event)) is Some implies state@.active_response
                == event_response_id(v[j].event) by {
                if j < kept_q.len() {
                    assert(v[j] == kept_q[j]);
                }
            }
            assert(queue_consistent(RealtimeSessionQueueView { state: state@, outbound: v }));
        }
        *self = RealtimeSessionQueue { state, outbound: kept };
        Ok(())
    }

    /// Applies one accepted client event: a session update queues its
    /// confirmation, a conversation item is counted against the session
    /// budget, a response request starts the sole active response with its
    /// lifecycle events queued, and a cancellation replaces the queued events
    /// of the active response with its cancelled done event.
    pub fn apply<P: RealtimeFrameProjectorPort>(
        &mut self,
        event: &RealtimeClientEvent,
        projector: &P,
        next_response: &mut u64,
    ) -> (res: Result<(), ApplyFailure>)
        ensures
            queue_consistent(final(self)@),
            apply_outcome(old(self)@, final(self)@, res, *event, *old(next_response), *final(next_response), *projector),
    {
        let result = match event {
            RealtimeClientEvent::SessionUpdate(_) => self.queue_session_updated(projector),
            RealtimeClientEvent::ConversationItemCreate(item) => self.accept_item(item),
            RealtimeClientEvent::ResponseCreate(_) => self.queue_response(projector, next_response),
            RealtimeClientEvent::ResponseCancel(cancel) => self.cancel_response(projector, cancel),
        };
        proof {
            use_type_invariant(&*self);
        }
        result
    }

    /// Delivers the oldest queued event; delivering a response's done event
    /// ends that response, which always succeeds.
    pub fn pop_next(&mut self) -> (res: Option<RealtimeOutboundEvent>)
        ensures
            queue_consistent(final(self)@),
            pop_outcome(old(self)@, final(self)@, match res {
                Some(e) => Some(e@),
                None => None,
            }),
    {
        if self.outbound.len() == 0 {
            proof {
                use_type_invariant(&*self);
            }
            return None;
        }
        let (mut state, mut outbound) = self.take_parts();
        let ghost old_q = outbound_view(outbound@);
        let ghost old_state = state@;
        let event = pop_oldest(&mut outbound);
        proof {
            assert(event@ == old_q[0]);
            assert(outbound_view(outbound@) =~= old_q.skip(1));
        }
        match event.event() {
            RealtimeServerEvent::ResponseDone { response_id, .. } => {
                proof {
                    assert(event_response_id(old_q[0].event) is Some);
                    assert(old_state.active_response == Some(response_id@));
                    assert(!old_state.closed);
                }
                let finished = state.finish_response(response_id);
                proof {
                    assert(finished is Ok);
                    let v = outbound_view(outbound@);
                    assert forall|j: int| 0 <= j < v.len() implies event_response_id(#[trigger] v[j].event) is None by {
                        assert(v[j] == old_q[j + 1]);
                        assert(is_response_done(old_q[0].event));
                    }
                    assert(queue_consistent(RealtimeSessionQueueView { state: state@, outbound: v }));
                }
            },
            _ => {
                proof {
                    let v = outbound_view(outbound@);
                    assert(!is_response_done(old_q[0].event));
                    assert forall|j: int| 0 <= j < v.len() implies #[trigger] v[j] == old_q[j + 1] by {}
                    if old_state.active_response is Some {
                        let w = choose|i: int|
                            0 <= i < old_q.len() && #[trigger] is_response_done(old_q[i].event) && event_response_id(
                                old_q[i].event,
                            ) == old_state.active_response;
                        assert(w > 0);
                        assert(v[w - 1] == old_q[w]);
                    }
                    assert(queue_consistent(RealtimeSessionQueueView { state: state@, outbound: v }));
                }
            },
        }
        *self = RealtimeSessionQueue { state, outbound };
        Some(event)
    }

    /// Retires the session: its state closes and every queued event is dropped.
    pub fn retire(&mut self)
        ensures
            final(self)@.state == close_transition(old(self)@.state),
            final(self)@.outbound.len() == 0,
    {
        let (mut state, _dropped) = self.take_parts();
        state.close();
        *self = RealtimeSessionQueue { state, outbound: VecDeque::new() };
    }
}

} // verus!
