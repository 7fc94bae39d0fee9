//! Bounded lifecycle state of one text-only Realtime session.

use vstd::prelude::*;

use crate::domain::error::{ApiDomainError, ApiDomainErrorCode, conflict, limit_exceeded};
use crate::domain::realtime::{
    MAX_REALTIME_ACCEPTED_TEXT_BYTES, MAX_REALTIME_CONVERSATION_ITEMS, RealtimeConversationItem,
    RealtimeResponseId, content_parts_bytes, optional_response_ref_view, optional_response_view,
};

verus! {

/// Abstract state of a Realtime session.
pub struct RealtimeSessionStateView {
    /// Accepted conversation items.
    pub conversation_items: nat,
    /// Aggregate accepted input text bytes.
    pub accepted_text_bytes: nat,
    /// Identifier text of the sole active response, when present.
    pub active_response: Option<Seq<char>>,
    /// Whether the runtime has closed the session.
    pub closed: bool,
}

/// The bounds every reachable session state keeps.
pub open spec fn session_state_bounded(s: RealtimeSessionStateView) -> bool {
    &&& s.conversation_items <= MAX_REALTIME_CONVERSATION_ITEMS
    &&& s.accepted_text_bytes <= MAX_REALTIME_ACCEPTED_TEXT_BYTES
    &&& (s.closed ==> s.active_response is None)
}

/// The state of a freshly opened session.
pub open spec fn open_session_state() -> RealtimeSessionStateView {
    RealtimeSessionStateView {
        conversation_items: 0,
        accepted_text_bytes: 0,
        active_response: None,
        closed: false,
    }
}

/// Outcome of accepting a conversation item carrying `item_bytes` text bytes.
pub open spec fn accept_item_transition(s: RealtimeSessionStateView, item_bytes: nat) -> Result<
    RealtimeSessionStateView,
    ApiDomainErrorCode,
> {
    if s.closed {
        Err(ApiDomainErrorCode::Conflict)
    } else if s.conversation_items >= MAX_REALTIME_CONVERSATION_ITEMS {
        Err(ApiDomainErrorCode::LimitExceeded)
    } else if s.accepted_text_bytes + item_bytes > MAX_REALTIME_ACCEPTED_TEXT_BYTES {
        Err(ApiDomainErrorCode::LimitExceeded)
    } else {
        Ok(
            RealtimeSessionStateView {
                conversation_items: s.conversation_items + 1,
                accepted_text_bytes: s.accepted_text_bytes + item_bytes,
                active_response: s.active_response,
                closed: s.closed,
            },
        )
    }
}

/// Outcome of starting response `id`.
pub open spec fn start_response_transition(s: RealtimeSessionStateView, id: Seq<char>) -> Result<
    RealtimeSessionStateView,
    ApiDomainErrorCode,
> {
    if s.closed || s.active_response is Some {
        Err(ApiDomainErrorCode::Conflict)
    } else {
        Ok(
            RealtimeSessionStateView {
                conversation_items: s.conversation_items,
                accepted_text_bytes: s.accepted_text_bytes,
                active_response: Some(id),
                closed: s.closed,
            },
        )
    }
}

/// The response a cancellation naming `requested` resolves to.
pub open spec fn cancel_target(s: RealtimeSessionStateView, requested: Option<Seq<char>>) -> Result<
    Seq<char>,
    ApiDomainErrorCode,
> {
    if s.closed {
        Err(ApiDomainErrorCode::Conflict)
    } else {
        match s.active_response {
            None => Err(ApiDomainErrorCode::Conflict),
            Some(active) => match requested {
                Some(r) => if r == active {
                    Ok(active)
                } else {
                    Err(ApiDomainErrorCode::Conflict)
                },
                None => Ok(active),
            },
        }
    }
}

/// Outcome of finishing response `id`.
pub open spec fn finish_response_transition(s: RealtimeSessionStateView, id: Seq<char>) -> Result<
    RealtimeSessionStateView,
    ApiDomainErrorCode,
> {
    if s.closed || s.active_response != Some(id) {
        Err(ApiDomainErrorCode::Conflict)
    } else {
        Ok(
            RealtimeSessionStateView {
                conversation_items: s.conversation_items,
                accepted_text_bytes: s.accepted_text_bytes,
                active_response: None,
                closed: s.closed,
            },
        )
    }
}

/// The state after closing.
pub open spec fn close_transition(s: RealtimeSessionStateView) -> RealtimeSessionStateView {
    RealtimeSessionStateView {
        conversation_items: s.conversation_items,
        accepted_text_bytes: s.accepted_text_bytes,
        active_response: None,
        closed: true,
    }
}

/// Whether a mutating call that returned `res` moved the state from `before`
/// to `after` exactly as `transition` prescribes: the next state on success,
/// and on failure the prescribed error with the state unchanged.
pub open spec fn transition_applied(
    res: Result<(), ApiDomainError>,
    before: RealtimeSessionStateView,
    after: RealtimeSessionStateView,
    transition: Result<RealtimeSessionStateView, ApiDomainErrorCode>,
) -> bool {
    match transition {
        Ok(next) => res is Ok && after == next,
        Err(code) => res == Err::<(), ApiDomainError>(ApiDomainError { code }) && after == before,
    }
}

/// Mutable bounded session state for runtime implementations.
pub struct RealtimeSessionState {
    conversation_items: usize,
    accepted_text_bytes: usize,
    active_response: Option<RealtimeResponseId>,
    closed: bool,
}

impl View for RealtimeSessionState {
    type V = RealtimeSessionStateView;

    closed spec fn view(&self) -> RealtimeSessionStateView {
        RealtimeSessionStateView {
            conversation_items: self.conversation_items as nat,
            accepted_text_bytes: self.accepted_text_bytes as nat,
            active_response: optional_response_view(self.active_response),
            closed: self.closed,
        }
    }
}

impl Default for RealtimeSessionState {
    fn default() -> (res: Self)
        ensures
            res@ == open_session_state(),
    {
        RealtimeSessionState::new()
    }
}

impl Clone for RealtimeSessionState {
    fn clone(&self) -> (res: Self)
        ensures
            res@ == self@,
    {
        proof {
            use_type_invariant(self);
        }
        let active_response = match &self.active_response {
            Some(id) => Some(id.clone()),
            None => None,
        };
        RealtimeSessionState {
            conversation_items: self.conversation_items,
            accepted_text_bytes: self.accepted_text_bytes,
            active_response,
            closed: self.closed,
        }
    }
}

impl RealtimeSessionState {
    #[verifier::type_invariant]
    spec fn valid(self) -> bool {
        session_state_bounded(self@)
    }

    /// Creates an empty open session state.
    pub fn new() -> (res: Self)
        ensures
            res@ == open_session_state(),
    {
        RealtimeSessionState {
            conversation_items: 0,
            accepted_text_bytes: 0,
            active_response: None,
            closed: false,
        }
    }

    /// Accepts one bounded user message after protocol validation.
    pub fn accept_conversation_item(&mut self, item: &RealtimeConversationItem) -> (res: Result<
        (),
        ApiDomainError,
    >)
        ensures
            transition_applied(
                res,
                old(self)@,
                final(self)@,
                accept_item_transition(old(self)@, content_parts_bytes(item@)),
            ),
    {
        proof {
            use_type_invariant(&*self);
        }
        self.require_open()?;
        if self.conversation_items >= MAX_REALTIME_CONVERSATION_ITEMS {
            return Err(limit_exceeded());
        }
        let total = self.accepted_text_bytes + item.text_bytes();
        if total > MAX_REALTIME_ACCEPTED_TEXT_BYTES {
            return Err(limit_exceeded());
        }
        self.conversation_items = self.conversation_items + 1;
        self.accepted_text_bytes = total;
        Ok(())
    }

    /// Starts the only active response for this session.
    pub fn start_response(&mut self, response_id: RealtimeResponseId) -> (res: Result<(), ApiDomainError>)
        ensures
            transition_applied(res, old(self)@, final(self)@, start_response_transition(old(self)@, response_id@)),
    {
        proof {
            use_type_invariant(&*self);
        }
        self.require_open()?;
        if self.active_response.is_some() {
            return Err(conflict());
        }
        self.active_response = Some(response_id);
        Ok(())
    }

    /// Resolves cancellation to the current active response.
    ///
    /// Repeating cancellation for that same active response is idempotent. A
    /// different explicit response ID is a conflict and never retargets work.
    pub fn cancel_response(&self, requested: Option<&RealtimeResponseId>) -> (res: Result<
        RealtimeResponseId,
        ApiDomainError,
    >)
        ensures
            match cancel_target(self@, optional_response_ref_view(requested)) {
                Ok(active) => res matches Ok(r) && r@ == active,
                Err(code) => res == Err::<RealtimeResponseId, ApiDomainError>(ApiDomainError { code }),
            },
    {
        self.require_open()?;
        let active = match &self.active_response {
            Some(a) => a,
            None => {
                return Err(conflict());
            },
        };
        match requested {
            Some(r) => {
                if !r.same_id(active) {
                    return Err(conflict());
                }
            },
            None => {},
        }
        Ok(active.clone())
    }

    /// Ends the exact active response after its terminal outbound event.
    pub fn finish_response(&mut self, response_id: &RealtimeResponseId) -> (res: Result<(), ApiDomainError>)
        ensures
            transition_applied(res, old(self)@, final(self)@, finish_response_transition(old(self)@, response_id@)),
    {
        proof {
            use_type_invariant(&*self);
        }
        self.require_open()?;
        let matches_active = match &self.active_response {
            Some(a) => a.same_id(response_id),
            None => false,
        };
        if !matches_active {
            return Err(conflict());
        }
        self.active_response = None;
        Ok(())
    }

    /// Marks the session closed so future state transitions fail deterministically.
    pub fn close(&mut self)
        ensures
            final(self)@ == close_transition(old(self)@),
    {
        proof {
            use_type_invariant(&*self);
        }
        self.active_response = None;
        self.closed = true;
    }

    /// Returns accepted conversation-item count.
    pub fn conversation_items(&self) -> (res: usize)
        ensures
            res == self@.conversation_items,
            res <= MAX_REALTIME_CONVERSATION_ITEMS,
    {
        proof {
            use_type_invariant(self);
        }
        self.conversation_items
    }

    /// Returns aggregate accepted text bytes.
    pub fn accepted_text_bytes(&self) -> (res: usize)
        ensures
            res == self@.accepted_text_bytes,
            res <= MAX_REALTIME_ACCEPTED_TEXT_BYTES,
    {
        proof {
            use_type_invariant(self);
        }
        self.accepted_text_bytes
    }

    /// Returns the sole active response, when present.
    pub fn active_response(&self) -> (res: Option<&RealtimeResponseId>)
        ensures
            optional_response_ref_view(res) == self@.active_response,
    {
        match &self.active_response {
            Some(id) => Some(id),
            None => None,
        }
    }

    /// Reports whether the runtime has closed this state.
    pub fn is_closed(&self) -> (res: bool)
        ensures
            res == self@.closed,
    {
        self.closed
    }

    fn require_open(&self) -> (res: Result<(), ApiDomainError>)
        ensures
            res is Ok <==> !self@.closed,
            res is Err ==> res == Err::<(), ApiDomainError>(ApiDomainError { code: ApiDomainErrorCode::Conflict }),
    {
        if self.closed {
            Err(conflict())
        } else {
            Ok(())
        }
    }
}

/// Every successful transition from a bounded state yields a bounded state,
/// so the item count, the accepted text total and "closed means no active
/// response" hold in every reachable state.
pub proof fn lemma_transitions_keep_bounds(
    s: RealtimeSessionStateView,
    item_bytes: nat,
    id: Seq<char>,
)
    requires
        session_state_bounded(s),
    ensures
        session_state_bounded(open_session_state()),
        accept_item_transition(s, item_bytes) matches Ok(n) ==> session_state_bounded(n),
        start_response_transition(s, id) matches Ok(n) ==> session_state_bounded(n),
        finish_response_transition(s, id) matches Ok(n) ==> session_state_bounded(n),
        session_state_bounded(close_transition(s)),
{
}

/// A session has at most one active response: once a start succeeds, any
/// further start fails with a conflict until that response finishes.
pub proof fn lemma_single_active_response(s: RealtimeSessionStateView, first: Seq<char>, second: Seq<char>)
    ensures
        start_response_transition(s, first) matches Ok(n) ==> (n.active_response == Some(first)
            && start_response_transition(n, second) == Err::<RealtimeSessionStateView, ApiDomainErrorCode>(
            ApiDomainErrorCode::Conflict,
        )),
{
}

/// Finishing the active response frees the session for the next response.
pub proof fn lemma_finish_then_start(s: RealtimeSessionStateView, active: Seq<char>, next: Seq<char>)
    ensures
        finish_response_transition(s, active) matches Ok(n) ==> (n.active_response is None
            && start_response_transition(n, next) is Ok),
{
}

/// A closed session refuses every transition with a conflict, and closing is
/// final: nothing reopens it.
pub proof fn lemma_closed_session_refuses_all(
    s: RealtimeSessionStateView,
    item_bytes: nat,
    id: Seq<char>,
    requested: Option<Seq<char>>,
)
    requires
        s.closed,
    ensures
        accept_item_transition(s, item_bytes) == Err::<RealtimeSessionStateView, ApiDomainErrorCode>(
            ApiDomainErrorCode::Conflict,
        ),
        start_response_transition(s, id) == Err::<RealtimeSessionStateView, ApiDomainErrorCode>(
            ApiDomainErrorCode::Conflict,
        ),
        finish_response_transition(s, id) == Err::<RealtimeSessionStateView, ApiDomainErrorCode>(
            ApiDomainErrorCode::Conflict,
        ),
        cancel_target(s, requested) == Err::<Seq<char>, ApiDomainErrorCode>(ApiDomainErrorCode::Conflict),
        close_transition(s).closed,
        close_transition(close_transition(s)) == close_transition(s),
{
}

/// Closing keeps the counters, drops the active response and marks the state closed.
pub proof fn lemma_close_keeps_counters(s: RealtimeSessionStateView)
    ensures
        close_transition(s).closed,
        close_transition(s).active_response is None,
        close_transition(s).conversation_items == s.conversation_items,
        close_transition(s).accepted_text_bytes == s.accepted_text_bytes,
{
}

/// Cancellation only ever resolves to the active response: naming it, or
/// naming nothing, resolves to it (so repeating is idempotent), and naming a
/// different response is a conflict that never retargets work.
pub proof fn lemma_cancel_never_retargets(s: RealtimeSessionStateView, requested: Option<Seq<char>>)
    ensures
        cancel_target(s, requested) matches Ok(r) ==> s.active_response == Some(r) && !s.closed,
        !s.closed && s.active_response is Some && (requested is None || requested == s.active_response)
            ==> cancel_target(s, requested) == Ok::<Seq<char>, ApiDomainErrorCode>(s.active_response->0),
        requested matches Some(r) && s.active_response != Some(r) ==> cancel_target(s, requested) is Err,
{
}

/// Accepting an item adds exactly one item and its text bytes, and refuses
/// once the item count or the aggregate text budget would be exceeded.
pub proof fn lemma_accept_counts(s: RealtimeSessionStateView, item_bytes: nat)
    ensures
        accept_item_transition(s, item_bytes) matches Ok(n) ==> n.conversation_items == s.conversation_items + 1
            && n.accepted_text_bytes == s.accepted_text_bytes + item_bytes && n.active_response
            == s.active_response,
        !s.closed && s.conversation_items >= MAX_REALTIME_CONVERSATION_ITEMS ==> accept_item_transition(
            s,
            item_bytes,
        ) == Err::<RealtimeSessionStateView, ApiDomainErrorCode>(ApiDomainErrorCode::LimitExceeded),
        !s.closed && s.accepted_text_bytes + item_bytes > MAX_REALTIME_ACCEPTED_TEXT_BYTES
            ==> accept_item_transition(s, item_bytes) == Err::<RealtimeSessionStateView, ApiDomainErrorCode>(
            ApiDomainErrorCode::LimitExceeded,
        ),
{
}

/// One call on a session state, as its effect on the abstract state sees it.
pub enum SessionCall {
    /// `accept_conversation_item` with an item of this many text bytes.
    AcceptItem(nat),
    /// `start_response` for this response identifier.
    StartResponse(Seq<char>),
    /// `cancel_response` naming this response, or the active one.
    CancelResponse(Option<Seq<char>>),
    /// `finish_response` for this response identifier.
    FinishResponse(Seq<char>),
    /// `close`.
    Close,
}

/// The state after `call`: the transition's next state on success, the
/// same state on refusal; resolving a cancellation leaves the state as it is.
pub open spec fn after_call(s: RealtimeSessionStateView, call: SessionCall) -> RealtimeSessionStateView {
    match call {
        SessionCall::AcceptItem(bytes) => match accept_item_transition(s, bytes) {
            Ok(n) => n,
            Err(_) => s,
        },
        SessionCall::StartResponse(id) => match start_response_transition(s, id) {
            Ok(n) => n,
            Err(_) => s,
        },
        SessionCall::CancelResponse(_) => s,
        SessionCall::FinishResponse(id) => match finish_response_transition(s, id) {
            Ok(n) => n,
            Err(_) => s,
        },
        SessionCall::Close => close_transition(s),
    }
}

/// The state a freshly opened session reaches through `calls`, in order.
pub open spec fn after_calls(calls: Seq<SessionCall>) -> RealtimeSessionStateView
    decreases calls.len(),
{
    if calls.len() == 0 {
        open_session_state()
    } else {
        after_call(after_calls(calls.drop_last()), calls.last())
    }
}

/// Whether the last of `calls` is an item acceptance that succeeded.
pub open spec fn last_accepted(calls: Seq<SessionCall>) -> bool {
    &&& calls.len() > 0
    &&& calls.last() matches SessionCall::AcceptItem(bytes)
    &&& accept_item_transition(after_calls(calls.drop_last()), bytes) is Ok
}

/// Number of the item acceptances among `calls` that succeeded.
pub open spec fn accepted_item_count(calls: Seq<SessionCall>) -> nat
    decreases calls.len(),
{
    if calls.len() == 0 {
        0
    } else {
        accepted_item_count(calls.drop_last()) + if last_accepted(calls) {
            1nat
        } else {
            0nat
        }
    }
}

/// Sum of the text bytes of the item acceptances among `calls` that
/// succeeded.
pub open spec fn accepted_item_bytes(calls: Seq<SessionCall>) -> nat
    decreases calls.len(),
{
    if calls.len() == 0 {
        0
    } else {
        accepted_item_bytes(calls.drop_last()) + match calls.last() {
            SessionCall::AcceptItem(bytes) => if last_accepted(calls) {
                bytes
            } else {
                0nat
            },
            _ => 0nat,
        }
    }
}

/// Whatever calls a session goes through from its opening, its item count is
/// the number of accepted items, at most 128, and its accepted text total is
/// the sum of their text bytes, at most 1 MiB; a closed session has no
/// active response.
pub proof fn session_counters_follow_accepted_items(calls: Seq<SessionCall>)
    ensures
        after_calls(calls).conversation_items == accepted_item_count(calls),
        after_calls(calls).accepted_text_bytes == accepted_item_bytes(calls),
        accepted_item_count(calls) <= MAX_REALTIME_CONVERSATION_ITEMS,
        accepted_item_bytes(calls) <= MAX_REALTIME_ACCEPTED_TEXT_BYTES,
        session_state_bounded(after_calls(calls)),
    decreases calls.len(),
{
    if calls.len() > 0 {
        let prior = calls.drop_last();
        session_counters_follow_accepted_items(prior);
        let s = after_calls(prior);
        match calls.last() {
            SessionCall::AcceptItem(bytes) => lemma_transitions_keep_bounds(s, bytes, Seq::empty()),
            SessionCall::StartResponse(id) => lemma_transitions_keep_bounds(s, 0, id),
            SessionCall::FinishResponse(id) => lemma_transitions_keep_bounds(s, 0, id),
            _ => lemma_transitions_keep_bounds(s, 0, Seq::empty()),
        }
    }
}

/// Only the active response can be finished: finishing succeeds exactly when
/// the session is open and `id` names its active response, and then only
/// that response ends; any other id is a conflict that changes nothing.
pub proof fn only_the_active_response_finishes(s: RealtimeSessionStateView, id: Seq<char>)
    ensures
        finish_response_transition(s, id) is Ok <==> (!s.closed && s.active_response == Some(id)),
        s.active_response != Some(id) ==> finish_response_transition(s, id) == Err::<
            RealtimeSessionStateView,
            ApiDomainErrorCode,
        >(ApiDomainErrorCode::Conflict),
        finish_response_transition(s, id) matches Ok(n) ==> n.active_response is None && n.conversation_items
            == s.conversation_items && n.accepted_text_bytes == s.accepted_text_bytes && n.closed == s.closed,
{
}

/// A response starts only in an open session with no active response, and
/// then becomes the one active response; an item is accepted only by an open
/// session holding fewer than 128 items whose accepted text stays within
/// 1 MiB, and adds exactly one item and its bytes. Closing keeps the counters
/// and ends the active response.
pub proof fn session_transitions_by_their_rules(s: RealtimeSessionStateView, id: Seq<char>, item_bytes: nat)
    ensures
        start_response_transition(s, id) is Ok <==> (!s.closed && s.active_response is None),
        start_response_transition(s, id) matches Ok(n) ==> n.active_response == Some(id) && n.conversation_items
            == s.conversation_items && n.accepted_text_bytes == s.accepted_text_bytes && !n.closed,
        accept_item_transition(s, item_bytes) is Ok <==> (!s.closed && s.conversation_items < 128
            && s.accepted_text_bytes + item_bytes <= 1_048_576),
        accept_item_transition(s, item_bytes) matches Ok(n) ==> n.conversation_items == s.conversation_items + 1
            && n.accepted_text_bytes == s.accepted_text_bytes + item_bytes && n.active_response == s.active_response
            && !n.closed,
        close_transition(s).closed && close_transition(s).active_response is None
            && close_transition(s).conversation_items == s.conversation_items && close_transition(
            s,
        ).accepted_text_bytes == s.accepted_text_bytes,
{
}

} // verus!
