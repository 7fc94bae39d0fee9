//! The bounded, tenant-scoped table of live Realtime sessions.

use vstd::prelude::*;

use crate::domain::batch_timestamps::UnixInstant;
use crate::domain::error::{ApiDomainError, ApiDomainErrorCode};
use crate::domain::realtime::{
    lemma_counter_runtime_id,
    RealtimeClientEvent, RealtimeOutboundEvent, RealtimeSessionDescriptor, RealtimeSessionDescriptorView,
    RealtimeSessionId, RealtimeSessionOpenRequest,
};
use crate::platform::TenantId;
use crate::domain::realtime_state::open_session_state;
use crate::realtime_runtime::{
    ApplyFailure, RealtimeFrameProjectorPort, RealtimeSessionQueue, RealtimeSessionQueueView, apply_outcome,
    pop_outcome,
};
use crate::text::{decimal_text, prefixed_decimal};

verus! {

/// Maximum live sessions retained by one runtime instance.
pub const MAX_LIVE_REALTIME_SESSIONS: usize = 256;

/// Nanoseconds in one second.
pub const NANOS_PER_SECOND: i128 = 1_000_000_000;

/// The identifier text the runtime issues for session counter value `n`.
pub open spec fn issued_session_id(n: nat) -> Seq<char> {
    "rt-session-"@ + decimal_text(n)
}

/// The session identifier text of counter value `value`.
fn session_id_text(value: u64) -> (res: String)
    ensures
        res@ == issued_session_id(value as nat),
{
    prefixed_decimal("rt-session-", value)
}

/// The instant a session opened at `now` with a lifetime of `seconds`
/// expires, or the internal failure when it is not representable.
pub fn session_expiry(now: UnixInstant, seconds: u64) -> (res: Result<UnixInstant, ApiDomainError>)
    ensures
        now@ + seconds * NANOS_PER_SECOND <= i128::MAX ==> (res matches Ok(t) && t@ == now@ + seconds * NANOS_PER_SECOND),
        now@ + seconds * NANOS_PER_SECOND > i128::MAX ==> res == Err::<UnixInstant, ApiDomainError>(
            ApiDomainError { code: ApiDomainErrorCode::Internal },
        ),
{
    let lifetime = (seconds as i128) * NANOS_PER_SECOND;
    match now.unix_nanos().checked_add(lifetime) {
        Some(at) => Ok(UnixInstant::from_unix_nanos(at)),
        None => Err(ApiDomainError::new(ApiDomainErrorCode::Internal)),
    }
}

/// Abstract contents of one live session.
pub struct RealtimeSessionEntryView {
    /// The session identifier text.
    pub id: Seq<char>,
    /// The owning tenant identity text.
    pub tenant: Seq<char>,
    /// When the session expires.
    pub expires_at: int,
    /// The session state and queued events.
    pub queue: RealtimeSessionQueueView,
    /// The lease token of the receiver waiting for an event, if any.
    pub waiting: Option<u64>,
}

/// One live session owned by one tenant.
pub struct RealtimeSessionEntry {
    id: RealtimeSessionId,
    tenant_id: TenantId,
    expires_at: UnixInstant,
    queue: RealtimeSessionQueue,
    waiting: Option<u64>,
}

impl View for RealtimeSessionEntry {
    type V = RealtimeSessionEntryView;

    closed spec fn view(&self) -> RealtimeSessionEntryView {
        RealtimeSessionEntryView {
            id: self.id@,
            tenant: self.tenant_id@,
            expires_at: self.expires_at@,
            queue: self.queue@,
            waiting: self.waiting,
        }
    }
}

/// Abstract contents of a sequence of sessions.
pub open spec fn entries_view(entries: Seq<RealtimeSessionEntry>) -> Seq<RealtimeSessionEntryView> {
    entries.map_values(|e: RealtimeSessionEntry| e@)
}

/// Whether no two sessions share an identifier.
pub open spec fn ids_unique(s: Seq<RealtimeSessionEntryView>) -> bool {
    forall|i: int, j: int| #![trigger s[i], s[j]] 0 <= i < j < s.len() ==> s[i].id != s[j].id
}

/// The position of session `id`, when it is live.
pub open spec fn session_index(s: Seq<RealtimeSessionEntryView>, id: Seq<char>) -> Option<int> {
    if exists|i: int| 0 <= i < s.len() && #[trigger] s[i].id == id {
        Some(choose|i: int| 0 <= i < s.len() && #[trigger] s[i].id == id)
    } else {
        None
    }
}

/// How a lookup of session `id` on behalf of `tenant` at `now` resolves: a
/// missing or foreign session is unavailable (the two are not told apart), an
/// expired one has passed its deadline, and otherwise the session's position.
pub open spec fn owned_lookup(s: Seq<RealtimeSessionEntryView>, id: Seq<char>, tenant: Seq<char>, now: int) -> Result<
    int,
    ApiDomainErrorCode,
> {
    match session_index(s, id) {
        None => Err(ApiDomainErrorCode::Unavailable),
        Some(i) => if s[i].tenant != tenant {
            Err(ApiDomainErrorCode::Unavailable)
        } else if s[i].expires_at <= now {
            Err(ApiDomainErrorCode::DeadlineExceeded)
        } else {
            Ok(i)
        },
    }
}

/// What a lookup of session `id` on behalf of `tenant` at `now` tells a
/// waiting receiver: an expired session's receiver learns the deadline passed.
pub open spec fn expiry_retirement(s: Seq<RealtimeSessionEntryView>, id: Seq<char>, tenant: Seq<char>, now: int) -> Seq<
    (u64, ApiDomainError),
> {
    if owned_lookup(s, id, tenant, now) == Err::<int, ApiDomainErrorCode>(ApiDomainErrorCode::DeadlineExceeded) {
        retirement(s[session_index(s, id)->0].waiting, ApiDomainError { code: ApiDomainErrorCode::DeadlineExceeded })
    } else {
        Seq::empty()
    }
}

/// The table after opening session `e`: it replaces a session with the same
/// identity, or is added after the others.
pub open spec fn with_session(s: Seq<RealtimeSessionEntryView>, e: RealtimeSessionEntryView) -> Seq<RealtimeSessionEntryView> {
    match session_index(s, e.id) {
        Some(i) => s.update(i, e),
        None => s.push(e),
    }
}

/// The queue of a freshly opened session.
pub open spec fn fresh_queue() -> RealtimeSessionQueueView {
    RealtimeSessionQueueView { state: open_session_state(), outbound: Seq::empty() }
}

/// Whether `after` is `before` with only the queue and the waiting receiver
/// of session `i` changed.
pub open spec fn only_session_changed(before: Seq<RealtimeSessionEntryView>, after: Seq<RealtimeSessionEntryView>, i: int) -> bool {
    &&& after.len() == before.len()
    &&& forall|k: int| 0 <= k < before.len() && k != i ==> #[trigger] after[k] == before[k]
    &&& after[i].id == before[i].id
    &&& after[i].tenant == before[i].tenant
    &&& after[i].expires_at == before[i].expires_at
}

/// Whether `after` is `before` with only the queue of session `i` changed.
pub open spec fn only_queue_changed(before: Seq<RealtimeSessionEntryView>, after: Seq<RealtimeSessionEntryView>, i: int) -> bool {
    &&& only_session_changed(before, after, i)
    &&& after[i].waiting == before[i].waiting
}

/// What the waiting receiver of a removed session, if any, is told.
pub open spec fn retirement(waiting: Option<u64>, error: ApiDomainError) -> Seq<(u64, ApiDomainError)> {
    match waiting {
        Some(t) => seq![(t, error)],
        None => Seq::empty(),
    }
}

/// What the waiting receivers of removed sessions are told, in order.
pub open spec fn retirements(s: Seq<RealtimeSessionEntryView>, error: ApiDomainError) -> Seq<(u64, ApiDomainError)>
    decreases s.len(),
{
    if s.len() == 0 {
        Seq::empty()
    } else {
        retirements(s.drop_last(), error) + retirement(s.last().waiting, error)
    }
}

/// Whether a session is still live at `now`.
pub open spec fn live_at(now: int) -> spec_fn(RealtimeSessionEntryView) -> bool {
    |e: RealtimeSessionEntryView| now < e.expires_at
}

/// Whether a session has reached its deadline at `now`.
pub open spec fn expired_at(now: int) -> spec_fn(RealtimeSessionEntryView) -> bool {
    |e: RealtimeSessionEntryView| e.expires_at <= now
}

/// The identifier texts of sessions, in order.
pub open spec fn entry_ids(s: Seq<RealtimeSessionEntryView>) -> Seq<Seq<char>> {
    s.map_values(|e: RealtimeSessionEntryView| e.id)
}

/// The texts of session identifiers, in order.
pub open spec fn session_id_texts(s: Seq<RealtimeSessionId>) -> Seq<Seq<char>> {
    s.map_values(|x: RealtimeSessionId| x@)
}

/// The live sessions of one runtime.
pub struct RealtimeSessionTable {
    entries: Vec<RealtimeSessionEntry>,
    retired: Vec<(u64, ApiDomainError)>,
}

impl View for RealtimeSessionTable {
    type V = Seq<RealtimeSessionEntryView>;

    closed spec fn view(&self) -> Seq<RealtimeSessionEntryView> {
        entries_view(self.entries@)
    }
}

impl RealtimeSessionTable {
    #[verifier::type_invariant]
    spec fn valid(self) -> bool {
        &&& self.entries@.len() <= MAX_LIVE_REALTIME_SESSIONS
        &&& ids_unique(entries_view(self.entries@))
    }

    /// The receivers of removed sessions that are still to be told why:
    /// each waiting lease token with the failure its session ended with,
    /// oldest first.
    pub closed spec fn retired(&self) -> Seq<(u64, ApiDomainError)> {
        self.retired@
    }

    /// Creates an empty table.
    pub fn new() -> (res: Self)
        ensures
            res@.len() == 0,
            res.retired().len() == 0,
    {
        RealtimeSessionTable { entries: Vec::new(), retired: Vec::new() }
    }

    /// Returns the number of live sessions, never above 256.
    pub fn len(&self) -> (res: usize)
        ensures
            res == self@.len(),
            res <= MAX_LIVE_REALTIME_SESSIONS,
            ids_unique(self@),
    {
        proof {
            use_type_invariant(self);
        }
        self.entries.len()
    }

    /// Finds the position of session `id`.
    fn position(&self, id: &RealtimeSessionId) -> (res: Option<usize>)
        ensures
            res matches Some(i) ==> session_index(self@, id@) == Some(i as int) && i < self@.len() && self@[i as int].id == id@,
            res is None ==> session_index(self@, id@) is None,
    {
        proof {
            use_type_invariant(self);
        }
        let mut i: usize = 0;
        while i < self.entries.len()
            invariant
                i <= self.entries@.len(),
                ids_unique(entries_view(self.entries@)),
                forall|j: int| 0 <= j < i ==> (#[trigger] entries_view(self.entries@)[j]).id != id@,
            decreases self.entries@.len() - i,
        {
            if self.entries[i].id.same_id(id) {
                proof {
                    let s = self@;
                    assert(s[i as int].id == id@);
                    let c = choose|k: int| 0 <= k < s.len() && #[trigger] s[k].id == id@;
                    assert(c == i);
                }
                return Some(i);
            }
            i = i + 1;
        }
        None
    }

    /// Moves the sessions and the retired receivers out, leaving an empty
    /// table behind.
    fn take_entries(&mut self) -> (res: (Vec<RealtimeSessionEntry>, Vec<(u64, ApiDomainError)>))
        ensures
            entries_view(res.0@) == old(self)@,
            res.1@ == old(self).retired(),
            res.0@.len() <= MAX_LIVE_REALTIME_SESSIONS,
            ids_unique(old(self)@),
    {
        let mut taken = RealtimeSessionTable::new();
        std::mem::swap(&mut taken, self);
        proof {
            use_type_invariant(&taken);
        }
        let RealtimeSessionTable { entries, retired } = taken;
        (entries, retired)
    }

    /// Removes the session at position `i`, keeping the others in order.
    fn remove_at(&mut self, i: usize) -> (res: RealtimeSessionEntry)
        requires
            i < old(self)@.len(),
        ensures
            final(self)@ == old(self)@.remove(i as int),
            final(self).retired() == old(self).retired(),
            res@ == old(self)@[i as int],
    {
        let (mut entries, retired) = self.take_entries();
        let ghost before = entries_view(entries@);
        let removed = entries.remove(i);
        proof {
            assert(entries_view(entries@) =~= before.remove(i as int));
        }
        *self = RealtimeSessionTable { entries, retired };
        removed
    }

    /// Puts `entry` back at position `i`, where a session with its identity
    /// was just removed.
    fn restore_at(&mut self, i: usize, entry: RealtimeSessionEntry)
        requires
            i <= old(self)@.len(),
            old(self)@.len() < MAX_LIVE_REALTIME_SESSIONS,
            forall|k: int| 0 <= k < old(self)@.len() ==> (#[trigger] old(self)@[k]).id != entry@.id,
        ensures
            final(self)@ == old(self)@.insert(i as int, entry@),
            final(self).retired() == old(self).retired(),
    {
        let (mut entries, retired) = self.take_entries();
        let ghost before = entries_view(entries@);
        entries.insert(i, entry);
        proof {
            let after = entries_view(entries@);
            assert(after =~= before.insert(i as int, entry@));
            assert forall|a: int, b: int| #![trigger after[a], after[b]] 0 <= a < b < after.len() implies after[a].id != after[b].id by {
                if a < i && b < i {
                    assert(after[a] == before[a] && after[b] == before[b]);
                } else if a < i && b == i {
                    assert(after[a] == before[a]);
                } else if a < i {
                    assert(after[a] == before[a] && after[b] == before[b - 1]);
                } else if a == i {
                    assert(after[b] == before[b - 1]);
                } else {
                    assert(after[a] == before[a - 1] && after[b] == before[b - 1]);
                }
            }
        }
        *self = RealtimeSessionTable { entries, retired };
    }

    /// Records what the waiting receiver of a removed session is told.
    fn retire_receiver(&mut self, waiting: Option<u64>, error: ApiDomainError)
        ensures
            final(self)@ == old(self)@,
            final(self).retired() == old(self).retired() + retirement(waiting, error),
    {
        let (entries, mut retired) = self.take_entries();
        let ghost before = retired@;
        if let Some(token) = waiting {
            retired.push((token, error));
            proof {
                assert(retired@ =~= before + retirement(waiting, error));
            }
        } else {
            proof {
                assert(retired@ =~= before + retirement(waiting, error));
            }
        }
        *self = RealtimeSessionTable { entries, retired };
    }

    /// Resolves session `id` for `tenant` at `now`: a missing or foreign
    /// session is unavailable, and an expired one is removed and has passed
    /// its deadline.
    fn lookup_owned(&mut self, id: &RealtimeSessionId, tenant: &TenantId, now: UnixInstant) -> (res: Result<
        usize,
        ApiDomainError,
    >)
        ensures
            match owned_lookup(old(self)@, id@, tenant@, now@) {
                Ok(i) => res == Ok::<usize, ApiDomainError>(i as usize) && final(self)@ == old(self)@,
                Err(code) => res == Err::<usize, ApiDomainError>(ApiDomainError { code }) && (if code
                    == ApiDomainErrorCode::DeadlineExceeded {
                    final(self)@ == old(self)@.remove(session_index(old(self)@, id@)->0)
                } else {
                    final(self)@ == old(self)@
                }),
            },
            final(self).retired() == old(self).retired() + expiry_retirement(old(self)@, id@, tenant@, now@),
    {
        let i = match self.position(id) {
            Some(i) => i,
            None => {
                return Err(ApiDomainError::new(ApiDomainErrorCode::Unavailable));
            },
        };
        proof {
            assert(self@[i as int] == self.entries@[i as int]@);
            assert(session_index(self@, id@) == Some(i as int));
        }
        if !self.entries[i].tenant_id.same_id(tenant) {
            return Err(ApiDomainError::new(ApiDomainErrorCode::Unavailable));
        }
        if !now.precedes(self.entries[i].expires_at) {
            let error = ApiDomainError::new(ApiDomainErrorCode::DeadlineExceeded);
            let expired = self.remove_at(i);
            self.retire_receiver(expired.waiting, error);
            return Err(error);
        }
        proof {
            assert(old(self).retired() + Seq::<(u64, ApiDomainError)>::empty() =~= old(self).retired());
        }
        Ok(i)
    }

    /// Issues the next session identifier from the runtime counter.
    fn issue_session_id(next_session: &mut u64) -> (res: Result<RealtimeSessionId, ApiDomainError>)
        ensures
            *old(next_session) == u64::MAX ==> res == Err::<RealtimeSessionId, ApiDomainError>(
                ApiDomainError { code: ApiDomainErrorCode::ResourceExhausted },
            ) && *final(next_session) == *old(next_session),
            *old(next_session) < u64::MAX ==> *final(next_session) == *old(next_session) + 1,
            *old(next_session) < u64::MAX ==> (res matches Ok(id) && id@ == issued_session_id(*old(next_session) as nat)),
    {
        if *next_session == u64::MAX {
            return Err(ApiDomainError::new(ApiDomainErrorCode::ResourceExhausted));
        }
        let value = *next_session;
        *next_session = value + 1;
        let text = session_id_text(value);
        proof {
            reveal_strlit("rt-session-");
            lemma_counter_runtime_id("rt-session-"@, value);
        }
        match RealtimeSessionId::new(text.as_str()) {
            Ok(id) => Ok(id),
            Err(_) => Err(ApiDomainError::new(ApiDomainErrorCode::Internal)),
        }
    }

    /// Opens a session for `tenant_id` expiring at `expires_at`: a full table
    /// or an exhausted counter is `ResourceExhausted`; otherwise the next
    /// identifier is issued and the session added with an empty queue.
    pub fn open_session(
        &mut self,
        tenant_id: TenantId,
        expires_at: UnixInstant,
        next_session: &mut u64,
        request: RealtimeSessionOpenRequest,
    ) -> (res: Result<RealtimeSessionDescriptor, ApiDomainError>)
        ensures
            old(self)@.len() >= MAX_LIVE_REALTIME_SESSIONS || *old(next_session) == u64::MAX ==> res == Err::<RealtimeSessionDescriptor, ApiDomainError>(ApiDomainError { code: ApiDomainErrorCode::ResourceExhausted }) && final(self)@ == old(self)@ && *final(next_session) == *old(next_session),
            old(self)@.len() < MAX_LIVE_REALTIME_SESSIONS && *old(next_session) < u64::MAX ==> *final(next_session) == *old(next_session) + 1,
            old(self)@.len() < MAX_LIVE_REALTIME_SESSIONS && *old(next_session) < u64::MAX ==> (res matches Ok(d)
                && d@ == (RealtimeSessionDescriptorView { id: issued_session_id(*old(next_session) as nat), request: request@ })
                && final(self)@ == with_session(old(self)@, RealtimeSessionEntryView {
                    id: issued_session_id(*old(next_session) as nat),
                    tenant: tenant_id@,
                    expires_at: expires_at@,
                    queue: fresh_queue(),
                    waiting: None,
                })),
            final(self).retired() == old(self).retired(),
    {
        if self.len() >= MAX_LIVE_REALTIME_SESSIONS {
            return Err(ApiDomainError::new(ApiDomainErrorCode::ResourceExhausted));
        }
        let id = RealtimeSessionTable::issue_session_id(next_session)?;
        let descriptor = RealtimeSessionDescriptor::new(id.clone(), request);
        let queue = RealtimeSessionQueue::new();
        let entry = RealtimeSessionEntry { id, tenant_id, expires_at, queue, waiting: None };
        let ghost e = entry@;
        proof {
            assert(e.queue.outbound =~= Seq::<crate::domain::realtime::RealtimeOutboundEventView>::empty());
            assert(e.queue == fresh_queue());
        }
        match self.position(&entry.id) {
            Some(i) => {
                let ghost before = self@;
                let _replaced = self.remove_at(i);
                proof {
                    assert forall|k: int| 0 <= k < self@.len() implies (#[trigger] self@[k]).id != e.id by {
                        if k < i {
                            assert(self@[k] == before[k]);
                        } else {
                            assert(self@[k] == before[k + 1]);
                        }
                    }
                }
                self.restore_at(i, entry);
                proof {
                    assert(self@ =~= before.update(i as int, e));
                }
            },
            None => {
                let (mut entries, retired) = self.take_entries();
                let ghost before = entries_view(entries@);
                entries.push(entry);
                proof {
                    let after = entries_view(entries@);
                    assert(after =~= before.push(e));
                    assert forall|k: int| 0 <= k < before.len() implies (#[trigger] before[k]).id != e.id by {}
                    assert forall|a: int, b: int| #![trigger after[a], after[b]] 0 <= a < b < after.len() implies after[a].id != after[b].id by {
                        assert(after[a] == before[a]);
                    }
                }
                *self = RealtimeSessionTable { entries, retired };
            },
        }
        Ok(descriptor)
    }

    /// Applies one client event to session `id` on behalf of `tenant` at
    /// `now`: lookup failures are refusals; a projector failure removes the
    /// session; otherwise only that session's queue changes.
    pub fn submit<P: RealtimeFrameProjectorPort>(
        &mut self,
        id: &RealtimeSessionId,
        tenant: &TenantId,
        now: UnixInstant,
        event: &RealtimeClientEvent,
        projector: &P,
        next_response: &mut u64,
    ) -> (res: Result<(), ApplyFailure>)
        ensures
            match owned_lookup(old(self)@, id@, tenant@, now@) {
                Err(code) => res == Err::<(), ApplyFailure>(ApplyFailure::Rejected(ApiDomainError { code }))
                    && *final(next_response) == *old(next_response) && (if code == ApiDomainErrorCode::DeadlineExceeded {
                    final(self)@ == old(self)@.remove(session_index(old(self)@, id@)->0)
                } else {
                    final(self)@ == old(self)@
                }),
                Ok(i) => (exists|q: RealtimeSessionQueueView| apply_outcome(old(self)@[i].queue, q, res, *event, *old(next_response), *final(next_response), *projector))
                    && if res matches Err(ApplyFailure::Projector(_)) {
                        final(self)@ == old(self)@.remove(i)
                    } else {
                        only_queue_changed(old(self)@, final(self)@, i) && apply_outcome(old(self)@[i].queue, final(self)@[i].queue, res, *event, *old(next_response), *final(next_response), *projector)
                    },
            },
            final(self).retired() == old(self).retired() + expiry_retirement(old(self)@, id@, tenant@, now@) + match res {
                Err(ApplyFailure::Projector(e)) => retirement(old(self)@[owned_lookup(old(self)@, id@, tenant@, now@)->Ok_0].waiting, e),
                _ => Seq::empty(),
            },
    {
        proof {
            use_type_invariant(&*self);
        }
        let i = match self.lookup_owned(id, tenant, now) {
            Ok(i) => i,
            Err(e) => {
                return Err(ApplyFailure::Rejected(e));
            },
        };
        let ghost before = self@;
        let ghost retired_before = self.retired();
        let mut entry = self.remove_at(i);
        let result = entry.queue.apply(event, projector, next_response);
        match result {
            Err(ApplyFailure::Projector(e)) => {
                self.retire_receiver(entry.waiting, e);
                Err(ApplyFailure::Projector(e))
            },
            _ => {
                proof {
                    assert forall|k: int| 0 <= k < self@.len() implies (#[trigger] self@[k]).id != entry@.id by {
                        if k < i {
                            assert(self@[k] == before[k]);
                        } else {
                            assert(self@[k] == before[k + 1]);
                        }
                    }
                }
                self.restore_at(i, entry);
                proof {
                    assert forall|k: int| 0 <= k < before.len() && k != i implies #[trigger] self@[k] == before[k] by {}
                    assert(retired_before + Seq::<(u64, ApiDomainError)>::empty() =~= retired_before);
                }
                result
            },
        }
    }

    /// Answers the receiver holding lease `token` for session `id` of
    /// `tenant` at `now`: lookup failures are reported as for
    /// [`Self::submit`]; while another receiver waits the answer is
    /// `Conflict`; otherwise the oldest queued event is delivered and the
    /// receiver released, or, with nothing queued, the receiver is registered
    /// as the one waiting (`Ok(None)`).
    pub fn next_event(&mut self, id: &RealtimeSessionId, tenant: &TenantId, now: UnixInstant, token: u64) -> (res: Result<
        Option<RealtimeOutboundEvent>,
        ApiDomainError,
    >)
        ensures
            match owned_lookup(old(self)@, id@, tenant@, now@) {
                Err(code) => res == Err::<Option<RealtimeOutboundEvent>, ApiDomainError>(ApiDomainError { code }) && (if code
                    == ApiDomainErrorCode::DeadlineExceeded {
                    final(self)@ == old(self)@.remove(session_index(old(self)@, id@)->0)
                } else {
                    final(self)@ == old(self)@
                }),
                Ok(i) => if old(self)@[i].waiting matches Some(t) && t != token {
                    res == Err::<Option<RealtimeOutboundEvent>, ApiDomainError>(
                        ApiDomainError { code: ApiDomainErrorCode::Conflict },
                    ) && final(self)@ == old(self)@
                } else {
                    res matches Ok(o) && only_session_changed(old(self)@, final(self)@, i) && pop_outcome(
                        old(self)@[i].queue,
                        final(self)@[i].queue,
                        match o {
                            Some(e) => Some(e@),
                            None => None,
                        },
                    ) && final(self)@[i].waiting == if o is Some {
                        None
                    } else {
                        Some(token)
                    }
                },
            },
            final(self).retired() == old(self).retired() + expiry_retirement(old(self)@, id@, tenant@, now@),
    {
        proof {
            use_type_invariant(&*self);
        }
        let i = self.lookup_owned(id, tenant, now)?;
        let ghost before = self@;
        let ghost retired_before = self.retired();
        if let Some(t) = self.entries[i].waiting {
            if t != token {
                return Err(ApiDomainError::new(ApiDomainErrorCode::Conflict));
            }
        }
        let mut entry = self.remove_at(i);
        let delivered = entry.queue.pop_next();
        let waiting = match &delivered {
            Some(_) => None,
            None => Some(token),
        };
        entry.waiting = waiting;
        proof {
            assert forall|k: int| 0 <= k < self@.len() implies (#[trigger] self@[k]).id != entry@.id by {
                if k < i {
                    assert(self@[k] == before[k]);
                } else {
                    assert(self@[k] == before[k + 1]);
                }
            }
        }
        self.restore_at(i, entry);
        proof {
            assert forall|k: int| 0 <= k < before.len() && k != i implies #[trigger] self@[k] == before[k] by {}
        }
        Ok(delivered)
    }

    /// Releases the receiver holding lease `token` from session `id`, when
    /// it is the one waiting; anything else is left as it is.
    pub fn release_receiver(&mut self, id: &RealtimeSessionId, token: u64)
        ensures
            final(self).retired() == old(self).retired(),
            match session_index(old(self)@, id@) {
                Some(i) => if old(self)@[i].waiting == Some(token) {
                    final(self)@ == old(self)@.update(i, RealtimeSessionEntryView { waiting: None, ..old(self)@[i] })
                } else {
                    final(self)@ == old(self)@
                },
                None => final(self)@ == old(self)@,
            },
    {
        proof {
            use_type_invariant(&*self);
        }
        let i = match self.position(id) {
            Some(i) => i,
            None => {
                return;
            },
        };
        proof {
            assert(self@[i as int] == self.entries@[i as int]@);
        }
        if self.entries[i].waiting != Some(token) {
            return;
        }
        let ghost before = self@;
        let mut entry = self.remove_at(i);
        entry.waiting = None;
        proof {
            assert forall|k: int| 0 <= k < self@.len() implies (#[trigger] self@[k]).id != entry@.id by {
                if k < i {
                    assert(self@[k] == before[k]);
                } else {
                    assert(self@[k] == before[k + 1]);
                }
            }
        }
        self.restore_at(i, entry);
        proof {
            assert(self@ =~= before.update(i as int, RealtimeSessionEntryView { waiting: None, ..before[i as int] }));
        }
    }

    /// The lease tokens of the receivers waiting for an event, in session
    /// order.
    pub fn waiting_receivers(&self) -> (res: Vec<u64>)
        ensures
            forall|t: u64| res@.contains(t) <==> exists|k: int| 0 <= k < self@.len() && #[trigger] self@[k].waiting == Some(t),
    {
        let mut tokens: Vec<u64> = Vec::new();
        let mut i: usize = 0;
        while i < self.entries.len()
            invariant
                i <= self.entries@.len(),
                forall|t: u64| tokens@.contains(t) <==> exists|k: int| 0 <= k < i && #[trigger] entries_view(self.entries@)[k].waiting == Some(t),
            decreases self.entries@.len() - i,
        {
            let ghost before = tokens@;
            if let Some(t) = self.entries[i].waiting {
                tokens.push(t);
                proof {
                    assert forall|x: u64| tokens@.contains(x) <==> exists|k: int| 0 <= k < i + 1 && #[trigger] entries_view(self.entries@)[k].waiting == Some(x) by {
                        if tokens@.contains(x) && x != t {
                            assert(before.contains(x));
                        }
                        if x == t {
                            assert(tokens@[tokens@.len() - 1] == x);
                            assert(entries_view(self.entries@)[i as int].waiting == Some(x));
                        }
                        if exists|k: int| 0 <= k < i + 1 && #[trigger] entries_view(self.entries@)[k].waiting == Some(x) {
                            let k = choose|k: int| 0 <= k < i + 1 && #[trigger] entries_view(self.entries@)[k].waiting == Some(x);
                            if k < i {
                                assert(before.contains(x));
                                let m = choose|m: int| 0 <= m < before.len() && before[m] == x;
                                assert(tokens@[m] == x);
                            }
                        }
                    }
                }
            } else {
                proof {
                    assert forall|x: u64| tokens@.contains(x) <==> exists|k: int| 0 <= k < i + 1 && #[trigger] entries_view(self.entries@)[k].waiting == Some(x) by {
                        if exists|k: int| 0 <= k < i + 1 && #[trigger] entries_view(self.entries@)[k].waiting == Some(x) {
                            let k = choose|k: int| 0 <= k < i + 1 && #[trigger] entries_view(self.entries@)[k].waiting == Some(x);
                            assert(k < i);
                        }
                    }
                }
            }
            i = i + 1;
        }
        tokens
    }

    /// Hands over what the receivers of removed sessions must be told, oldest
    /// first, and forgets it.
    pub fn take_retired(&mut self) -> (res: Vec<(u64, ApiDomainError)>)
        ensures
            res@ == old(self).retired(),
            final(self)@ == old(self)@,
            final(self).retired().len() == 0,
    {
        let (entries, retired) = self.take_entries();
        *self = RealtimeSessionTable { entries, retired: Vec::new() };
        retired
    }

    /// Closes session `id` on behalf of `tenant`: a missing or foreign session
    /// is unavailable; otherwise it is removed, expired or not.
    pub fn close(&mut self, id: &RealtimeSessionId, tenant: &TenantId) -> (res: Result<(), ApiDomainError>)
        ensures
            match session_index(old(self)@, id@) {
                Some(i) => if old(self)@[i].tenant == tenant@ {
                    res is Ok && final(self)@ == old(self)@.remove(i)
                } else {
                    res == Err::<(), ApiDomainError>(ApiDomainError { code: ApiDomainErrorCode::Unavailable }) && final(self)@ == old(self)@
                },
                None => res == Err::<(), ApiDomainError>(ApiDomainError { code: ApiDomainErrorCode::Unavailable }) && final(self)@ == old(self)@,
            },
            final(self).retired() == old(self).retired() + match res {
                Ok(()) => retirement(old(self)@[session_index(old(self)@, id@)->0].waiting, ApiDomainError { code: ApiDomainErrorCode::Unavailable }),
                Err(_) => Seq::empty(),
            },
    {
        proof {
            assert(old(self).retired() + Seq::<(u64, ApiDomainError)>::empty() =~= old(self).retired());
        }
        let i = match self.position(id) {
            Some(i) => i,
            None => {
                return Err(ApiDomainError::new(ApiDomainErrorCode::Unavailable));
            },
        };
        proof {
            assert(self@[i as int] == self.entries@[i as int]@);
        }
        if !self.entries[i].tenant_id.same_id(tenant) {
            return Err(ApiDomainError::new(ApiDomainErrorCode::Unavailable));
        }
        let removed = self.remove_at(i);
        self.retire_receiver(removed.waiting, ApiDomainError::new(ApiDomainErrorCode::Unavailable));
        Ok(())
    }

    /// Removes every session expired at `now`, keeping the live ones in
    /// order, and returns the removed identities.
    pub fn reclaim_expired(&mut self, now: UnixInstant) -> (res: Vec<RealtimeSessionId>)
        ensures
            final(self)@ == old(self)@.filter(live_at(now@)),
            res@.len() + final(self)@.len() == old(self)@.len(),
            session_id_texts(res@) == entry_ids(old(self)@.filter(expired_at(now@))),
            final(self).retired() == old(self).retired() + retirements(
                old(self)@.filter(expired_at(now@)),
                ApiDomainError { code: ApiDomainErrorCode::DeadlineExceeded },
            ),
    {
        let (entries, mut retired) = self.take_entries();
        let ghost retired_before = retired@;
        let ghost deadline = ApiDomainError { code: ApiDomainErrorCode::DeadlineExceeded };
        let ghost old_s = entries_view(entries@);
        let ghost pred = live_at(now@);
        let mut rest = entries;
        let mut kept: Vec<RealtimeSessionEntry> = Vec::new();
        let mut removed: Vec<RealtimeSessionId> = Vec::new();
        let mut i: usize = 0;
        while rest.len() > 0
            invariant
                entries_view(rest@) == old_s.skip(i as int),
                i <= old_s.len(),
                old_s.len() <= MAX_LIVE_REALTIME_SESSIONS,
                ids_unique(old_s),
                pred == live_at(now@),
                entries_view(kept@) == old_s.take(i as int).filter(pred),
                ids_unique(entries_view(kept@)),
                forall|a: int| 0 <= a < kept@.len() ==> exists|j: int| 0 <= j < i && #[trigger] kept@[a]@ == old_s[j],
                kept@.len() + removed@.len() == i,
                session_id_texts(removed@) == entry_ids(old_s.take(i as int).filter(expired_at(now@))),
                deadline == (ApiDomainError { code: ApiDomainErrorCode::DeadlineExceeded }),
                retired@ == retired_before + retirements(old_s.take(i as int).filter(expired_at(now@)), deadline),
            decreases rest@.len(),
        {
            let ghost rest_before = rest@;
            proof {
                assert(entries_view(rest_before).len() == rest_before.len());
                assert(entries_view(rest_before)[0] == old_s.skip(i as int)[0]);
            }
            let entry = rest.remove(0);
            let keep = now.precedes(entry.expires_at);
            proof {
                assert(entry@ == old_s[i as int]);
                assert(old_s.take(i + 1).drop_last() =~= old_s.take(i as int));
                assert(old_s.take(i + 1).last() == old_s[i as int]);
                reveal(Seq::filter);
                assert(pred(old_s[i as int]) == (now@ < old_s[i as int].expires_at));
                assert(expired_at(now@)(old_s[i as int]) == (old_s[i as int].expires_at <= now@));
            }
            if keep {
                let ghost kept_before = entries_view(kept@);
                kept.push(entry);
                proof {
                    assert(old_s.take(i + 1).filter(expired_at(now@)) == old_s.take(i as int).filter(expired_at(now@)));
                    let kv = entries_view(kept@);
                    assert(kv =~= old_s.take(i as int).filter(pred).push(old_s[i as int]));
                    assert forall|a: int| 0 <= a < kept@.len() - 1 implies kv[a].id != old_s[i as int].id by {
                        let j = choose|j: int| 0 <= j < i && kept@[a]@ == old_s[j];
                        assert(kv[a] == kept@[a]@);
                    }
                    assert forall|a: int, b: int| #![trigger kv[a], kv[b]] 0 <= a < b < kv.len() implies kv[a].id != kv[b].id by {
                        if b < kv.len() - 1 {
                            assert(kv[a] == kept_before[a] && kv[b] == kept_before[b]);
                        }
                    }
                    assert forall|a: int| 0 <= a < kept@.len() implies exists|j: int| 0 <= j < i + 1 && #[trigger] kept@[a]@ == old_s[j] by {
                        if a == kept@.len() - 1 {
                            assert(kept@[a]@ == old_s[i as int]);
                        } else {
                            let j = choose|j: int| 0 <= j < i && kept@[a]@ == old_s[j];
                        }
                    }
                }
            } else {
                let ghost removed_before = removed@;
                let ghost retired_prev = retired@;
                if let Some(token) = entry.waiting {
                    retired.push((token, ApiDomainError::new(ApiDomainErrorCode::DeadlineExceeded)));
                }
                proof {
                    let f = old_s.take(i as int).filter(expired_at(now@));
                    assert(old_s.take(i + 1).filter(expired_at(now@)) == f.push(old_s[i as int]));
                    assert(f.push(old_s[i as int]).drop_last() =~= f);
                    assert(retired@ =~= retired_before + retirements(f.push(old_s[i as int]), deadline));
                }
                removed.push(entry.id);
                proof {
                    let f = old_s.take(i as int).filter(expired_at(now@));
                    assert(old_s.take(i + 1).filter(expired_at(now@)) == f.push(old_s[i as int]));
                    assert(entry_ids(f.push(old_s[i as int])) =~= entry_ids(f).push(old_s[i as int].id));
                    assert(session_id_texts(removed@) =~= session_id_texts(removed_before).push(old_s[i as int].id));
                }
            }
            i = i + 1;
            proof {
                assert forall|j: int| 0 <= j < rest@.len() implies #[trigger] entries_view(rest@)[j] == old_s.skip(i as int)[j] by {
                    assert(rest@[j] == rest_before[j + 1]);
                    assert(entries_view(rest_before)[j + 1] == old_s.skip(i - 1)[j + 1]);
                }
                assert(entries_view(rest@) =~= old_s.skip(i as int));
            }
        }
        proof {
            assert(old_s.take(old_s.len() as int) =~= old_s);
        }
        *self = RealtimeSessionTable { entries: kept, retired };
        removed
    }
}

/// A session is reached only on behalf of the tenant that owns it, and only
/// before its deadline: a successful lookup names a live session of exactly
/// that identifier and tenant.
pub proof fn lookups_are_tenant_scoped(t: Seq<RealtimeSessionEntryView>, id: Seq<char>, tenant: Seq<char>, now: int)
    requires
        owned_lookup(t, id, tenant, now) is Ok,
    ensures
        0 <= owned_lookup(t, id, tenant, now)->Ok_0 < t.len(),
        t[owned_lookup(t, id, tenant, now)->Ok_0].id == id,
        t[owned_lookup(t, id, tenant, now)->Ok_0].tenant == tenant,
        now < t[owned_lookup(t, id, tenant, now)->Ok_0].expires_at,
{
}

/// Another tenant's session is indistinguishable from a missing one: both
/// are answered `Unavailable`.
pub proof fn foreign_sessions_look_missing(t: Seq<RealtimeSessionEntryView>, id: Seq<char>, tenant: Seq<char>, now: int)
    requires
        session_index(t, id) matches Some(i) ==> t[i].tenant != tenant,
    ensures
        owned_lookup(t, id, tenant, now) == Err::<int, ApiDomainErrorCode>(ApiDomainErrorCode::Unavailable),
{
}

} // verus!
