//! Bounded lifecycle timestamp values for Batch operations.

use vstd::prelude::*;

use crate::domain::batch::{ApiBatchError, ApiBatchErrorCode, batch_invalid_argument};

verus! {

/// A point in time as signed nanoseconds relative to the UNIX epoch.
#[derive(Clone, Copy, Debug, PartialEq, Eq, Structural, Hash)]
pub struct UnixInstant(i128);

impl View for UnixInstant {
    type V = int;

    closed spec fn view(&self) -> int {
        self.0 as int
    }
}

impl UnixInstant {
    /// Creates an instant `nanos` nanoseconds after (or, when negative, before)
    /// the UNIX epoch.
    pub fn from_unix_nanos(nanos: i128) -> (res: Self)
        ensures
            res@ == nanos,
    {
        UnixInstant(nanos)
    }

    /// Returns the signed nanoseconds relative to the UNIX epoch.
    pub fn unix_nanos(self) -> (res: i128)
        ensures
            res == self@,
    {
        self.0
    }

    /// Reports whether this instant lies strictly before `other`.
    pub fn precedes(self, other: UnixInstant) -> (res: bool)
        ensures
            res == (self@ < other@),
    {
        self.0 < other.0
    }
}

/// Whether an optional instant does not precede `created`.
pub open spec fn not_before(created: UnixInstant, value: Option<UnixInstant>) -> bool {
    match value {
        Some(t) => created@ <= t@,
        None => true,
    }
}

/// Optional lifecycle transitions supplied when constructing [`BatchTimestamps`].
#[derive(Clone, Copy, Debug, Default, PartialEq, Eq, Structural)]
pub struct BatchTimestampTransitions {
    in_progress_at: Option<UnixInstant>,
    expires_at: Option<UnixInstant>,
    finalizing_at: Option<UnixInstant>,
    completed_at: Option<UnixInstant>,
    failed_at: Option<UnixInstant>,
    expired_at: Option<UnixInstant>,
    cancelling_at: Option<UnixInstant>,
    cancelled_at: Option<UnixInstant>,
}

/// Abstract contents of [`BatchTimestampTransitions`].
pub struct BatchTimestampTransitionsView {
    /// The transition-to-in-progress timestamp, when present.
    pub in_progress_at: Option<UnixInstant>,
    /// The completion-window expiry timestamp, when present.
    pub expires_at: Option<UnixInstant>,
    /// The finalizing transition timestamp, when present.
    pub finalizing_at: Option<UnixInstant>,
    /// The successful completion timestamp, when present.
    pub completed_at: Option<UnixInstant>,
    /// The failure timestamp, when present.
    pub failed_at: Option<UnixInstant>,
    /// The expiry transition timestamp, when present.
    pub expired_at: Option<UnixInstant>,
    /// The cancellation-request timestamp, when present.
    pub cancelling_at: Option<UnixInstant>,
    /// The cancellation-completed timestamp, when present.
    pub cancelled_at: Option<UnixInstant>,
}

/// A transition set with no timestamps.
pub open spec fn empty_transitions() -> BatchTimestampTransitionsView {
    BatchTimestampTransitionsView {
        in_progress_at: None,
        expires_at: None,
        finalizing_at: None,
        completed_at: None,
        failed_at: None,
        expired_at: None,
        cancelling_at: None,
        cancelled_at: None,
    }
}

impl View for BatchTimestampTransitions {
    type V = BatchTimestampTransitionsView;

    closed spec fn view(&self) -> BatchTimestampTransitionsView {
        BatchTimestampTransitionsView {
            in_progress_at: self.in_progress_at,
            expires_at: self.expires_at,
            finalizing_at: self.finalizing_at,
            completed_at: self.completed_at,
            failed_at: self.failed_at,
            expired_at: self.expired_at,
            cancelling_at: self.cancelling_at,
            cancelled_at: self.cancelled_at,
        }
    }
}

impl BatchTimestampTransitions {
    /// Creates an empty transition set.
    pub fn new() -> (res: Self)
        ensures
            res@ == empty_transitions(),
    {
        BatchTimestampTransitions {
            in_progress_at: None,
            expires_at: None,
            finalizing_at: None,
            completed_at: None,
            failed_at: None,
            expired_at: None,
            cancelling_at: None,
            cancelled_at: None,
        }
    }

    /// Sets the transition-to-in-progress timestamp, leaving the others unchanged.
    pub fn with_in_progress_at(self, value: Option<UnixInstant>) -> (res: Self)
        ensures
            res@ == (BatchTimestampTransitionsView { in_progress_at: value, ..self@ }),
    {
        let mut next = self;
        next.in_progress_at = value;
        next
    }

    /// Sets the completion-window expiry timestamp, leaving the others unchanged.
    pub fn with_expires_at(self, value: Option<UnixInstant>) -> (res: Self)
        ensures
            res@ == (BatchTimestampTransitionsView { expires_at: value, ..self@ }),
    {
        let mut next = self;
        next.expires_at = value;
        next
    }

    /// Sets the finalizing transition timestamp, leaving the others unchanged.
    pub fn with_finalizing_at(self, value: Option<UnixInstant>) -> (res: Self)
        ensures
            res@ == (BatchTimestampTransitionsView { finalizing_at: value, ..self@ }),
    {
        let mut next = self;
        next.finalizing_at = value;
        next
    }

    /// Sets the successful completion timestamp, leaving the others unchanged.
    pub fn with_completed_at(self, value: Option<UnixInstant>) -> (res: Self)
        ensures
            res@ == (BatchTimestampTransitionsView { completed_at: value, ..self@ }),
    {
        let mut next = self;
        next.completed_at = value;
        next
    }

    /// Sets the failure timestamp, leaving the others unchanged.
    pub fn with_failed_at(self, value: Option<UnixInstant>) -> (res: Self)
        ensures
            res@ == (BatchTimestampTransitionsView { failed_at: value, ..self@ }),
    {
        let mut next = self;
        next.failed_at = value;
        next
    }

    /// Sets the expiry transition timestamp, leaving the others unchanged.
    pub fn with_expired_at(self, value: Option<UnixInstant>) -> (res: Self)
        ensures
            res@ == (BatchTimestampTransitionsView { expired_at: value, ..self@ }),
    {
        let mut next = self;
        next.expired_at = value;
        next
    }

    /// Sets the cancellation-request timestamp, leaving the others unchanged.
    pub fn with_cancelling_at(self, value: Option<UnixInstant>) -> (res: Self)
        ensures
            res@ == (BatchTimestampTransitionsView { cancelling_at: value, ..self@ }),
    {
        let mut next = self;
        next.cancelling_at = value;
        next
    }

    /// Sets the cancellation-completed timestamp, leaving the others unchanged.
    pub fn with_cancelled_at(self, value: Option<UnixInstant>) -> (res: Self)
        ensures
            res@ == (BatchTimestampTransitionsView { cancelled_at: value, ..self@ }),
    {
        let mut next = self;
        next.cancelled_at = value;
        next
    }
}

/// Validated lifecycle timestamps associated with one Batch operation.
#[derive(Clone, Copy, Debug, PartialEq, Eq, Structural)]
pub struct BatchTimestamps {
    created_at: UnixInstant,
    in_progress_at: Option<UnixInstant>,
    expires_at: Option<UnixInstant>,
    finalizing_at: Option<UnixInstant>,
    completed_at: Option<UnixInstant>,
    failed_at: Option<UnixInstant>,
    expired_at: Option<UnixInstant>,
    cancelling_at: Option<UnixInstant>,
    cancelled_at: Option<UnixInstant>,
}

/// Abstract contents of [`BatchTimestamps`].
pub struct BatchTimestampsView {
    /// The creation timestamp.
    pub created_at: UnixInstant,
    /// The optional lifecycle transitions.
    pub transitions: BatchTimestampTransitionsView,
}

/// Whether no transition precedes creation.
pub open spec fn transitions_not_before(created: UnixInstant, t: BatchTimestampTransitionsView) -> bool {
    not_before(created, t.in_progress_at)
    && not_before(created, t.expires_at)
    && not_before(created, t.finalizing_at)
    && not_before(created, t.completed_at)
    && not_before(created, t.failed_at)
    && not_before(created, t.expired_at)
    && not_before(created, t.cancelling_at)
    && not_before(created, t.cancelled_at)
}

impl View for BatchTimestamps {
    type V = BatchTimestampsView;

    closed spec fn view(&self) -> BatchTimestampsView {
        BatchTimestampsView {
            created_at: self.created_at,
            transitions: BatchTimestampTransitionsView {
                in_progress_at: self.in_progress_at,
                expires_at: self.expires_at,
                finalizing_at: self.finalizing_at,
                completed_at: self.completed_at,
                failed_at: self.failed_at,
                expired_at: self.expired_at,
                cancelling_at: self.cancelling_at,
                cancelled_at: self.cancelled_at,
            },
        }
    }
}

impl BatchTimestamps {
    #[verifier::type_invariant]
    spec fn valid(self) -> bool {
        transitions_not_before(self.created_at, self@.transitions)
    }

    /// Creates timestamps whose optional values cannot precede creation; any
    /// earlier value is `InvalidArgument`.
    pub fn new(created_at: UnixInstant, transitions: BatchTimestampTransitions) -> (res: Result<Self, ApiBatchError>)
        ensures
            res is Ok <==> transitions_not_before(created_at, transitions@),
            res is Err ==> res == Err::<BatchTimestamps, ApiBatchError>(
                ApiBatchError { code: ApiBatchErrorCode::InvalidArgument },
            ),
            res matches Ok(t) ==> t@ == (BatchTimestampsView { created_at, transitions: transitions@ }),
    {
        let values = [
            transitions.in_progress_at,
            transitions.expires_at,
            transitions.finalizing_at,
            transitions.completed_at,
            transitions.failed_at,
            transitions.expired_at,
            transitions.cancelling_at,
            transitions.cancelled_at,
        ];
        validate_timestamp_order(created_at, &values)?;
        Ok(BatchTimestamps {
            created_at,
            in_progress_at: transitions.in_progress_at,
            expires_at: transitions.expires_at,
            finalizing_at: transitions.finalizing_at,
            completed_at: transitions.completed_at,
            failed_at: transitions.failed_at,
            expired_at: transitions.expired_at,
            cancelling_at: transitions.cancelling_at,
            cancelled_at: transitions.cancelled_at,
        })
    }

    /// Returns the creation timestamp.
    pub fn created_at(self) -> (res: UnixInstant)
        ensures
            res == self@.created_at,
    {
        self.created_at
    }

    /// Returns the transition-to-in-progress timestamp.
    pub fn in_progress_at(self) -> (res: Option<UnixInstant>)
        ensures
            res == self@.transitions.in_progress_at,
            not_before(self@.created_at, res),
    {
        proof {
            use_type_invariant(&self);
        }
        self.in_progress_at
    }

    /// Returns the completion-window expiry timestamp.
    pub fn expires_at(self) -> (res: Option<UnixInstant>)
        ensures
            res == self@.transitions.expires_at,
            not_before(self@.created_at, res),
    {
        proof {
            use_type_invariant(&self);
        }
        self.expires_at
    }

    /// Returns the finalizing transition timestamp.
    pub fn finalizing_at(self) -> (res: Option<UnixInstant>)
        ensures
            res == self@.transitions.finalizing_at,
            not_before(self@.created_at, res),
    {
        proof {
            use_type_invariant(&self);
        }
        self.finalizing_at
    }

    /// Returns the successful completion timestamp.
    pub fn completed_at(self) -> (res: Option<UnixInstant>)
        ensures
            res == self@.transitions.completed_at,
            not_before(self@.created_at, res),
    {
        proof {
            use_type_invariant(&self);
        }
        self.completed_at
    }

    /// Returns the failure timestamp.
    pub fn failed_at(self) -> (res: Option<UnixInstant>)
        ensures
            res == self@.transitions.failed_at,
            not_before(self@.created_at, res),
    {
        proof {
            use_type_invariant(&self);
        }
        self.failed_at
    }

    /// Returns the expiry transition timestamp.
    pub fn expired_at(self) -> (res: Option<UnixInstant>)
        ensures
            res == self@.transitions.expired_at,
            not_before(self@.created_at, res),
    {
        proof {
            use_type_invariant(&self);
        }
        self.expired_at
    }

    /// Returns the cancellation-request timestamp.
    pub fn cancelling_at(self) -> (res: Option<UnixInstant>)
        ensures
            res == self@.transitions.cancelling_at,
            not_before(self@.created_at, res),
    {
        proof {
            use_type_invariant(&self);
        }
        self.cancelling_at
    }

    /// Returns the cancellation-completed timestamp.
    pub fn cancelled_at(self) -> (res: Option<UnixInstant>)
        ensures
            res == self@.transitions.cancelled_at,
            not_before(self@.created_at, res),
    {
        proof {
            use_type_invariant(&self);
        }
        self.cancelled_at
    }
}

fn validate_timestamp_order(created_at: UnixInstant, values: &[Option<UnixInstant>; 8]) -> (res: Result<(), ApiBatchError>)
    ensures
        res is Ok <==> (forall|i: int| 0 <= i < 8 ==> #[trigger] not_before(created_at, values@[i])),
        res is Err ==> res == Err::<(), ApiBatchError>(ApiBatchError { code: ApiBatchErrorCode::InvalidArgument }),
{
    let mut i: usize = 0;
    while i < 8
        invariant
            i <= 8,
            values@.len() == 8,
            forall|j: int| 0 <= j < i ==> #[trigger] not_before(created_at, values@[j]),
        decreases 8 - i,
    {
        match values[i] {
            Some(value) => {
                if value.precedes(created_at) {
                    proof {
                        assert(!not_before(created_at, values@[i as int]));
                    }
                    return Err(batch_invalid_argument());
                }
            },
            None => {},
        }
        i = i + 1;
    }
    Ok(())
}

} // verus!
