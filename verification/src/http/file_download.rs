//! Decisions of a streamed file download: the first message, chunk
//! accounting against the declared length, completion, the precedence of
//! request-context failures, and the release of the admission permit.
//!
//! The runtime around the body polls channels and tasks; every answer it
//! gives to the client is decided here.

use vstd::prelude::*;

use crate::domain::error::{ApiDomainError, ApiDomainErrorCode};
use crate::domain::file::{FileDescriptor, FileDescriptorView};
use crate::files::{ApiFilesError, ApiFilesErrorCode, MAX_FILE_CHUNK_BYTES, files_code_of_core, files_code_of_domain, files_error};
use crate::http::file_routes::checked_chunk_length;
use crate::platform::CoreErrorCode;

verus! {

/// One message from the download producer to the response body.
pub enum DownloadMessage {
    /// A chunk of file bytes.
    Chunk(Vec<u8>),
    /// The producer finished and reports this descriptor.
    Complete(FileDescriptor),
    /// The producer failed.
    Error(ApiFilesError),
}

/// The failure that the request context imposes on a download at one
/// moment: an inactive context fails with its own class; an active one
/// whose download deadline fired fails with `DeadlineExceeded`.
pub open spec fn context_error_of(deadline_expired: bool, activity: Option<CoreErrorCode>) -> Option<ApiFilesError> {
    match activity {
        Some(c) => Some(ApiFilesError { code: files_code_of_core(c) }),
        None => if deadline_expired {
            Some(ApiFilesError { code: ApiFilesErrorCode::DeadlineExceeded })
        } else {
            None
        },
    }
}

/// Computes the failure the request context imposes; `activity` is the
/// failure of the context's activity check, if any.
pub fn context_error(deadline_expired: bool, activity: Option<CoreErrorCode>) -> (res: Option<ApiFilesError>)
    ensures
        res == context_error_of(deadline_expired, activity),
{
    match activity {
        Some(c) => Some(ApiFilesError::from(c)),
        None => if deadline_expired {
            Some(files_error(ApiFilesErrorCode::DeadlineExceeded))
        } else {
            None
        },
    }
}

/// The answer to a completion message: a context failure wins, then a
/// complete and exact delivery ends the body, and anything else is an
/// integrity failure.
pub open spec fn completion_poll_of(valid: bool, context_error: Option<ApiFilesError>) -> Option<Result<Seq<u8>, ApiFilesError>> {
    match context_error {
        Some(e) => Some(Err(e)),
        None => if valid {
            None
        } else {
            Some(Err(ApiFilesError { code: ApiFilesErrorCode::IntegrityFailure }))
        },
    }
}

/// The bytes of a polled item, if it is a chunk.
pub open spec fn polled_view(p: Option<Result<Vec<u8>, ApiFilesError>>) -> Option<Result<Seq<u8>, ApiFilesError>> {
    match p {
        Some(Ok(b)) => Some(Ok(b@)),
        Some(Err(e)) => Some(Err(e)),
        None => None,
    }
}

/// Answers a completion message; `None` ends the body.
pub fn completion_poll(valid: bool, context_error: Option<ApiFilesError>) -> (res: Option<Result<Vec<u8>, ApiFilesError>>)
    ensures
        polled_view(res) == completion_poll_of(valid, context_error),
        res matches Some(r) ==> r is Err,
{
    match context_error {
        Some(e) => Some(Err(e)),
        None => if valid {
            None
        } else {
            Some(Err(files_error(ApiFilesErrorCode::IntegrityFailure)))
        },
    }
}

/// The first message of a download, or why none came: a receiver that
/// closed while the producer ran is `Internal`; one that closed, or stayed
/// empty, after the producer finished is `IntegrityFailure`.
pub fn first_message(received: Option<DownloadMessage>, producer_finished: bool) -> (res: Result<DownloadMessage, ApiFilesError>)
    ensures
        received is Some ==> res is Ok,
        received is None && producer_finished ==> res == Err::<DownloadMessage, ApiFilesError>(
            ApiFilesError { code: ApiFilesErrorCode::IntegrityFailure },
        ),
        received is None && !producer_finished ==> res == Err::<DownloadMessage, ApiFilesError>(
            ApiFilesError { code: ApiFilesErrorCode::Internal },
        ),
        res matches Ok(m) ==> received == Some(m),
{
    match received {
        Some(m) => Ok(m),
        None => if producer_finished {
            Err(files_error(ApiFilesErrorCode::IntegrityFailure))
        } else {
            Err(files_error(ApiFilesErrorCode::Internal))
        },
    }
}

/// Takes the first chunk out of the first message: a producer failure is
/// returned as it is, and a completion before any chunk is an integrity
/// failure.
pub fn receive_first_chunk(message: DownloadMessage) -> (res: Result<Vec<u8>, ApiFilesError>)
    ensures
        match message {
            DownloadMessage::Chunk(b) => res matches Ok(x) && x@ == b@,
            DownloadMessage::Error(e) => res == Err::<Vec<u8>, ApiFilesError>(e),
            DownloadMessage::Complete(_) => res == Err::<Vec<u8>, ApiFilesError>(
                ApiFilesError { code: ApiFilesErrorCode::IntegrityFailure },
            ),
        },
{
    match message {
        DownloadMessage::Chunk(b) => Ok(b),
        DownloadMessage::Error(e) => Err(e),
        DownloadMessage::Complete(_) => Err(files_error(ApiFilesErrorCode::IntegrityFailure)),
    }
}

/// Checks that the first chunk is non-empty, bounded and within the
/// declared length.
pub fn validate_first_chunk(first: &[u8], descriptor: &FileDescriptor) -> (res: Result<(), ApiFilesError>)
    ensures
        res is Ok <==> (1 <= first@.len() <= MAX_FILE_CHUNK_BYTES && first@.len() <= descriptor@.byte_length),
        res is Err ==> res == Err::<(), ApiFilesError>(ApiFilesError { code: ApiFilesErrorCode::IntegrityFailure }),
{
    match checked_chunk_length(first.len(), 0, descriptor.byte_length().get()) {
        Ok(_) => Ok(()),
        Err(e) => Err(e),
    }
}

/// What the producer sends when the file service returns: a descriptor is a
/// completion only when the sink was finished and the descriptor is the one
/// announced; a service failure is passed on; a context failure is
/// projected onto its file class.
pub fn download_outcome(
    result: Result<Result<FileDescriptor, ApiFilesError>, ApiDomainError>,
    sink_finished: bool,
    expected: &FileDescriptor,
) -> (res: DownloadMessage)
    ensures
        match result {
            Ok(Ok(d)) => if sink_finished && d@ == expected@ {
                res matches DownloadMessage::Complete(x) && x@ == d@
            } else {
                res matches DownloadMessage::Error(e) && e.code == ApiFilesErrorCode::IntegrityFailure
            },
            Ok(Err(e)) => res matches DownloadMessage::Error(x) && x == e,
            Err(d) => res matches DownloadMessage::Error(x) && x.code == files_code_of_domain(d.code),
        },
{
    match result {
        Ok(Ok(d)) => {
            if sink_finished && d.same_descriptor(expected) {
                DownloadMessage::Complete(d)
            } else {
                DownloadMessage::Error(files_error(ApiFilesErrorCode::IntegrityFailure))
            }
        },
        Ok(Err(e)) => DownloadMessage::Error(e),
        Err(d) => DownloadMessage::Error(ApiFilesError::from(d)),
    }
}

/// The failure a download reports when its lifetime watch ends, and
/// whether the deadline expired: an end without failure is `Internal`.
pub fn download_lifetime_error(outcome: Result<(), ApiDomainError>) -> (res: (ApiFilesError, bool))
    ensures
        match outcome {
            Ok(()) => res.0.code == ApiFilesErrorCode::Internal && !res.1,
            Err(d) => res.0.code == files_code_of_domain(d.code) && res.1 == (d.code == ApiDomainErrorCode::DeadlineExceeded),
        },
{
    match outcome {
        Ok(()) => (files_error(ApiFilesErrorCode::Internal), false),
        Err(d) => {
            let expired = match d.code() {
                ApiDomainErrorCode::DeadlineExceeded => true,
                _ => false,
            };
            (ApiFilesError::from(d), expired)
        },
    }
}

/// Whether a poll that accounted chunk `bytes` answered `res`, taking the
/// body from `before` to `after`: a context failure wins and ends the body;
/// otherwise a non-empty, bounded chunk within the announced length is
/// yielded and counted, and anything else is an integrity failure that ends
/// the body.
pub open spec fn chunk_polled(
    before: DownloadBodyView,
    after: DownloadBodyView,
    bytes: Seq<u8>,
    context_error: Option<ApiFilesError>,
    res: Option<Result<Seq<u8>, ApiFilesError>>,
) -> bool {
    &&& after.first == before.first
    &&& after.descriptor == before.descriptor
    &&& match context_error {
        Some(e) => res == Some(Err::<Seq<u8>, ApiFilesError>(e)) && after.done && after.delivered == before.delivered,
        None => if 1 <= bytes.len() <= MAX_FILE_CHUNK_BYTES && before.delivered + bytes.len() <= before.descriptor.byte_length {
            res == Some(Ok::<Seq<u8>, ApiFilesError>(bytes)) && after.delivered == before.delivered + bytes.len()
                && after.done == before.done
        } else {
            res == Some(Err::<Seq<u8>, ApiFilesError>(ApiFilesError { code: ApiFilesErrorCode::IntegrityFailure }))
                && after.done && after.delivered == before.delivered
        },
    }
}

/// Abstract state of a download body.
pub struct DownloadBodyView {
    /// The first chunk, while it has not been yielded.
    pub first: Option<Seq<u8>>,
    /// The announced descriptor.
    pub descriptor: FileDescriptorView,
    /// Bytes yielded so far.
    pub delivered: nat,
    /// Whether the body has ended.
    pub done: bool,
}

/// The response body of one download: it yields chunks while their total
/// stays within the announced length and ends with the first failure or a
/// verified completion.
pub struct DownloadBody {
    first: Option<Vec<u8>>,
    descriptor: FileDescriptor,
    delivered: usize,
    done: bool,
}

impl View for DownloadBody {
    type V = DownloadBodyView;

    closed spec fn view(&self) -> DownloadBodyView {
        DownloadBodyView {
            first: match self.first {
                Some(b) => Some(b@),
                None => None,
            },
            descriptor: self.descriptor@,
            delivered: self.delivered as nat,
            done: self.done,
        }
    }
}

impl DownloadBody {
    #[verifier::type_invariant]
    spec fn within_declared_length(self) -> bool {
        self.delivered <= self.descriptor@.byte_length
    }

    /// Starts a body with its first chunk and the announced descriptor.
    pub fn new(first: Vec<u8>, descriptor: FileDescriptor) -> (res: Self)
        ensures
            res@ == (DownloadBodyView { first: Some(first@), descriptor: descriptor@, delivered: 0, done: false }),
    {
        DownloadBody { first: Some(first), descriptor, delivered: 0, done: false }
    }

    /// Bytes yielded so far; never more than the announced length.
    pub fn delivered(&self) -> (res: usize)
        ensures
            res == self@.delivered,
            res <= self@.descriptor.byte_length,
    {
        proof {
            use_type_invariant(self);
        }
        self.delivered
    }

    /// Whether the body has ended; the runtime stops the producer then.
    pub fn is_done(&self) -> (res: bool)
        ensures
            res == self@.done,
    {
        self.done
    }

    /// Accounts one chunk: a context failure wins, then the chunk must be
    /// non-empty, bounded and within the announced length. A failure ends
    /// the body.
    pub fn process_chunk_result(&mut self, bytes: Vec<u8>, deadline_expired: bool, activity: Option<CoreErrorCode>) -> (res:
        Option<Result<Vec<u8>, ApiFilesError>>)
        ensures
            final(self)@.first == old(self)@.first,
            final(self)@.descriptor == old(self)@.descriptor,
            chunk_polled(old(self)@, final(self)@, bytes@, context_error_of(deadline_expired, activity), polled_view(res)),
    {
        proof {
            use_type_invariant(&*self);
        }
        if let Some(e) = context_error(deadline_expired, activity) {
            self.done = true;
            return Some(Err(e));
        }
        match checked_chunk_length(bytes.len(), self.delivered, self.descriptor.byte_length().get()) {
            Ok(total) => {
                self.delivered = total;
                Some(Ok(bytes))
            },
            Err(e) => {
                self.done = true;
                Some(Err(e))
            },
        }
    }

    /// Answers one producer message. A completion ends the body successfully
    /// only when no context failure applies, its descriptor is the announced
    /// one and exactly the announced length was delivered; a producer
    /// failure is reported unless a context failure takes precedence.
    pub fn process_message(&mut self, message: DownloadMessage, deadline_expired: bool, activity: Option<CoreErrorCode>) -> (res:
        Option<Result<Vec<u8>, ApiFilesError>>)
        ensures
            final(self)@.first == old(self)@.first,
            final(self)@.descriptor == old(self)@.descriptor,
            match message {
                DownloadMessage::Chunk(b) => chunk_polled(
                    old(self)@,
                    final(self)@,
                    b@,
                    context_error_of(deadline_expired, activity),
                    polled_view(res),
                ),
                DownloadMessage::Complete(d) => polled_view(res) == completion_poll_of(
                    d@ == old(self)@.descriptor && old(self)@.delivered == old(self)@.descriptor.byte_length,
                    context_error_of(deadline_expired, activity),
                ) && final(self)@.done && final(self)@.delivered == old(self)@.delivered,
                DownloadMessage::Error(e) => res == Some(Err::<Vec<u8>, ApiFilesError>(
                    match context_error_of(deadline_expired, activity) {
                        Some(c) => c,
                        None => e,
                    },
                )) && final(self)@.done && final(self)@.delivered == old(self)@.delivered,
            },
            res is None ==> message is Complete && old(self)@.delivered == old(self)@.descriptor.byte_length,
            res matches Some(Ok(b)) ==> message is Chunk && final(self)@.delivered == old(self)@.delivered + b@.len(),
            res matches Some(Err(_)) ==> final(self)@.done,
    {
        proof {
            use_type_invariant(&*self);
        }
        match message {
            DownloadMessage::Chunk(bytes) => self.process_chunk_result(bytes, deadline_expired, activity),
            DownloadMessage::Complete(descriptor) => {
                let valid = descriptor.same_descriptor(&self.descriptor) && self.delivered
                    == self.descriptor.byte_length().get();
                let failure = context_error(deadline_expired, activity);
                self.done = true;
                completion_poll(valid, failure)
            },
            DownloadMessage::Error(error) => {
                let failure = context_error(deadline_expired, activity);
                self.done = true;
                match failure {
                    Some(c) => Some(Err(c)),
                    None => Some(Err(error)),
                }
            },
        }
    }

    /// Answers a poll whose message channel closed: the context failure if
    /// any, else `Internal`; the body ends.
    pub fn receiver_closed(&mut self, deadline_expired: bool, activity: Option<CoreErrorCode>) -> (res: Option<
        Result<Vec<u8>, ApiFilesError>,
    >)
        ensures
            final(self)@ == (DownloadBodyView { done: true, ..old(self)@ }),
            res == Some(Err::<Vec<u8>, ApiFilesError>(
                match context_error_of(deadline_expired, activity) {
                    Some(c) => c,
                    None => ApiFilesError { code: ApiFilesErrorCode::Internal },
                },
            )),
    {
        proof {
            use_type_invariant(&*self);
        }
        let error = match context_error(deadline_expired, activity) {
            Some(c) => c,
            None => files_error(ApiFilesErrorCode::Internal),
        };
        self.done = true;
        Some(Err(error))
    }

    /// Answers a poll when the producer task is gone without a message: the
    /// context failure if any, else `Internal`; the body ends.
    pub fn producer_missing(&mut self, deadline_expired: bool, activity: Option<CoreErrorCode>) -> (res: Option<
        Result<Vec<u8>, ApiFilesError>,
    >)
        ensures
            final(self)@ == (DownloadBodyView { done: true, ..old(self)@ }),
            res == Some(Err::<Vec<u8>, ApiFilesError>(
                match context_error_of(deadline_expired, activity) {
                    Some(c) => c,
                    None => ApiFilesError { code: ApiFilesErrorCode::Internal },
                },
            )),
    {
        proof {
            use_type_invariant(&*self);
        }
        let error = match context_error(deadline_expired, activity) {
            Some(c) => c,
            None => files_error(ApiFilesErrorCode::Internal),
        };
        self.done = true;
        Some(Err(error))
    }

    /// Answers a poll that needs no new message: an ended body stays ended,
    /// and the buffered first chunk is accounted and yielded. `None` means
    /// the next message must be received.
    pub fn poll_buffered(&mut self, deadline_expired: bool, activity: Option<CoreErrorCode>) -> (res: Option<
        Option<Result<Vec<u8>, ApiFilesError>>,
    >)
        ensures
            old(self)@.done ==> res == Some(None::<Result<Vec<u8>, ApiFilesError>>) && final(self)@ == old(self)@,
            !old(self)@.done && old(self)@.first is None ==> res is None && final(self)@ == old(self)@,
            !old(self)@.done && old(self)@.first is Some ==> res is Some && chunk_polled(
                DownloadBodyView { first: None, ..old(self)@ },
                final(self)@,
                old(self)@.first->0,
                context_error_of(deadline_expired, activity),
                polled_view(res->0),
            ),
    {
        proof {
            use_type_invariant(&*self);
        }
        if self.done {
            return Some(None);
        }
        let first = match &self.first {
            Some(first) => first.clone(),
            None => {
                return None;
            },
        };
        self.first = None;
        Some(self.process_chunk_result(first, deadline_expired, activity))
    }
}

/// Abstract state of a download lease.
pub struct DownloadLeaseView {
    /// The body or the lifetime watch asked for the permit's release.
    pub release_requested: bool,
    /// The producer task has finished.
    pub producer_finished: bool,
    /// The admission permit is still held.
    pub permit_held: bool,
    /// The download deadline expired.
    pub deadline_expired: bool,
}

/// Shared bookkeeping of one download: the admission permit is released
/// once both the release was requested and the producer finished, never
/// before and never twice.
pub struct DownloadLease {
    release_requested: bool,
    producer_finished: bool,
    permit_held: bool,
    deadline_expired: bool,
}

impl View for DownloadLease {
    type V = DownloadLeaseView;

    closed spec fn view(&self) -> DownloadLeaseView {
        DownloadLeaseView {
            release_requested: self.release_requested,
            producer_finished: self.producer_finished,
            permit_held: self.permit_held,
            deadline_expired: self.deadline_expired,
        }
    }
}

impl DownloadLease {
    #[verifier::type_invariant]
    spec fn permit_tracks_transitions(self) -> bool {
        self.permit_held == !(self.release_requested && self.producer_finished)
    }

    /// A lease that holds the permit.
    pub fn new() -> (res: Self)
        ensures
            res@ == (DownloadLeaseView {
                release_requested: false,
                producer_finished: false,
                permit_held: true,
                deadline_expired: false,
            }),
    {
        DownloadLease { release_requested: false, producer_finished: false, permit_held: true, deadline_expired: false }
    }

    /// Whether the admission permit is still held.
    pub fn permit_held(&self) -> (res: bool)
        ensures
            res == self@.permit_held,
            res == !(self@.release_requested && self@.producer_finished),
    {
        proof {
            use_type_invariant(self);
        }
        self.permit_held
    }

    fn record_release_transition(&mut self, requested: bool, finished: bool) -> (released: bool)
        ensures
            final(self)@.release_requested == (old(self)@.release_requested || requested),
            final(self)@.producer_finished == (old(self)@.producer_finished || finished),
            final(self)@.deadline_expired == old(self)@.deadline_expired,
            final(self)@.permit_held == !(final(self)@.release_requested && final(self)@.producer_finished),
            released == (old(self)@.permit_held && !final(self)@.permit_held),
    {
        proof {
            use_type_invariant(&*self);
        }
        let was_held = self.permit_held;
        let now_requested = self.release_requested || requested;
        let now_finished = self.producer_finished || finished;
        let held = !(now_requested && now_finished);
        *self = DownloadLease {
            release_requested: now_requested,
            producer_finished: now_finished,
            permit_held: held,
            deadline_expired: self.deadline_expired,
        };
        was_held && !held
    }

    /// Records that the permit may be released; returns whether this call
    /// released it.
    pub fn request_release(&mut self) -> (released: bool)
        ensures
            final(self)@.release_requested,
            final(self)@.producer_finished == old(self)@.producer_finished,
            final(self)@.deadline_expired == old(self)@.deadline_expired,
            final(self)@.permit_held == !final(self)@.producer_finished,
            released == (old(self)@.permit_held && !final(self)@.permit_held),
    {
        self.record_release_transition(true, false)
    }

    /// Records that the producer finished; returns whether this call
    /// released the permit.
    pub fn mark_producer_finished(&mut self) -> (released: bool)
        ensures
            final(self)@.producer_finished,
            final(self)@.release_requested == old(self)@.release_requested,
            final(self)@.deadline_expired == old(self)@.deadline_expired,
            final(self)@.permit_held == !final(self)@.release_requested,
            released == (old(self)@.permit_held && !final(self)@.permit_held),
    {
        self.record_release_transition(false, true)
    }

    /// Records that the download deadline expired.
    pub fn mark_deadline_expired(&mut self)
        ensures
            final(self)@ == (DownloadLeaseView { deadline_expired: true, ..old(self)@ }),
    {
        proof {
            use_type_invariant(&*self);
        }
        self.deadline_expired = true;
    }

    /// Whether the download deadline expired.
    pub fn deadline_expired(&self) -> (res: bool)
        ensures
            res == self@.deadline_expired,
    {
        self.deadline_expired
    }
}

/// A lease releases its permit at most once: its transitions only ever set
/// flags, so once the permit is released no later state holds it, and the
/// release happens only when both the release was requested and the
/// producer finished.
pub proof fn lease_releases_permit_once(before: DownloadLeaseView, after: DownloadLeaseView)
    requires
        before.permit_held == !(before.release_requested && before.producer_finished),
        after.permit_held == !(after.release_requested && after.producer_finished),
        before.release_requested ==> after.release_requested,
        before.producer_finished ==> after.producer_finished,
    ensures
        !before.permit_held ==> !after.permit_held,
        before.permit_held && !after.permit_held ==> after.release_requested && after.producer_finished,
{
}

/// The producer's sink: it takes chunks until it is finished, once.
pub struct DownloadSinkState {
    finished: bool,
}

impl DownloadSinkState {
    /// A sink that takes chunks.
    pub fn new() -> (res: Self)
        ensures
            !res.is_finished_spec(),
    {
        DownloadSinkState { finished: false }
    }

    /// Whether the sink was finished.
    pub closed spec fn is_finished_spec(&self) -> bool {
        self.finished
    }

    /// Whether the sink was finished.
    pub fn finished(&self) -> (res: bool)
        ensures
            res == self.is_finished_spec(),
    {
        self.finished
    }

    /// Admits one chunk: a finished sink is an integrity failure, and an
    /// inactive context fails with its own class.
    pub fn admit_chunk(&self, activity: Option<CoreErrorCode>) -> (res: Result<(), ApiFilesError>)
        ensures
            self.is_finished_spec() ==> res == Err::<(), ApiFilesError>(ApiFilesError { code: ApiFilesErrorCode::IntegrityFailure }),
            !self.is_finished_spec() ==> match activity {
                Some(c) => res == Err::<(), ApiFilesError>(ApiFilesError { code: files_code_of_core(c) }),
                None => res is Ok,
            },
    {
        if self.finished {
            return Err(files_error(ApiFilesErrorCode::IntegrityFailure));
        }
        match activity {
            Some(c) => Err(ApiFilesError::from(c)),
            None => Ok(()),
        }
    }

    /// Finishes the sink: a second finish is an integrity failure, and an
    /// inactive context fails with its own class and leaves it open.
    pub fn finish(&mut self, activity: Option<CoreErrorCode>) -> (res: Result<(), ApiFilesError>)
        ensures
            old(self).is_finished_spec() ==> res == Err::<(), ApiFilesError>(ApiFilesError { code: ApiFilesErrorCode::IntegrityFailure })
                && final(self).is_finished_spec(),
            !old(self).is_finished_spec() ==> match activity {
                Some(c) => res == Err::<(), ApiFilesError>(ApiFilesError { code: files_code_of_core(c) })
                    && !final(self).is_finished_spec(),
                None => res is Ok && final(self).is_finished_spec(),
            },
    {
        if self.finished {
            return Err(files_error(ApiFilesErrorCode::IntegrityFailure));
        }
        match activity {
            Some(c) => Err(ApiFilesError::from(c)),
            None => {
                self.finished = true;
                Ok(())
            },
        }
    }
}

} // verus!
