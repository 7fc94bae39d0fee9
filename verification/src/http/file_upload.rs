//! Bookkeeping of one streamed upload body: framing into bounded chunks and
//! checking the declared length.

use vstd::prelude::*;

use crate::domain::file::MAX_FILE_BYTES;
use crate::files::{ApiFilesError, ApiFilesErrorCode, FileChunk, MAX_FILE_CHUNK_BYTES, files_error};

verus! {

/// The next step of reading an upload body.
pub enum UploadStep {
    /// One bounded chunk ready for the file service.
    Chunk(FileChunk),
    /// A frame was recorded; read again.
    Continue,
    /// The body ended with exactly the declared length.
    Eof,
}

/// Abstract contents of an [`UploadBodyTracker`].
pub struct UploadBodyTrackerView {
    /// Bytes received but not yet handed out as chunks.
    pub pending: Seq<u8>,
    /// The declared content length.
    pub declared: nat,
    /// Bytes received from the body so far.
    pub received: nat,
    /// Bytes handed out as chunks so far.
    pub delivered: nat,
    /// Whether the body has ended.
    pub eof: bool,
    /// The failure that ended the upload, if any.
    pub terminal: Option<ApiFilesError>,
}

/// What every tracker keeps: every received byte is either delivered or
/// pending, and nothing beyond the declared length or the file limit has
/// been accepted.
pub open spec fn tracker_consistent(t: UploadBodyTrackerView) -> bool {
    &&& t.delivered + t.pending.len() == t.received
    &&& t.received <= t.declared
    &&& t.received <= MAX_FILE_BYTES
}

/// Tracks one upload body against its declared length.
pub struct UploadBodyTracker {
    pending: Vec<u8>,
    declared: usize,
    received: usize,
    delivered: usize,
    eof: bool,
    terminal: Option<ApiFilesError>,
}

impl View for UploadBodyTracker {
    type V = UploadBodyTrackerView;

    closed spec fn view(&self) -> UploadBodyTrackerView {
        UploadBodyTrackerView {
            pending: self.pending@,
            declared: self.declared as nat,
            received: self.received as nat,
            delivered: self.delivered as nat,
            eof: self.eof,
            terminal: self.terminal,
        }
    }
}

impl UploadBodyTracker {
    #[verifier::type_invariant]
    spec fn valid(self) -> bool {
        tracker_consistent(self@)
    }

    /// Starts tracking a body of `declared` bytes.
    pub fn new(declared: usize) -> (res: Self)
        ensures
            res@ == (UploadBodyTrackerView {
                pending: Seq::empty(),
                declared: declared as nat,
                received: 0,
                delivered: 0,
                eof: false,
                terminal: None,
            }),
    {
        UploadBodyTracker { pending: Vec::new(), declared, received: 0, delivered: 0, eof: false, terminal: None }
    }

    /// Moves the whole tracker out, leaving an empty one behind.
    fn take_all(&mut self) -> (res: UploadBodyTracker)
        ensures
            res@ == old(self)@,
            tracker_consistent(res@),
    {
        let mut taken = UploadBodyTracker::new(0);
        std::mem::swap(&mut taken, self);
        proof {
            use_type_invariant(&taken);
        }
        taken
    }

    /// Reports whether the body ended cleanly with every declared byte
    /// received and delivered.
    pub fn is_complete(&self) -> (res: bool)
        ensures
            res == (self@.eof && self@.pending.len() == 0 && self@.terminal is None && self@.received
                == self@.declared && self@.delivered == self@.declared),
    {
        self.eof && self.pending.len() == 0 && self.terminal.is_none() && self.received == self.declared
            && self.delivered == self.declared
    }

    /// Hands out the next chunk of at most 64 KiB of pending bytes, in order.
    pub fn take_pending_chunk(&mut self) -> (res: Result<Option<FileChunk>, ApiFilesError>)
        ensures
            res is Ok,
            old(self)@.pending.len() == 0 ==> res == Ok::<Option<FileChunk>, ApiFilesError>(None) && final(self)@
                == old(self)@,
            old(self)@.pending.len() > 0 ==> {
                let n = if old(self)@.pending.len() < MAX_FILE_CHUNK_BYTES {
                    old(self)@.pending.len()
                } else {
                    MAX_FILE_CHUNK_BYTES as nat
                };
                &&& res matches Ok(Some(chunk)) && chunk@ == old(self)@.pending.take(n as int)
                &&& final(self)@.pending == old(self)@.pending.skip(n as int)
                &&& final(self)@.delivered == old(self)@.delivered + n
                &&& final(self)@.received == old(self)@.received
                &&& final(self)@.declared == old(self)@.declared
                &&& final(self)@.eof == old(self)@.eof
                &&& final(self)@.terminal == old(self)@.terminal
            },
    {
        proof {
            use_type_invariant(&*self);
        }
        if self.pending.len() == 0 {
            return Ok(None);
        }
        let length = if self.pending.len() < MAX_FILE_CHUNK_BYTES {
            self.pending.len()
        } else {
            MAX_FILE_CHUNK_BYTES
        };
        let UploadBodyTracker { pending, declared, received, delivered, eof, terminal } = self.take_all();
        let mut bytes = pending;
        let rest = bytes.split_off(length);
        *self = UploadBodyTracker { pending: rest, declared, received, delivered: delivered + length, eof, terminal };
        match FileChunk::new(bytes) {
            Ok(chunk) => Ok(Some(chunk)),
            Err(error) => Err(error),
        }
    }

    /// Records the failure that ends the upload.
    fn fail_error(&mut self, code: ApiFilesErrorCode) -> (res: ApiFilesError)
        ensures
            res.code == code,
            final(self)@ == (UploadBodyTrackerView { terminal: Some(res), ..old(self)@ }),
    {
        let UploadBodyTracker { pending, declared, received, delivered, eof, terminal: _ } = self.take_all();
        let error = files_error(code);
        *self = UploadBodyTracker { pending, declared, received, delivered, eof, terminal: Some(error) };
        error
    }

    /// Records one body frame, which arrives only once every pending byte was
    /// handed out: a running total beyond the declared length or the file
    /// limit is `InvalidArgument` (an overflowing one `LimitExceeded`) and ends
    /// the upload.
    pub fn record_frame(&mut self, bytes: Vec<u8>) -> (res: Result<(), ApiFilesError>)
        requires
            old(self)@.pending.len() == 0,
        ensures
            old(self)@.received + bytes@.len() <= old(self)@.declared && old(self)@.received + bytes@.len()
                <= MAX_FILE_BYTES ==> res is Ok && final(self)@ == (UploadBodyTrackerView {
                pending: bytes@,
                received: old(self)@.received + bytes@.len(),
                ..old(self)@
            }),
            !(old(self)@.received + bytes@.len() <= old(self)@.declared && old(self)@.received + bytes@.len()
                <= MAX_FILE_BYTES) ==> (res matches Err(e) && e.code == (if old(self)@.received + bytes@.len()
                > usize::MAX {
                ApiFilesErrorCode::LimitExceeded
            } else {
                ApiFilesErrorCode::InvalidArgument
            }) && final(self)@ == (UploadBodyTrackerView { terminal: Some(e), ..old(self)@ })),
    {
        proof {
            use_type_invariant(&*self);
        }
        let received = match self.received.checked_add(bytes.len()) {
            Some(received) => received,
            None => {
                return Err(self.fail_error(ApiFilesErrorCode::LimitExceeded));
            },
        };
        if received > self.declared || received > MAX_FILE_BYTES {
            return Err(self.fail_error(ApiFilesErrorCode::InvalidArgument));
        }
        let UploadBodyTracker { pending: _, declared, received: _, delivered, eof, terminal } = self.take_all();
        *self = UploadBodyTracker { pending: bytes, declared, received, delivered, eof, terminal };
        Ok(())
    }

    /// Marks the end of the body, which must carry exactly the declared length
    /// with every byte handed out; otherwise `InvalidArgument` ends the upload.
    pub fn finish_eof(&mut self) -> (res: Result<(), ApiFilesError>)
        ensures
            old(self)@.received == old(self)@.declared && old(self)@.delivered == old(self)@.declared ==> res is Ok
                && final(self)@ == (UploadBodyTrackerView { eof: true, ..old(self)@ }),
            !(old(self)@.received == old(self)@.declared && old(self)@.delivered == old(self)@.declared) ==> (res matches Err(e)
                && e.code == ApiFilesErrorCode::InvalidArgument && final(self)@ == (UploadBodyTrackerView {
                eof: true,
                terminal: Some(e),
                ..old(self)@
            })),
    {
        let UploadBodyTracker { pending, declared, received, delivered, eof: _, terminal } = self.take_all();
        *self = UploadBodyTracker { pending, declared, received, delivered, eof: true, terminal };
        if self.received != self.declared || self.delivered != self.declared {
            return Err(self.fail_error(ApiFilesErrorCode::InvalidArgument));
        }
        Ok(())
    }

    /// The settled outcome of the next read, if the upload already ended: its
    /// failure, or the end of the body.
    pub fn terminal_or_eof(&self) -> (res: Option<Result<Option<FileChunk>, ApiFilesError>>)
        ensures
            res == (match self@.terminal {
                Some(e) => Some(Err::<Option<FileChunk>, ApiFilesError>(e)),
                None => if self@.eof {
                    Some(Ok::<Option<FileChunk>, ApiFilesError>(None))
                } else {
                    None
                },
            }),
    {
        match self.terminal {
            Some(error) => Some(Err(error)),
            None => {
                if self.eof {
                    Some(Ok(None))
                } else {
                    None
                }
            },
        }
    }

    /// Applies one body read: a frame is recorded, the end of the body is
    /// checked against the declared length, and a read failure ends the upload.
    pub fn process_body_result(&mut self, result: Result<Option<Vec<u8>>, ApiFilesError>) -> (res: Result<
        UploadStep,
        ApiFilesError,
    >)
        requires
            old(self)@.pending.len() == 0,
        ensures
            match result {
                Ok(Some(bytes)) => {
                    let total = old(self)@.received + bytes@.len();
                    if total <= old(self)@.declared && total <= MAX_FILE_BYTES {
                        res matches Ok(step) && step is Continue && final(self)@ == (UploadBodyTrackerView {
                            pending: bytes@,
                            received: total,
                            ..old(self)@
                        })
                    } else {
                        res matches Err(e) && final(self)@.terminal == Some(e)
                    }
                },
                Ok(None) => if old(self)@.received == old(self)@.declared && old(self)@.delivered == old(self)@.declared {
                    res matches Ok(step) && step is Eof && final(self)@.eof
                } else {
                    res matches Err(e) && e.code == ApiFilesErrorCode::InvalidArgument && final(self)@.terminal == Some(e)
                },
                Err(e) => res == Err::<UploadStep, ApiFilesError>(e) && final(self)@ == (UploadBodyTrackerView {
                    terminal: Some(e),
                    ..old(self)@
                }),
            },
    {
        match result {
            Ok(Some(bytes)) => {
                self.record_frame(bytes)?;
                Ok(UploadStep::Continue)
            },
            Ok(None) => {
                self.finish_eof()?;
                Ok(UploadStep::Eof)
            },
            Err(error) => {
                let UploadBodyTracker { pending, declared, received, delivered, eof, terminal: _ } = self.take_all();
                *self = UploadBodyTracker { pending, declared, received, delivered, eof, terminal: Some(error) };
                Err(error)
            },
        }
    }
}

/// A clean upload delivers exactly the declared number of bytes, none
/// pending.
pub proof fn complete_upload_delivers_declared_length(t: UploadBodyTrackerView)
    requires
        tracker_consistent(t),
        t.eof && t.pending.len() == 0 && t.terminal is None && t.received == t.declared && t.delivered == t.declared,
    ensures
        t.delivered == t.received,
        t.delivered <= MAX_FILE_BYTES,
{
}

} // verus!
