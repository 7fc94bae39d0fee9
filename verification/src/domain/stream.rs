//! Bounded payload events for service response streams.

use vstd::prelude::*;

use crate::domain::checks::{check_nul_free_text, nul_free_text_check, same_outcome};
use crate::domain::error::{ApiDomainError, ApiDomainErrorCode};
use crate::domain::request::ServiceContractVersion;
use crate::domain::response::FinishReason;

verus! {

/// Maximum encoded size of one text delta in UTF-8 bytes.
pub const MAX_TEXT_DELTA_BYTES: usize = 65_536;

/// Outcome of validating a text delta.
pub open spec fn text_delta_check(s: Seq<char>) -> Result<(), ApiDomainErrorCode> {
    nul_free_text_check(s, MAX_TEXT_DELTA_BYTES as nat, true)
}

/// A bounded nonempty text delta whose diagnostics never expose its content.
#[derive(PartialEq, Eq)]
pub struct TextDelta(String);

impl View for TextDelta {
    type V = Seq<char>;

    closed spec fn view(&self) -> Seq<char> {
        self.0@
    }
}

impl Clone for TextDelta {
    fn clone(&self) -> (res: Self)
        ensures
            res@ == self@,
    {
        proof {
            use_type_invariant(self);
        }
        TextDelta(self.0.clone())
    }
}

impl TextDelta {
    #[verifier::type_invariant]
    spec fn valid(self) -> bool {
        text_delta_check(self.0@) is Ok
    }

    /// Validates and copies a delta of 1 to 65,536 NUL-free UTF-8 bytes.
    pub fn new(value: &str) -> (res: Result<Self, ApiDomainError>)
        ensures
            same_outcome(res, text_delta_check(value@)),
            res matches Ok(d) ==> d@ == value@,
    {
        match check_nul_free_text(value, MAX_TEXT_DELTA_BYTES, true) {
            Ok(()) => Ok(TextDelta(value.to_owned())),
            Err(e) => Err(e),
        }
    }

    /// Returns the validated delta to a trusted stream adapter.
    pub fn as_str(&self) -> (res: &str)
        ensures
            res@ == self@,
            text_delta_check(res@) is Ok,
    {
        proof {
            use_type_invariant(self);
        }
        self.0.as_str()
    }
}

/// A payload event produced by a text service stream.
#[derive(PartialEq, Eq)]
#[non_exhaustive]
pub enum TextStreamEvent {
    /// Announces the service contract used by subsequent payload events.
    Started {
        /// Service contract version used by this stream.
        version: ServiceContractVersion,
    },
    /// Carries one bounded increment of generated text.
    Delta(TextDelta),
    /// Reports normal stream completion without retaining accumulated output.
    Completed {
        /// Reason generation ended.
        finish_reason: FinishReason,
    },
    /// Reports a terminal redacted service failure.
    Failed(ApiDomainError),
}

/// A transport-neutral service stream payload event.
#[derive(PartialEq, Eq)]
#[non_exhaustive]
pub enum ServiceStreamEvent {
    /// An event from a text service stream.
    Text(TextStreamEvent),
}

} // verus!
