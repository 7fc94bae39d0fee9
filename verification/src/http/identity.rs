//! Bounded request and trace identity issuance.
//!
//! Identities are issued from a monotonic sequence without clock or random
//! source: sequence `n` yields `ariadnion-request-n` and `ariadnion-trace-n`.
//! The last sequence value is a reserved exhaustion marker, so overflow fails
//! closed instead of wrapping to a duplicate.

use vstd::prelude::*;

use crate::http::error::{ApiHttpError, ApiHttpErrorCode};
use crate::text::{decimal_text, digit_char, prefixed_decimal, str_equals};

verus! {

/// Abstract request and trace identity pair.
pub struct HttpRequestIdentityView {
    /// The request correlation identifier.
    pub request_id: Seq<char>,
    /// The distributed trace identifier.
    pub trace_id: Seq<char>,
}

/// A server-issued request and trace identity pair.
#[derive(Debug, PartialEq, Eq)]
pub struct HttpRequestIdentity {
    request_id: String,
    trace_id: String,
}

impl View for HttpRequestIdentity {
    type V = HttpRequestIdentityView;

    closed spec fn view(&self) -> HttpRequestIdentityView {
        HttpRequestIdentityView { request_id: self.request_id@, trace_id: self.trace_id@ }
    }
}

impl Clone for HttpRequestIdentity {
    fn clone(&self) -> (res: Self)
        ensures
            res@ == self@,
    {
        HttpRequestIdentity { request_id: self.request_id.clone(), trace_id: self.trace_id.clone() }
    }
}

impl HttpRequestIdentity {
    /// Creates an identity pair from validated identifiers.
    pub fn new(request_id: &str, trace_id: &str) -> (res: Self)
        ensures
            res@ == (HttpRequestIdentityView { request_id: request_id@, trace_id: trace_id@ }),
    {
        HttpRequestIdentity { request_id: request_id.to_owned(), trace_id: trace_id.to_owned() }
    }

    /// Returns the request correlation identifier.
    pub fn request_id(&self) -> (res: &str)
        ensures
            res@ == self@.request_id,
    {
        self.request_id.as_str()
    }

    /// Returns the distributed trace identifier.
    pub fn trace_id(&self) -> (res: &str)
        ensures
            res@ == self@.trace_id,
    {
        self.trace_id.as_str()
    }

    /// Replaces the request identifier, keeping the trace identifier.
    pub fn replace_request_id(self, request_id: &str) -> (res: Self)
        ensures
            res@ == (HttpRequestIdentityView { request_id: request_id@, trace_id: self@.trace_id }),
    {
        HttpRequestIdentity { request_id: request_id.to_owned(), trace_id: self.trace_id }
    }

    /// Reports whether two identity pairs are equal.
    pub fn same_identity(&self, other: &HttpRequestIdentity) -> (res: bool)
        ensures
            res == (self@ == other@),
    {
        str_equals(self.request_id.as_str(), other.request_id.as_str()) && str_equals(
            self.trace_id.as_str(),
            other.trace_id.as_str(),
        )
    }
}

/// The identity pair issued for sequence value `n`.
pub open spec fn issued_identity(n: nat) -> HttpRequestIdentityView {
    HttpRequestIdentityView {
        request_id: "ariadnion-request-"@ + decimal_text(n),
        trace_id: "ariadnion-trace-"@ + decimal_text(n),
    }
}

/// The fixed identity pair used only to report an issuance failure.
pub open spec fn fallback_identity_view() -> HttpRequestIdentityView {
    HttpRequestIdentityView { request_id: "ariadnion-request-fallback"@, trace_id: "ariadnion-trace-fallback"@ }
}

/// Returns the identity pair of sequence value `sequence`.
pub fn identity_for_sequence(sequence: u64) -> (res: HttpRequestIdentity)
    ensures
        res@ == issued_identity(sequence as nat),
{
    HttpRequestIdentity {
        request_id: prefixed_decimal("ariadnion-request-", sequence),
        trace_id: prefixed_decimal("ariadnion-trace-", sequence),
    }
}

/// Abstract issuer state.
pub struct MonotonicRequestIdentityIssuerView {
    /// The next sequence value; the last `u64` marks exhaustion.
    pub next: u64,
    /// The fallback identity pair.
    pub fallback: HttpRequestIdentityView,
}

/// Issues monotonic, bounded request and trace identity pairs without clock
/// or random-source dependencies.
pub struct MonotonicRequestIdentityIssuer {
    next: u64,
    fallback: HttpRequestIdentity,
}

impl View for MonotonicRequestIdentityIssuer {
    type V = MonotonicRequestIdentityIssuerView;

    closed spec fn view(&self) -> MonotonicRequestIdentityIssuerView {
        MonotonicRequestIdentityIssuerView { next: self.next, fallback: self.fallback@ }
    }
}

impl MonotonicRequestIdentityIssuer {
    /// Creates an issuer whose first pair uses sequence `1`.
    pub fn new() -> (res: Result<Self, ApiHttpError>)
        ensures
            res matches Ok(i) && i@.next == 1 && i@.fallback == fallback_identity_view(),
    {
        Self::from_next_sequence(1)
    }

    /// Creates an issuer with an explicitly selected next sequence; `u64::MAX`
    /// creates an already exhausted issuer.
    pub fn from_next_sequence(next: u64) -> (res: Result<Self, ApiHttpError>)
        ensures
            res matches Ok(i) && i@.next == next && i@.fallback == fallback_identity_view(),
    {
        let fallback = HttpRequestIdentity::new("ariadnion-request-fallback", "ariadnion-trace-fallback");
        Ok(MonotonicRequestIdentityIssuer { next, fallback })
    }

    /// Issues the pair of the next sequence value and advances the sequence;
    /// an exhausted issuer is `ResourceExhausted` and stays exhausted.
    pub fn issue(&mut self) -> (res: Result<HttpRequestIdentity, ApiHttpError>)
        ensures
            old(self)@.next == u64::MAX ==> res == Err::<HttpRequestIdentity, ApiHttpError>(ApiHttpError { code: ApiHttpErrorCode::ResourceExhausted }) && final(self)@ == old(self)@,
            old(self)@.next < u64::MAX ==> (res matches Ok(id) && id@ == issued_identity(old(self)@.next as nat)),
            old(self)@.next < u64::MAX ==> final(self)@.next == old(self)@.next + 1 && final(self)@.fallback == old(self)@.fallback,
    {
        if self.next == u64::MAX {
            return Err(ApiHttpError::new(ApiHttpErrorCode::ResourceExhausted));
        }
        let sequence = self.next;
        self.next = sequence + 1;
        Ok(identity_for_sequence(sequence))
    }

    /// Returns the stable, non-secret identity used only to project an
    /// issuance failure.
    pub fn fallback_identity(&self) -> (res: HttpRequestIdentity)
        ensures
            res@ == self@.fallback,
    {
        self.fallback.clone()
    }
}

/// Every decimal text has at least one digit.
pub proof fn lemma_decimal_text_nonempty(n: nat)
    ensures
        decimal_text(n).len() >= 1,
        n >= 10 ==> decimal_text(n).len() >= 2,
    decreases n,
{
    if n >= 10 {
        lemma_decimal_text_nonempty(n / 10);
    }
}

/// Distinct numbers have distinct decimal texts.
pub proof fn lemma_decimal_text_injective(a: nat, b: nat)
    requires
        decimal_text(a) == decimal_text(b),
    ensures
        a == b,
    decreases a,
{
    lemma_decimal_text_nonempty(a);
    lemma_decimal_text_nonempty(b);
    if a < 10 && b < 10 {
        assert(decimal_text(a)[0] == digit_char(a));
        assert(decimal_text(b)[0] == digit_char(b));
    } else if a >= 10 && b >= 10 {
        let ta = decimal_text(a);
        let tb = decimal_text(b);
        assert(ta.drop_last() == decimal_text(a / 10));
        assert(tb.drop_last() == decimal_text(b / 10));
        assert(ta.last() == digit_char(a % 10));
        assert(tb.last() == digit_char(b % 10));
        lemma_decimal_text_injective(a / 10, b / 10);
    }
}

/// No two sequence values are issued the same request or trace identifier,
/// so an issuer that only moves forward never repeats an identity.
pub proof fn issued_identities_are_unique(a: nat, b: nat)
    requires
        a != b,
    ensures
        issued_identity(a).request_id != issued_identity(b).request_id,
        issued_identity(a).trace_id != issued_identity(b).trace_id,
{
    let p = "ariadnion-request-"@;
    let q = "ariadnion-trace-"@;
    if issued_identity(a).request_id == issued_identity(b).request_id {
        assert((p + decimal_text(a)).skip(p.len() as int) =~= decimal_text(a));
        assert((p + decimal_text(b)).skip(p.len() as int) =~= decimal_text(b));
        lemma_decimal_text_injective(a, b);
    }
    if issued_identity(a).trace_id == issued_identity(b).trace_id {
        assert((q + decimal_text(a)).skip(q.len() as int) =~= decimal_text(a));
        assert((q + decimal_text(b)).skip(q.len() as int) =~= decimal_text(b));
        lemma_decimal_text_injective(a, b);
    }
}

} // verus!
