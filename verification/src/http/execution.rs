//! The decisions of public request execution around its awaits: which
//! failure answers each step, whether the answer carries the Bearer
//! challenge, how an authentication outcome becomes the caller's context,
//! how a dispatch outcome is projected, and which headers every answer
//! carries.

use vstd::prelude::*;

use crate::admin::command::AuthenticatedPrincipalEvidence;
use crate::domain::batch_timestamps::UnixInstant;
use crate::domain::error::ApiDomainError;
use crate::domain::request::ResponseMode;
use crate::http::credentials::PresentedBearer;
use crate::http::error::{ApiHttpError, ApiHttpErrorCode, invalid_request};
use crate::http::file_requests::{authorization_outcome, parse_authorization};
use crate::http::headers::{
    DEFAULT_DEADLINE_WINDOW_NANOS, HttpHeader, MAX_DEADLINE_WINDOW_NANOS, ascii_digit_bytes, content_length_outcome,
    count_named, deadline_header, deadline_outcome, header_budget_ok, is_json_content_type, one_header, parse_deadline,
    parse_upgrade_deadline, the_named, u64_text_value, validate_bodyless, validate_content_length,
    validate_header_budget, validate_media_type,
};
use crate::http::protocol::{ProtocolFailure, internal_failure, internal_failure_spec};
use crate::http::response::{is_transport_header, not_transport, validate_response_header_budget};
use crate::text::str_equals;
use vstd::utf8::encode_utf8;
use crate::http::upgrade::{MAX_UPGRADE_MESSAGE_BYTES, ProtocolUpgradeLimits};
use crate::platform::{PrincipalContext, RequestContext};

verus! {

/// Extra bytes a WebSocket writer may buffer beyond one message.
pub const MAX_UPGRADE_WRITE_OVERHEAD_BYTES: usize = 256;

/// Largest read buffer of one upgraded connection.
pub const MAX_UPGRADE_READ_BUFFER_BYTES: usize = 65_536;

/// A failure of public request execution, and whether its answer carries
/// the Bearer challenge.
#[derive(Clone, Copy, Debug, PartialEq, Eq, Structural)]
pub struct ExecutionFailure {
    /// The classified failure.
    pub failure: ProtocolFailure,
    /// Whether the answer carries `WWW-Authenticate: Bearer`.
    pub bearer_challenge: bool,
}

/// A failure without the Bearer challenge.
pub open spec fn plain(failure: ProtocolFailure) -> ExecutionFailure {
    ExecutionFailure { failure, bearer_challenge: false }
}

/// A transport failure with `code`, without the challenge.
pub open spec fn plain_http(code: ApiHttpErrorCode) -> ExecutionFailure {
    plain(ProtocolFailure::Http(ApiHttpError { code }))
}

/// The failure of a refused authentication: the challenge accompanies
/// exactly the `Unauthenticated` answer.
pub open spec fn authentication_failure_of(error: ApiHttpError) -> ExecutionFailure {
    ExecutionFailure {
        failure: ProtocolFailure::Http(error),
        bearer_challenge: error.code == ApiHttpErrorCode::Unauthenticated,
    }
}

/// Classifies a transport failure that is not about authentication.
pub fn http_failure(error: ApiHttpError) -> (res: ExecutionFailure)
    ensures
        res == plain(ProtocolFailure::Http(error)),
{
    ExecutionFailure { failure: ProtocolFailure::Http(error), bearer_challenge: false }
}

/// Classifies a domain failure.
pub fn domain_failure(error: ApiDomainError) -> (res: ExecutionFailure)
    ensures
        res == plain(ProtocolFailure::Domain(error)),
{
    ExecutionFailure { failure: ProtocolFailure::Domain(error), bearer_challenge: false }
}

/// Classifies a refused authentication; only `Unauthenticated` challenges.
pub fn authentication_failure(error: ApiHttpError) -> (res: ExecutionFailure)
    ensures
        res == authentication_failure_of(error),
{
    let challenge = match error.code() {
        ApiHttpErrorCode::Unauthenticated => true,
        _ => false,
    };
    ExecutionFailure { failure: ProtocolFailure::Http(error), bearer_challenge: challenge }
}

/// Refuses a request whose context is no longer active; `failure` is the
/// failure of the context's activity check, if any.
pub fn check_active(failure: Option<ApiDomainError>) -> (res: Result<(), ExecutionFailure>)
    ensures
        match failure {
            Some(e) => res == Err::<(), ExecutionFailure>(plain(ProtocolFailure::Domain(e))),
            None => res is Ok,
        },
{
    match failure {
        Some(e) => Err(domain_failure(e)),
        None => Ok(()),
    }
}

/// The request identifier text a request asks for, before the platform core
/// parses it: none, or the text of its single `x-request-id` header; a
/// repeated or non-text header is `InvalidRequest`.
pub open spec fn requested_request_id_outcome(h: Seq<HttpHeader>) -> Result<Option<Seq<char>>, ApiHttpErrorCode> {
    let n = count_named(h, "x-request-id"@);
    if n > 1 {
        Err(ApiHttpErrorCode::InvalidRequest)
    } else if n == 0 {
        Ok(None)
    } else {
        match the_named(h, "x-request-id"@).text {
            Some(t) => Ok(Some(t@)),
            None => Err(ApiHttpErrorCode::InvalidRequest),
        }
    }
}

/// Returns the request identifier text a request asks for.
pub fn requested_request_id(headers: &[HttpHeader]) -> (res: Result<Option<&str>, ApiHttpError>)
    ensures
        match requested_request_id_outcome(headers@) {
            Ok(None) => res matches Ok(None),
            Ok(Some(t)) => res matches Ok(Some(s)) && s@ == t,
            Err(c) => res == Err::<Option<&str>, ApiHttpError>(ApiHttpError { code: c }),
        },
{
    match one_header(headers, "x-request-id", false)? {
        None => Ok(None),
        Some(h) => match &h.text {
            Some(t) => Ok(Some(t.as_str())),
            None => Err(invalid_request()),
        },
    }
}

/// How resolving the caller's request identity ends, given whether the
/// platform core accepted the requested identifier (`accepted` is ignored
/// when none was requested): `Ok(true)` adopts the requested identifier,
/// `Ok(false)` keeps the generated one.
pub open spec fn resolve_identity_outcome(h: Seq<HttpHeader>, accepted: bool) -> Result<bool, ApiHttpErrorCode> {
    match requested_request_id_outcome(h) {
        Err(c) => Err(c),
        Ok(None) => Ok(false),
        Ok(Some(_)) => if accepted {
            Ok(true)
        } else {
            Err(ApiHttpErrorCode::InvalidRequest)
        },
    }
}

fn resolve_identity(headers: &[HttpHeader], accepted: bool) -> (res: Result<bool, ApiHttpError>)
    ensures
        match resolve_identity_outcome(headers@, accepted) {
            Ok(b) => res == Ok::<bool, ApiHttpError>(b),
            Err(c) => res == Err::<bool, ApiHttpError>(ApiHttpError { code: c }),
        },
{
    match requested_request_id(headers)? {
        None => Ok(false),
        Some(_) => if accepted {
            Ok(true)
        } else {
            Err(invalid_request())
        },
    }
}

/// A failure of admission, and whether it is answered under the identity
/// the caller requested (rather than the generated one).
#[derive(Clone, Copy, Debug, PartialEq, Eq, Structural)]
pub struct AdmissionFailure {
    /// The failure.
    pub failure: ExecutionFailure,
    /// Whether the requested identity had been adopted when it occurred.
    pub under_requested_identity: bool,
}

/// How the headers of a public request are admitted at `now`, in order:
/// the header budget, the requested identity, a JSON content type, the
/// content length and the deadline.
pub open spec fn request_headers_outcome(h: Seq<HttpHeader>, now: int, accepted: bool) -> Result<int, AdmissionFailure> {
    if !header_budget_ok(h) {
        Err(AdmissionFailure { failure: plain_http(ApiHttpErrorCode::InvalidRequest), under_requested_identity: false })
    } else {
        match resolve_identity_outcome(h, accepted) {
            Err(c) => Err(AdmissionFailure { failure: plain_http(c), under_requested_identity: false }),
            Ok(adopted) => {
                let ct = count_named(h, "content-type"@);
                let media_ok = ct == 1 && (the_named(h, "content-type"@).text matches Some(t) && is_json_content_type(t@));
                if ct > 1 {
                    Err(AdmissionFailure { failure: plain_http(ApiHttpErrorCode::InvalidRequest), under_requested_identity: adopted })
                } else if !media_ok {
                    Err(
                        AdmissionFailure {
                            failure: plain_http(ApiHttpErrorCode::UnsupportedMediaType),
                            under_requested_identity: adopted,
                        },
                    )
                } else {
                    let cl = count_named(h, "content-length"@);
                    let length = if cl > 1 {
                        Err(ApiHttpErrorCode::InvalidRequest)
                    } else if cl == 0 {
                        Ok(())
                    } else {
                        content_length_outcome(the_named(h, "content-length"@).text)
                    };
                    match length {
                        Err(c) => Err(AdmissionFailure { failure: plain_http(c), under_requested_identity: adopted }),
                        Ok(()) => match deadline_outcome(
                            count_named(h, deadline_header()),
                            the_named(h, deadline_header()),
                            now,
                            DEFAULT_DEADLINE_WINDOW_NANOS as int,
                            MAX_DEADLINE_WINDOW_NANOS as int,
                        ) {
                            Err(c) => Err(AdmissionFailure { failure: plain_http(c), under_requested_identity: adopted }),
                            Ok(d) => Ok(d),
                        },
                    }
                }
            },
        }
    }
}

/// Admits the headers of a public request at `now` and returns its
/// deadline; `accepted` says whether the platform core accepted the
/// requested identifier.
pub fn admit_request_headers(headers: &[HttpHeader], now: UnixInstant, accepted: bool) -> (res: Result<
    UnixInstant,
    AdmissionFailure,
>)
    ensures
        match request_headers_outcome(headers@, now@, accepted) {
            Ok(d) => res matches Ok(x) && x@ == d,
            Err(f) => res == Err::<UnixInstant, AdmissionFailure>(f),
        },
{
    if let Err(e) = validate_header_budget(headers) {
        return Err(AdmissionFailure { failure: http_failure(e), under_requested_identity: false });
    }
    let adopted = match resolve_identity(headers, accepted) {
        Ok(b) => b,
        Err(e) => {
            return Err(AdmissionFailure { failure: http_failure(e), under_requested_identity: false });
        },
    };
    if let Err(e) = validate_media_type(headers) {
        return Err(AdmissionFailure { failure: http_failure(e), under_requested_identity: adopted });
    }
    if let Err(e) = validate_content_length(headers) {
        return Err(AdmissionFailure { failure: http_failure(e), under_requested_identity: adopted });
    }
    match parse_deadline(headers, now) {
        Ok(d) => Ok(d),
        Err(e) => Err(AdmissionFailure { failure: http_failure(e), under_requested_identity: adopted }),
    }
}

/// Admits a request before its body is read: its anonymous context must be
/// active, and its Bearer authorization present and well formed (a refusal
/// challenges when it is `Unauthenticated`).
pub fn admit_before_body(context_failure: Option<ApiDomainError>, headers: &[HttpHeader]) -> (res: Result<
    PresentedBearer,
    ExecutionFailure,
>)
    ensures
        match context_failure {
            Some(e) => res == Err::<PresentedBearer, ExecutionFailure>(plain(ProtocolFailure::Domain(e))),
            None => match authorization_outcome(headers@) {
                Ok(t) => res matches Ok(b) && b@ == t,
                Err(c) => res == Err::<PresentedBearer, ExecutionFailure>(
                    authentication_failure_of(ApiHttpError { code: c }),
                ),
            },
        },
{
    check_active(context_failure)?;
    match parse_authorization(headers) {
        Ok(b) => Ok(b),
        Err(e) => Err(authentication_failure(e)),
    }
}

/// The body of a request as it was collected: a context that ended while
/// reading fails as a domain failure; a body that could not be read within
/// the public limit (`None`) is `PayloadTooLarge`.
pub fn collected_body(outcome: Result<Option<Vec<u8>>, ApiDomainError>) -> (res: Result<Vec<u8>, ExecutionFailure>)
    ensures
        match outcome {
            Err(e) => res == Err::<Vec<u8>, ExecutionFailure>(plain(ProtocolFailure::Domain(e))),
            Ok(None) => res == Err::<Vec<u8>, ExecutionFailure>(plain_http(ApiHttpErrorCode::PayloadTooLarge)),
            Ok(Some(b)) => res matches Ok(x) && x@ == b@,
        },
{
    match outcome {
        Err(e) => Err(domain_failure(e)),
        Ok(None) => Err(http_failure(ApiHttpError::new(ApiHttpErrorCode::PayloadTooLarge))),
        Ok(Some(b)) => Ok(b),
    }
}

/// Turns an authentication outcome into the caller's evidence and context,
/// in order: a deadline that passed while authenticating is a domain
/// failure, a refused credential an authentication failure, and a streamed
/// request needs a projection that can stream (`StreamUnavailable`).
pub fn authenticate_request(
    outcome: Result<Result<AuthenticatedPrincipalEvidence, ApiHttpError>, ApiDomainError>,
    mode: ResponseMode,
    streaming_supported: bool,
) -> (res: Result<(AuthenticatedPrincipalEvidence, RequestContext), ExecutionFailure>)
    ensures
        match outcome {
            Err(d) => res == Err::<(AuthenticatedPrincipalEvidence, RequestContext), ExecutionFailure>(
                plain(ProtocolFailure::Domain(d)),
            ),
            Ok(Err(e)) => res == Err::<(AuthenticatedPrincipalEvidence, RequestContext), ExecutionFailure>(
                authentication_failure_of(e),
            ),
            Ok(Ok(evidence)) => if mode == ResponseMode::Stream && !streaming_supported {
                res == Err::<(AuthenticatedPrincipalEvidence, RequestContext), ExecutionFailure>(
                    plain_http(ApiHttpErrorCode::StreamUnavailable),
                )
            } else {
                res matches Ok((e, c)) && e@ == evidence@ && c@ == Some(evidence@)
            },
        },
{
    let evidence = match outcome {
        Err(d) => {
            return Err(domain_failure(d));
        },
        Ok(Err(e)) => {
            return Err(authentication_failure(e));
        },
        Ok(Ok(evidence)) => evidence,
    };
    if mode == ResponseMode::Stream && !streaming_supported {
        return Err(http_failure(ApiHttpError::new(ApiHttpErrorCode::StreamUnavailable)));
    }
    let context = RequestContext::authenticated(
        PrincipalContext::new(evidence.tenant_id().clone(), evidence.principal_id().clone()),
    );
    Ok((evidence, context))
}

/// What the dispatch service answered: a complete response or a stream.
#[derive(Clone, Copy, Debug, PartialEq, Eq, Structural)]
pub enum DispatchOutcomeKind {
    /// One complete response.
    Complete,
    /// A stream of events.
    Stream,
}

/// How a dispatch outcome is projected.
#[derive(Clone, Copy, Debug, PartialEq, Eq, Structural)]
pub enum DispatchProjection {
    /// Project the complete response.
    Complete,
    /// Project the stream.
    Stream,
    /// Cancel the unexpected stream, then answer with an internal failure.
    CancelStreamThenFail,
    /// Answer with an internal failure.
    Fail,
}

/// Projects a dispatch outcome against the requested delivery mode: a
/// matching outcome is projected, a stream answering a complete request is
/// cancelled, and any other mismatch is an internal failure.
pub fn project_dispatch_outcome(mode: ResponseMode, outcome: DispatchOutcomeKind) -> (res: DispatchProjection)
    ensures
        mode == ResponseMode::Complete && outcome == DispatchOutcomeKind::Complete ==> res == DispatchProjection::Complete,
        mode == ResponseMode::Stream && outcome == DispatchOutcomeKind::Stream ==> res == DispatchProjection::Stream,
        mode == ResponseMode::Complete && outcome == DispatchOutcomeKind::Stream ==> res
            == DispatchProjection::CancelStreamThenFail,
        mode == ResponseMode::Stream && outcome == DispatchOutcomeKind::Complete ==> res == DispatchProjection::Fail,
{
    match (mode, outcome) {
        (ResponseMode::Complete, DispatchOutcomeKind::Complete) => DispatchProjection::Complete,
        (ResponseMode::Stream, DispatchOutcomeKind::Stream) => DispatchProjection::Stream,
        (ResponseMode::Complete, DispatchOutcomeKind::Stream) => DispatchProjection::CancelStreamThenFail,
        _ => DispatchProjection::Fail,
    }
}

/// The outcome of a dispatch within the request deadline: a passed deadline
/// or a refused dispatch is a domain failure.
pub fn dispatched(outcome: Result<Result<DispatchOutcomeKind, ApiDomainError>, ApiDomainError>) -> (res: Result<
    DispatchOutcomeKind,
    ExecutionFailure,
>)
    ensures
        match outcome {
            Err(d) => res == Err::<DispatchOutcomeKind, ExecutionFailure>(plain(ProtocolFailure::Domain(d))),
            Ok(Err(d)) => res == Err::<DispatchOutcomeKind, ExecutionFailure>(plain(ProtocolFailure::Domain(d))),
            Ok(Ok(k)) => res == Ok::<DispatchOutcomeKind, ExecutionFailure>(k),
        },
{
    match outcome {
        Err(d) => Err(domain_failure(d)),
        Ok(Err(d)) => Err(domain_failure(d)),
        Ok(Ok(k)) => Ok(k),
    }
}

/// The internal failure a mismatched dispatch is answered with.
pub fn internal_execution_failure() -> (res: ExecutionFailure)
    ensures
        res == plain(internal_failure_spec()),
{
    ExecutionFailure { failure: internal_failure(), bearer_challenge: false }
}

/// Whether `out` is `h` without the headers the transport sets, followed by
/// the Bearer challenge when `challenge`, and then the request identifier.
pub open spec fn finalized_headers(h: Seq<HttpHeader>, request_id: Seq<char>, challenge: bool, out: Seq<HttpHeader>) -> bool {
    let kept = h.filter(not_transport());
    let n = kept.len() as int;
    &&& out.len() == kept.len() + if challenge {
        2nat
    } else {
        1nat
    }
    &&& out.take(n) == kept
    &&& challenge ==> (out[n].name@ == "www-authenticate"@ && out[n].value@ == encode_utf8("Bearer"@) && (out[n].text matches Some(
        t,
    ) && t@ == "Bearer"@))
    &&& out.last().name@ == "x-request-id"@
    &&& out.last().value@ == encode_utf8(request_id)
    &&& (out.last().text matches Some(t) && t@ == request_id)
}

/// One header whose value is the given text.
fn text_header(name: &str, value: &str) -> (res: HttpHeader)
    ensures
        res.name@ == name@,
        res.value@ == encode_utf8(value@),
        res.text matches Some(t) && t@ == value@,
{
    let bytes = value.as_bytes();
    HttpHeader { name: name.to_string(), value: vstd::slice::slice_to_vec(bytes), text: Some(value.to_string()) }
}

fn finalized_header_list(headers: Vec<HttpHeader>, request_id: &str, challenge: bool) -> (res: Vec<HttpHeader>)
    ensures
        finalized_headers(headers@, request_id@, challenge, res@),
{
    let ghost original = headers@;
    let ghost keep = not_transport();
    let mut rest = headers;
    let n = rest.len();
    let mut kept: Vec<HttpHeader> = Vec::new();
    let mut i: usize = 0;
    while rest.len() > 0
        invariant
            rest@ == original.skip(i as int),
            i <= original.len(),
            original.len() == n,
            keep == not_transport(),
            kept@ == original.take(i as int).filter(keep),
        decreases rest@.len(),
    {
        let header = rest.remove(0);
        proof {
            assert(header == original[i as int]);
            assert(original.take(i + 1).drop_last() =~= original.take(i as int));
            assert(original.take(i + 1).last() == original[i as int]);
            reveal(Seq::filter);
        }
        let transport = str_equals(header.name.as_str(), "x-request-id") || str_equals(
            header.name.as_str(),
            "www-authenticate",
        );
        proof {
            assert(keep(original[i as int]) == !is_transport_header(original[i as int].name@));
            assert(original.take(i + 1).filter(keep) == if keep(original[i as int]) {
                original.take(i as int).filter(keep).push(original[i as int])
            } else {
                original.take(i as int).filter(keep)
            });
        }
        if !transport {
            kept.push(header);
        }
        i = i + 1;
        proof {
            assert(rest@ =~= original.skip(i as int));
        }
    }
    proof {
        assert(original.take(i as int) =~= original);
    }
    let ghost base = kept@;
    if challenge {
        let bearer = text_header("www-authenticate", "Bearer");
        kept.push(bearer);
    }
    kept.push(text_header("x-request-id", request_id));
    proof {
        assert(kept@.take(base.len() as int) =~= base);
    }
    kept
}

/// Finalizes the headers of an answer: the transport's own headers are
/// dropped from the projection's, the Bearer challenge is added when the
/// answer carries it, and the request identifier always; headers above the
/// public budget are an internal failure.
pub fn finalize_response_headers(headers: Vec<HttpHeader>, request_id: &str, challenge: bool) -> (res: Result<
    Vec<HttpHeader>,
    ProtocolFailure,
>)
    ensures
        res matches Ok(out) ==> finalized_headers(headers@, request_id@, challenge, out@) && header_budget_ok(out@),
        res is Err ==> res == Err::<Vec<HttpHeader>, ProtocolFailure>(internal_failure_spec()) && exists|out: Seq<HttpHeader>|
            #[trigger] finalized_headers(headers@, request_id@, challenge, out) && !header_budget_ok(out),
{
    let out = finalized_header_list(headers, request_id, challenge);
    match validate_response_header_budget(out.as_slice()) {
        Ok(()) => Ok(out),
        Err(e) => Err(e),
    }
}

/// Finalizes the headers of an upgrade answer in the same way; headers
/// above the public budget are refused as `InvalidRequest`.
pub fn finalize_upgrade_headers(headers: Vec<HttpHeader>, request_id: &str, challenge: bool) -> (res: Result<
    Vec<HttpHeader>,
    ProtocolFailure,
>)
    ensures
        res matches Ok(out) ==> finalized_headers(headers@, request_id@, challenge, out@) && header_budget_ok(out@),
        res is Err ==> res == Err::<Vec<HttpHeader>, ProtocolFailure>(
            ProtocolFailure::Http(ApiHttpError { code: ApiHttpErrorCode::InvalidRequest }),
        ) && exists|out: Seq<HttpHeader>| #[trigger] finalized_headers(headers@, request_id@, challenge, out) && !header_budget_ok(out),
{
    let out = finalized_header_list(headers, request_id, challenge);
    match validate_header_budget(out.as_slice()) {
        Ok(()) => Ok(out),
        Err(e) => Err(ProtocolFailure::Http(e)),
    }
}

/// How an upgrade request is admitted at `now`, in order: the header
/// budget, the requested identity, the deadline within the session
/// lifetime, the anonymous context, a request without a body, the
/// protocol's preparation of the session, and the Bearer authorization.
pub open spec fn upgrade_admission_outcome(
    h: Seq<HttpHeader>,
    body_ended: bool,
    now: int,
    lifetime: int,
    accepted: bool,
    context_failure: Option<ApiDomainError>,
    prepared: Result<(), ProtocolFailure>,
) -> Result<(int, Seq<u8>), AdmissionFailure> {
    if !header_budget_ok(h) {
        Err(AdmissionFailure { failure: plain_http(ApiHttpErrorCode::InvalidRequest), under_requested_identity: false })
    } else {
        match resolve_identity_outcome(h, accepted) {
            Err(c) => Err(AdmissionFailure { failure: plain_http(c), under_requested_identity: false }),
            Ok(adopted) => match deadline_outcome(count_named(h, deadline_header()), the_named(h, deadline_header()), now, lifetime, lifetime) {
                Err(c) => Err(AdmissionFailure { failure: plain_http(c), under_requested_identity: adopted }),
                Ok(d) => match context_failure {
                    Some(e) => Err(AdmissionFailure { failure: plain(ProtocolFailure::Domain(e)), under_requested_identity: adopted }),
                    None => if !bodyless(h, body_ended) {
                        Err(AdmissionFailure { failure: plain_http(ApiHttpErrorCode::InvalidRequest), under_requested_identity: adopted })
                    } else {
                        match prepared {
                            Err(f) => Err(AdmissionFailure { failure: plain(f), under_requested_identity: adopted }),
                            Ok(()) => match authorization_outcome(h) {
                                Err(c) => Err(
                                    AdmissionFailure {
                                        failure: authentication_failure_of(ApiHttpError { code: c }),
                                        under_requested_identity: adopted,
                                    },
                                ),
                                Ok(t) => Ok((d, t)),
                            },
                        }
                    },
                },
            },
        }
    }
}

/// Whether an upgrade request carries no body: no transfer coding, an ended
/// body, and no content length but zero.
pub open spec fn bodyless(h: Seq<HttpHeader>, body_ended: bool) -> bool {
    count_named(h, "transfer-encoding"@) == 0 && body_ended && (count_named(h, "content-length"@) == 0 || (count_named(h, "content-length"@) == 1 && {
        let x = the_named(h, "content-length"@);
        ascii_digit_bytes(x.value@) && (x.text matches Some(t) && u64_text_value(t@) == Some(0nat))
    }))
}

/// Admits an upgrade request at `now` and returns its deadline and the
/// presented credential. `accepted` says whether the platform core accepted
/// the requested identifier, `context_failure` is the failure of the
/// anonymous context's activity check, and `prepared` the protocol's
/// preparation of the session.
pub fn admit_upgrade(
    headers: &[HttpHeader],
    body_ended: bool,
    now: UnixInstant,
    limits: ProtocolUpgradeLimits,
    accepted: bool,
    context_failure: Option<ApiDomainError>,
    prepared: Result<(), ProtocolFailure>,
) -> (res: Result<(UnixInstant, PresentedBearer), AdmissionFailure>)
    ensures
        match upgrade_admission_outcome(headers@, body_ended, now@, limits@.session_lifetime_nanos as int, accepted, context_failure, prepared) {
            Ok((d, t)) => res matches Ok((x, b)) && x@ == d && b@ == t,
            Err(f) => res matches Err(g) && g == f,
        },
{
    if let Err(e) = validate_header_budget(headers) {
        return Err(AdmissionFailure { failure: http_failure(e), under_requested_identity: false });
    }
    let adopted = match resolve_identity(headers, accepted) {
        Ok(b) => b,
        Err(e) => {
            return Err(AdmissionFailure { failure: http_failure(e), under_requested_identity: false });
        },
    };
    let lifetime = limits.session_lifetime();
    let deadline = match parse_upgrade_deadline(headers, now, lifetime as u64) {
        Ok(d) => d,
        Err(e) => {
            return Err(AdmissionFailure { failure: http_failure(e), under_requested_identity: adopted });
        },
    };
    if let Some(e) = context_failure {
        return Err(AdmissionFailure { failure: domain_failure(e), under_requested_identity: adopted });
    }
    if let Err(e) = validate_bodyless(headers, body_ended) {
        return Err(AdmissionFailure { failure: http_failure(e), under_requested_identity: adopted });
    }
    if let Err(f) = prepared {
        return Err(AdmissionFailure { failure: ExecutionFailure { failure: f, bearer_challenge: false }, under_requested_identity: adopted });
    }
    match parse_authorization(headers) {
        Ok(b) => Ok((deadline, b)),
        Err(e) => Err(AdmissionFailure { failure: authentication_failure(e), under_requested_identity: adopted }),
    }
}

/// Turns the authentication of an upgrade or a protocol operation into the
/// caller's context: a context that ended while authenticating is a domain
/// failure, a refused credential an authentication failure, and the
/// authenticated context must still be active (`context_failure` is its
/// activity check's failure).
pub fn authenticate_in_context(
    outcome: Result<Result<AuthenticatedPrincipalEvidence, ApiHttpError>, ApiDomainError>,
    context_failure: Option<ApiDomainError>,
) -> (res: Result<RequestContext, ExecutionFailure>)
    ensures
        match outcome {
            Err(d) => res == Err::<RequestContext, ExecutionFailure>(plain(ProtocolFailure::Domain(d))),
            Ok(Err(e)) => res == Err::<RequestContext, ExecutionFailure>(authentication_failure_of(e)),
            Ok(Ok(evidence)) => match context_failure {
                Some(d) => res == Err::<RequestContext, ExecutionFailure>(plain(ProtocolFailure::Domain(d))),
                None => res matches Ok(c) && c@ == Some(evidence@),
            },
        },
{
    let evidence = match outcome {
        Err(d) => {
            return Err(domain_failure(d));
        },
        Ok(Err(e)) => {
            return Err(authentication_failure(e));
        },
        Ok(Ok(evidence)) => evidence,
    };
    let context = RequestContext::authenticated(
        PrincipalContext::new(evidence.tenant_id().clone(), evidence.principal_id().clone()),
    );
    check_active(context_failure)?;
    Ok(context)
}

/// How a protocol operation is admitted at `now`, in order: the header
/// budget, the requested identity, the deadline, the anonymous context, and
/// the Bearer authorization.
pub open spec fn operation_admission_outcome(
    h: Seq<HttpHeader>,
    now: int,
    accepted: bool,
    context_failure: Option<ApiDomainError>,
) -> Result<(int, Seq<u8>), AdmissionFailure> {
    if !header_budget_ok(h) {
        Err(AdmissionFailure { failure: plain_http(ApiHttpErrorCode::InvalidRequest), under_requested_identity: false })
    } else {
        match resolve_identity_outcome(h, accepted) {
            Err(c) => Err(AdmissionFailure { failure: plain_http(c), under_requested_identity: false }),
            Ok(adopted) => match deadline_outcome(
                count_named(h, deadline_header()),
                the_named(h, deadline_header()),
                now,
                DEFAULT_DEADLINE_WINDOW_NANOS as int,
                MAX_DEADLINE_WINDOW_NANOS as int,
            ) {
                Err(c) => Err(AdmissionFailure { failure: plain_http(c), under_requested_identity: adopted }),
                Ok(d) => match context_failure {
                    Some(e) => Err(AdmissionFailure { failure: plain(ProtocolFailure::Domain(e)), under_requested_identity: adopted }),
                    None => match authorization_outcome(h) {
                        Err(c) => Err(
                            AdmissionFailure {
                                failure: authentication_failure_of(ApiHttpError { code: c }),
                                under_requested_identity: adopted,
                            },
                        ),
                        Ok(t) => Ok((d, t)),
                    },
                },
            },
        }
    }
}

/// Admits a protocol operation at `now` and returns its deadline and the
/// presented credential; the operation's body and query are its adapter's.
pub fn admit_operation(headers: &[HttpHeader], now: UnixInstant, accepted: bool, context_failure: Option<ApiDomainError>) -> (res:
    Result<(UnixInstant, PresentedBearer), AdmissionFailure>)
    ensures
        match operation_admission_outcome(headers@, now@, accepted, context_failure) {
            Ok((d, t)) => res matches Ok((x, b)) && x@ == d && b@ == t,
            Err(f) => res matches Err(g) && g == f,
        },
{
    if let Err(e) = validate_header_budget(headers) {
        return Err(AdmissionFailure { failure: http_failure(e), under_requested_identity: false });
    }
    let adopted = match resolve_identity(headers, accepted) {
        Ok(b) => b,
        Err(e) => {
            return Err(AdmissionFailure { failure: http_failure(e), under_requested_identity: false });
        },
    };
    let deadline = match parse_deadline(headers, now) {
        Ok(d) => d,
        Err(e) => {
            return Err(AdmissionFailure { failure: http_failure(e), under_requested_identity: adopted });
        },
    };
    if let Some(e) = context_failure {
        return Err(AdmissionFailure { failure: domain_failure(e), under_requested_identity: adopted });
    }
    match parse_authorization(headers) {
        Ok(b) => Ok((deadline, b)),
        Err(e) => Err(AdmissionFailure { failure: authentication_failure(e), under_requested_identity: adopted }),
    }
}

/// Finishes a protocol operation: an adapter failure is answered as it was
/// classified, and a buffered answer is sent only while the context is
/// still active; a streamed answer keeps the context for its body.
pub fn finish_operation(executed: Result<(), ProtocolFailure>, buffered: bool, context_failure: Option<ApiDomainError>) -> (res:
    Result<(), ExecutionFailure>)
    ensures
        match executed {
            Err(f) => res == Err::<(), ExecutionFailure>(plain(f)),
            Ok(()) => if buffered && context_failure is Some {
                res == Err::<(), ExecutionFailure>(plain(ProtocolFailure::Domain(context_failure->0)))
            } else {
                res is Ok
            },
        },
{
    if let Err(f) = executed {
        return Err(ExecutionFailure { failure: f, bearer_challenge: false });
    }
    if buffered {
        check_active(context_failure)
    } else {
        Ok(())
    }
}

/// The buffer configuration of one upgraded connection.
#[derive(Clone, Copy, Debug, PartialEq, Eq, Structural)]
pub struct WebSocketBuffers {
    /// Read buffer size: the frame bound, at most 64 KiB.
    pub read_buffer: usize,
    /// Write buffer size: nothing is buffered before a flush.
    pub write_buffer: usize,
    /// Largest write backlog: one message and a small overhead.
    pub max_write_buffer: usize,
    /// Largest decoded message.
    pub max_message: usize,
    /// Largest decoded frame.
    pub max_frame: usize,
}

/// Derives the buffer configuration of an upgraded connection from its
/// limits.
pub fn websocket_buffers(limits: ProtocolUpgradeLimits) -> (res: WebSocketBuffers)
    ensures
        res.read_buffer == if limits@.max_frame_bytes < MAX_UPGRADE_READ_BUFFER_BYTES {
            limits@.max_frame_bytes
        } else {
            MAX_UPGRADE_READ_BUFFER_BYTES as nat
        },
        res.write_buffer == 0,
        res.max_write_buffer == limits@.max_message_bytes + MAX_UPGRADE_WRITE_OVERHEAD_BYTES,
        res.max_message == limits@.max_message_bytes,
        res.max_frame == limits@.max_frame_bytes,
{
    let frame = limits.max_frame_bytes();
    let message = limits.max_message_bytes();
    let read = if frame < MAX_UPGRADE_READ_BUFFER_BYTES {
        frame
    } else {
        MAX_UPGRADE_READ_BUFFER_BYTES
    };
    WebSocketBuffers {
        read_buffer: read,
        write_buffer: 0,
        max_write_buffer: message + MAX_UPGRADE_WRITE_OVERHEAD_BYTES,
        max_message: message,
        max_frame: frame,
    }
}

/// Completes an upgrade: a request the WebSocket handshake refuses is
/// `InvalidRequest`, and the context must still be active.
pub fn complete_upgrade(handshake_accepted: bool, context_failure: Option<ApiDomainError>) -> (res: Result<(), ExecutionFailure>)
    ensures
        !handshake_accepted ==> res == Err::<(), ExecutionFailure>(plain_http(ApiHttpErrorCode::InvalidRequest)),
        handshake_accepted ==> match context_failure {
            Some(d) => res == Err::<(), ExecutionFailure>(plain(ProtocolFailure::Domain(d))),
            None => res is Ok,
        },
{
    if !handshake_accepted {
        return Err(http_failure(invalid_request()));
    }
    check_active(context_failure)
}

} // verus!
