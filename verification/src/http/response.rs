//! Rules for what the public transport sends back: final statuses, bodies
//! and headers a protocol may produce, the wire forms of contract values,
//! and the download disposition of a file.

use vstd::prelude::*;

use crate::domain::audio::{AudioChannelCount, AudioSampleRate};
use crate::domain::error::{ApiDomainError, ApiDomainErrorCode};
use crate::domain::image::{GeneratedImage, GeneratedImageView};
use crate::domain::request::ServiceContractVersion;
use crate::domain::response::FinishReason;
use crate::http::base64_encoding::{MAX_PUBLIC_BODY_BYTES, ascii_chars, encoded_length, padded_base64_len, string_from_utf8};
use crate::http::error::{ApiHttpError, ApiHttpErrorCode};
use crate::http::headers::{HttpHeader, MAX_PUBLIC_HEADERS, MAX_PUBLIC_HEADER_BYTES, count_named, header_budget_ok, headers_bytes, lemma_headers_bytes_prefix};
use crate::http::protocol::{ProtocolFailure, internal_failure, internal_failure_spec};
use crate::text::{str_equals, utf8_byte_len};
use vstd::string::{StringExecFns, StringSliceAdditionalSpecFns};
use vstd::utf8::encode_utf8;

verus! {

/// Returns the wire number of a contract version.
pub fn project_version(version: ServiceContractVersion) -> (res: Result<u16, ProtocolFailure>)
    ensures
        version == ServiceContractVersion::V1 ==> res == Ok::<u16, ProtocolFailure>(1),
{
    match version {
        ServiceContractVersion::V1 => Ok(1),
    }
}

/// The wire text of a finish reason a text response may report.
pub open spec fn finish_reason_text(reason: FinishReason) -> Option<Seq<char>> {
    match reason {
        FinishReason::Completed => Some("completed"@),
        FinishReason::OutputLimitReached => Some("output_limit_reached"@),
        FinishReason::ContentFiltered => None,
    }
}

/// Returns the wire text of a finish reason; a reason the text protocol
/// cannot report is an internal failure.
pub fn project_finish_reason(reason: FinishReason) -> (res: Result<&'static str, ApiHttpError>)
    ensures
        match finish_reason_text(reason) {
            Some(t) => res matches Ok(s) && s@ == t,
            None => res == Err::<&'static str, ApiHttpError>(ApiHttpError { code: ApiHttpErrorCode::Internal }),
        },
{
    match reason {
        FinishReason::Completed => Ok("completed"),
        FinishReason::OutputLimitReached => Ok("output_limit_reached"),
        FinishReason::ContentFiltered => Err(ApiHttpError::new(ApiHttpErrorCode::Internal)),
    }
}

/// Reads a requested sample rate in hertz; anything but 8, 16, 24 or 48 kHz
/// is `InvalidArgument`.
pub fn parse_sample_rate(value: u32) -> (res: Result<AudioSampleRate, ApiDomainError>)
    ensures
        value == 8_000 ==> res == Ok::<AudioSampleRate, ApiDomainError>(AudioSampleRate::Hz8000),
        value == 16_000 ==> res == Ok::<AudioSampleRate, ApiDomainError>(AudioSampleRate::Hz16000),
        value == 24_000 ==> res == Ok::<AudioSampleRate, ApiDomainError>(AudioSampleRate::Hz24000),
        value == 48_000 ==> res == Ok::<AudioSampleRate, ApiDomainError>(AudioSampleRate::Hz48000),
        !(value == 8_000 || value == 16_000 || value == 24_000 || value == 48_000) ==> res == Err::<AudioSampleRate, ApiDomainError>(ApiDomainError { code: ApiDomainErrorCode::InvalidArgument }),
{
    match value {
        8_000 => Ok(AudioSampleRate::Hz8000),
        16_000 => Ok(AudioSampleRate::Hz16000),
        24_000 => Ok(AudioSampleRate::Hz24000),
        48_000 => Ok(AudioSampleRate::Hz48000),
        _ => Err(ApiDomainError::new(ApiDomainErrorCode::InvalidArgument)),
    }
}

/// Reads a requested channel count; anything but one or two is
/// `InvalidArgument`.
pub fn parse_channel_count(value: u16) -> (res: Result<AudioChannelCount, ApiDomainError>)
    ensures
        value == 1 ==> res == Ok::<AudioChannelCount, ApiDomainError>(AudioChannelCount::Mono),
        value == 2 ==> res == Ok::<AudioChannelCount, ApiDomainError>(AudioChannelCount::Stereo),
        !(value == 1 || value == 2) ==> res == Err::<AudioChannelCount, ApiDomainError>(ApiDomainError { code: ApiDomainErrorCode::InvalidArgument }),
{
    match value {
        1 => Ok(AudioChannelCount::Mono),
        2 => Ok(AudioChannelCount::Stereo),
        _ => Err(ApiDomainError::new(ApiDomainErrorCode::InvalidArgument)),
    }
}

/// Total padded Base64 length of the encodings of some images.
pub open spec fn images_base64_len(s: Seq<GeneratedImageView>) -> nat
    decreases s.len(),
{
    if s.len() == 0 {
        0
    } else {
        images_base64_len(s.drop_last()) + padded_base64_len(s.last().bytes.len())
    }
}

/// Refuses, as an internal failure, images whose Base64 encodings together
/// exceed the public body limit.
pub fn validate_encoded_budget(images: &[GeneratedImage]) -> (res: Result<(), ProtocolFailure>)
    ensures
        res is Ok <==> images_base64_len(images@.map_values(|i: GeneratedImage| i@)) <= MAX_PUBLIC_BODY_BYTES,
        res is Err ==> res == Err::<(), ProtocolFailure>(internal_failure_spec()),
{
    let ghost views = images@.map_values(|i: GeneratedImage| i@);
    let mut total: usize = 0;
    let mut i: usize = 0;
    while i < images.len()
        invariant
            i <= images@.len(),
            views == images@.map_values(|i: GeneratedImage| i@),
            total == images_base64_len(views.take(i as int)),
            total <= MAX_PUBLIC_BODY_BYTES,
        decreases images@.len() - i,
    {
        proof {
            assert(views.take(i + 1).drop_last() =~= views.take(i as int));
            assert(views.take(i + 1).last() == images@[i as int]@);
            lemma_images_base64_prefix(views, i + 1);
        }
        let length = encoded_length(images[i].encoded_bytes())?;
        if length > MAX_PUBLIC_BODY_BYTES || total + length > MAX_PUBLIC_BODY_BYTES {
            return Err(internal_failure());
        }
        total = total + length;
        i = i + 1;
    }
    proof {
        assert(views.take(i as int) =~= views);
    }
    Ok(())
}

/// The Base64 length of a prefix of the images never exceeds that of all.
pub proof fn lemma_images_base64_prefix(s: Seq<GeneratedImageView>, k: int)
    requires
        0 <= k <= s.len(),
    ensures
        images_base64_len(s.take(k)) <= images_base64_len(s),
    decreases s.len() - k,
{
    if k < s.len() {
        lemma_images_base64_prefix(s, k + 1);
        assert(s.take(k + 1).drop_last() =~= s.take(k));
    } else {
        assert(s.take(k) =~= s);
    }
}

/// Refuses, as an internal failure, a response body above the public limit.
pub fn validate_response_body(length: usize) -> (res: Result<(), ProtocolFailure>)
    ensures
        res is Ok <==> length <= MAX_PUBLIC_BODY_BYTES,
        res is Err ==> res == Err::<(), ProtocolFailure>(internal_failure_spec()),
{
    if length > MAX_PUBLIC_BODY_BYTES {
        return Err(internal_failure());
    }
    Ok(())
}

/// Whether a status is a final one: neither informational nor above 599.
pub open spec fn final_status(status: u16) -> bool {
    !(100 <= status <= 199) && status <= 599
}

/// Whether a status forbids a response body: 204, 205 and 304.
pub open spec fn body_forbidden(status: u16) -> bool {
    status == 204 || status == 205 || status == 304
}

/// Refuses, as an internal failure, a status that is not final.
pub fn validate_final_response_status(status: u16) -> (res: Result<(), ProtocolFailure>)
    ensures
        res is Ok <==> final_status(status),
        res is Err ==> res == Err::<(), ProtocolFailure>(internal_failure_spec()),
{
    if (100 <= status && status <= 199) || status > 599 {
        return Err(internal_failure());
    }
    Ok(())
}

/// Reports whether a status forbids a response body.
pub fn response_body_forbidden(status: u16) -> (res: bool)
    ensures
        res == body_forbidden(status),
{
    status == 204 || status == 205 || status == 304
}

/// Refuses, as an internal failure, a buffered response whose status is not
/// final, or that carries a body its status forbids.
pub fn validate_buffered_response_status(status: u16, body_length: usize) -> (res: Result<(), ProtocolFailure>)
    ensures
        res is Ok <==> final_status(status) && !(body_forbidden(status) && body_length != 0),
        res is Err ==> res == Err::<(), ProtocolFailure>(internal_failure_spec()),
{
    validate_final_response_status(status)?;
    if response_body_forbidden(status) && body_length != 0 {
        return Err(internal_failure());
    }
    Ok(())
}

/// Refuses, as an internal failure, a streamed response whose status is not
/// final or forbids a body.
pub fn validate_stream_response_status(status: u16) -> (res: Result<(), ProtocolFailure>)
    ensures
        res is Ok <==> final_status(status) && !body_forbidden(status),
        res is Err ==> res == Err::<(), ProtocolFailure>(internal_failure_spec()),
{
    validate_final_response_status(status)?;
    if response_body_forbidden(status) {
        return Err(internal_failure());
    }
    Ok(())
}

/// Refuses, as an internal failure, response headers above the public
/// header budget.
pub fn validate_response_header_budget(headers: &[HttpHeader]) -> (res: Result<(), ProtocolFailure>)
    ensures
        res is Ok <==> header_budget_ok(headers@),
        res is Err ==> res == Err::<(), ProtocolFailure>(internal_failure_spec()),
{
    match crate::http::headers::validate_header_budget(headers) {
        Ok(()) => Ok(()),
        Err(_) => Err(internal_failure()),
    }
}

/// The hop-by-hop and framing headers a protocol may not set.
pub open spec fn is_unsafe_response_header(name: Seq<char>) -> bool {
    name == "content-length"@ || name == "transfer-encoding"@ || name == "connection"@ || name == "keep-alive"@
        || name == "proxy-authenticate"@ || name == "proxy-authorization"@ || name == "proxy-connection"@
        || name == "te"@ || name == "trailer"@ || name == "upgrade"@
}

fn unsafe_response_header(name: &str) -> (res: bool)
    ensures
        res == is_unsafe_response_header(name@),
{
    str_equals(name, "content-length") || str_equals(name, "transfer-encoding") || str_equals(name, "connection")
        || str_equals(name, "keep-alive") || str_equals(name, "proxy-authenticate") || str_equals(
        name,
        "proxy-authorization",
    ) || str_equals(name, "proxy-connection") || str_equals(name, "te") || str_equals(name, "trailer")
        || str_equals(name, "upgrade")
}

/// Refuses, as an internal failure, response headers that set a hop-by-hop
/// or framing header.
pub fn reject_unsafe_response_headers(headers: &[HttpHeader]) -> (res: Result<(), ProtocolFailure>)
    ensures
        res is Ok <==> forall|i: int| 0 <= i < headers@.len() ==> !is_unsafe_response_header(#[trigger] headers@[i].name@),
        res is Err ==> res == Err::<(), ProtocolFailure>(internal_failure_spec()),
{
    let mut i: usize = 0;
    while i < headers.len()
        invariant
            i <= headers@.len(),
            forall|j: int| 0 <= j < i ==> !is_unsafe_response_header(#[trigger] headers@[j].name@),
        decreases headers@.len() - i,
    {
        if unsafe_response_header(headers[i].name.as_str()) {
            return Err(internal_failure());
        }
        i = i + 1;
    }
    Ok(())
}

/// Whether a header is one the transport sets itself on every response.
pub open spec fn is_transport_header(name: Seq<char>) -> bool {
    name == "x-request-id"@ || name == "www-authenticate"@
}

/// Keeps a header unless the transport sets it itself.
pub open spec fn not_transport() -> spec_fn(HttpHeader) -> bool {
    |h: HttpHeader| !is_transport_header(h.name@)
}

/// Checks a protocol's response headers and drops those the transport sets
/// itself (`x-request-id`, `www-authenticate`), keeping the others in order.
pub fn checked_response_headers(headers: Vec<HttpHeader>) -> (res: Result<Vec<HttpHeader>, ProtocolFailure>)
    ensures
        res is Ok <==> header_budget_ok(headers@) && forall|i: int|
            0 <= i < headers@.len() ==> !is_unsafe_response_header(#[trigger] headers@[i].name@),
        res is Err ==> res == Err::<Vec<HttpHeader>, ProtocolFailure>(internal_failure_spec()),
        res matches Ok(kept) ==> kept@ == headers@.filter(not_transport()),
{
    validate_response_header_budget(headers.as_slice())?;
    reject_unsafe_response_headers(headers.as_slice())?;
    let ghost original = headers@;
    let ghost keep = not_transport();
    let mut rest = headers;
    let n = rest.len();
    let mut kept: Vec<HttpHeader> = Vec::new();
    let mut i: usize = 0;
    while rest.len() > 0
        invariant
            rest@ == original.skip(i as int),
            i <= original.len(),
            original.len() == n,
            keep == not_transport(),
            kept@ == original.take(i as int).filter(keep),
        decreases rest@.len(),
    {
        let header = rest.remove(0);
        proof {
            assert(header == original[i as int]);
            assert(original.take(i + 1).drop_last() =~= original.take(i as int));
            assert(original.take(i + 1).last() == original[i as int]);
            reveal(Seq::filter);
        }
        let transport = str_equals(header.name.as_str(), "x-request-id") || str_equals(
            header.name.as_str(),
            "www-authenticate",
        );
        proof {
            assert(transport == is_transport_header(header.name@));
            assert(keep(original[i as int]) == !is_transport_header(original[i as int].name@));
            assert(original.take(i + 1).filter(keep) == if keep(original[i as int]) {
                original.take(i as int).filter(keep).push(original[i as int])
            } else {
                original.take(i as int).filter(keep)
            });
        }
        if !transport {
            kept.push(header);
        }
        i = i + 1;
        proof {
            assert(rest@ =~= original.skip(i as int));
        }
    }
    proof {
        assert(original.take(i as int) =~= original);
    }
    Ok(kept)
}

/// Whether a buffered response may be sent as given: a final status that
/// allows its body, headers within the budget that set no framing or
/// hop-by-hop header, and a body within the public limit.
pub open spec fn buffered_response_valid(status: u16, h: Seq<HttpHeader>, body_len: nat) -> bool {
    &&& final_status(status)
    &&& !(body_forbidden(status) && body_len != 0)
    &&& header_budget_ok(h)
    &&& forall|i: int| 0 <= i < h.len() ==> !is_unsafe_response_header(#[trigger] h[i].name@)
    &&& body_len <= MAX_PUBLIC_BODY_BYTES
}

/// Abstract contents of a [`ProtocolBufferedResponse`].
pub struct ProtocolBufferedResponseView {
    /// The response status.
    pub status: u16,
    /// The protocol's headers, without those the transport sets.
    pub headers: Seq<HttpHeader>,
    /// The complete body.
    pub body: Seq<u8>,
}

/// A finite response whose status, headers and body were checked.
pub struct ProtocolBufferedResponse {
    status: u16,
    headers: Vec<HttpHeader>,
    body: Vec<u8>,
}

impl View for ProtocolBufferedResponse {
    type V = ProtocolBufferedResponseView;

    closed spec fn view(&self) -> ProtocolBufferedResponseView {
        ProtocolBufferedResponseView { status: self.status, headers: self.headers@, body: self.body@ }
    }
}

impl ProtocolBufferedResponse {
    /// Checks a finite response from protocol-owned wire bytes; anything
    /// [`buffered_response_valid`] refuses is the internal failure, and the
    /// headers the transport sets itself are dropped.
    pub fn new(status: u16, headers: Vec<HttpHeader>, body: Vec<u8>) -> (res: Result<Self, ProtocolFailure>)
        ensures
            res is Ok <==> buffered_response_valid(status, headers@, body@.len()),
            res is Err ==> res == Err::<ProtocolBufferedResponse, ProtocolFailure>(internal_failure_spec()),
            res matches Ok(r) ==> r@ == (ProtocolBufferedResponseView {
                status,
                headers: headers@.filter(not_transport()),
                body: body@,
            }),
    {
        validate_buffered_response_status(status, body.len())?;
        let headers = checked_response_headers(headers)?;
        validate_response_body(body.len())?;
        Ok(ProtocolBufferedResponse { status, headers, body })
    }

    /// Returns the response status.
    pub fn status(&self) -> (res: u16)
        ensures
            res == self@.status,
    {
        self.status
    }

    /// Borrows the checked headers.
    pub fn headers(&self) -> (res: &[HttpHeader])
        ensures
            res@ == self@.headers,
    {
        self.headers.as_slice()
    }

    /// Borrows the complete body.
    pub fn body(&self) -> (res: &[u8])
        ensures
            res@ == self@.body,
    {
        self.body.as_slice()
    }

    /// Hands over the status, headers and body.
    pub fn into_parts(self) -> (res: (u16, Vec<HttpHeader>, Vec<u8>))
        ensures
            res.0 == self@.status,
            res.1@ == self@.headers,
            res.2@ == self@.body,
    {
        (self.status, self.headers, self.body)
    }
}

/// Checks the head of a streamed response: a final status that allows a
/// body, and headers as for a buffered response; the headers the transport
/// sets itself are dropped.
pub fn checked_stream_head(status: u16, headers: Vec<HttpHeader>) -> (res: Result<Vec<HttpHeader>, ProtocolFailure>)
    ensures
        res is Ok <==> final_status(status) && !body_forbidden(status) && header_budget_ok(headers@) && forall|i: int|
            0 <= i < headers@.len() ==> !is_unsafe_response_header(#[trigger] headers@[i].name@),
        res is Err ==> res == Err::<Vec<HttpHeader>, ProtocolFailure>(internal_failure_spec()),
        res matches Ok(kept) ==> kept@ == headers@.filter(not_transport()),
{
    validate_stream_response_status(status)?;
    checked_response_headers(headers)
}

/// Whether a byte may appear unescaped in an RFC 5987 value: ASCII letters
/// and digits and ``!#$&+-.^_`|~``.
pub open spec fn is_rfc5987_attr_byte(b: u8) -> bool {
    (0x30 <= b <= 0x39) || (0x41 <= b <= 0x5a) || (0x61 <= b <= 0x7a) || b == 0x21 || b == 0x23 || b == 0x24
        || b == 0x26 || b == 0x2b || b == 0x2d || b == 0x2e || b == 0x5e || b == 0x5f || b == 0x60 || b == 0x7c
        || b == 0x7e
}

/// The uppercase hexadecimal digit byte of `v < 16`.
pub open spec fn upper_hex_byte(v: u8) -> u8 {
    if v < 10 {
        (0x30 + v) as u8
    } else {
        (0x41 + v - 10) as u8
    }
}

/// The RFC 5987 percent-encoding of `bytes`.
pub open spec fn rfc5987_encoded(bytes: Seq<u8>) -> Seq<u8>
    decreases bytes.len(),
{
    if bytes.len() == 0 {
        Seq::empty()
    } else {
        let b = bytes.last();
        rfc5987_encoded(bytes.drop_last()) + if is_rfc5987_attr_byte(b) {
            seq![b]
        } else {
            seq![0x25u8, upper_hex_byte(b / 16), upper_hex_byte(b % 16)]
        }
    }
}

fn upper_hex(v: u8) -> (res: u8)
    requires
        v < 16,
    ensures
        res == upper_hex_byte(v),
        res < 128,
{
    if v < 10 {
        0x30 + v
    } else {
        0x41 + v - 10
    }
}

/// The download disposition of a file named `display_name`: an attachment
/// whose UTF-8 name is percent-encoded as RFC 5987 asks.
pub fn content_disposition(display_name: &str) -> (res: String)
    ensures
        res@ == "attachment; filename*=UTF-8''"@ + ascii_chars(rfc5987_encoded(encode_utf8(display_name@))),
{
    let bytes = display_name.as_bytes();
    let ghost input = bytes@;
    let mut encoded: Vec<u8> = Vec::new();
    let mut i: usize = 0;
    while i < bytes.len()
        invariant
            bytes@ == input,
            i <= input.len(),
            encoded@ == rfc5987_encoded(input.take(i as int)),
            forall|j: int| 0 <= j < encoded@.len() ==> #[trigger] encoded@[j] < 128,
        decreases input.len() - i,
    {
        let b = bytes[i];
        proof {
            assert(input.take(i + 1).drop_last() =~= input.take(i as int));
            assert(input.take(i + 1).last() == b);
        }
        let attr = (0x30 <= b && b <= 0x39) || (0x41 <= b && b <= 0x5a) || (0x61 <= b && b <= 0x7a) || b == 0x21
            || b == 0x23 || b == 0x24 || b == 0x26 || b == 0x2b || b == 0x2d || b == 0x2e || b == 0x5e || b == 0x5f
            || b == 0x60 || b == 0x7c || b == 0x7e;
        if attr {
            encoded.push(b);
        } else {
            encoded.push(0x25);
            encoded.push(upper_hex(b / 16));
            encoded.push(upper_hex(b % 16));
        }
        i = i + 1;
    }
    proof {
        assert(input.take(i as int) =~= input);
    }
    let mut out = String::from_str("attachment; filename*=UTF-8''");
    match string_from_utf8(encoded) {
        Some(text) => {
            out.append(text.as_str());
        },
        None => {},
    }
    out
}

} // verus!
