//! Admission rules for the headers of a public request.
//!
//! A request carries at most 64 headers of at most 32 KiB in all. A header
//! that a rule reads may appear at most once; its value is read as text only
//! when it is visible ASCII.

use vstd::prelude::*;

use crate::domain::batch_timestamps::UnixInstant;
use crate::domain::checks::same_outcome;
use crate::domain::error::{ApiDomainError, ApiDomainErrorCode};
use crate::domain::request::{IdempotencyKey, ResponseMode, idempotency_key_check};
use crate::http::protocol::ProtocolFailure;
use crate::http::base64_encoding::{MAX_PUBLIC_BODY_BYTES, ascii_chars, string_from_utf8};
use crate::http::error::{ApiHttpError, ApiHttpErrorCode, invalid_request};
use crate::http::file_list::{decimal_value, is_digit};
use crate::text::{
    chars_of, char_is_whitespace, first_index, first_index_of, is_unicode_whitespace, lemma_first_index_in_range,
    str_equals, utf8_byte_len, utf8_len,
};
use crate::domain::file::{ascii_lowercase, to_ascii_lowercase};
use vstd::string::StrSliceExecFns;

verus! {

/// Maximum number of headers on one public request.
pub const MAX_PUBLIC_HEADERS: usize = 64;

/// Maximum encoded size of the header names and values of one public request.
pub const MAX_PUBLIC_HEADER_BYTES: usize = 32_768;

/// How far ahead a caller-supplied deadline may lie: two minutes.
pub const MAX_DEADLINE_WINDOW_NANOS: i128 = 120_000_000_000;

/// The deadline of a request that names none: thirty seconds.
pub const DEFAULT_DEADLINE_WINDOW_NANOS: i128 = 30_000_000_000;

/// One header as received: its lowercase name, its raw value, and the value
/// as text when every byte is visible ASCII.
pub struct HttpHeader {
    /// The lowercase header name.
    pub name: String,
    /// The raw header value.
    pub value: Vec<u8>,
    /// The value as text, when it is visible ASCII.
    pub text: Option<String>,
}

/// Whether header value byte `b` may be read as text: a tab or visible ASCII.
pub open spec fn is_header_text_byte(b: u8) -> bool {
    b == 9 || (32 <= b && b < 127)
}

/// The text of a header value whose bytes are all tabs or visible ASCII.
pub open spec fn header_value_text(value: Seq<u8>) -> Option<Seq<char>> {
    if forall|i: int| 0 <= i < value.len() ==> is_header_text_byte(#[trigger] value[i]) {
        Some(ascii_chars(value))
    } else {
        None
    }
}

impl HttpHeader {
    /// A received header: its name lowercased, its raw value, and the value
    /// as text when every byte is a tab or visible ASCII.
    pub fn new(name: &str, value: Vec<u8>) -> (res: Self)
        ensures
            res.name@ == ascii_lowercase(name@),
            res.value@ == value@,
            match res.text {
                Some(t) => header_value_text(value@) == Some(t@),
                None => header_value_text(value@) is None,
            },
    {
        let mut visible = true;
        let mut i: usize = 0;
        while i < value.len()
            invariant
                i <= value@.len(),
                visible == (forall|j: int| 0 <= j < i ==> is_header_text_byte(#[trigger] value@[j])),
            decreases value@.len() - i,
        {
            let b = value[i];
            if !(b == 9 || (32 <= b && b < 127)) {
                visible = false;
            }
            i = i + 1;
        }
        let text = if visible {
            let mut copy: Vec<u8> = Vec::new();
            let mut k: usize = 0;
            while k < value.len()
                invariant
                    k <= value@.len(),
                    copy@ == value@.subrange(0, k as int),
                decreases value@.len() - k,
            {
                copy.push(value[k]);
                k = k + 1;
                proof {
                    assert(copy@ =~= value@.subrange(0, k as int));
                }
            }
            proof {
                assert(copy@ =~= value@);
                assert forall|j: int| 0 <= j < copy@.len() implies #[trigger] copy@[j] < 128 by {
                    assert(is_header_text_byte(value@[j]));
                }
            }
            string_from_utf8(copy)
        } else {
            None
        };
        HttpHeader { name: to_ascii_lowercase(name), value, text }
    }
}

/// Number of headers named `name`.
pub open spec fn count_named(h: Seq<HttpHeader>, name: Seq<char>) -> nat
    decreases h.len(),
{
    if h.len() == 0 {
        0
    } else {
        count_named(h.drop_last(), name) + if h.last().name@ == name {
            1nat
        } else {
            0nat
        }
    }
}

/// The header named `name`, when there is exactly one.
pub open spec fn the_named(h: Seq<HttpHeader>, name: Seq<char>) -> HttpHeader {
    choose|x: HttpHeader| h.contains(x) && x.name@ == name
}

/// A header named `name` makes the count positive.
pub proof fn lemma_count_positive(h: Seq<HttpHeader>, name: Seq<char>, i: int)
    requires
        0 <= i < h.len(),
        h[i].name@ == name,
    ensures
        count_named(h, name) >= 1,
    decreases h.len(),
{
    if i < h.len() - 1 {
        assert(h.drop_last()[i] == h[i]);
        lemma_count_positive(h.drop_last(), name, i);
    }
}

/// Two headers named `name` at different positions make the count at
/// least two.
pub proof fn lemma_count_two(h: Seq<HttpHeader>, name: Seq<char>, i: int, j: int)
    requires
        0 <= i < j < h.len(),
        h[i].name@ == name,
        h[j].name@ == name,
    ensures
        count_named(h, name) >= 2,
    decreases h.len(),
{
    assert(h.drop_last()[i] == h[i]);
    if j == h.len() - 1 {
        lemma_count_positive(h.drop_last(), name, i);
    } else {
        assert(h.drop_last()[j] == h[j]);
        lemma_count_two(h.drop_last(), name, i, j);
    }
}

/// When exactly one header is named `name`, it is [`the_named`] one.
pub proof fn lemma_the_named(h: Seq<HttpHeader>, name: Seq<char>, x: HttpHeader)
    requires
        count_named(h, name) == 1,
        h.contains(x),
        x.name@ == name,
    ensures
        x == the_named(h, name),
{
    let y = the_named(h, name);
    assert(h.contains(y) && y.name@ == name);
    let i = choose|i: int| 0 <= i < h.len() && h[i] == x;
    let j = choose|j: int| 0 <= j < h.len() && h[j] == y;
    if i < j {
        lemma_count_two(h, name, i, j);
    } else if j < i {
        lemma_count_two(h, name, j, i);
    }
}

/// Encoded size of the names and values of headers.
pub open spec fn headers_bytes(h: Seq<HttpHeader>) -> nat
    decreases h.len(),
{
    if h.len() == 0 {
        0
    } else {
        headers_bytes(h.drop_last()) + utf8_len(h.last().name@) + h.last().value@.len()
    }
}

/// The header budget: at most 64 headers of at most 32 KiB in all.
pub open spec fn header_budget_ok(h: Seq<HttpHeader>) -> bool {
    h.len() <= MAX_PUBLIC_HEADERS && headers_bytes(h) <= MAX_PUBLIC_HEADER_BYTES
}

/// Refuses a request whose headers exceed their budget with `InvalidRequest`.
pub fn validate_header_budget(headers: &[HttpHeader]) -> (res: Result<(), ApiHttpError>)
    ensures
        res is Ok <==> header_budget_ok(headers@),
        res is Err ==> res->Err_0.code == ApiHttpErrorCode::InvalidRequest,
{
    if headers.len() > MAX_PUBLIC_HEADERS {
        return Err(invalid_request());
    }
    let mut total: usize = 0;
    let mut i: usize = 0;
    while i < headers.len()
        invariant
            i <= headers@.len(),
            headers@.len() <= MAX_PUBLIC_HEADERS,
            total == headers_bytes(headers@.take(i as int)),
            total <= MAX_PUBLIC_HEADER_BYTES,
        decreases headers@.len() - i,
    {
        let header = &headers[i];
        let name_bytes = utf8_byte_len(header.name.as_str());
        proof {
            assert(headers@.take(i + 1).drop_last() =~= headers@.take(i as int));
            lemma_headers_bytes_prefix(headers@, i + 1);
        }
        if name_bytes > MAX_PUBLIC_HEADER_BYTES || header.value.len() > MAX_PUBLIC_HEADER_BYTES {
            return Err(invalid_request());
        }
        let next = total + name_bytes + header.value.len();
        if next > MAX_PUBLIC_HEADER_BYTES {
            return Err(invalid_request());
        }
        total = next;
        i = i + 1;
    }
    proof {
        assert(headers@.take(i as int) =~= headers@);
    }
    Ok(())
}

/// The encoded size of a prefix of the headers never exceeds that of all.
pub proof fn lemma_headers_bytes_prefix(h: Seq<HttpHeader>, k: int)
    requires
        0 <= k <= h.len(),
    ensures
        headers_bytes(h.take(k)) <= headers_bytes(h),
    decreases h.len() - k,
{
    if k < h.len() {
        lemma_headers_bytes_prefix(h, k + 1);
        assert(h.take(k + 1).drop_last() =~= h.take(k));
    } else {
        assert(h.take(k) =~= h);
    }
}

/// Looks up the header `name`: more than one is `InvalidRequest`, and so is
/// none when `required`.
pub fn one_header<'a>(headers: &'a [HttpHeader], name: &str, required: bool) -> (res: Result<
    Option<&'a HttpHeader>,
    ApiHttpError,
>)
    ensures
        count_named(headers@, name@) > 1 ==> (res matches Err(e) && e.code == ApiHttpErrorCode::InvalidRequest),
        count_named(headers@, name@) == 0 && required ==> (res matches Err(e) && e.code == ApiHttpErrorCode::InvalidRequest),
        count_named(headers@, name@) == 0 && !required ==> res matches Ok(None),
        count_named(headers@, name@) == 1 ==> (res matches Ok(Some(x)) && *x == the_named(headers@, name@)),
{
    let mut found: Option<&HttpHeader> = None;
    let mut count: usize = 0;
    let mut i: usize = 0;
    while i < headers.len()
        invariant
            i <= headers@.len(),
            count == count_named(headers@.take(i as int), name@),
            count <= 1,
            count == 0 <==> found is None,
            found matches Some(x) ==> x.name@ == name@ && headers@.contains(*x),
        decreases headers@.len() - i,
    {
        proof {
            assert(headers@.take(i + 1).drop_last() =~= headers@.take(i as int));
            assert(headers@.take(i + 1).last() == headers@[i as int]);
        }
        if str_equals(headers[i].name.as_str(), name) {
            if count == 1 {
                proof {
                    lemma_count_named_prefix(headers@, name@, i + 1);
                }
                return Err(invalid_request());
            }
            count = 1;
            found = Some(&headers[i]);
        }
        i = i + 1;
    }
    proof {
        assert(headers@.take(i as int) =~= headers@);
        if let Some(x) = found {
            lemma_the_named(headers@, name@, *x);
        }
    }
    if required && found.is_none() {
        return Err(invalid_request());
    }
    Ok(found)
}

/// The count of a prefix never exceeds the count of all headers.
pub proof fn lemma_count_named_prefix(h: Seq<HttpHeader>, name: Seq<char>, k: int)
    requires
        0 <= k <= h.len(),
    ensures
        count_named(h.take(k), name) <= count_named(h, name),
    decreases h.len() - k,
{
    if k < h.len() {
        lemma_count_named_prefix(h, name, k + 1);
        assert(h.take(k + 1).drop_last() =~= h.take(k));
    } else {
        assert(h.take(k) =~= h);
    }
}

/// Refuses a streaming request when no stream bridge is available.
pub fn require_stream_capability(mode: ResponseMode, available: bool) -> (res: Result<(), ApiHttpError>)
    ensures
        res is Ok <==> (mode != ResponseMode::Stream || available),
        res is Err ==> res->Err_0.code == ApiHttpErrorCode::StreamUnavailable,
{
    if mode == ResponseMode::Stream && !available {
        return Err(ApiHttpError::new(ApiHttpErrorCode::StreamUnavailable));
    }
    Ok(())
}

/// The digits of unsigned decimal text: without its optional leading `+`.
pub open spec fn unsigned_digits(t: Seq<char>) -> Seq<char> {
    if t.len() > 0 && t[0] == '+' {
        t.skip(1)
    } else {
        t
    }
}

/// Whether every character is an ASCII decimal digit.
pub open spec fn all_digits(s: Seq<char>) -> bool {
    forall|i: int| 0 <= i < s.len() ==> is_digit(#[trigger] s[i])
}

/// The value of unsigned decimal text as `u64` parsing reads it: an optional
/// `+` and at least one digit, and nothing else, within `u64`.
pub open spec fn u64_text_value(t: Seq<char>) -> Option<nat> {
    let digits = unsigned_digits(t);
    if digits.len() == 0 || !all_digits(digits) {
        None
    } else if decimal_value(digits) > u64::MAX {
        None
    } else {
        Some(decimal_value(digits))
    }
}

/// Parses unsigned decimal text as `u64` parsing does.
pub fn parse_u64_text(text: &str) -> (res: Option<u64>)
    ensures
        match u64_text_value(text@) {
            Some(v) => res == Some(v as u64),
            None => res is None,
        },
{
    let cs = chars_of(text);
    let start: usize = if cs.len() > 0 && cs[0] == '+' {
        1
    } else {
        0
    };
    let ghost digits = unsigned_digits(text@);
    proof {
        assert(digits =~= text@.skip(start as int));
    }
    if start >= cs.len() {
        return None;
    }
    let mut n: u64 = 0;
    let mut i: usize = start;
    while i < cs.len()
        invariant
            cs@ == text@,
            start <= i <= cs.len(),
            digits == text@.skip(start as int),
            digits == unsigned_digits(text@),
            forall|j: int| 0 <= j < i - start ==> is_digit(#[trigger] digits[j]),
            n == decimal_value(digits.take(i - start)),
        decreases cs.len() - i,
    {
        let c = cs[i];
        proof {
            assert(digits[i - start] == c);
        }
        if !('0' <= c && c <= '9') {
            proof {
                assert(!is_digit(digits[i - start]));
            }
            return None;
        }
        let d = (c as u32 - 48) as u64;
        proof {
            assert(digits.take(i - start + 1).drop_last() =~= digits.take(i - start));
            assert(digits.take(i - start + 1).last() == c);
            assert(decimal_value(digits.take(i - start + 1)) == n * 10 + d);
        }
        let Some(tens) = n.checked_mul(10) else {
            proof {
                if all_digits(digits) {
                    crate::http::file_list::lemma_decimal_value_prefix_bound(digits, i - start + 1);
                }
            }
            return None;
        };
        let Some(next) = tens.checked_add(d) else {
            proof {
                if all_digits(digits) {
                    crate::http::file_list::lemma_decimal_value_prefix_bound(digits, i - start + 1);
                }
            }
            return None;
        };
        n = next;
        i = i + 1;
    }
    proof {
        assert(digits.take(i - start) =~= digits);
    }
    Some(n)
}

/// Checks an optional `content-length`: a duplicate or non-numeric value is
/// `InvalidRequest`, one above the public body limit `PayloadTooLarge`.
pub fn validate_content_length(headers: &[HttpHeader]) -> (res: Result<(), ApiHttpError>)
    ensures
        count_named(headers@, "content-length"@) > 1 ==> (res matches Err(e) && e.code == ApiHttpErrorCode::InvalidRequest),
        count_named(headers@, "content-length"@) == 0 ==> res is Ok,
        count_named(headers@, "content-length"@) == 1 ==> match content_length_outcome(the_named(headers@, "content-length"@).text) {
            Ok(()) => res is Ok,
            Err(c) => res matches Err(e) && e.code == c,
        },
{
    let header = one_header(headers, "content-length", false)?;
    let Some(header) = header else {
        return Ok(());
    };
    let Some(text) = &header.text else {
        return Err(invalid_request());
    };
    let Some(length) = parse_u64_text(text.as_str()) else {
        return Err(invalid_request());
    };
    if length > MAX_PUBLIC_BODY_BYTES as u64 {
        return Err(ApiHttpError::new(ApiHttpErrorCode::PayloadTooLarge));
    }
    Ok(())
}

/// How a content length value is judged: it must be a number, and one
/// above the public body limit is too large.
pub open spec fn content_length_outcome(text: Option<String>) -> Result<(), ApiHttpErrorCode> {
    match text {
        None => Err(ApiHttpErrorCode::InvalidRequest),
        Some(t) => match u64_text_value(t@) {
            None => Err(ApiHttpErrorCode::InvalidRequest),
            Some(v) => if v > MAX_PUBLIC_BODY_BYTES {
                Err(ApiHttpErrorCode::PayloadTooLarge)
            } else {
                Ok(())
            },
        },
    }
}

/// `s` without its leading whitespace.
pub open spec fn trim_start(s: Seq<char>) -> Seq<char>
    decreases s.len(),
{
    if s.len() > 0 && is_unicode_whitespace(s[0]) {
        trim_start(s.drop_first())
    } else {
        s
    }
}

/// `s` without its trailing whitespace.
pub open spec fn trim_end(s: Seq<char>) -> Seq<char>
    decreases s.len(),
{
    if s.len() > 0 && is_unicode_whitespace(s.last()) {
        trim_end(s.drop_last())
    } else {
        s
    }
}

/// When the first `a` characters are whitespace and the next is not (or
/// there is none), trimming the start drops exactly them.
pub proof fn lemma_trim_start(s: Seq<char>, a: int)
    requires
        0 <= a <= s.len(),
        forall|j: int| 0 <= j < a ==> is_unicode_whitespace(#[trigger] s[j]),
        a == s.len() || !is_unicode_whitespace(s[a]),
    ensures
        trim_start(s) == s.skip(a),
    decreases a,
{
    if a == 0 {
        assert(s.skip(0) =~= s);
    } else {
        assert forall|j: int| 0 <= j < a - 1 implies is_unicode_whitespace(#[trigger] s.drop_first()[j]) by {
            assert(s.drop_first()[j] == s[j + 1]);
        }
        if a < s.len() {
            assert(s.drop_first()[a - 1] == s[a]);
        }
        lemma_trim_start(s.drop_first(), a - 1);
        assert(s.drop_first().skip(a - 1) =~= s.skip(a));
    }
}

/// When the last `s.len() - b` characters are whitespace and the one before
/// is not (or there is none), trimming the end keeps exactly the first `b`.
pub proof fn lemma_trim_end(s: Seq<char>, b: int)
    requires
        0 <= b <= s.len(),
        forall|j: int| b <= j < s.len() ==> is_unicode_whitespace(#[trigger] s[j]),
        b == 0 || !is_unicode_whitespace(s[b - 1]),
    ensures
        trim_end(s) == s.take(b),
    decreases s.len() - b,
{
    if b == s.len() {
        assert(s.take(b) =~= s);
    } else {
        assert forall|j: int| b <= j < s.drop_last().len() implies is_unicode_whitespace(#[trigger] s.drop_last()[j]) by {
            assert(s.drop_last()[j] == s[j]);
        }
        if b > 0 {
            assert(s.drop_last()[b - 1] == s[b - 1]);
        }
        lemma_trim_end(s.drop_last(), b);
        assert(s.drop_last().take(b) =~= s.take(b));
    }
}

/// Returns `s` without leading or trailing whitespace.
pub fn trim_whitespace(s: &str) -> (res: &str)
    ensures
        res@ == trim_end(trim_start(s@)),
{
    let cs = chars_of(s);
    let n = cs.len();
    let mut a: usize = 0;
    while a < n && char_is_whitespace(cs[a])
        invariant
            cs@ == s@,
            n == cs.len(),
            a <= n,
            forall|j: int| 0 <= j < a ==> is_unicode_whitespace(#[trigger] s@[j]),
        decreases n - a,
    {
        a = a + 1;
    }
    proof {
        lemma_trim_start(s@, a as int);
    }
    let mut b: usize = n;
    while b > a && char_is_whitespace(cs[b - 1])
        invariant
            cs@ == s@,
            n == cs.len(),
            a <= b <= n,
            forall|j: int| b <= j < n ==> is_unicode_whitespace(#[trigger] s@[j]),
        decreases b - a,
    {
        b = b - 1;
    }
    proof {
        let t = s@.skip(a as int);
        assert forall|j: int| b - a <= j < t.len() implies is_unicode_whitespace(#[trigger] t[j]) by {
            assert(t[j] == s@[j + a]);
        }
        if b > a {
            assert(t[b - a - 1] == s@[b - 1]);
        }
        lemma_trim_end(t, b - a);
        assert(t.take(b - a) =~= s@.subrange(a as int, b as int));
    }
    s.substring_char(a, b)
}

/// The media type part of a content type: the text before the first `;`.
pub open spec fn media_type_part(t: Seq<char>) -> Seq<char> {
    match first_index_of(t, ';') {
        Some(i) => t.take(i),
        None => t,
    }
}

/// Whether a content type names JSON: its media type part, trimmed, is
/// `application/json` in any ASCII case.
pub open spec fn is_json_content_type(t: Seq<char>) -> bool {
    ascii_lowercase(trim_end(trim_start(media_type_part(t)))) == "application/json"@
}

/// Requires a single JSON `content-type`; a missing, non-text or other one
/// is `UnsupportedMediaType`.
pub fn validate_media_type(headers: &[HttpHeader]) -> (res: Result<(), ApiHttpError>)
    ensures
        count_named(headers@, "content-type"@) > 1 ==> (res matches Err(e) && e.code == ApiHttpErrorCode::InvalidRequest),
        count_named(headers@, "content-type"@) == 0 ==> (res matches Err(e) && e.code == ApiHttpErrorCode::UnsupportedMediaType),
        count_named(headers@, "content-type"@) == 1 ==> match the_named(headers@, "content-type"@).text {
            Some(t) => if is_json_content_type(t@) {
                res is Ok
            } else {
                res matches Err(e) && e.code == ApiHttpErrorCode::UnsupportedMediaType
            },
            None => res matches Err(e) && e.code == ApiHttpErrorCode::UnsupportedMediaType,
        },
{
    let unsupported = ApiHttpError::new(ApiHttpErrorCode::UnsupportedMediaType);
    let Some(header) = one_header(headers, "content-type", false)? else {
        return Err(unsupported);
    };
    let Some(text) = &header.text else {
        return Err(unsupported);
    };
    let text = text.as_str();
    proof {
        lemma_first_index_in_range(text@, ';');
    }
    let media = match first_index(text, ';') {
        Some(i) => text.substring_char(0, i),
        None => text,
    };
    proof {
        assert(media@ =~= media_type_part(text@));
    }
    let trimmed = trim_whitespace(media);
    let lowered = to_ascii_lowercase(trimmed);
    if !str_equals(lowered.as_str(), "application/json") {
        return Err(unsupported);
    }
    Ok(())
}

/// How a request deadline resolves at `now` (nanoseconds since the epoch)
/// with a `default` and a `max` window: with no deadline header, `default`
/// ahead (an unrepresentable instant is `Internal`); otherwise the header
/// must be non-empty text of at most 20 bytes holding whole milliseconds
/// since the epoch, lying at most `max` ahead (`InvalidRequest` otherwise).
/// A deadline already past is accepted as it is.
pub open spec fn deadline_outcome(count: nat, header: HttpHeader, now: int, default: int, max: int) -> Result<
    int,
    ApiHttpErrorCode,
> {
    if count > 1 {
        Err(ApiHttpErrorCode::InvalidRequest)
    } else if count == 0 {
        if now + default > i128::MAX {
            Err(ApiHttpErrorCode::Internal)
        } else {
            Ok(now + default)
        }
    } else {
        match header.text {
            None => Err(ApiHttpErrorCode::InvalidRequest),
            Some(t) => if t@.len() == 0 || utf8_len(t@) > 20 {
                Err(ApiHttpErrorCode::InvalidRequest)
            } else {
                match u64_text_value(t@) {
                    None => Err(ApiHttpErrorCode::InvalidRequest),
                    Some(ms) => {
                        let deadline = (ms * 1_000_000) as int;
                        if deadline > now && deadline - now > max {
                            Err(ApiHttpErrorCode::InvalidRequest)
                        } else {
                            Ok(deadline)
                        }
                    },
                }
            },
        }
    }
}

/// The name of the caller deadline header.
pub open spec fn deadline_header() -> Seq<char> {
    "x-ariadnion-deadline-unix-ms"@
}

fn deadline_from_headers(headers: &[HttpHeader], now: UnixInstant, default: i128, max: i128) -> (res: Result<
    UnixInstant,
    ApiHttpError,
>)
    requires
        0 <= default,
        0 <= max,
    ensures
        match deadline_outcome(
            count_named(headers@, deadline_header()),
            the_named(headers@, deadline_header()),
            now@,
            default as int,
            max as int,
        ) {
            Ok(d) => res matches Ok(x) && x@ == d,
            Err(c) => res matches Err(e) && e.code == c,
        },
{
    let Some(header) = one_header(headers, "x-ariadnion-deadline-unix-ms", false)? else {
        return match now.unix_nanos().checked_add(default) {
            Some(at) => Ok(UnixInstant::from_unix_nanos(at)),
            None => Err(ApiHttpError::new(ApiHttpErrorCode::Internal)),
        };
    };
    let Some(text) = &header.text else {
        return Err(invalid_request());
    };
    if text.as_str().is_empty() || utf8_byte_len(text.as_str()) > 20 {
        return Err(invalid_request());
    }
    let Some(milliseconds) = parse_u64_text(text.as_str()) else {
        return Err(invalid_request());
    };
    let deadline = (milliseconds as i128) * 1_000_000;
    let now_nanos = now.unix_nanos();
    if deadline > now_nanos {
        let too_far = match deadline.checked_sub(now_nanos) {
            Some(ahead) => ahead > max,
            None => true,
        };
        if too_far {
            return Err(invalid_request());
        }
    }
    Ok(UnixInstant::from_unix_nanos(deadline))
}

/// Resolves the deadline of a request received at `now`: thirty seconds
/// ahead by default, at most two minutes ahead when the caller names one.
pub fn parse_deadline(headers: &[HttpHeader], now: UnixInstant) -> (res: Result<UnixInstant, ApiHttpError>)
    ensures
        match deadline_outcome(
            count_named(headers@, deadline_header()),
            the_named(headers@, deadline_header()),
            now@,
            DEFAULT_DEADLINE_WINDOW_NANOS as int,
            MAX_DEADLINE_WINDOW_NANOS as int,
        ) {
            Ok(d) => res matches Ok(x) && x@ == d,
            Err(c) => res matches Err(e) && e.code == c,
        },
{
    deadline_from_headers(headers, now, DEFAULT_DEADLINE_WINDOW_NANOS, MAX_DEADLINE_WINDOW_NANOS)
}

/// Resolves the deadline of a protocol upgrade received at `now`: the end
/// of the session lifetime by default, and no later than it when the caller
/// names one.
pub fn parse_upgrade_deadline(headers: &[HttpHeader], now: UnixInstant, session_lifetime_nanos: u64) -> (res:
    Result<UnixInstant, ApiHttpError>)
    ensures
        match deadline_outcome(
            count_named(headers@, deadline_header()),
            the_named(headers@, deadline_header()),
            now@,
            session_lifetime_nanos as int,
            session_lifetime_nanos as int,
        ) {
            Ok(d) => res matches Ok(x) && x@ == d,
            Err(c) => res matches Err(e) && e.code == c,
        },
{
    deadline_from_headers(headers, now, session_lifetime_nanos as i128, session_lifetime_nanos as i128)
}

/// Whether a header value is a non-empty run of ASCII digits.
pub open spec fn ascii_digit_bytes(b: Seq<u8>) -> bool {
    b.len() > 0 && forall|i: int| 0 <= i < b.len() ==> 0x30 <= #[trigger] b[i] <= 0x39
}

/// Reads a `content-length` value: non-empty ASCII digits within `u64`;
/// anything else is `InvalidRequest`.
pub fn parse_content_length(header: &HttpHeader) -> (res: Result<u64, ApiHttpError>)
    ensures
        res matches Ok(v) ==> ascii_digit_bytes(header.value@) && (header.text matches Some(t) && u64_text_value(t@) == Some(v as nat)),
        res is Err ==> res->Err_0.code == ApiHttpErrorCode::InvalidRequest,
        ascii_digit_bytes(header.value@) && (header.text matches Some(t) && u64_text_value(t@) is Some) ==> res is Ok,
{
    let bytes = header.value.as_slice();
    if bytes.len() == 0 {
        return Err(invalid_request());
    }
    let mut i: usize = 0;
    while i < bytes.len()
        invariant
            i <= bytes@.len(),
            bytes@ == header.value@,
            forall|j: int| 0 <= j < i ==> 0x30 <= #[trigger] bytes@[j] <= 0x39,
        decreases bytes@.len() - i,
    {
        if !(0x30 <= bytes[i] && bytes[i] <= 0x39) {
            return Err(invalid_request());
        }
        i = i + 1;
    }
    let Some(text) = &header.text else {
        return Err(invalid_request());
    };
    match parse_u64_text(text.as_str()) {
        Some(v) => Ok(v),
        None => Err(invalid_request()),
    }
}

/// Requires an upgrade request without a body: no `transfer-encoding`, an
/// ended body, and no `content-length` other than zero; anything else is
/// `InvalidRequest`.
pub fn validate_bodyless(headers: &[HttpHeader], body_ended: bool) -> (res: Result<(), ApiHttpError>)
    ensures
        res is Err ==> res->Err_0.code == ApiHttpErrorCode::InvalidRequest,
        count_named(headers@, "transfer-encoding"@) > 0 || !body_ended ==> res is Err,
        count_named(headers@, "content-length"@) > 1 ==> res is Err,
        res is Ok <==> (count_named(headers@, "transfer-encoding"@) == 0 && body_ended && (count_named(headers@, "content-length"@) == 0 || (count_named(headers@, "content-length"@) == 1 && {
            let h = the_named(headers@, "content-length"@);
            ascii_digit_bytes(h.value@) && (h.text matches Some(t) && u64_text_value(t@) == Some(0nat))
        }))),
{
    let transfer = one_header(headers, "transfer-encoding", false);
    let has_transfer = match transfer {
        Ok(None) => false,
        _ => true,
    };
    proof {
        if count_named(headers@, "transfer-encoding"@) == 1 {
            assert(has_transfer);
        }
    }
    if has_transfer || !body_ended {
        return Err(invalid_request());
    }
    let length = one_header(headers, "content-length", false)?;
    if let Some(header) = length {
        let value = parse_content_length(header)?;
        if value != 0 {
            return Err(invalid_request());
        }
    }
    Ok(())
}

/// Reads the optional `idempotency-key` header of a protocol request: a
/// repeated header is an `InvalidRequest` transport failure; a non-text or
/// invalid key is the domain failure of the key rules.
pub fn parse_idempotency(headers: &[HttpHeader]) -> (res: Result<Option<IdempotencyKey>, ProtocolFailure>)
    ensures
        count_named(headers@, "idempotency-key"@) > 1 ==> res == Err::<Option<IdempotencyKey>, ProtocolFailure>(ProtocolFailure::Http(ApiHttpError { code: ApiHttpErrorCode::InvalidRequest })),
        count_named(headers@, "idempotency-key"@) == 0 ==> res matches Ok(None),
        count_named(headers@, "idempotency-key"@) == 1 ==> match the_named(headers@, "idempotency-key"@).text {
            None => res == Err::<Option<IdempotencyKey>, ProtocolFailure>(ProtocolFailure::Domain(ApiDomainError { code: ApiDomainErrorCode::InvalidArgument })),
            Some(t) => match idempotency_key_check(t@) {
                Ok(()) => res matches Ok(Some(k)) && k@ == t@,
                Err(c) => res == Err::<Option<IdempotencyKey>, ProtocolFailure>(ProtocolFailure::Domain(ApiDomainError { code: c })),
            },
        },
{
    let header = match one_header(headers, "idempotency-key", false) {
        Ok(h) => h,
        Err(e) => {
            return Err(ProtocolFailure::Http(e));
        },
    };
    let Some(header) = header else {
        return Ok(None);
    };
    let Some(text) = &header.text else {
        return Err(ProtocolFailure::Domain(ApiDomainError::new(ApiDomainErrorCode::InvalidArgument)));
    };
    match IdempotencyKey::new(text.as_str()) {
        Ok(key) => Ok(Some(key)),
        Err(e) => Err(ProtocolFailure::Domain(e)),
    }
}

/// Admits the headers of a public request received at `now`, in order:
/// the header budget, a JSON content type, the content length, and the
/// deadline, which is returned; the first failure is the answer.
pub fn admit_headers(headers: &[HttpHeader], now: UnixInstant) -> (res: Result<UnixInstant, ApiHttpError>)
    ensures
        !header_budget_ok(headers@) ==> (res matches Err(e) && e.code == ApiHttpErrorCode::InvalidRequest),
        res matches Ok(d) ==> header_budget_ok(headers@) && count_named(headers@, "content-type"@) == 1
            && (the_named(headers@, "content-type"@).text matches Some(t) && is_json_content_type(t@))
            && (count_named(headers@, "content-length"@) == 0 || (count_named(headers@, "content-length"@) == 1
            && content_length_outcome(the_named(headers@, "content-length"@).text) is Ok)) && deadline_outcome(
            count_named(headers@, deadline_header()),
            the_named(headers@, deadline_header()),
            now@,
            DEFAULT_DEADLINE_WINDOW_NANOS as int,
            MAX_DEADLINE_WINDOW_NANOS as int,
        ) == Ok::<int, ApiHttpErrorCode>(d@),
{
    validate_header_budget(headers)?;
    validate_media_type(headers)?;
    validate_content_length(headers)?;
    parse_deadline(headers, now)
}

} // verus!
