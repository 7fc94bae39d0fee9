//! The bounded query grammar of the file-list route.
//!
//! A query is absent, or a non-empty sequence of at most 4 KiB of `&`
//! separated `key=value` pairs. The only keys are `limit`, a canonical decimal
//! page size, and `cursor`, the canonical unpadded URL-safe Base64 text of an
//! opaque continuation cursor; each may appear at most once. An absent limit
//! is 100 results.

use vstd::prelude::*;

use base64::Engine;

use crate::files::{
    ApiFilesError, ApiFilesErrorCode, FileListCursor, FileListRequest, FileListRequestView, FilePageLimit,
    MAX_FILE_LIST_CURSOR_BYTES, MAX_FILE_PAGE_RESULTS, files_error, non_empty_length_check, optional_cursor,
};
use crate::text::{
    chars_of, decimal_text, first_index, first_index_of, lemma_first_index_in_range, prefixed_decimal, str_equals,
    utf8_byte_len, utf8_len,
};
use vstd::string::StrSliceExecFns;
use vstd::utf8::encode_utf8;

verus! {

/// Page size used when a query names none.
pub const DEFAULT_FILE_PAGE_LIMIT: usize = 100;

/// Maximum encoded size of a file-list query.
pub const MAX_FILE_LIST_QUERY_BYTES: usize = 4096;

/// The bytes that unpadded URL-safe Base64 text decodes to, or `None` when
/// the text is not such an encoding.
pub uninterp spec fn url_safe_unpadded_decoded(input: Seq<u8>) -> Option<Seq<u8>>;

/// The RFC 4648 URL-safe alphabet: `A`-`Z`, `a`-`z`, `0`-`9`, `-`, `_`.
pub open spec fn url_safe_symbol(v: int) -> char {
    if v < 26 {
        (65 + v) as char
    } else if v < 52 {
        (71 + v) as char
    } else if v < 62 {
        (v - 4) as char
    } else if v == 62 {
        '-'
    } else {
        '_'
    }
}

/// The unpadded URL-safe Base64 text of `bytes` (RFC 4648): four symbols per
/// three bytes, and a final group of one or two bytes as two or three
/// symbols, without padding.
pub open spec fn url_safe_unpadded_text(bytes: Seq<u8>) -> Seq<char>
    decreases bytes.len(),
{
    if bytes.len() == 0 {
        Seq::empty()
    } else if bytes.len() == 1 {
        let b0 = bytes[0] as int;
        seq![url_safe_symbol(b0 / 4), url_safe_symbol((b0 % 4) * 16)]
    } else if bytes.len() == 2 {
        let b0 = bytes[0] as int;
        let b1 = bytes[1] as int;
        seq![url_safe_symbol(b0 / 4), url_safe_symbol((b0 % 4) * 16 + b1 / 16), url_safe_symbol((b1 % 16) * 4)]
    } else {
        let b0 = bytes[0] as int;
        let b1 = bytes[1] as int;
        let b2 = bytes[2] as int;
        seq![
            url_safe_symbol(b0 / 4),
            url_safe_symbol((b0 % 4) * 16 + b1 / 16),
            url_safe_symbol((b1 % 16) * 4 + b2 / 64),
            url_safe_symbol(b2 % 64),
        ] + url_safe_unpadded_text(bytes.skip(3))
    }
}

/// Decodes unpadded URL-safe Base64 through
/// `base64::engine::general_purpose::URL_SAFE_NO_PAD.decode`; the decoded
/// bytes, or the absence of any, are named by
/// [`url_safe_unpadded_decoded`], a function of the input alone.
#[verifier::external_body]
fn decode_url_safe(input: &[u8]) -> (res: Option<Vec<u8>>)
    ensures
        res is None <==> url_safe_unpadded_decoded(input@) is None,
        res matches Some(v) ==> url_safe_unpadded_decoded(input@) == Some(v@),
{
    base64::engine::general_purpose::URL_SAFE_NO_PAD.decode(input).ok()
}

/// Encodes bytes as unpadded URL-safe Base64 through
/// `base64::engine::general_purpose::URL_SAFE_NO_PAD.encode`, whose text is
/// [`url_safe_unpadded_text`]; decoding that text with the same engine gives
/// the bytes back. The crate panics only when the encoded
/// length overflows `usize`, which no cursor-sized input reaches.
#[verifier::external_body]
fn encode_url_safe(bytes: &[u8]) -> (res: String)
    requires
        bytes@.len() <= MAX_FILE_LIST_CURSOR_BYTES,
    ensures
        res@ == url_safe_unpadded_text(bytes@),
        url_safe_unpadded_decoded(encode_utf8(res@)) == Some(bytes@),
{
    base64::engine::general_purpose::URL_SAFE_NO_PAD.encode(bytes)
}

/// The key and value of a `key=value` pair, split at the first `=`; `None`
/// when there is no `=` or either side is empty.
pub open spec fn pair_split(s: Seq<char>) -> Option<(Seq<char>, Seq<char>)> {
    match first_index_of(s, '=') {
        None => None,
        Some(j) => if j == 0 || j + 1 == s.len() {
            None
        } else {
            Some((s.take(j), s.skip(j + 1)))
        },
    }
}

fn invalid() -> (res: ApiFilesError)
    ensures
        res.code == ApiFilesErrorCode::InvalidArgument,
{
    files_error(ApiFilesErrorCode::InvalidArgument)
}

/// Splits one `key=value` pair; a malformed pair is `InvalidArgument`.
pub fn parse_query_pair(pair: &str) -> (res: Result<(&str, &str), ApiFilesError>)
    ensures
        match pair_split(pair@) {
            Some((k, v)) => res matches Ok((key, value)) && key@ == k && value@ == v,
            None => res matches Err(e) && e.code == ApiFilesErrorCode::InvalidArgument,
        },
{
    proof {
        lemma_first_index_in_range(pair@, '=');
    }
    let Some(j) = first_index(pair, '=') else {
        return Err(invalid());
    };
    let len = pair.unicode_len();
    if j == 0 || j + 1 == len {
        return Err(invalid());
    }
    let key = pair.substring_char(0, j);
    let value = pair.substring_char(j + 1, len);
    proof {
        assert(key@ =~= pair@.take(j as int));
        assert(value@ =~= pair@.skip(j + 1));
    }
    Ok((key, value))
}

/// Whether `c` is an ASCII decimal digit.
pub open spec fn is_digit(c: char) -> bool {
    '0' <= c && c <= '9'
}

/// The number a sequence of decimal digits denotes.
pub open spec fn decimal_value(s: Seq<char>) -> nat
    decreases s.len(),
{
    if s.len() == 0 {
        0
    } else {
        decimal_value(s.drop_last()) * 10 + ((s.last() as int - 48) as nat)
    }
}

/// How a `limit` value parses: a canonical decimal number (digits only, no
/// leading zero, within `usize`) that is a valid page size; anything that is
/// not canonical decimal is `InvalidArgument`, and the page size itself is
/// checked as [`FilePageLimit::new`] does.
pub open spec fn limit_outcome(v: Seq<char>) -> Result<nat, ApiFilesErrorCode> {
    if v.len() == 0 || !(forall|i: int| 0 <= i < v.len() ==> is_digit(#[trigger] v[i])) {
        Err(ApiFilesErrorCode::InvalidArgument)
    } else if decimal_value(v) > usize::MAX {
        Err(ApiFilesErrorCode::InvalidArgument)
    } else if decimal_text(decimal_value(v)) != v {
        Err(ApiFilesErrorCode::InvalidArgument)
    } else {
        match non_empty_length_check(decimal_value(v), MAX_FILE_PAGE_RESULTS as nat) {
            Err(e) => Err(e),
            Ok(()) => Ok(decimal_value(v)),
        }
    }
}

/// Parses a `limit` value.
pub fn parse_limit(value: &str) -> (res: Result<FilePageLimit, ApiFilesError>)
    ensures
        match limit_outcome(value@) {
            Ok(n) => res matches Ok(l) && l@ == n,
            Err(e) => res matches Err(x) && x.code == e,
        },
{
    let cs = chars_of(value);
    if cs.len() == 0 {
        return Err(invalid());
    }
    let mut n: usize = 0;
    let mut i: usize = 0;
    while i < cs.len()
        invariant
            cs@ == value@,
            i <= cs.len(),
            forall|j: int| 0 <= j < i ==> is_digit(#[trigger] value@[j]),
            n == decimal_value(value@.take(i as int)),
        decreases cs.len() - i,
    {
        let c = cs[i];
        if !('0' <= c && c <= '9') {
            return Err(invalid());
        }
        let d = (c as u32 - 48) as usize;
        proof {
            assert(value@.take(i + 1).drop_last() =~= value@.take(i as int));
        }
        let Some(tens) = n.checked_mul(10) else {
            proof {
                if forall|j: int| 0 <= j < value@.len() ==> is_digit(#[trigger] value@[j]) {
                    lemma_decimal_value_prefix_bound(value@, i + 1);
                }
            }
            return Err(invalid());
        };
        let Some(next) = tens.checked_add(d) else {
            proof {
                if forall|j: int| 0 <= j < value@.len() ==> is_digit(#[trigger] value@[j]) {
                    lemma_decimal_value_prefix_bound(value@, i + 1);
                }
            }
            return Err(invalid());
        };
        n = next;
        i = i + 1;
    }
    proof {
        assert(value@.take(i as int) =~= value@);
    }
    let canonical = prefixed_decimal("", n as u64);
    proof {
        assert(""@ + decimal_text(n as nat) =~= decimal_text(n as nat)) by {
            reveal_strlit("");
        }
    }
    if !str_equals(canonical.as_str(), value) {
        return Err(invalid());
    }
    FilePageLimit::new(n)
}

/// The value of a digit prefix never exceeds the value of the whole digit
/// sequence.
pub proof fn lemma_decimal_value_prefix_bound(s: Seq<char>, k: int)
    requires
        0 <= k <= s.len(),
        forall|j: int| 0 <= j < s.len() ==> is_digit(#[trigger] s[j]),
    ensures
        decimal_value(s.take(k)) <= decimal_value(s),
    decreases s.len() - k,
{
    if k < s.len() {
        lemma_decimal_value_prefix_bound(s, k + 1);
        assert(s.take(k + 1).drop_last() =~= s.take(k));
        assert(is_digit(s[k]));
    } else {
        assert(s.take(k) =~= s);
    }
}

/// How a `cursor` value parses: its unpadded URL-safe Base64 decoding must
/// exist, be a valid cursor (non-empty, at most 512 bytes) and encode back to
/// exactly the given text; a failed or non-canonical decoding is
/// `InvalidArgument`.
pub open spec fn cursor_outcome(v: Seq<char>) -> Result<Seq<u8>, ApiFilesErrorCode> {
    match url_safe_unpadded_decoded(encode_utf8(v)) {
        None => Err(ApiFilesErrorCode::InvalidArgument),
        Some(d) => match non_empty_length_check(d.len(), MAX_FILE_LIST_CURSOR_BYTES as nat) {
            Err(e) => Err(e),
            Ok(()) => if url_safe_unpadded_text(d) != v {
                Err(ApiFilesErrorCode::InvalidArgument)
            } else {
                Ok(d)
            },
        },
    }
}

/// Parses a `cursor` value.
pub fn parse_cursor(value: &str) -> (res: Result<FileListCursor, ApiFilesError>)
    ensures
        match cursor_outcome(value@) {
            Ok(d) => res matches Ok(c) && c@ == d,
            Err(e) => res matches Err(x) && x.code == e,
        },
{
    let Some(decoded) = decode_url_safe(value.as_bytes()) else {
        return Err(invalid());
    };
    let cursor = FileListCursor::new(decoded.as_slice())?;
    let canonical = encode_url_safe(cursor.as_bytes());
    if !str_equals(canonical.as_str(), value) {
        return Err(invalid());
    }
    Ok(cursor)
}

/// The text a cursor is handed to callers as: its unpadded URL-safe Base64
/// encoding, which [`parse_cursor`] accepts back as the same cursor.
pub fn encode_cursor(cursor: &FileListCursor) -> (res: String)
    ensures
        res@ == url_safe_unpadded_text(cursor@),
        cursor_outcome(res@) == Ok::<Seq<u8>, ApiFilesErrorCode>(cursor@),
{
    encode_url_safe(cursor.as_bytes())
}

/// The page size and cursor named so far.
pub type ListQueryState = (Option<nat>, Option<Seq<u8>>);

/// The state after one pair: each key may be named once, and its value must
/// parse; any other key is `InvalidArgument`.
pub open spec fn apply_pair(state: ListQueryState, seg: Seq<char>) -> Result<ListQueryState, ApiFilesErrorCode> {
    match pair_split(seg) {
        None => Err(ApiFilesErrorCode::InvalidArgument),
        Some((k, v)) => if k == "limit"@ {
            if state.0 is Some {
                Err(ApiFilesErrorCode::InvalidArgument)
            } else {
                match limit_outcome(v) {
                    Ok(n) => Ok((Some(n), state.1)),
                    Err(e) => Err(e),
                }
            }
        } else if k == "cursor"@ {
            if state.1 is Some {
                Err(ApiFilesErrorCode::InvalidArgument)
            } else {
                match cursor_outcome(v) {
                    Ok(d) => Ok((state.0, Some(d))),
                    Err(e) => Err(e),
                }
            }
        } else {
            Err(ApiFilesErrorCode::InvalidArgument)
        },
    }
}

/// The state after the `&` separated pairs of `rest`, in order, stopping at
/// the first failure.
pub open spec fn pairs_outcome(state: ListQueryState, rest: Seq<char>) -> Result<ListQueryState, ApiFilesErrorCode>
    decreases rest.len(),
{
    match first_index_of(rest, '&') {
        None => apply_pair(state, rest),
        Some(i) => {
            proof {
                lemma_first_index_in_range(rest, '&');
            }
            match apply_pair(state, rest.take(i)) {
                Err(e) => Err(e),
                Ok(next) => pairs_outcome(next, rest.skip(i + 1)),
            }
        },
    }
}

/// How a list query parses: no query is the default request; an empty or
/// oversized query is `InvalidArgument`; otherwise its pairs decide, and an
/// unnamed limit is the default one.
pub open spec fn list_request_outcome(query: Option<Seq<char>>) -> Result<FileListRequestView, ApiFilesErrorCode> {
    match query {
        None => Ok(FileListRequestView { cursor: None, limit: DEFAULT_FILE_PAGE_LIMIT as nat }),
        Some(q) => if q.len() == 0 || utf8_len(q) > MAX_FILE_LIST_QUERY_BYTES {
            Err(ApiFilesErrorCode::InvalidArgument)
        } else {
            match pairs_outcome((None, None), q) {
                Err(e) => Err(e),
                Ok((l, c)) => Ok(
                    FileListRequestView {
                        cursor: c,
                        limit: match l {
                            Some(n) => n,
                            None => DEFAULT_FILE_PAGE_LIMIT as nat,
                        },
                    },
                ),
            }
        },
    }
}

/// The page size of an optional limit.
pub open spec fn optional_limit(l: Option<FilePageLimit>) -> Option<nat> {
    match l {
        Some(x) => Some(x@),
        None => None,
    }
}

fn apply_query_pair(limit: &mut Option<FilePageLimit>, cursor: &mut Option<FileListCursor>, seg: &str) -> (res: Result<
    (),
    ApiFilesError,
>)
    ensures
        match apply_pair((optional_limit(*old(limit)), optional_cursor(*old(cursor))), seg@) {
            Ok((l, c)) => res is Ok && optional_limit(*final(limit)) == l && optional_cursor(*final(cursor)) == c,
            Err(e) => res matches Err(x) && x.code == e,
        },
{
    let (key, value) = parse_query_pair(seg)?;
    if str_equals(key, "limit") {
        if limit.is_some() {
            return Err(invalid());
        }
        let parsed = parse_limit(value)?;
        *limit = Some(parsed);
        Ok(())
    } else if str_equals(key, "cursor") {
        if cursor.is_some() {
            return Err(invalid());
        }
        let parsed = parse_cursor(value)?;
        *cursor = Some(parsed);
        Ok(())
    } else {
        Err(invalid())
    }
}

fn default_page_limit() -> (res: Result<FilePageLimit, ApiFilesError>)
    ensures
        res matches Ok(l) && l@ == DEFAULT_FILE_PAGE_LIMIT,
{
    FilePageLimit::new(DEFAULT_FILE_PAGE_LIMIT)
}

/// Parses a present, non-empty query of at most 4 KiB.
fn parse_present_list_request(query: &str) -> (res: Result<FileListRequest, ApiFilesError>)
    ensures
        match list_request_outcome(Some(query@)) {
            Ok(r) => res matches Ok(x) && x@ == r,
            Err(e) => res matches Err(x) && x.code == e,
        },
{
    if query.is_empty() || utf8_byte_len(query) > MAX_FILE_LIST_QUERY_BYTES {
        return Err(invalid());
    }
    let mut limit: Option<FilePageLimit> = None;
    let mut cursor: Option<FileListCursor> = None;
    let mut rest: &str = query;
    loop
        invariant_except_break
            pairs_outcome((optional_limit(limit), optional_cursor(cursor)), rest@) == pairs_outcome(
                (None, None),
                query@,
            ),
        invariant
            query@.len() > 0,
            utf8_len(query@) <= MAX_FILE_LIST_QUERY_BYTES,
        ensures
            pairs_outcome((None, None), query@) == Ok::<ListQueryState, ApiFilesErrorCode>(
                (optional_limit(limit), optional_cursor(cursor)),
            ),
        decreases rest@.len(),
    {
        proof {
            lemma_first_index_in_range(rest@, '&');
        }
        match first_index(rest, '&') {
            None => {
                apply_query_pair(&mut limit, &mut cursor, rest)?;
                break ;
            },
            Some(i) => {
                let len = rest.unicode_len();
                let seg = rest.substring_char(0, i);
                let tail = rest.substring_char(i + 1, len);
                proof {
                    assert(seg@ =~= rest@.take(i as int));
                    assert(tail@ =~= rest@.skip(i + 1));
                }
                apply_query_pair(&mut limit, &mut cursor, seg)?;
                rest = tail;
            },
        }
    }
    let limit = match limit {
        Some(l) => l,
        None => default_page_limit()?,
    };
    Ok(FileListRequest::new(cursor, limit))
}

/// Parses the file-list query: none is the default request; otherwise see
/// [`list_request_outcome`].
pub fn parse_list_request(query: Option<&str>) -> (res: Result<FileListRequest, ApiFilesError>)
    ensures
        match list_request_outcome(
            match query {
                Some(q) => Some(q@),
                None => None,
            },
        ) {
            Ok(r) => res matches Ok(x) && x@ == r,
            Err(e) => res matches Err(x) && x.code == e,
        },
{
    match query {
        Some(query) => parse_present_list_request(query),
        None => {
            let limit = default_page_limit()?;
            Ok(FileListRequest::new(None, limit))
        },
    }
}

} // verus!
