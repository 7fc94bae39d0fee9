//! Canonical bounded RFC 4648 Base64 encoding, produced chunk by chunk.

use vstd::prelude::*;

use base64::Engine;

use crate::http::protocol::{
    NoRequestContext, ProtocolFailure, ResponseActivity, check_response_context, internal_failure, internal_failure_spec,
};

verus! {

/// Maximum encoded size of one public response body.
pub const MAX_PUBLIC_BODY_BYTES: usize = 8_388_608;

/// Input bytes encoded per step; a multiple of three, so only the final step
/// can carry padding.
pub const BASE64_INPUT_CHUNK_BYTES: usize = 12_288;

/// Length of the padded Base64 encoding of `n` bytes: four characters for
/// every complete or partial group of three bytes.
pub open spec fn padded_base64_len(n: nat) -> nat {
    4 * (n / 3) + if n % 3 > 0 { 4nat } else { 0nat }
}

/// The RFC 4648 standard alphabet: `A`-`Z`, `a`-`z`, `0`-`9`, `+`, `/`.
pub open spec fn base64_symbol(v: int) -> u8 {
    if v < 26 {
        (65 + v) as u8
    } else if v < 52 {
        (71 + v) as u8
    } else if v < 62 {
        (v - 4) as u8
    } else if v == 62 {
        43u8
    } else {
        47u8
    }
}

/// The four symbols of three input bytes.
pub open spec fn base64_group(b0: int, b1: int, b2: int) -> Seq<u8> {
    seq![
        base64_symbol(b0 / 4),
        base64_symbol((b0 % 4) * 16 + b1 / 16),
        base64_symbol((b1 % 16) * 4 + b2 / 64),
        base64_symbol(b2 % 64),
    ]
}

/// The padded standard-alphabet Base64 encoding of `input` (RFC 4648): four
/// symbols per three bytes, and a final group of one or two bytes padded
/// with `=`.
pub open spec fn standard_base64(input: Seq<u8>) -> Seq<u8>
    decreases input.len(),
{
    if input.len() == 0 {
        Seq::empty()
    } else if input.len() == 1 {
        let b0 = input[0] as int;
        seq![base64_symbol(b0 / 4), base64_symbol((b0 % 4) * 16), 61u8, 61u8]
    } else if input.len() == 2 {
        let b0 = input[0] as int;
        let b1 = input[1] as int;
        seq![base64_symbol(b0 / 4), base64_symbol((b0 % 4) * 16 + b1 / 16), base64_symbol((b1 % 16) * 4), 61u8]
    } else {
        base64_group(input[0] as int, input[1] as int, input[2] as int) + standard_base64(input.skip(3))
    }
}

/// The encoding has the padded length, and every symbol of it is ASCII.
pub proof fn lemma_standard_base64_shape(input: Seq<u8>)
    ensures
        standard_base64(input).len() == padded_base64_len(input.len()),
        forall|i: int| 0 <= i < standard_base64(input).len() ==> #[trigger] standard_base64(input)[i] < 128,
    decreases input.len(),
{
    if input.len() >= 3 {
        lemma_standard_base64_shape(input.skip(3));
                let r = standard_base64(input.skip(3));
        assert forall|i: int| 0 <= i < standard_base64(input).len() implies #[trigger] standard_base64(input)[i] < 128 by {
            if i >= 4 {
                assert(standard_base64(input)[i] == r[i - 4]);
            }
        }
    }
}

/// Encoding whole groups of three bytes and then the rest is encoding it
/// all: the encoding of `a + b` is that of `a` followed by that of `b` when
/// `a` is a whole number of groups.
pub proof fn lemma_standard_base64_concat(a: Seq<u8>, b: Seq<u8>)
    requires
        a.len() % 3 == 0,
    ensures
        standard_base64(a + b) == standard_base64(a) + standard_base64(b),
    decreases a.len(),
{
    if a.len() == 0 {
        assert(a + b =~= b);
        assert(standard_base64(a) + standard_base64(b) =~= standard_base64(b));
    } else {
        lemma_standard_base64_concat(a.skip(3), b);
        assert((a + b).skip(3) =~= a.skip(3) + b);
        assert((a + b)[0] == a[0] && (a + b)[1] == a[1] && (a + b)[2] == a[2]);
        assert(standard_base64(a + b) =~= standard_base64(a) + standard_base64(b));
    }
}

/// The padded encoded length of `bytes_len` input bytes, or `None` when it
/// does not fit in `usize` (calls `base64::encoded_len` with padding).
#[verifier::external_body]
fn base64_encoded_len(bytes_len: usize) -> (res: Option<usize>)
    ensures
        padded_base64_len(bytes_len as nat) <= usize::MAX ==> res == Some(padded_base64_len(bytes_len as nat) as usize),
        padded_base64_len(bytes_len as nat) > usize::MAX ==> res is None,
{
    base64::encoded_len(bytes_len, true)
}

#[verifier::external_type_specification]
#[verifier::external_body]
pub struct ExEncodeSliceError(base64::EncodeSliceError);

/// Writes the standard padded encoding of `input` into `output[offset..end]`
/// through `base64::engine::general_purpose::STANDARD.encode_slice`.
///
/// When the target range holds at least the encoded length, the RFC 4648
/// encoding with the standard alphabet and `=` padding is written at
/// `offset`, every other byte is left as it was and the encoded length is
/// returned; otherwise the crate reports a too-small output and writes
/// nothing.
#[verifier::external_body]
fn encode_slice_standard(input: &[u8], output: &mut Vec<u8>, offset: usize, end: usize) -> (res: Result<usize, base64::EncodeSliceError>)
    requires
        offset <= end <= old(output)@.len(),
        padded_base64_len(input@.len()) <= usize::MAX,
    ensures
        res is Err <==> (end - offset) < padded_base64_len(input@.len()),
        res is Err ==> final(output)@ == old(output)@,
        res matches Ok(w) ==> w == padded_base64_len(input@.len()) && final(output)@ == old(output)@.subrange(0, offset as int) + standard_base64(input@) + old(output)@.subrange(offset + w, old(output)@.len() as int),
{
    base64::engine::general_purpose::STANDARD.encode_slice(input, &mut output[offset..end])
}

/// Reserves room for exactly `additional` more bytes through
/// `Vec::try_reserve_exact`; whether the allocator grants it depends on the
/// machine, so only the unchanged contents are stated.
#[verifier::external_body]
pub(crate) fn try_reserve_exact(v: &mut Vec<u8>, additional: usize) -> (res: bool)
    ensures
        res ==> final(v)@ == old(v)@,
        !res ==> final(v)@ == old(v)@,
{
    v.try_reserve_exact(additional).is_ok()
}

/// Converts bytes to a `String` through `String::from_utf8`: ASCII bytes are
/// valid UTF-8 and become the characters of the same code points; the result
/// for other input is left unstated.
#[verifier::external_body]
pub(crate) fn string_from_utf8(bytes: Vec<u8>) -> (res: Option<String>)
    ensures
        res is None ==> exists|i: int| 0 <= i < bytes@.len() && #[trigger] bytes@[i] >= 128,
        res matches Some(s) ==> ((forall|i: int| 0 <= i < bytes@.len() ==> #[trigger] bytes@[i] < 128) ==> s@ == ascii_chars(bytes@)),
{
    String::from_utf8(bytes).ok()
}

/// The characters of ASCII bytes.
pub open spec fn ascii_chars(bytes: Seq<u8>) -> Seq<char> {
    bytes.map_values(|b: u8| b as char)
}

/// Encodes `input` as padded standard Base64 in chunks of 12 KiB, refusing
/// outputs above the public body limit.
///
/// Every failure is the redacted internal failure: an encoded length above
/// 8 MiB always fails, and so does an allocator that cannot reserve the
/// output. On success the text is the encoding of the whole input.
pub fn encode_bounded(input: &[u8]) -> (res: Result<String, ProtocolFailure>)
    ensures
        padded_base64_len(input@.len()) > MAX_PUBLIC_BODY_BYTES ==> res == Err::<String, ProtocolFailure>(
            internal_failure_spec(),
        ),
        res matches Ok(s) ==> s@ == ascii_chars(standard_base64(input@)) && s@.len() == padded_base64_len(input@.len()),
        res matches Err(e) ==> e == internal_failure_spec(),
{
    encode_bounded_with(input, None::<&NoRequestContext>)
}

/// Encodes `input` as [`encode_bounded`] does while request `context` stays
/// active: the request is checked before encoding, before and after each
/// chunk, and at the end, and a request found inactive fails with its domain
/// failure; otherwise every failure is the internal failure, and an encoding
/// above 8 MiB always fails.
pub fn encode_bounded_cancellable<C: ResponseActivity>(input: &[u8], context: &C) -> (res: Result<
    String,
    ProtocolFailure,
>)
    ensures
        padded_base64_len(input@.len()) > MAX_PUBLIC_BODY_BYTES ==> res is Err,
        res matches Ok(s) ==> s@ == ascii_chars(standard_base64(input@)) && s@.len() == padded_base64_len(input@.len()),
        res matches Err(e) ==> e == internal_failure_spec() || e is Domain,
{
    encode_bounded_with(input, Some(context))
}

/// The bounded encoding of `input`, checking `context` when there is one.
fn encode_bounded_with<C: ResponseActivity>(input: &[u8], context: Option<&C>) -> (res: Result<
    String,
    ProtocolFailure,
>)
    ensures
        padded_base64_len(input@.len()) > MAX_PUBLIC_BODY_BYTES ==> res is Err,
        context is None && padded_base64_len(input@.len()) > MAX_PUBLIC_BODY_BYTES ==> res == Err::<
            String,
            ProtocolFailure,
        >(internal_failure_spec()),
        res matches Ok(s) ==> s@ == ascii_chars(standard_base64(input@)) && s@.len() == padded_base64_len(input@.len()),
        res matches Err(e) ==> e == internal_failure_spec() || (context is Some && e is Domain),
{
    check_response_context(context)?;
    let output_length = encoded_length(input.len())?;
    if output_length > MAX_PUBLIC_BODY_BYTES {
        return Err(internal_failure());
    }
    let mut output = allocate_encoding(output_length)?;
    encode_chunks(input, &mut output, context)?;
    check_response_context(context)?;
    match string_from_utf8(output) {
        Some(s) => Ok(s),
        None => Err(internal_failure()),
    }
}

/// The padded encoded length of `input_length` bytes, or the internal
/// failure when it does not fit in `usize`.
pub fn encoded_length(input_length: usize) -> (res: Result<usize, ProtocolFailure>)
    ensures
        padded_base64_len(input_length as nat) <= usize::MAX ==> res == Ok::<usize, ProtocolFailure>(
            padded_base64_len(input_length as nat) as usize,
        ),
        padded_base64_len(input_length as nat) > usize::MAX ==> res == Err::<usize, ProtocolFailure>(
            internal_failure_spec(),
        ),
{
    match base64_encoded_len(input_length) {
        Some(n) => Ok(n),
        None => Err(internal_failure()),
    }
}

fn allocate_encoding(length: usize) -> (res: Result<Vec<u8>, ProtocolFailure>)
    ensures
        res matches Ok(v) ==> v@.len() == length,
        res matches Err(e) ==> e == internal_failure_spec(),
{
    let mut output: Vec<u8> = Vec::new();
    if !try_reserve_exact(&mut output, length) {
        return Err(internal_failure());
    }
    output.resize(length, 0u8);
    Ok(output)
}

fn encode_chunks<C: ResponseActivity>(input: &[u8], output: &mut Vec<u8>, context: Option<&C>) -> (res: Result<
    (),
    ProtocolFailure,
>)
    requires
        old(output)@.len() == padded_base64_len(input@.len()),
        padded_base64_len(input@.len()) <= MAX_PUBLIC_BODY_BYTES,
    ensures
        context is None ==> res is Ok,
        res matches Err(e) ==> context is Some && e is Domain,
        res is Ok ==> final(output)@ == standard_base64(input@),
        final(output)@.len() == old(output)@.len(),
        res is Ok ==> forall|i: int| 0 <= i < final(output)@.len() ==> #[trigger] final(output)@[i] < 128,
{
    let ghost n = input@.len();
    let ghost total = padded_base64_len(n);
    let mut offset: usize = 0;
    let mut start: usize = 0;
    proof {
        assert(input@.subrange(0, 0) =~= Seq::<u8>::empty());
        assert(output@.subrange(0, 0) =~= Seq::<u8>::empty());
    }
    while start < input.len()
        invariant
            n == input@.len(),
            output@.len() == total,
            total == old(output)@.len(),
            total == padded_base64_len(n),
            total <= MAX_PUBLIC_BODY_BYTES,
            start <= n,
            start < n ==> start % 3 == 0,
            offset == padded_base64_len(start as nat),
            offset <= total,
            output@.subrange(0, offset as int) == standard_base64(input@.subrange(0, start as int)),
        decreases n - start,
    {
        let remaining = input.len() - start;
        let len = if remaining < BASE64_INPUT_CHUNK_BYTES {
            remaining
        } else {
            BASE64_INPUT_CHUNK_BYTES
        };
        let chunk = vstd::slice::slice_subrange(input, start, start + len);
        let ghost prefix = input@.subrange(0, start as int);
        proof {
            assert(input@.subrange(0, start + len) =~= prefix + chunk@);
            lemma_standard_base64_concat(prefix, chunk@);
            lemma_standard_base64_shape(prefix);
            lemma_standard_base64_shape(chunk@);
            lemma_standard_base64_shape(input@.subrange(0, start + len));
            if start + len < n {
                assert((start + len) % 3 == 0);
                lemma_standard_base64_concat(input@.subrange(0, start + len), input@.subrange(start + len, n as int));
                lemma_standard_base64_shape(input@.subrange(start + len, n as int));
                assert(input@ =~= input@.subrange(0, start + len) + input@.subrange(start + len, n as int));
                lemma_standard_base64_shape(input@);
            } else {
                assert(input@.subrange(0, start + len) =~= input@);
            }
        }
        check_response_context(context)?;
        let ghost before = output@;
        let end = match encode_chunk(chunk, output, offset) {
            Ok(end) => end,
            Err(e) => {
                return Err(e);
            },
        };
        check_response_context(context)?;
        proof {
            assert(output@.subrange(0, end as int) =~= before.subrange(0, offset as int) + standard_base64(chunk@));
        }
        start = start + len;
        offset = end;
    }
    proof {
        assert(input@.subrange(0, start as int) =~= input@);
        assert(output@.subrange(0, offset as int) =~= output@);
        lemma_standard_base64_shape(input@);
    }
    if offset != output.len() {
        return Err(internal_failure());
    }
    Ok(())
}

/// Encodes one chunk at `offset`, returning the offset just past it.
fn encode_chunk(input: &[u8], output: &mut Vec<u8>, offset: usize) -> (res: Result<usize, ProtocolFailure>)
    requires
        input@.len() <= BASE64_INPUT_CHUNK_BYTES,
        offset <= old(output)@.len(),
    ensures
        offset + padded_base64_len(input@.len()) <= old(output)@.len() ==> res == Ok::<usize, ProtocolFailure>((offset + padded_base64_len(input@.len())) as usize),
        res matches Ok(end) ==> final(output)@ == old(output)@.subrange(0, offset as int) + standard_base64(input@) + old(output)@.subrange(end as int, old(output)@.len() as int),
        res matches Ok(end) ==> standard_base64(input@).len() == end - offset,
        res is Err ==> final(output)@ == old(output)@,
{
    proof {
        lemma_standard_base64_shape(input@);
    }
    proof {
        assert(4 * (input@.len() / 3) <= 16_384) by (nonlinear_arith)
            requires
                input@.len() <= BASE64_INPUT_CHUNK_BYTES,
        ;
    }
    let encoded_length = encoded_length(input.len())?;
    let output_length = output.len();
    let end = match offset.checked_add(encoded_length) {
        Some(end) => end,
        None => {
            return Err(internal_failure());
        },
    };
    if end > output_length {
        return Err(internal_failure());
    }
    let written = match encode_slice_standard(input, output, offset, end) {
        Ok(written) => written,
        Err(_) => {
            return Err(internal_failure());
        },
    };
    if written != encoded_length {
        return Err(internal_failure());
    }
    Ok(end)
}

} // verus!
