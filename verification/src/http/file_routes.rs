//! Path, reference and chunk checks of the file routes.

use vstd::prelude::*;
use vstd::string::{StrSliceExecFns, StringExecFns, StringSliceAdditionalSpecFns};

use crate::domain::file::{FileDigest, FileReference};
use crate::files::{ApiFilesError, ApiFilesErrorCode, MAX_FILE_CHUNK_BYTES, files_error};
use crate::text::str_equals;

verus! {

/// Number of lowercase hexadecimal characters naming one file reference.
pub const REFERENCE_HEX_BYTES: usize = 64;

/// The file identifier of a `/v1/files/{id}/content` path: the non-empty
/// segment between the prefix and the suffix, holding no `/`.
pub open spec fn content_reference_of(path: Seq<char>) -> Option<Seq<char>> {
    let prefix = "/v1/files/"@;
    let suffix = "/content"@;
    if path.len() >= prefix.len() + suffix.len() && path.take(prefix.len() as int) == prefix && path.skip(
        path.len() - suffix.len(),
    ) == suffix {
        let id = path.subrange(prefix.len() as int, path.len() - suffix.len());
        if id.len() > 0 && !id.contains('/') {
            Some(id)
        } else {
            None
        }
    } else {
        None
    }
}

/// Returns the file identifier of a file-content path, if it is one.
pub fn content_reference(path: &str) -> (res: Option<&str>)
    ensures
        match content_reference_of(path@) {
            Some(id) => res matches Some(s) && s@ == id,
            None => res is None,
        },
{
    proof {
        reveal_strlit("/v1/files/");
        reveal_strlit("/content");
    }
    let n = path.unicode_len();
    if n < 18 {
        return None;
    }
    let head = path.substring_char(0, 10);
    let tail = path.substring_char(n - 8, n);
    if !str_equals(head, "/v1/files/") || !str_equals(tail, "/content") {
        return None;
    }
    let id = path.substring_char(10, n - 8);
    if id.unicode_len() == 0 || contains_slash(id) {
        return None;
    }
    Some(id)
}

fn contains_slash(value: &str) -> (res: bool)
    ensures
        res == value@.contains('/'),
{
    let mut found = false;
    for c in it: value.chars()
        invariant
            it.seq() == value@,
            found == (exists|j: int| 0 <= j < it.index() && value@[j] == '/'),
    {
        if c == '/' {
            found = true;
        }
    }
    found
}

/// The value of a lowercase hexadecimal digit byte.
pub open spec fn lower_hex_value(b: u8) -> Option<u8> {
    if 0x30 <= b <= 0x39 {
        Some((b - 0x30) as u8)
    } else if 0x61 <= b <= 0x66 {
        Some((b - 0x61 + 10) as u8)
    } else {
        None
    }
}

/// Whether every byte of `s` is a lowercase hexadecimal digit.
pub open spec fn all_lower_hex(s: Seq<u8>) -> bool {
    forall|i: int| 0 <= i < s.len() ==> #[trigger] lower_hex_value(s[i]) is Some
}

/// The bytes named by pairs of lowercase hexadecimal digits.
pub open spec fn hex_pairs_value(s: Seq<u8>) -> Seq<u8> {
    Seq::new(
        s.len() / 2,
        |i: int| (lower_hex_value(s[2 * i])->0 * 16 + lower_hex_value(s[2 * i + 1])->0) as u8,
    )
}

/// The reference named by exactly 64 lowercase hexadecimal digits, if any.
pub open spec fn hex_reference(bytes: Seq<u8>) -> Option<Seq<u8>> {
    if bytes.len() == REFERENCE_HEX_BYTES && all_lower_hex(bytes) {
        Some(hex_pairs_value(bytes))
    } else {
        None
    }
}

/// Decodes one lowercase hexadecimal digit.
pub fn decode_lower_hex(value: u8) -> (res: Option<u8>)
    ensures
        res == lower_hex_value(value),
{
    if 0x30 <= value && value <= 0x39 {
        Some(value - 0x30)
    } else if 0x61 <= value && value <= 0x66 {
        Some(value - 0x61 + 10)
    } else {
        None
    }
}

/// Decodes a file reference written as 64 lowercase hexadecimal digits.
pub fn decode_reference(value: &str) -> (res: Option<FileReference>)
    ensures
        match hex_reference(value.spec_bytes()) {
            Some(r) => res matches Some(f) && f.0@ == r,
            None => res is None,
        },
{
    let bytes = value.as_bytes();
    if bytes.len() != REFERENCE_HEX_BYTES {
        return None;
    }
    let mut output = [0u8; 32];
    let mut index: usize = 0;
    while index < 32
        invariant
            bytes@ == value.spec_bytes(),
            bytes@.len() == REFERENCE_HEX_BYTES,
            index <= 32,
            output@.len() == 32,
            forall|j: int| 0 <= j < 2 * index ==> #[trigger] lower_hex_value(bytes@[j]) is Some,
            forall|j: int| 0 <= j < index ==> #[trigger] output@[j] == hex_pairs_value(bytes@)[j],
        decreases 32 - index,
    {
        let high = match decode_lower_hex(bytes[2 * index]) {
            Some(h) => h,
            None => {
                proof {
                    assert(!all_lower_hex(bytes@));
                }
                return None;
            },
        };
        let low = match decode_lower_hex(bytes[2 * index + 1]) {
            Some(l) => l,
            None => {
                proof {
                    assert(!all_lower_hex(bytes@));
                }
                return None;
            },
        };
        output[index] = high * 16 + low;
        index = index + 1;
    }
    proof {
        assert(all_lower_hex(bytes@));
        assert(output@ =~= hex_pairs_value(bytes@));
    }
    Some(FileReference::new(output))
}

/// Decodes a SHA-256 digest written as 64 lowercase hexadecimal digits.
pub fn decode_digest(value: &str) -> (res: Option<FileDigest>)
    ensures
        match hex_reference(value.spec_bytes()) {
            Some(d) => res matches Some(f) && f.0@ == d,
            None => res is None,
        },
{
    match decode_reference(value) {
        Some(reference) => Some(FileDigest::new(*reference.as_bytes())),
        None => None,
    }
}

/// The lowercase hexadecimal digit of a value below sixteen.
pub open spec fn hex_digit(n: u8) -> char {
    if n < 10 {
        ((n + 0x30) as u8) as char
    } else {
        ((n - 10 + 0x61) as u8) as char
    }
}

/// The lowercase hexadecimal text of `bytes`, two digits per byte.
pub open spec fn hex_text(bytes: Seq<u8>) -> Seq<char>
    decreases bytes.len(),
{
    if bytes.len() == 0 {
        Seq::empty()
    } else {
        hex_text(bytes.drop_last()) + seq![hex_digit(bytes.last() / 16), hex_digit(bytes.last() % 16)]
    }
}

fn hex_digit_text(n: u8) -> (res: &'static str)
    requires
        n < 16,
    ensures
        res@ == seq![hex_digit(n)],
{
    proof {
        reveal_strlit("0");
        reveal_strlit("1");
        reveal_strlit("2");
        reveal_strlit("3");
        reveal_strlit("4");
        reveal_strlit("5");
        reveal_strlit("6");
        reveal_strlit("7");
        reveal_strlit("8");
        reveal_strlit("9");
        reveal_strlit("a");
        reveal_strlit("b");
        reveal_strlit("c");
        reveal_strlit("d");
        reveal_strlit("e");
        reveal_strlit("f");
    }
    match n {
        0 => "0",
        1 => "1",
        2 => "2",
        3 => "3",
        4 => "4",
        5 => "5",
        6 => "6",
        7 => "7",
        8 => "8",
        9 => "9",
        10 => "a",
        11 => "b",
        12 => "c",
        13 => "d",
        14 => "e",
        _ => "f",
    }
}

/// Encodes bytes as lowercase hexadecimal text.
pub fn encode_hex(value: &[u8]) -> (res: String)
    ensures
        res@ == hex_text(value@),
{
    let mut output = String::new();
    let mut i: usize = 0;
    while i < value.len()
        invariant
            i <= value@.len(),
            output@ == hex_text(value@.take(i as int)),
        decreases value@.len() - i,
    {
        let b = value[i];
        output.append(hex_digit_text(b / 16));
        output.append(hex_digit_text(b % 16));
        proof {
            assert(value@.take(i + 1).drop_last() =~= value@.take(i as int));
        }
        i = i + 1;
    }
    proof {
        assert(value@.take(value@.len() as int) =~= value@);
    }
    output
}

/// Adds one downloaded chunk of `chunk_length` bytes to the `delivered`
/// total: an empty or oversized chunk, or a total beyond the `expected` file
/// length, is `IntegrityFailure`.
pub fn checked_chunk_length(chunk_length: usize, delivered: usize, expected: usize) -> (res: Result<usize, ApiFilesError>)
    ensures
        res is Ok <==> (1 <= chunk_length <= MAX_FILE_CHUNK_BYTES && delivered + chunk_length <= expected),
        res matches Ok(total) ==> total == delivered + chunk_length,
        res is Err ==> res == Err::<usize, ApiFilesError>(ApiFilesError { code: ApiFilesErrorCode::IntegrityFailure }),
{
    if chunk_length == 0 || chunk_length > MAX_FILE_CHUNK_BYTES {
        return Err(files_error(ApiFilesErrorCode::IntegrityFailure));
    }
    let total = match delivered.checked_add(chunk_length) {
        Some(total) => total,
        None => {
            return Err(files_error(ApiFilesErrorCode::IntegrityFailure));
        },
    };
    if total > expected {
        return Err(files_error(ApiFilesErrorCode::IntegrityFailure));
    }
    Ok(total)
}

} // verus!
