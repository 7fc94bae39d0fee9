//! The headers that describe a file upload or deletion.
//!
//! An upload names its exact length (`content-length`), media type
//! (`content-type`), display name (`x-file-name`) and idempotency key
//! (`idempotency-key`), each exactly once, and optionally the expected
//! SHA-256 digest (`x-file-digest`) as 64 lowercase hexadecimal digits. A
//! missing, repeated or non-text header is `InvalidArgument`; a value the
//! file model refuses keeps the file failure of that refusal.

use vstd::prelude::*;

use crate::domain::checks::same_outcome;
use crate::domain::error::ApiDomainErrorCode;
use crate::domain::file::{
    FileByteLength, FileDigest, FileDisplayName, FileMediaType, FileUploadSpecification,
    FileUploadSpecificationView, MAX_FILE_BYTES, ascii_lowercase, display_name_check, media_type_check,
};
use crate::domain::request::{IdempotencyKey, idempotency_key_check};
use crate::files::{ApiFilesError, ApiFilesErrorCode, files_code_of_domain, files_error};
use crate::http::file_routes::{decode_digest, hex_reference};
use crate::http::headers::{HttpHeader, count_named, one_header, parse_u64_text, the_named, u64_text_value};
use vstd::string::StringSliceAdditionalSpecFns;
use vstd::utf8::encode_utf8;

verus! {

/// The text of the header `name` when it appears exactly once as text.
pub open spec fn required_text_of(h: Seq<HttpHeader>, name: Seq<char>) -> Option<Seq<char>> {
    if count_named(h, name) == 1 {
        match the_named(h, name).text {
            Some(t) => Some(t@),
            None => None,
        }
    } else {
        None
    }
}

fn invalid() -> (res: ApiFilesError)
    ensures
        res.code == ApiFilesErrorCode::InvalidArgument,
{
    files_error(ApiFilesErrorCode::InvalidArgument)
}

/// Returns the text of the header `name`, which must appear exactly once as
/// text.
pub fn required_text<'a>(headers: &'a [HttpHeader], name: &str) -> (res: Result<&'a str, ApiFilesError>)
    ensures
        match required_text_of(headers@, name@) {
            Some(t) => res matches Ok(s) && s@ == t,
            None => res matches Err(e) && e.code == ApiFilesErrorCode::InvalidArgument,
        },
{
    let header = match one_header(headers, name, true) {
        Ok(Some(h)) => h,
        _ => {
            return Err(invalid());
        },
    };
    match &header.text {
        Some(t) => Ok(t.as_str()),
        None => Err(invalid()),
    }
}

/// The file failure of a refused file value.
pub open spec fn refused_as_file(check: Result<(), ApiDomainErrorCode>) -> Result<(), ApiFilesErrorCode> {
    match check {
        Ok(()) => Ok(()),
        Err(c) => Err(files_code_of_domain(c)),
    }
}

/// How the declared upload length resolves: a number of bytes that fits
/// `usize` and the file length bounds (`1..=512 MiB`).
pub open spec fn length_outcome(h: Seq<HttpHeader>) -> Result<nat, ApiFilesErrorCode> {
    match required_text_of(h, "content-length"@) {
        None => Err(ApiFilesErrorCode::InvalidArgument),
        Some(t) => match u64_text_value(t) {
            None => Err(ApiFilesErrorCode::InvalidArgument),
            Some(v) => if v > usize::MAX || v > MAX_FILE_BYTES {
                Err(ApiFilesErrorCode::LimitExceeded)
            } else if v == 0 {
                Err(ApiFilesErrorCode::InvalidArgument)
            } else {
                Ok(v)
            },
        },
    }
}

/// Parses the declared upload length.
pub fn parse_length(headers: &[HttpHeader]) -> (res: Result<FileByteLength, ApiFilesError>)
    ensures
        match length_outcome(headers@) {
            Ok(n) => res matches Ok(l) && l@ == n,
            Err(c) => res matches Err(e) && e.code == c,
        },
{
    let text = required_text(headers, "content-length")?;
    let Some(length) = parse_u64_text(text) else {
        return Err(invalid());
    };
    if length > usize::MAX as u64 {
        return Err(files_error(ApiFilesErrorCode::LimitExceeded));
    }
    match FileByteLength::new(length as usize) {
        Ok(l) => Ok(l),
        Err(e) => Err(ApiFilesError::from(e)),
    }
}

/// Parses the declared media type, normalized to ASCII lowercase.
pub fn parse_media_type(headers: &[HttpHeader]) -> (res: Result<FileMediaType, ApiFilesError>)
    ensures
        match required_text_of(headers@, "content-type"@) {
            None => res matches Err(e) && e.code == ApiFilesErrorCode::InvalidArgument,
            Some(t) => match refused_as_file(media_type_check(t)) {
                Ok(()) => res matches Ok(m) && m@ == ascii_lowercase(t),
                Err(c) => res matches Err(e) && e.code == c,
            },
        },
{
    let text = required_text(headers, "content-type")?;
    match FileMediaType::new(text) {
        Ok(m) => Ok(m),
        Err(e) => Err(ApiFilesError::from(e)),
    }
}

/// Parses the display name.
pub fn parse_display_name(headers: &[HttpHeader]) -> (res: Result<FileDisplayName, ApiFilesError>)
    ensures
        match required_text_of(headers@, "x-file-name"@) {
            None => res matches Err(e) && e.code == ApiFilesErrorCode::InvalidArgument,
            Some(t) => match refused_as_file(display_name_check(t)) {
                Ok(()) => res matches Ok(n) && n@ == t,
                Err(c) => res matches Err(e) && e.code == c,
            },
        },
{
    let text = required_text(headers, "x-file-name")?;
    match FileDisplayName::new(text) {
        Ok(n) => Ok(n),
        Err(e) => Err(ApiFilesError::from(e)),
    }
}

/// Parses the idempotency key.
pub fn parse_idempotency_key(headers: &[HttpHeader]) -> (res: Result<IdempotencyKey, ApiFilesError>)
    ensures
        match required_text_of(headers@, "idempotency-key"@) {
            None => res matches Err(e) && e.code == ApiFilesErrorCode::InvalidArgument,
            Some(t) => match refused_as_file(idempotency_key_check(t)) {
                Ok(()) => res matches Ok(k) && k@ == t,
                Err(c) => res matches Err(e) && e.code == c,
            },
        },
{
    let text = required_text(headers, "idempotency-key")?;
    match IdempotencyKey::new(text) {
        Ok(k) => Ok(k),
        Err(e) => Err(ApiFilesError::from(e)),
    }
}

/// How the optional expected digest resolves: absent is none; otherwise it
/// must appear once as 64 lowercase hexadecimal digits.
pub open spec fn digest_outcome(h: Seq<HttpHeader>) -> Result<Option<Seq<u8>>, ApiFilesErrorCode> {
    let name = "x-file-digest"@;
    if count_named(h, name) == 0 {
        Ok(None)
    } else {
        match required_text_of(h, name) {
            None => Err(ApiFilesErrorCode::InvalidArgument),
            Some(t) => match hex_reference(encode_utf8(t)) {
                None => Err(ApiFilesErrorCode::InvalidArgument),
                Some(d) => Ok(Some(d)),
            },
        }
    }
}

/// Parses the optional expected digest.
pub fn parse_expected_digest(headers: &[HttpHeader]) -> (res: Result<Option<FileDigest>, ApiFilesError>)
    ensures
        match digest_outcome(headers@) {
            Ok(None) => res matches Ok(None),
            Ok(Some(d)) => res matches Ok(Some(x)) && x.0@ == d,
            Err(c) => res matches Err(e) && e.code == c,
        },
{
    let header = match one_header(headers, "x-file-digest", false) {
        Ok(h) => h,
        Err(_) => {
            return Err(invalid());
        },
    };
    let Some(header) = header else {
        return Ok(None);
    };
    let Some(text) = &header.text else {
        return Err(invalid());
    };
    match decode_digest(text.as_str()) {
        Some(d) => Ok(Some(d)),
        None => Err(invalid()),
    }
}

/// The parts an upload's headers declare: length, lowercase media type,
/// display name, idempotency key and optional digest.
pub struct UploadHeaderValues {
    /// The declared length.
    pub length: nat,
    /// The normalized media type.
    pub media_type: Seq<char>,
    /// The display name.
    pub display_name: Seq<char>,
    /// The idempotency key.
    pub idempotency_key: Seq<char>,
    /// The expected digest, if any.
    pub digest: Option<Seq<u8>>,
}

/// How upload headers resolve: each part in the order length, media type,
/// display name, idempotency key and digest, stopping at the first failure.
pub open spec fn upload_outcome(h: Seq<HttpHeader>) -> Result<UploadHeaderValues, ApiFilesErrorCode> {
    match length_outcome(h) {
        Err(c) => Err(c),
        Ok(n) => match required_text_of(h, "content-type"@) {
            None => Err(ApiFilesErrorCode::InvalidArgument),
            Some(mt) => match refused_as_file(media_type_check(mt)) {
                Err(c) => Err(c),
                Ok(()) => match required_text_of(h, "x-file-name"@) {
                    None => Err(ApiFilesErrorCode::InvalidArgument),
                    Some(dn) => match refused_as_file(display_name_check(dn)) {
                        Err(c) => Err(c),
                        Ok(()) => match required_text_of(h, "idempotency-key"@) {
                            None => Err(ApiFilesErrorCode::InvalidArgument),
                            Some(k) => match refused_as_file(idempotency_key_check(k)) {
                                Err(c) => Err(c),
                                Ok(()) => match digest_outcome(h) {
                                    Err(c) => Err(c),
                                    Ok(d) => Ok(
                                        UploadHeaderValues {
                                            length: n,
                                            media_type: ascii_lowercase(mt),
                                            display_name: dn,
                                            idempotency_key: k,
                                            digest: d,
                                        },
                                    ),
                                },
                            },
                        },
                    },
                },
            },
        },
    }
}

/// The bytes of an optional digest.
pub open spec fn digest_bytes(d: Option<FileDigest>) -> Option<Seq<u8>> {
    match d {
        Some(x) => Some(x.0@),
        None => None,
    }
}

/// Parses the upload headers, in the order length, media type, display
/// name, idempotency key and expected digest; the first failure is returned.
pub fn parse_upload_headers(headers: &[HttpHeader]) -> (res: Result<(FileUploadSpecification, IdempotencyKey), ApiFilesError>)
    ensures
        match upload_outcome(headers@) {
            Ok(v) => res matches Ok((spec, key)) && spec@.byte_length == v.length && spec@.media_type == v.media_type
                && spec@.display_name == v.display_name && key@ == v.idempotency_key && digest_bytes(
                spec@.expected_digest,
            ) == v.digest,
            Err(c) => res matches Err(e) && e.code == c,
        },
{
    let length = parse_length(headers)?;
    let media_type = parse_media_type(headers)?;
    let display_name = parse_display_name(headers)?;
    let idempotency_key = parse_idempotency_key(headers)?;
    let expected_digest = parse_expected_digest(headers)?;
    Ok((FileUploadSpecification::new(display_name, media_type, length, expected_digest), idempotency_key))
}

} // verus!
