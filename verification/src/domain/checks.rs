//! Shared syntax rules for the bounded text values of the service contracts.

use vstd::prelude::*;

use crate::domain::error::{ApiDomainError, ApiDomainErrorCode, invalid_argument, limit_exceeded};
use crate::text::{contains_control, contains_nul, has_control, has_nul, utf8_byte_len, utf8_len};

verus! {

/// Outcome of validating NUL-free text bounded by `max` UTF-8 bytes.
///
/// The byte bound is checked first; an empty value is rejected only when
/// `nonempty` is set.
pub open spec fn nul_free_text_check(s: Seq<char>, max: nat, nonempty: bool) -> Result<
    (),
    ApiDomainErrorCode,
> {
    if utf8_len(s) > max {
        Err(ApiDomainErrorCode::LimitExceeded)
    } else if (nonempty && s.len() == 0) || has_nul(s) {
        Err(ApiDomainErrorCode::InvalidArgument)
    } else {
        Ok(())
    }
}

/// Whether an exec result carries exactly the outcome `spec`.
pub open spec fn same_outcome<T>(res: Result<T, ApiDomainError>, spec: Result<(), ApiDomainErrorCode>) -> bool {
    match res {
        Ok(_) => spec is Ok,
        Err(e) => spec == Err::<(), ApiDomainErrorCode>(e.code),
    }
}

/// Validates NUL-free text bounded by `max` UTF-8 bytes.
pub fn check_nul_free_text(value: &str, max: usize, nonempty: bool) -> (res: Result<(), ApiDomainError>)
    ensures
        same_outcome(res, nul_free_text_check(value@, max as nat, nonempty)),
{
    if utf8_byte_len(value) > max {
        return Err(limit_exceeded());
    }
    if (nonempty && value.is_empty()) || contains_nul(value) {
        return Err(invalid_argument());
    }
    Ok(())
}

/// Outcome of validating control-free opaque text bounded by `max` bytes.
pub open spec fn opaque_text_check(s: Seq<char>, max: nat) -> Result<(), ApiDomainErrorCode> {
    if utf8_len(s) > max {
        Err(ApiDomainErrorCode::LimitExceeded)
    } else if s.len() == 0 || has_control(s) {
        Err(ApiDomainErrorCode::InvalidArgument)
    } else {
        Ok(())
    }
}

/// Validates non-empty, control-free text bounded by `max` UTF-8 bytes.
pub fn check_opaque_text(value: &str, max: usize) -> (res: Result<(), ApiDomainError>)
    ensures
        same_outcome(res, opaque_text_check(value@, max as nat)),
{
    if utf8_byte_len(value) > max {
        return Err(limit_exceeded());
    }
    if value.is_empty() || contains_control(value) {
        return Err(invalid_argument());
    }
    Ok(())
}

} // verus!
