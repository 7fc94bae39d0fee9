//! Bounded framing of presented credential fields.

use vstd::prelude::*;

use crate::admin::{AdminError, AdminErrorCode};
use crate::platform::CoreErrorCode;
use crate::http::error::{ApiHttpError, ApiHttpErrorCode, unauthenticated};

verus! {

/// Maximum encoded size of one administration authorization field.
pub const MAX_AUTHORIZATION_BYTES: usize = 8_192;

/// Maximum encoded size of one presented Bearer authorization field.
pub const MAX_PRESENTED_BEARER_BYTES: usize = 8_192;

/// Whether every byte of `s` is visible ASCII or a space.
pub open spec fn all_visible_or_space(s: Seq<u8>) -> bool {
    forall|i: int| 0 <= i < s.len() ==> 0x20 <= #[trigger] s[i] <= 0x7e
}

/// Whether `s` is a non-empty authorization field of at most 8 KiB made of
/// visible ASCII and spaces.
pub open spec fn authorization_field_valid(s: Seq<u8>) -> bool {
    s.len() > 0 && s.len() <= MAX_AUTHORIZATION_BYTES && all_visible_or_space(s)
}

/// Ephemeral administration authorization material; the rejected input is
/// never retained.
pub struct HttpAuthorization {
    bytes: Vec<u8>,
}

impl View for HttpAuthorization {
    type V = Seq<u8>;

    closed spec fn view(&self) -> Seq<u8> {
        self.bytes@
    }
}

impl HttpAuthorization {
    #[verifier::type_invariant]
    spec fn valid(self) -> bool {
        authorization_field_valid(self.bytes@)
    }

    /// Parses one non-empty field of at most 8 KiB of visible ASCII and
    /// spaces; anything else is `InvalidArgument`.
    pub fn parse(value: &[u8]) -> (res: Result<Self, AdminError>)
        ensures
            res is Ok <==> authorization_field_valid(value@),
            res matches Ok(a) ==> a@ == value@,
            res is Err ==> res == Err::<HttpAuthorization, AdminError>(AdminError { code: AdminErrorCode::InvalidArgument }),
    {
        let mut valid = value.len() > 0 && value.len() <= MAX_AUTHORIZATION_BYTES;
        let mut i: usize = 0;
        while i < value.len()
            invariant
                i <= value@.len(),
                valid == (value@.len() > 0 && value@.len() <= MAX_AUTHORIZATION_BYTES && forall|j: int|
                    0 <= j < i ==> 0x20 <= #[trigger] value@[j] <= 0x7e),
            decreases value@.len() - i,
        {
            let b = value[i];
            if !(0x20 <= b && b <= 0x7e) {
                valid = false;
            }
            i = i + 1;
        }
        if !valid {
            return Err(AdminError::new(AdminErrorCode::InvalidArgument));
        }
        Ok(HttpAuthorization { bytes: vstd::slice::slice_to_vec(value) })
    }

    /// Borrows the credential for immediate authentication.
    pub fn credential_bytes(&self) -> (res: &[u8])
        ensures
            res@ == self@,
            authorization_field_valid(res@),
    {
        proof {
            use_type_invariant(self);
        }
        self.bytes.as_slice()
    }
}

/// The Bearer scheme prefix, `Bearer ` followed by one space.
pub open spec fn bearer_prefix() -> Seq<u8> {
    seq![0x42u8, 0x65u8, 0x61u8, 0x72u8, 0x65u8, 0x72u8, 0x20u8]
}

/// The credential of a Bearer field, when it has a valid one: the field
/// starts with the scheme prefix, is at most 8 KiB, and the rest is a
/// non-empty run of visible ASCII.
pub open spec fn bearer_credential(field: Seq<u8>) -> Option<Seq<u8>> {
    let token = field.skip(7);
    if field.len() >= 7 && field.take(7) == bearer_prefix() && field.len() <= MAX_PRESENTED_BEARER_BYTES
        && token.len() > 0 && (forall|i: int| 0 <= i < token.len() ==> 0x21 <= #[trigger] token[i] <= 0x7e) {
        Some(token)
    } else {
        None
    }
}

/// Ephemeral Bearer credential material presented to an authentication port.
pub struct PresentedBearer {
    credential: Vec<u8>,
}

impl View for PresentedBearer {
    type V = Seq<u8>;

    closed spec fn view(&self) -> Seq<u8> {
        self.credential@
    }
}

impl PresentedBearer {
    /// Parses one bounded `Bearer <token>` field; a missing scheme, an empty
    /// or non-visible token, or a field above 8 KiB is `Unauthenticated`.
    pub fn parse(value: &[u8]) -> (res: Result<Self, ApiHttpError>)
        ensures
            match bearer_credential(value@) {
                Some(token) => res matches Ok(b) && b@ == token,
                None => res == Err::<PresentedBearer, ApiHttpError>(ApiHttpError { code: ApiHttpErrorCode::Unauthenticated }),
            },
    {
        if value.len() < 7 || value[0] != 0x42 || value[1] != 0x65 || value[2] != 0x61 || value[3] != 0x72
            || value[4] != 0x65 || value[5] != 0x72 || value[6] != 0x20 {
            proof {
                if value@.len() >= 7 && value@.take(7) == bearer_prefix() {
                    assert(value@[0] == value@.take(7)[0]);
                    assert(value@[1] == value@.take(7)[1]);
                    assert(value@[2] == value@.take(7)[2]);
                    assert(value@[3] == value@.take(7)[3]);
                    assert(value@[4] == value@.take(7)[4]);
                    assert(value@[5] == value@.take(7)[5]);
                    assert(value@[6] == value@.take(7)[6]);
                }
            }
            return Err(unauthenticated());
        }
        assert(value@.take(7) =~= bearer_prefix());
        let token = vstd::slice::slice_subrange(value, 7, value.len());
        assert(token@ =~= value@.skip(7));
        if !valid_bearer_token(value, token) {
            return Err(unauthenticated());
        }
        Ok(PresentedBearer { credential: vstd::slice::slice_to_vec(token) })
    }

    /// Borrows the credential for immediate authentication.
    pub fn credential_bytes(&self) -> (res: &[u8])
        ensures
            res@ == self@,
    {
        self.credential.as_slice()
    }
}

fn valid_bearer_token(field: &[u8], token: &[u8]) -> (res: bool)
    ensures
        res == (field@.len() <= MAX_PRESENTED_BEARER_BYTES && token@.len() > 0 && (forall|i: int|
            0 <= i < token@.len() ==> 0x21 <= #[trigger] token@[i] <= 0x7e)),
{
    if field.len() > MAX_PRESENTED_BEARER_BYTES || token.len() == 0 {
        return false;
    }
    let mut i: usize = 0;
    while i < token.len()
        invariant
            i <= token@.len(),
            forall|j: int| 0 <= j < i ==> 0x21 <= #[trigger] token@[j] <= 0x7e,
        decreases token@.len() - i,
    {
        let b = token[i];
        if !(0x21 <= b && b <= 0x7e) {
            return false;
        }
        i = i + 1;
    }
    true
}

/// The transport failure a request whose context is no longer active
/// reports: cancellation and deadline keep their class, anything else is
/// reported as unavailable.
pub open spec fn http_context_code(code: CoreErrorCode) -> ApiHttpErrorCode {
    match code {
        CoreErrorCode::Cancelled => ApiHttpErrorCode::Cancelled,
        CoreErrorCode::DeadlineExceeded => ApiHttpErrorCode::DeadlineExceeded,
        _ => ApiHttpErrorCode::Unavailable,
    }
}

/// Projects the failure of an inactive request context onto a transport code.
pub fn project_context_error(code: CoreErrorCode) -> (res: ApiHttpErrorCode)
    ensures
        res == http_context_code(code),
{
    match code {
        CoreErrorCode::Cancelled => ApiHttpErrorCode::Cancelled,
        CoreErrorCode::DeadlineExceeded => ApiHttpErrorCode::DeadlineExceeded,
        _ => ApiHttpErrorCode::Unavailable,
    }
}

/// Fail-closed authentication used when no authoritative service is
/// composed: it never observes presented credentials and refuses every
/// request.
#[derive(Clone, Copy, Debug, Default, PartialEq, Eq, Structural)]
pub struct UnavailableServiceAuthentication;

impl UnavailableServiceAuthentication {
    /// Refuses one request: an inactive context keeps its cancellation or
    /// deadline class, and an active one is answered as unavailable.
    pub fn authenticate(&self, context_failure: Option<CoreErrorCode>) -> (res: ApiHttpError)
        ensures
            res.code == match context_failure {
                Some(code) => http_context_code(code),
                None => ApiHttpErrorCode::Unavailable,
            },
    {
        let code = match context_failure {
            Some(code) => project_context_error(code),
            None => ApiHttpErrorCode::Unavailable,
        };
        ApiHttpError::new(code)
    }
}

} // verus!
