//! Hard transport and lifetime bounds of one WebSocket route.

use vstd::prelude::*;

use crate::http::error::{ApiHttpError, ApiHttpErrorCode, invalid_request};

verus! {

/// Maximum decoded size of one upgraded-session message.
pub const MAX_UPGRADE_MESSAGE_BYTES: usize = 262_144;

/// Maximum decoded size of one upgraded-session frame.
pub const MAX_UPGRADE_FRAME_BYTES: usize = 262_144;

/// Maximum absolute lifetime of one upgraded session, in nanoseconds (60 minutes).
pub const MAX_UPGRADE_SESSION_LIFETIME_NANOS: u128 = 3_600_000_000_000;

/// Whether message, frame and lifetime bounds are all non-zero, within their
/// hard maxima, and a frame fits in its containing message.
pub open spec fn upgrade_limits_valid(max_message_bytes: usize, max_frame_bytes: usize, session_lifetime_nanos: u128) -> bool {
    &&& 1 <= max_message_bytes <= MAX_UPGRADE_MESSAGE_BYTES
    &&& 1 <= max_frame_bytes <= MAX_UPGRADE_FRAME_BYTES
    &&& max_frame_bytes <= max_message_bytes
    &&& 1 <= session_lifetime_nanos <= MAX_UPGRADE_SESSION_LIFETIME_NANOS
}

/// Hard transport and lifetime bounds for one WebSocket route.
#[derive(Clone, Copy, Debug, PartialEq, Eq, Structural)]
pub struct ProtocolUpgradeLimits {
    max_message_bytes: usize,
    max_frame_bytes: usize,
    session_lifetime_nanos: u128,
}

/// Abstract contents of [`ProtocolUpgradeLimits`].
pub struct ProtocolUpgradeLimitsView {
    /// Maximum decoded message size.
    pub max_message_bytes: nat,
    /// Maximum decoded frame size.
    pub max_frame_bytes: nat,
    /// Maximum absolute session lifetime in nanoseconds.
    pub session_lifetime_nanos: nat,
}

impl View for ProtocolUpgradeLimits {
    type V = ProtocolUpgradeLimitsView;

    closed spec fn view(&self) -> ProtocolUpgradeLimitsView {
        ProtocolUpgradeLimitsView {
            max_message_bytes: self.max_message_bytes as nat,
            max_frame_bytes: self.max_frame_bytes as nat,
            session_lifetime_nanos: self.session_lifetime_nanos as nat,
        }
    }
}

impl ProtocolUpgradeLimits {
    #[verifier::type_invariant]
    spec fn valid(self) -> bool {
        upgrade_limits_valid(self.max_message_bytes, self.max_frame_bytes, self.session_lifetime_nanos)
    }

    /// Creates validated limits: message and frame bounds in `1..=256 KiB`
    /// with the frame no larger than the message, and a lifetime of at most
    /// 60 minutes that is not zero; anything else is `InvalidRequest`.
    pub fn new(max_message_bytes: usize, max_frame_bytes: usize, session_lifetime_nanos: u128) -> (res: Result<
        Self,
        ApiHttpError,
    >)
        ensures
            res is Ok <==> upgrade_limits_valid(max_message_bytes, max_frame_bytes, session_lifetime_nanos),
            res is Err ==> res == Err::<ProtocolUpgradeLimits, ApiHttpError>(
                ApiHttpError { code: ApiHttpErrorCode::InvalidRequest },
            ),
            res matches Ok(l) ==> l@ == (ProtocolUpgradeLimitsView {
                max_message_bytes: max_message_bytes as nat,
                max_frame_bytes: max_frame_bytes as nat,
                session_lifetime_nanos: session_lifetime_nanos as nat,
            }),
    {
        validate_limits(max_message_bytes, max_frame_bytes, session_lifetime_nanos)?;
        Ok(ProtocolUpgradeLimits { max_message_bytes, max_frame_bytes, session_lifetime_nanos })
    }

    /// Returns the maximum decoded message size.
    pub fn max_message_bytes(self) -> (res: usize)
        ensures
            res == self@.max_message_bytes,
            1 <= res <= MAX_UPGRADE_MESSAGE_BYTES,
    {
        proof {
            use_type_invariant(&self);
        }
        self.max_message_bytes
    }

    /// Returns the maximum decoded frame size, never above the message size.
    pub fn max_frame_bytes(self) -> (res: usize)
        ensures
            res == self@.max_frame_bytes,
            1 <= res <= self@.max_message_bytes,
    {
        proof {
            use_type_invariant(&self);
        }
        self.max_frame_bytes
    }

    /// Returns the maximum absolute session lifetime in nanoseconds.
    pub fn session_lifetime(self) -> (res: u128)
        ensures
            res == self@.session_lifetime_nanos,
            1 <= res <= MAX_UPGRADE_SESSION_LIFETIME_NANOS,
    {
        proof {
            use_type_invariant(&self);
        }
        self.session_lifetime_nanos
    }
}

fn validate_limits(max_message_bytes: usize, max_frame_bytes: usize, session_lifetime_nanos: u128) -> (res: Result<
    (),
    ApiHttpError,
>)
    ensures
        res is Ok <==> upgrade_limits_valid(max_message_bytes, max_frame_bytes, session_lifetime_nanos),
        res is Err ==> res == Err::<(), ApiHttpError>(ApiHttpError { code: ApiHttpErrorCode::InvalidRequest }),
{
    let invalid_bytes = max_message_bytes == 0 || max_message_bytes > MAX_UPGRADE_MESSAGE_BYTES || max_frame_bytes
        == 0 || max_frame_bytes > MAX_UPGRADE_FRAME_BYTES || max_frame_bytes > max_message_bytes;
    if invalid_bytes || session_lifetime_nanos == 0 || session_lifetime_nanos > MAX_UPGRADE_SESSION_LIFETIME_NANOS {
        return Err(invalid_request());
    }
    Ok(())
}

} // verus!
