//! Redacted failures and the bounded command model of administration commands.

use vstd::prelude::*;

use crate::platform::CoreErrorCode;
use crate::text::{all_chars, char_is_ascii_alphanumeric, is_ascii_alphanumeric, utf8_byte_len, utf8_len};

pub mod command;
pub mod executor;

verus! {

/// Maximum encoded size of an administration command identity.
pub const MAX_COMMAND_ID_BYTES: usize = 128;

/// Maximum encoded size of an administration reason code.
pub const MAX_REASON_BYTES: usize = 64;

/// Stable machine-readable failures returned by administration commands.
#[derive(Clone, Copy, Debug, PartialEq, Eq, Structural, Hash)]
#[non_exhaustive]
pub enum AdminErrorCode {
    /// A value is empty, malformed, or outside its documented bound.
    InvalidArgument,
    /// The authoritative policy denied the command or trusted target state was
    /// incompatible with the requested action.
    AuthorizationDenied,
    /// The command crossed a different tenant boundary.
    TenantMismatch,
    /// The internally evaluated decision did not match its command binding.
    DecisionMismatch,
    /// The request has no authenticated principal.
    Unauthenticated,
    /// The request was cancelled before durable application.
    Cancelled,
    /// The request deadline expired before durable application.
    DeadlineExceeded,
    /// Mutable state or idempotent command material no longer matches.
    Conflict,
    /// A required authoritative adapter is unavailable.
    Unavailable,
    /// Durable commit may have completed and requires identity reconciliation.
    CommitIndeterminate,
    /// Trusted or durable facts failed closed integrity validation.
    IntegrityFailure,
}

/// The external machine code of each administration failure.
pub open spec fn admin_code_text(code: AdminErrorCode) -> Seq<char> {
    match code {
        AdminErrorCode::InvalidArgument => "ADMIN_INVALID_ARGUMENT"@,
        AdminErrorCode::AuthorizationDenied => "ADMIN_AUTHORIZATION_DENIED"@,
        AdminErrorCode::TenantMismatch => "ADMIN_TENANT_MISMATCH"@,
        AdminErrorCode::DecisionMismatch => "ADMIN_DECISION_MISMATCH"@,
        AdminErrorCode::Unauthenticated => "ADMIN_UNAUTHENTICATED"@,
        AdminErrorCode::Cancelled => "ADMIN_CANCELLED"@,
        AdminErrorCode::DeadlineExceeded => "ADMIN_DEADLINE_EXCEEDED"@,
        AdminErrorCode::Conflict => "ADMIN_CONFLICT"@,
        AdminErrorCode::Unavailable => "ADMIN_UNAVAILABLE"@,
        AdminErrorCode::CommitIndeterminate => "ADMIN_COMMIT_INDETERMINATE"@,
        AdminErrorCode::IntegrityFailure => "ADMIN_INTEGRITY_FAILURE"@,
    }
}

impl AdminErrorCode {
    /// Returns the stable external machine code.
    pub fn as_str(self) -> (res: &'static str)
        ensures
            res@ == admin_code_text(self),
    {
        match self {
            AdminErrorCode::InvalidArgument => "ADMIN_INVALID_ARGUMENT",
            AdminErrorCode::AuthorizationDenied => "ADMIN_AUTHORIZATION_DENIED",
            AdminErrorCode::TenantMismatch => "ADMIN_TENANT_MISMATCH",
            AdminErrorCode::DecisionMismatch => "ADMIN_DECISION_MISMATCH",
            AdminErrorCode::Unauthenticated => "ADMIN_UNAUTHENTICATED",
            AdminErrorCode::Cancelled | AdminErrorCode::DeadlineExceeded | AdminErrorCode::Conflict
            | AdminErrorCode::Unavailable | AdminErrorCode::CommitIndeterminate
            | AdminErrorCode::IntegrityFailure => self.execution_code(),
        }
    }

    fn execution_code(self) -> (res: &'static str)
        ensures
            res@ == admin_code_text(self),
    {
        match self {
            AdminErrorCode::Cancelled => "ADMIN_CANCELLED",
            AdminErrorCode::DeadlineExceeded => "ADMIN_DEADLINE_EXCEEDED",
            AdminErrorCode::Conflict => "ADMIN_CONFLICT",
            AdminErrorCode::Unavailable => "ADMIN_UNAVAILABLE",
            AdminErrorCode::CommitIndeterminate => "ADMIN_COMMIT_INDETERMINATE",
            AdminErrorCode::IntegrityFailure => "ADMIN_INTEGRITY_FAILURE",
            AdminErrorCode::InvalidArgument => "ADMIN_INVALID_ARGUMENT",
            AdminErrorCode::AuthorizationDenied => "ADMIN_AUTHORIZATION_DENIED",
            AdminErrorCode::TenantMismatch => "ADMIN_TENANT_MISMATCH",
            AdminErrorCode::DecisionMismatch => "ADMIN_DECISION_MISMATCH",
            AdminErrorCode::Unauthenticated => "ADMIN_UNAUTHENTICATED",
        }
    }
}

/// Distinct administration failure codes have distinct external machine codes.
pub proof fn admin_codes_are_distinct(a: AdminErrorCode, b: AdminErrorCode)
    requires
        a != b,
    ensures
        admin_code_text(a) != admin_code_text(b),
{
    reveal_strlit("ADMIN_INVALID_ARGUMENT");
    reveal_strlit("ADMIN_AUTHORIZATION_DENIED");
    reveal_strlit("ADMIN_TENANT_MISMATCH");
    reveal_strlit("ADMIN_DECISION_MISMATCH");
    reveal_strlit("ADMIN_UNAUTHENTICATED");
    reveal_strlit("ADMIN_CANCELLED");
    reveal_strlit("ADMIN_DEADLINE_EXCEEDED");
    reveal_strlit("ADMIN_CONFLICT");
    reveal_strlit("ADMIN_UNAVAILABLE");
    reveal_strlit("ADMIN_COMMIT_INDETERMINATE");
    reveal_strlit("ADMIN_INTEGRITY_FAILURE");
    if admin_code_text(a) == admin_code_text(b) {
        assert(admin_code_text(a).len() == admin_code_text(b).len());
        assert(admin_code_text(a)[6] == admin_code_text(b)[6]);
        assert(admin_code_text(a)[7] == admin_code_text(b)[7]);
        assert(admin_code_text(a)[8] == admin_code_text(b)[8]);
    }
}

/// A redacted administration error that never retains rejected input.
#[derive(Clone, Copy, Debug, PartialEq, Eq, Structural)]
pub struct AdminError {
    /// The stable machine-readable code; the only state an error carries.
    pub code: AdminErrorCode,
}

impl AdminError {
    /// Creates an error from a stable machine-readable code.
    pub fn new(code: AdminErrorCode) -> (res: Self)
        ensures
            res.code == code,
    {
        AdminError { code }
    }

    /// Returns the stable machine-readable code.
    pub fn code(self) -> (res: AdminErrorCode)
        ensures
            res == self.code,
    {
        self.code
    }

    /// The text an error displays: its external machine code and nothing
    /// else.
    pub fn to_string(&self) -> (res: String)
        ensures
            res@ == admin_code_text(self.code),
    {
        self.code.as_str().to_owned()
    }
}

/// Whether `c` may appear in an administration command identity.
pub open spec fn is_command_id_char(c: char) -> bool {
    is_ascii_alphanumeric(c) || c == '.' || c == '-' || c == '_'
}

/// Whether `s` is a non-empty path-free ASCII identity of at most 128 bytes.
pub open spec fn valid_command_id(s: Seq<char>) -> bool {
    s.len() > 0 && utf8_len(s) <= MAX_COMMAND_ID_BYTES && all_chars(s, |c: char| is_command_id_char(c))
}

fn valid_identifier(value: &str) -> (res: bool)
    ensures
        res == valid_command_id(value@),
{
    if value.is_empty() || utf8_byte_len(value) > MAX_COMMAND_ID_BYTES {
        return false;
    }
    let mut ok = true;
    for c in it: value.chars()
        invariant
            it.seq() == value@,
            ok == (forall|j: int| 0 <= j < it.index() ==> is_command_id_char(#[trigger] value@[j])),
    {
        if !(char_is_ascii_alphanumeric(c) || c == '.' || c == '-' || c == '_') {
            ok = false;
        }
    }
    ok
}

/// A bounded path-free administration command identity.
#[derive(PartialEq, Eq, Hash, PartialOrd, Ord)]
pub struct AdminCommandId(String);

impl View for AdminCommandId {
    type V = Seq<char>;

    closed spec fn view(&self) -> Seq<char> {
        self.0@
    }
}

impl Clone for AdminCommandId {
    fn clone(&self) -> (res: Self)
        ensures
            res@ == self@,
    {
        proof {
            use_type_invariant(self);
        }
        AdminCommandId(self.0.clone())
    }
}

impl AdminCommandId {
    #[verifier::type_invariant]
    spec fn valid(self) -> bool {
        valid_command_id(self.0@)
    }

    /// Parses a non-empty identity of at most 128 bytes made of ASCII letters,
    /// digits, `.`, `-` and `_`; anything else is `InvalidArgument`.
    pub fn parse(value: &str) -> (res: Result<Self, AdminError>)
        ensures
            res is Ok <==> valid_command_id(value@),
            res matches Ok(i) ==> i@ == value@,
            res is Err ==> res == Err::<AdminCommandId, AdminError>(AdminError { code: AdminErrorCode::InvalidArgument }),
    {
        if !valid_identifier(value) {
            return Err(AdminError::new(AdminErrorCode::InvalidArgument));
        }
        Ok(AdminCommandId(value.to_owned()))
    }

    /// Returns the validated identity.
    pub fn as_str(&self) -> (res: &str)
        ensures
            res@ == self@,
            valid_command_id(res@),
    {
        proof {
            use_type_invariant(self);
        }
        self.0.as_str()
    }
}

/// Stable category of the administration target.
#[derive(Clone, Copy, Debug, PartialEq, Eq, Structural, Hash)]
pub enum AdminTargetKind {
    /// A user lifecycle action.
    User,
    /// An organization governance action.
    Organization,
    /// An invitation lifecycle action.
    Invitation,
    /// An API-key lifecycle action.
    ApiKey,
}

/// Stable initial administration action kind.
#[derive(Clone, Copy, Debug, PartialEq, Eq, Structural, Hash)]
pub enum AdminActionKind {
    /// Suspend a user from new authenticated activity.
    SuspendUser,
    /// Restore a suspended user.
    RestoreUser,
    /// Freeze an organization.
    FreezeOrganization,
    /// Unfreeze an organization.
    UnfreezeOrganization,
    /// Revoke an invitation.
    RevokeInvitation,
    /// Revoke an API key.
    RevokeApiKey,
}

/// One bounded administration target identity, each identity as issued by
/// the owning domain.
#[derive(Debug, PartialEq, Eq)]
pub enum AdminTarget {
    /// A user target.
    User(String),
    /// An organization target.
    Organization(String),
    /// An invitation target uniquely bound to its owning organization.
    Invitation {
        /// Organization that owns the invitation identity.
        organization_id: String,
        /// Invitation identity within the organization.
        invitation_id: String,
    },
    /// An API-key target.
    ApiKey(String),
}

/// Abstract identity of an administration target.
pub enum AdminTargetView {
    /// A user target.
    User(Seq<char>),
    /// An organization target.
    Organization(Seq<char>),
    /// An invitation target within its organization.
    Invitation { organization_id: Seq<char>, invitation_id: Seq<char> },
    /// An API-key target.
    ApiKey(Seq<char>),
}

impl View for AdminTarget {
    type V = AdminTargetView;

    open spec fn view(&self) -> AdminTargetView {
        match self {
            AdminTarget::User(u) => AdminTargetView::User(u@),
            AdminTarget::Organization(o) => AdminTargetView::Organization(o@),
            AdminTarget::Invitation { organization_id, invitation_id } => AdminTargetView::Invitation {
                organization_id: organization_id@,
                invitation_id: invitation_id@,
            },
            AdminTarget::ApiKey(k) => AdminTargetView::ApiKey(k@),
        }
    }
}

impl Clone for AdminTarget {
    fn clone(&self) -> (res: Self)
        ensures
            res == *self,
    {
        match self {
            AdminTarget::User(u) => AdminTarget::User(u.clone()),
            AdminTarget::Organization(o) => AdminTarget::Organization(o.clone()),
            AdminTarget::Invitation { organization_id, invitation_id } => AdminTarget::Invitation {
                organization_id: organization_id.clone(),
                invitation_id: invitation_id.clone(),
            },
            AdminTarget::ApiKey(k) => AdminTarget::ApiKey(k.clone()),
        }
    }
}

/// Reports whether two targets name the same identity.
pub fn same_target(a: &AdminTarget, b: &AdminTarget) -> (res: bool)
    ensures
        res == (a@ == b@),
{
    match (a, b) {
        (AdminTarget::User(x), AdminTarget::User(y)) => *x == *y,
        (AdminTarget::Organization(x), AdminTarget::Organization(y)) => *x == *y,
        (
            AdminTarget::Invitation { organization_id: xo, invitation_id: xi },
            AdminTarget::Invitation { organization_id: yo, invitation_id: yi },
        ) => *xo == *yo && *xi == *yi,
        (AdminTarget::ApiKey(x), AdminTarget::ApiKey(y)) => *x == *y,
        _ => false,
    }
}

/// The category of a target.
pub open spec fn target_kind(target: AdminTarget) -> AdminTargetKind {
    match target {
        AdminTarget::User(_) => AdminTargetKind::User,
        AdminTarget::Organization(_) => AdminTargetKind::Organization,
        AdminTarget::Invitation { .. } => AdminTargetKind::Invitation,
        AdminTarget::ApiKey(_) => AdminTargetKind::ApiKey,
    }
}

impl AdminTarget {
    /// Returns the stable target category.
    pub fn kind(&self) -> (res: AdminTargetKind)
        ensures
            res == target_kind(*self),
    {
        match self {
            AdminTarget::User(_) => AdminTargetKind::User,
            AdminTarget::Organization(_) => AdminTargetKind::Organization,
            AdminTarget::Invitation { .. } => AdminTargetKind::Invitation,
            AdminTarget::ApiKey(_) => AdminTargetKind::ApiKey,
        }
    }
}

/// The target category each action applies to.
pub open spec fn action_target_kind(action: AdminActionKind) -> AdminTargetKind {
    match action {
        AdminActionKind::SuspendUser | AdminActionKind::RestoreUser => AdminTargetKind::User,
        AdminActionKind::FreezeOrganization | AdminActionKind::UnfreezeOrganization => AdminTargetKind::Organization,
        AdminActionKind::RevokeInvitation => AdminTargetKind::Invitation,
        AdminActionKind::RevokeApiKey => AdminTargetKind::ApiKey,
    }
}

/// Accepts an action only on a target of the category it applies to; any
/// other pairing is `InvalidArgument`.
pub fn validate_action_target(action: AdminActionKind, target: &AdminTarget) -> (res: Result<(), AdminError>)
    ensures
        res is Ok <==> action_target_kind(action) == target_kind(*target),
        res is Err ==> res == Err::<(), AdminError>(AdminError { code: AdminErrorCode::InvalidArgument }),
{
    let compatible = match (action, target.kind()) {
        (AdminActionKind::SuspendUser, AdminTargetKind::User) => true,
        (AdminActionKind::RestoreUser, AdminTargetKind::User) => true,
        (AdminActionKind::FreezeOrganization, AdminTargetKind::Organization) => true,
        (AdminActionKind::UnfreezeOrganization, AdminTargetKind::Organization) => true,
        (AdminActionKind::RevokeInvitation, AdminTargetKind::Invitation) => true,
        (AdminActionKind::RevokeApiKey, AdminTargetKind::ApiKey) => true,
        _ => false,
    };
    if !compatible {
        return Err(AdminError::new(AdminErrorCode::InvalidArgument));
    }
    Ok(())
}

/// The permission identity that authorizes each action.
pub open spec fn action_permission_text(action: AdminActionKind) -> Seq<char> {
    match action {
        AdminActionKind::SuspendUser => "admin.user.suspend"@,
        AdminActionKind::RestoreUser => "admin.user.restore"@,
        AdminActionKind::FreezeOrganization => "admin.organization.freeze"@,
        AdminActionKind::UnfreezeOrganization => "admin.organization.unfreeze"@,
        AdminActionKind::RevokeInvitation => "admin.invitation.revoke"@,
        AdminActionKind::RevokeApiKey => "admin.api-key.revoke"@,
    }
}

/// Returns the permission identity that authorizes `action`.
pub fn action_permission(action: AdminActionKind) -> (res: &'static str)
    ensures
        res@ == action_permission_text(action),
{
    match action {
        AdminActionKind::SuspendUser => "admin.user.suspend",
        AdminActionKind::RestoreUser => "admin.user.restore",
        AdminActionKind::FreezeOrganization => "admin.organization.freeze",
        AdminActionKind::UnfreezeOrganization => "admin.organization.unfreeze",
        AdminActionKind::RevokeInvitation => "admin.invitation.revoke",
        AdminActionKind::RevokeApiKey => "admin.api-key.revoke",
    }
}

/// Whether an action restores a restricted target rather than acting on an
/// active one.
pub open spec fn is_recovery_action(action: AdminActionKind) -> bool {
    action == AdminActionKind::RestoreUser || action == AdminActionKind::UnfreezeOrganization
}

/// Whether `c` may appear in a reason code.
pub open spec fn is_reason_code_char(c: char) -> bool {
    ('A' <= c && c <= 'Z') || ('0' <= c && c <= '9') || c == '_'
}

/// Whether `s` is a reason code: 1 to 64 uppercase ASCII letters, digits and `_`.
pub open spec fn valid_reason_code(s: Seq<char>) -> bool {
    s.len() > 0 && utf8_len(s) <= MAX_REASON_BYTES && all_chars(s, |c: char| is_reason_code_char(c))
}

/// Validates and copies a reason code; anything else is `InvalidArgument`.
pub fn parse_reason_code(value: &str) -> (res: Result<String, AdminError>)
    ensures
        res is Ok <==> valid_reason_code(value@),
        res matches Ok(s) ==> s@ == value@,
        res is Err ==> res == Err::<String, AdminError>(AdminError { code: AdminErrorCode::InvalidArgument }),
{
    if value.is_empty() || utf8_byte_len(value) > MAX_REASON_BYTES {
        return Err(AdminError::new(AdminErrorCode::InvalidArgument));
    }
    let mut ok = true;
    for c in it: value.chars()
        invariant
            it.seq() == value@,
            ok == (forall|j: int| 0 <= j < it.index() ==> is_reason_code_char(#[trigger] value@[j])),
    {
        if !(('A' <= c && c <= 'Z') || ('0' <= c && c <= '9') || c == '_') {
            ok = false;
        }
    }
    if !ok {
        return Err(AdminError::new(AdminErrorCode::InvalidArgument));
    }
    Ok(value.to_owned())
}

/// The administration failure a request whose context is no longer active
/// reports: cancellation and deadline keep their class, anything else fails
/// closed as an integrity failure.
pub open spec fn admin_context_code(code: CoreErrorCode) -> AdminErrorCode {
    match code {
        CoreErrorCode::Cancelled => AdminErrorCode::Cancelled,
        CoreErrorCode::DeadlineExceeded => AdminErrorCode::DeadlineExceeded,
        _ => AdminErrorCode::IntegrityFailure,
    }
}

/// Projects the failure of an inactive request context onto an
/// administration failure.
pub fn admin_context_failure(code: CoreErrorCode) -> (res: AdminError)
    ensures
        res.code == admin_context_code(code),
{
    let projected = match code {
        CoreErrorCode::Cancelled => AdminErrorCode::Cancelled,
        CoreErrorCode::DeadlineExceeded => AdminErrorCode::DeadlineExceeded,
        _ => AdminErrorCode::IntegrityFailure,
    };
    AdminError::new(projected)
}

} // verus!
