//! Just-in-time acceptance of administration commands.
//!
//! An administration command is accepted only against an authorization
//! decision that the policy evaluated from authoritative facts for exactly
//! this command: the decision must name the same decision identity, policy
//! version, evaluation instant, tenant, actor, permission and scope, must
//! allow the action, and must have been evaluated for the target state the
//! action expects. The policy evaluation itself happens outside this module;
//! the values here hold what the acceptance rules read of its inputs and
//! results.

use vstd::prelude::*;

use crate::admin::{
    AdminActionKind, AdminCommandId, AdminError, AdminErrorCode, AdminTarget, AdminTargetKind, AdminTargetView,
    action_permission, action_permission_text, action_target_kind, is_recovery_action, parse_reason_code,
    same_target, valid_reason_code, validate_action_target,
};
use crate::domain::batch_timestamps::UnixInstant;
use crate::admin::{admin_context_code, admin_context_failure};
use crate::platform::{CoreErrorCode, PrincipalContext, PrincipalContextView, PrincipalId, RequestContext, TenantId};
use crate::text::str_equals;

verus! {

/// Whether authorization is asked for ordinary access or for the recovery
/// of a restricted target.
#[derive(Clone, Copy, Debug, PartialEq, Eq, Structural)]
pub enum AuthorizationIntent {
    /// Ordinary access to an active target.
    Access,
    /// Recovery of a restricted target.
    Recovery,
}

/// Lifecycle state of an administration target as the policy sees it.
#[derive(Clone, Copy, Debug, PartialEq, Eq, Structural)]
pub enum ResourceState {
    /// The target is active.
    Active,
    /// The target is restricted (suspended or frozen).
    Restricted,
}

/// The intent an action is authorized under, and the target state it
/// requires: recovery actions restore a restricted target, every other
/// action needs an active one.
pub open spec fn expected_target_state_of(action: AdminActionKind) -> (AuthorizationIntent, ResourceState) {
    if is_recovery_action(action) {
        (AuthorizationIntent::Recovery, ResourceState::Restricted)
    } else {
        (AuthorizationIntent::Access, ResourceState::Active)
    }
}

/// Returns the intent and target state that `action` is authorized under.
pub fn expected_target_state(action: AdminActionKind) -> (res: (AuthorizationIntent, ResourceState))
    ensures
        res == expected_target_state_of(action),
{
    match action {
        AdminActionKind::RestoreUser | AdminActionKind::UnfreezeOrganization => (
            AuthorizationIntent::Recovery,
            ResourceState::Restricted,
        ),
        _ => (AuthorizationIntent::Access, ResourceState::Active),
    }
}

/// The texts of an optional identity.
pub open spec fn optional_text(o: Option<String>) -> Option<Seq<char>> {
    match o {
        Some(s) => Some(s@),
        None => None,
    }
}

/// Abstract authorization scope.
pub struct AuthorizationScopeView {
    /// The tenant boundary.
    pub tenant: Seq<char>,
    /// The owning organization, for an organization-scoped resource.
    pub organization: Option<Seq<char>>,
    /// The resource kind.
    pub kind: Seq<char>,
    /// The resource identity.
    pub id: Seq<char>,
}

/// The resource an authorization decision covers: a resource of the tenant,
/// optionally within one organization of it.
#[derive(Debug)]
pub struct AuthorizationScope {
    /// The tenant boundary.
    pub tenant_id: String,
    /// The owning organization, for an organization-scoped resource.
    pub organization_id: Option<String>,
    /// The resource kind.
    pub resource_kind: String,
    /// The resource identity.
    pub resource_id: String,
}

impl View for AuthorizationScope {
    type V = AuthorizationScopeView;

    open spec fn view(&self) -> AuthorizationScopeView {
        AuthorizationScopeView {
            tenant: self.tenant_id@,
            organization: optional_text(self.organization_id),
            kind: self.resource_kind@,
            id: self.resource_id@,
        }
    }
}

impl Clone for AuthorizationScope {
    fn clone(&self) -> (res: Self)
        ensures
            res == *self,
    {
        AuthorizationScope {
            tenant_id: self.tenant_id.clone(),
            organization_id: match &self.organization_id {
                Some(o) => Some(o.clone()),
                None => None,
            },
            resource_kind: self.resource_kind.clone(),
            resource_id: self.resource_id.clone(),
        }
    }
}

/// Reports whether two optional identities are equal.
pub fn same_optional_text(a: &Option<String>, b: &Option<String>) -> (res: bool)
    ensures
        res == (optional_text(*a) == optional_text(*b)),
{
    match (a, b) {
        (Some(x), Some(y)) => *x == *y,
        (None, None) => true,
        _ => false,
    }
}

impl AuthorizationScope {
    /// Reports whether two scopes cover the same resource.
    pub fn same_scope(&self, other: &AuthorizationScope) -> (res: bool)
        ensures
            res == (self@ == other@),
    {
        self.tenant_id == other.tenant_id && same_optional_text(&self.organization_id, &other.organization_id)
            && self.resource_kind == other.resource_kind && self.resource_id == other.resource_id
    }
}

/// The scope a command on `target` within tenant `tenant` must be authorized
/// for: invitations are scoped to their organization, every other target is
/// a resource of the tenant.
pub open spec fn expected_scope_of(tenant: Seq<char>, target: AdminTargetView) -> AuthorizationScopeView {
    match target {
        AdminTargetView::Organization(o) => AuthorizationScopeView {
            tenant,
            organization: None,
            kind: "organization"@,
            id: o,
        },
        AdminTargetView::User(u) => AuthorizationScopeView { tenant, organization: None, kind: "user"@, id: u },
        AdminTargetView::Invitation { organization_id, invitation_id } => AuthorizationScopeView {
            tenant,
            organization: Some(organization_id),
            kind: "invitation"@,
            id: invitation_id,
        },
        AdminTargetView::ApiKey(k) => AuthorizationScopeView { tenant, organization: None, kind: "api-key"@, id: k },
    }
}

/// A scope over one resource of the tenant.
pub fn tenant_resource_scope(tenant_id: &TenantId, kind: &str, id: &str) -> (res: AuthorizationScope)
    ensures
        res@ == (AuthorizationScopeView { tenant: tenant_id@, organization: None, kind: kind@, id: id@ }),
{
    AuthorizationScope {
        tenant_id: tenant_id.as_str().to_owned(),
        organization_id: None,
        resource_kind: kind.to_owned(),
        resource_id: id.to_owned(),
    }
}

/// Returns the scope a command on `target` within `tenant_id` must be
/// authorized for.
pub fn expected_scope(tenant_id: &TenantId, target: &AdminTarget) -> (res: AuthorizationScope)
    ensures
        res@ == expected_scope_of(tenant_id@, target@),
{
    match target {
        AdminTarget::Organization(organization_id) => tenant_resource_scope(
            tenant_id,
            "organization",
            organization_id.as_str(),
        ),
        AdminTarget::User(user_id) => tenant_resource_scope(tenant_id, "user", user_id.as_str()),
        AdminTarget::Invitation { organization_id, invitation_id } => AuthorizationScope {
            tenant_id: tenant_id.as_str().to_owned(),
            organization_id: Some(organization_id.clone()),
            resource_kind: "invitation".to_owned(),
            resource_id: invitation_id.clone(),
        },
        AdminTarget::ApiKey(api_key_id) => tenant_resource_scope(tenant_id, "api-key", api_key_id.as_str()),
    }
}

/// Abstract authorization target.
pub struct AuthorizationTargetView {
    /// The permission asked for.
    pub permission: Seq<char>,
    /// The resource the permission is asked on.
    pub scope: AuthorizationScopeView,
    /// Whether access or recovery is asked for.
    pub intent: AuthorizationIntent,
    /// The target state the authorization is asked in.
    pub state: ResourceState,
}

/// What one authorization asks for: a permission on a scope, under an
/// intent, for a target in a given state.
#[derive(Debug)]
pub struct AuthorizationTarget {
    /// The permission asked for.
    pub permission_id: String,
    /// The resource the permission is asked on.
    pub scope: AuthorizationScope,
    /// Whether access or recovery is asked for.
    pub intent: AuthorizationIntent,
    /// The target state the authorization is asked in.
    pub resource_state: ResourceState,
}

impl View for AuthorizationTarget {
    type V = AuthorizationTargetView;

    open spec fn view(&self) -> AuthorizationTargetView {
        AuthorizationTargetView {
            permission: self.permission_id@,
            scope: self.scope@,
            intent: self.intent,
            state: self.resource_state,
        }
    }
}

/// The authorization target of `action` on `target` within `tenant` in
/// target state `state`.
pub open spec fn authorization_target_of(
    action: AdminActionKind,
    tenant: Seq<char>,
    target: AdminTargetView,
    state: ResourceState,
) -> AuthorizationTargetView {
    AuthorizationTargetView {
        permission: action_permission_text(action),
        scope: expected_scope_of(tenant, target),
        intent: expected_target_state_of(action).0,
        state,
    }
}

/// Builds what `action` on `target` asks the policy for, for a target
/// currently in state `state`.
pub fn authorization_target(action: AdminActionKind, tenant_id: &TenantId, target: &AdminTarget, state: ResourceState) -> (res: AuthorizationTarget)
    ensures
        res@ == authorization_target_of(action, tenant_id@, target@, state),
{
    let permission_id = action_permission(action).to_owned();
    let scope = expected_scope(tenant_id, target);
    let (intent, _) = expected_target_state(action);
    AuthorizationTarget { permission_id, scope, intent, resource_state: state }
}

/// Abstract membership identity.
pub struct MembershipIdentityView {
    /// The tenant the membership belongs to.
    pub tenant: Seq<char>,
    /// The organization the membership is in.
    pub organization: Seq<char>,
    /// The membership identity.
    pub membership: Seq<char>,
    /// The member user.
    pub user: Seq<char>,
}

/// The immutable identity of an organization membership.
#[derive(Debug)]
pub struct MembershipIdentity {
    /// The tenant the membership belongs to.
    pub tenant_id: String,
    /// The organization the membership is in.
    pub organization_id: String,
    /// The membership identity.
    pub membership_id: String,
    /// The member user.
    pub user_id: String,
}

impl View for MembershipIdentity {
    type V = MembershipIdentityView;

    open spec fn view(&self) -> MembershipIdentityView {
        MembershipIdentityView {
            tenant: self.tenant_id@,
            organization: self.organization_id@,
            membership: self.membership_id@,
            user: self.user_id@,
        }
    }
}

impl Clone for MembershipIdentity {
    fn clone(&self) -> (res: Self)
        ensures
            res@ == self@,
    {
        MembershipIdentity {
            tenant_id: self.tenant_id.clone(),
            organization_id: self.organization_id.clone(),
            membership_id: self.membership_id.clone(),
            user_id: self.user_id.clone(),
        }
    }
}

/// The abstract identity of an optional membership.
pub open spec fn optional_membership(m: Option<MembershipIdentity>) -> Option<MembershipIdentityView> {
    match m {
        Some(x) => Some(x@),
        None => None,
    }
}

/// Abstract identity of an authorization subject.
pub struct AuthorizationSubjectView {
    /// The authenticated principal.
    pub principal: PrincipalContextView,
    /// The user the principal acts as.
    pub user: Seq<char>,
    /// The membership the user acts through, if any.
    pub membership: Option<MembershipIdentityView>,
}

/// The immutable identities of the subject an authorization is evaluated
/// for: its principal, user and membership. Lifecycle and assignment facts
/// are read by the policy alone.
#[derive(Debug)]
pub struct AuthorizationSubject {
    /// The authenticated principal.
    pub principal: PrincipalContext,
    /// The user the principal acts as.
    pub user_id: String,
    /// The membership the user acts through, if any.
    pub membership: Option<MembershipIdentity>,
}

impl View for AuthorizationSubject {
    type V = AuthorizationSubjectView;

    open spec fn view(&self) -> AuthorizationSubjectView {
        AuthorizationSubjectView {
            principal: self.principal@,
            user: self.user_id@,
            membership: optional_membership(self.membership),
        }
    }
}

impl Clone for AuthorizationSubject {
    fn clone(&self) -> (res: Self)
        ensures
            res@ == self@,
    {
        AuthorizationSubject {
            principal: self.principal.clone(),
            user_id: self.user_id.clone(),
            membership: match &self.membership {
                Some(m) => Some(m.clone()),
                None => None,
            },
        }
    }
}

/// Reports whether two subjects act through the same membership identity,
/// or both through none.
pub fn same_membership_identity(expected: &AuthorizationSubject, actual: &AuthorizationSubject) -> (res: bool)
    ensures
        res == (expected@.membership == actual@.membership),
{
    match (&expected.membership, &actual.membership) {
        (None, None) => true,
        (Some(e), Some(a)) => e.tenant_id == a.tenant_id && e.organization_id == a.organization_id
            && e.membership_id == a.membership_id && e.user_id == a.user_id,
        _ => false,
    }
}

/// Reports whether two subjects have the same principal, user and
/// membership identities.
pub fn same_subject_identity(expected: &AuthorizationSubject, actual: &AuthorizationSubject) -> (res: bool)
    ensures
        res == (expected@ == actual@),
{
    expected.principal.tenant_id().same_id(actual.principal.tenant_id())
        && str_equals(expected.principal.principal_id().as_str(), actual.principal.principal_id().as_str())
        && expected.user_id == actual.user_id && same_membership_identity(expected, actual)
}

/// The category of an abstract target.
pub open spec fn kind_of(target: AdminTargetView) -> AdminTargetKind {
    match target {
        AdminTargetView::User(_) => AdminTargetKind::User,
        AdminTargetView::Organization(_) => AdminTargetKind::Organization,
        AdminTargetView::Invitation { .. } => AdminTargetKind::Invitation,
        AdminTargetView::ApiKey(_) => AdminTargetKind::ApiKey,
    }
}

/// Abstract authorization decision.
pub struct AuthorizationDecisionView {
    /// The one-time decision identity.
    pub decision_id: Seq<char>,
    /// The policy version the decision was evaluated under.
    pub policy_version: u64,
    /// The trusted evaluation instant.
    pub evaluated_at: int,
    /// The tenant the decision was evaluated in.
    pub tenant: Seq<char>,
    /// The principal the decision was evaluated for.
    pub principal: Seq<char>,
    /// Whether the policy allowed the request.
    pub allowed: bool,
    /// The intent the decision was evaluated under.
    pub intent: AuthorizationIntent,
    /// The target state the decision was evaluated for.
    pub state: ResourceState,
    /// The permission decided on.
    pub permission: Seq<char>,
    /// The scope decided on.
    pub scope: AuthorizationScopeView,
}

/// What a policy evaluation decided, and for which request.
#[derive(Debug)]
pub struct AuthorizationDecision {
    /// The one-time decision identity.
    pub decision_id: String,
    /// The policy version the decision was evaluated under.
    pub policy_version: u64,
    /// The trusted evaluation instant.
    pub evaluated_at: UnixInstant,
    /// The tenant the decision was evaluated in.
    pub tenant_id: TenantId,
    /// The principal the decision was evaluated for.
    pub principal_id: PrincipalId,
    /// Whether the policy allowed the request.
    pub allowed: bool,
    /// The intent the decision was evaluated under.
    pub intent: AuthorizationIntent,
    /// The target state the decision was evaluated for.
    pub resource_state: ResourceState,
    /// The permission decided on.
    pub permission_id: String,
    /// The scope decided on.
    pub scope: AuthorizationScope,
}

impl View for AuthorizationDecision {
    type V = AuthorizationDecisionView;

    open spec fn view(&self) -> AuthorizationDecisionView {
        AuthorizationDecisionView {
            decision_id: self.decision_id@,
            policy_version: self.policy_version,
            evaluated_at: self.evaluated_at@,
            tenant: self.tenant_id@,
            principal: self.principal_id@,
            allowed: self.allowed,
            intent: self.intent,
            state: self.resource_state,
            permission: self.permission_id@,
            scope: self.scope@,
        }
    }
}

/// Abstract authorization request.
pub struct AuthorizationRequestView {
    /// The one-time decision identity asked for.
    pub decision_id: Seq<char>,
    /// The policy version expected.
    pub policy_version: u64,
    /// The subject asking.
    pub subject: AuthorizationSubjectView,
    /// What is asked for.
    pub target: AuthorizationTargetView,
    /// The trusted evaluation instant.
    pub evaluated_at: int,
}

/// One request for a policy decision.
#[derive(Debug)]
pub struct AuthorizationRequest {
    /// The one-time decision identity asked for.
    pub decision_id: String,
    /// The policy version expected.
    pub policy_version: u64,
    /// The subject asking.
    pub subject: AuthorizationSubject,
    /// What is asked for.
    pub target: AuthorizationTarget,
    /// The trusted evaluation instant.
    pub evaluated_at: UnixInstant,
}

impl View for AuthorizationRequest {
    type V = AuthorizationRequestView;

    open spec fn view(&self) -> AuthorizationRequestView {
        AuthorizationRequestView {
            decision_id: self.decision_id@,
            policy_version: self.policy_version,
            subject: self.subject@,
            target: self.target@,
            evaluated_at: self.evaluated_at@,
        }
    }
}

/// Abstract command binding.
pub struct AdminCommandBindingView {
    /// The command identity.
    pub id: Seq<char>,
    /// The tenant boundary.
    pub tenant: Seq<char>,
    /// The authenticated actor.
    pub actor: Seq<char>,
    /// The trusted command instant.
    pub occurred_at: int,
    /// The decision identity the command is bound to.
    pub decision_id: Seq<char>,
    /// The policy version the command is bound to.
    pub policy_version: u64,
}

/// Tenant-bound identity and expected authorization version for one command.
pub struct AdminCommandBinding {
    id: AdminCommandId,
    tenant_id: TenantId,
    actor: PrincipalId,
    occurred_at: UnixInstant,
    decision_id: String,
    policy_version: u64,
}

impl View for AdminCommandBinding {
    type V = AdminCommandBindingView;

    closed spec fn view(&self) -> AdminCommandBindingView {
        AdminCommandBindingView {
            id: self.id@,
            tenant: self.tenant_id@,
            actor: self.actor@,
            occurred_at: self.occurred_at@,
            decision_id: self.decision_id@,
            policy_version: self.policy_version,
        }
    }
}

impl AdminCommandBinding {
    /// Creates command identity metadata bound to one authorization decision.
    pub fn new(
        id: AdminCommandId,
        tenant_id: TenantId,
        actor: PrincipalId,
        occurred_at: UnixInstant,
        decision_id: String,
        policy_version: u64,
    ) -> (res: Self)
        ensures
            res@ == (AdminCommandBindingView {
                id: id@,
                tenant: tenant_id@,
                actor: actor@,
                occurred_at: occurred_at@,
                decision_id: decision_id@,
                policy_version,
            }),
    {
        AdminCommandBinding { id, tenant_id, actor, occurred_at, decision_id, policy_version }
    }
}

/// Abstract command acceptance request.
pub struct AdminCommandRequestView {
    /// The command binding.
    pub binding: AdminCommandBindingView,
    /// The action.
    pub action: AdminActionKind,
    /// The target.
    pub target: AdminTargetView,
    /// The validated reason code.
    pub reason: Seq<char>,
    /// The subject the decision was evaluated for.
    pub subject: AuthorizationSubjectView,
    /// The decision.
    pub decision: AuthorizationDecisionView,
}

/// Trusted inputs required to accept one administration command.
pub struct AdminCommandRequest {
    binding: AdminCommandBinding,
    action: AdminActionKind,
    target: AdminTarget,
    reason_code: String,
    authorization_subject: AuthorizationSubject,
    decision: AuthorizationDecision,
}

impl View for AdminCommandRequest {
    type V = AdminCommandRequestView;

    closed spec fn view(&self) -> AdminCommandRequestView {
        AdminCommandRequestView {
            binding: self.binding@,
            action: self.action,
            target: self.target@,
            reason: self.reason_code@,
            subject: self.authorization_subject@,
            decision: self.decision@,
        }
    }
}

impl AdminCommandRequest {
    /// Creates an administration command request after validating the
    /// reason code; an invalid one is `InvalidArgument`.
    pub fn new(
        binding: AdminCommandBinding,
        action: AdminActionKind,
        target: AdminTarget,
        reason_code: &str,
        authorization_subject: AuthorizationSubject,
        decision: AuthorizationDecision,
    ) -> (res: Result<Self, AdminError>)
        ensures
            res is Ok <==> valid_reason_code(reason_code@),
            res is Err ==> res->Err_0.code == AdminErrorCode::InvalidArgument,
            res matches Ok(r) ==> r@ == (AdminCommandRequestView {
                binding: binding@,
                action,
                target: target@,
                reason: reason_code@,
                subject: authorization_subject@,
                decision: decision@,
            }),
    {
        let reason_code = parse_reason_code(reason_code)?;
        Ok(AdminCommandRequest { binding, action, target, reason_code, authorization_subject, decision })
    }
}

/// The first rule an acceptance request breaks, if any: the action must
/// apply to the target's category; the decision must carry the command's
/// decision identity, policy version and instant, its tenant and actor, must
/// allow the request, must have been evaluated under the action's intent and
/// target state, and for the action's permission on the target's scope; and
/// the subject must be the command's tenant and actor.
pub open spec fn acceptance_failure(r: AdminCommandRequestView) -> Option<AdminErrorCode> {
    let b = r.binding;
    let d = r.decision;
    if action_target_kind(r.action) != kind_of(r.target) {
        Some(AdminErrorCode::InvalidArgument)
    } else if d.decision_id != b.decision_id || d.policy_version != b.policy_version || d.evaluated_at
        != b.occurred_at {
        Some(AdminErrorCode::DecisionMismatch)
    } else if d.tenant != b.tenant {
        Some(AdminErrorCode::TenantMismatch)
    } else if d.principal != b.actor {
        Some(AdminErrorCode::DecisionMismatch)
    } else if !d.allowed {
        Some(AdminErrorCode::AuthorizationDenied)
    } else if (d.intent, d.state) != expected_target_state_of(r.action) {
        Some(AdminErrorCode::DecisionMismatch)
    } else if d.permission != action_permission_text(r.action) || d.scope != expected_scope_of(b.tenant, r.target) {
        Some(AdminErrorCode::DecisionMismatch)
    } else if r.subject.principal.tenant_id != b.tenant {
        Some(AdminErrorCode::TenantMismatch)
    } else if r.subject.principal.principal_id != b.actor {
        Some(AdminErrorCode::DecisionMismatch)
    } else {
        None
    }
}

/// Abstract accepted command.
pub struct AdminCommandView {
    /// The command identity.
    pub id: Seq<char>,
    /// The tenant boundary.
    pub tenant: Seq<char>,
    /// The trusted actor.
    pub actor: Seq<char>,
    /// The trusted command instant.
    pub occurred_at: int,
    /// The action.
    pub action: AdminActionKind,
    /// The target.
    pub target: AdminTargetView,
    /// The reason code.
    pub reason: Seq<char>,
    /// The authorizing decision identity.
    pub decision_id: Seq<char>,
    /// The authorizing policy version.
    pub policy_version: u64,
    /// The subject the command was authorized for.
    pub subject: AuthorizationSubjectView,
}

/// The command an acceptable request yields.
pub open spec fn accepted_command_of(r: AdminCommandRequestView) -> AdminCommandView {
    AdminCommandView {
        id: r.binding.id,
        tenant: r.binding.tenant,
        actor: r.binding.actor,
        occurred_at: r.binding.occurred_at,
        action: r.action,
        target: r.target,
        reason: r.reason,
        decision_id: r.binding.decision_id,
        policy_version: r.binding.policy_version,
        subject: r.subject,
    }
}

/// One accepted administration command ready for execution.
pub struct AdminCommand {
    id: AdminCommandId,
    tenant_id: TenantId,
    actor: PrincipalId,
    occurred_at: UnixInstant,
    action: AdminActionKind,
    target: AdminTarget,
    reason_code: String,
    decision_id: String,
    policy_version: u64,
    authorization_subject: AuthorizationSubject,
}

impl View for AdminCommand {
    type V = AdminCommandView;

    closed spec fn view(&self) -> AdminCommandView {
        AdminCommandView {
            id: self.id@,
            tenant: self.tenant_id@,
            actor: self.actor@,
            occurred_at: self.occurred_at@,
            action: self.action,
            target: self.target@,
            reason: self.reason_code@,
            decision_id: self.decision_id@,
            policy_version: self.policy_version,
            subject: self.authorization_subject@,
        }
    }
}

fn validate_decision_identity(binding: &AdminCommandBinding, decision: &AuthorizationDecision) -> (res: Result<(), AdminError>)
    ensures
        res is Ok <==> (decision@.decision_id == binding@.decision_id && decision@.policy_version
            == binding@.policy_version && decision@.evaluated_at == binding@.occurred_at),
        res is Err ==> res->Err_0.code == AdminErrorCode::DecisionMismatch,
{
    if decision.decision_id != binding.decision_id {
        return Err(AdminError::new(AdminErrorCode::DecisionMismatch));
    }
    if decision.policy_version != binding.policy_version {
        return Err(AdminError::new(AdminErrorCode::DecisionMismatch));
    }
    if decision.evaluated_at.unix_nanos() != binding.occurred_at.unix_nanos() {
        return Err(AdminError::new(AdminErrorCode::DecisionMismatch));
    }
    Ok(())
}

fn validate_decision_subject(binding: &AdminCommandBinding, decision: &AuthorizationDecision) -> (res: Result<(), AdminError>)
    ensures
        decision@.tenant != binding@.tenant ==> res == Err::<(), AdminError>(AdminError { code: AdminErrorCode::TenantMismatch }),
        decision@.tenant == binding@.tenant && decision@.principal != binding@.actor ==> res == Err::<(), AdminError>(AdminError { code: AdminErrorCode::DecisionMismatch }),
        decision@.tenant == binding@.tenant && decision@.principal == binding@.actor ==> res is Ok,
{
    if !decision.tenant_id.same_id(&binding.tenant_id) {
        return Err(AdminError::new(AdminErrorCode::TenantMismatch));
    }
    if !str_equals(decision.principal_id.as_str(), binding.actor.as_str()) {
        return Err(AdminError::new(AdminErrorCode::DecisionMismatch));
    }
    Ok(())
}

fn validate_decision_result(action: AdminActionKind, decision: &AuthorizationDecision) -> (res: Result<(), AdminError>)
    ensures
        !decision@.allowed ==> res == Err::<(), AdminError>(AdminError { code: AdminErrorCode::AuthorizationDenied }),
        decision@.allowed && (decision@.intent, decision@.state) != expected_target_state_of(action) ==> res == Err::<(), AdminError>(AdminError { code: AdminErrorCode::DecisionMismatch }),
        decision@.allowed && (decision@.intent, decision@.state) == expected_target_state_of(action) ==> res is Ok,
{
    if !decision.allowed {
        return Err(AdminError::new(AdminErrorCode::AuthorizationDenied));
    }
    let (intent, state) = expected_target_state(action);
    if decision.intent != intent || decision.resource_state != state {
        return Err(AdminError::new(AdminErrorCode::DecisionMismatch));
    }
    Ok(())
}

fn validate_decision_target(
    binding: &AdminCommandBinding,
    action: AdminActionKind,
    target: &AdminTarget,
    decision: &AuthorizationDecision,
) -> (res: Result<(), AdminError>)
    ensures
        res is Ok <==> (decision@.permission == action_permission_text(action) && decision@.scope
            == expected_scope_of(binding@.tenant, target@)),
        res is Err ==> res->Err_0.code == AdminErrorCode::DecisionMismatch,
{
    if !str_equals(decision.permission_id.as_str(), action_permission(action)) {
        return Err(AdminError::new(AdminErrorCode::DecisionMismatch));
    }
    let expected = expected_scope(&binding.tenant_id, target);
    if !decision.scope.same_scope(&expected) {
        return Err(AdminError::new(AdminErrorCode::DecisionMismatch));
    }
    Ok(())
}

fn validate_subject_binding(binding: &AdminCommandBinding, subject: &AuthorizationSubject) -> (res: Result<(), AdminError>)
    ensures
        subject@.principal.tenant_id != binding@.tenant ==> res == Err::<(), AdminError>(AdminError { code: AdminErrorCode::TenantMismatch }),
        subject@.principal.tenant_id == binding@.tenant && subject@.principal.principal_id != binding@.actor ==> res == Err::<(), AdminError>(AdminError { code: AdminErrorCode::DecisionMismatch }),
        subject@.principal.tenant_id == binding@.tenant && subject@.principal.principal_id == binding@.actor ==> res is Ok,
{
    if !subject.principal.tenant_id().same_id(&binding.tenant_id) {
        return Err(AdminError::new(AdminErrorCode::TenantMismatch));
    }
    if !str_equals(subject.principal.principal_id().as_str(), binding.actor.as_str()) {
        return Err(AdminError::new(AdminErrorCode::DecisionMismatch));
    }
    Ok(())
}

/// Accepts one administration command when its decision authorizes exactly
/// this command; otherwise the first rule it breaks (see
/// [`acceptance_failure`]) is the error.
pub fn accept_admin_command(request: AdminCommandRequest) -> (res: Result<AdminCommand, AdminError>)
    ensures
        res is Ok <==> acceptance_failure(request@) is None,
        res is Err ==> Some(res->Err_0.code) == acceptance_failure(request@),
        res matches Ok(c) ==> c@ == accepted_command_of(request@),
{
    let AdminCommandRequest { binding, action, target, reason_code, authorization_subject, decision } = request;
    validate_action_target(action, &target)?;
    validate_decision_identity(&binding, &decision)?;
    validate_decision_subject(&binding, &decision)?;
    validate_decision_result(action, &decision)?;
    validate_decision_target(&binding, action, &target, &decision)?;
    validate_subject_binding(&binding, &authorization_subject)?;
    let AdminCommandBinding { id, tenant_id, actor, occurred_at, decision_id, policy_version } = binding;
    Ok(AdminCommand {
        id,
        tenant_id,
        actor,
        occurred_at,
        action,
        target,
        reason_code,
        decision_id,
        policy_version,
        authorization_subject,
    })
}

impl AdminCommand {
    /// Returns the command identity.
    pub fn id(&self) -> (res: &AdminCommandId)
        ensures
            res@ == self@.id,
    {
        &self.id
    }

    /// Returns the tenant boundary.
    pub fn tenant_id(&self) -> (res: &TenantId)
        ensures
            res@ == self@.tenant,
    {
        &self.tenant_id
    }

    /// Returns the trusted actor.
    pub fn actor(&self) -> (res: &PrincipalId)
        ensures
            res@ == self@.actor,
    {
        &self.actor
    }

    /// Returns the trusted command instant.
    pub fn occurred_at(&self) -> (res: UnixInstant)
        ensures
            res@ == self@.occurred_at,
    {
        self.occurred_at
    }

    /// Returns the action kind.
    pub fn action(&self) -> (res: AdminActionKind)
        ensures
            res == self@.action,
    {
        self.action
    }

    /// Returns the target.
    pub fn target(&self) -> (res: &AdminTarget)
        ensures
            res@ == self@.target,
    {
        &self.target
    }

    /// Returns the reason code.
    pub fn reason_code(&self) -> (res: &str)
        ensures
            res@ == self@.reason,
    {
        self.reason_code.as_str()
    }

    /// Returns the authorizing decision identity.
    pub fn decision_id(&self) -> (res: &str)
        ensures
            res@ == self@.decision_id,
    {
        self.decision_id.as_str()
    }

    /// Returns the policy version that authorized this command.
    pub fn policy_version(&self) -> (res: u64)
        ensures
            res == self@.policy_version,
    {
        self.policy_version
    }

    /// Returns the subject identity the command was authorized for.
    pub fn authorization_subject(&self) -> (res: &AuthorizationSubject)
        ensures
            res@ == self@.subject,
    {
        &self.authorization_subject
    }

    /// The request that re-evaluates this exact command for freshly loaded
    /// `subject` facts at `evaluated_at`: same decision identity and policy
    /// version, the action's permission on the target's scope, in the target
    /// state the action expects.
    pub fn reauthorization_request(&self, subject: AuthorizationSubject, evaluated_at: UnixInstant) -> (res: AuthorizationRequest)
        ensures
            res@ == (AuthorizationRequestView {
                decision_id: self@.decision_id,
                policy_version: self@.policy_version,
                subject: subject@,
                target: authorization_target_of(
                    self@.action,
                    self@.tenant,
                    self@.target,
                    expected_target_state_of(self@.action).1,
                ),
                evaluated_at: evaluated_at@,
            }),
    {
        let (_, state) = expected_target_state(self.action);
        let target = authorization_target(self.action, &self.tenant_id, &self.target, state);
        AuthorizationRequest {
            decision_id: self.decision_id.clone(),
            policy_version: self.policy_version,
            subject,
            target,
            evaluated_at,
        }
    }

    /// Whether this command remains authorized for freshly loaded `subject`
    /// facts, given the `decision` the policy returned for
    /// [`Self::reauthorization_request`]: the subject's principal, user and
    /// membership identities must be those the command was accepted for, and
    /// the decision must allow.
    pub fn remains_authorized(&self, subject: &AuthorizationSubject, decision: &AuthorizationDecision) -> (res: bool)
        ensures
            res == (self@.subject == subject@ && decision@.allowed),
    {
        if !same_subject_identity(&self.authorization_subject, subject) {
            return false;
        }
        decision.allowed
    }
}

/// The authenticated tenant and principal that transient evidence binds.
#[derive(Debug)]
pub struct AuthenticatedPrincipalEvidence {
    tenant_id: TenantId,
    principal_id: PrincipalId,
}

impl View for AuthenticatedPrincipalEvidence {
    type V = PrincipalContextView;

    closed spec fn view(&self) -> PrincipalContextView {
        PrincipalContextView { tenant_id: self.tenant_id@, principal_id: self.principal_id@ }
    }
}

impl AuthenticatedPrincipalEvidence {
    /// Evidence binding `principal_id` within `tenant_id`.
    pub fn new(tenant_id: TenantId, principal_id: PrincipalId) -> (res: Self)
        ensures
            res@ == (PrincipalContextView { tenant_id: tenant_id@, principal_id: principal_id@ }),
    {
        AuthenticatedPrincipalEvidence { tenant_id, principal_id }
    }

    /// Returns the authenticated tenant.
    pub fn tenant_id(&self) -> (res: &TenantId)
        ensures
            res@ == self@.tenant_id,
    {
        &self.tenant_id
    }

    /// Returns the authenticated principal.
    pub fn principal_id(&self) -> (res: &PrincipalId)
        ensures
            res@ == self@.principal_id,
    {
        &self.principal_id
    }
}

/// Maps the failure of a request context that is no longer active, if any,
/// onto an administration failure.
pub fn check_context(context_failure: Option<CoreErrorCode>) -> (res: Result<(), AdminError>)
    ensures
        match context_failure {
            None => res is Ok,
            Some(c) => res == Err::<(), AdminError>(AdminError { code: admin_context_code(c) }),
        },
{
    match context_failure {
        None => Ok(()),
        Some(code) => Err(admin_context_failure(code)),
    }
}

/// Derives the principal and the authenticated request context from the
/// evidence, once the request is still active.
pub fn prepare_execution(evidence: &AuthenticatedPrincipalEvidence, context_failure: Option<CoreErrorCode>) -> (res: Result<
    (PrincipalContext, RequestContext),
    AdminError,
>)
    ensures
        match context_failure {
            None => res matches Ok((p, c)) && p@ == evidence@ && c@ == Some(evidence@),
            Some(code) => res == Err::<(PrincipalContext, RequestContext), AdminError>(AdminError { code: admin_context_code(code) }),
        },
{
    check_context(context_failure)?;
    let principal = PrincipalContext::new(evidence.tenant_id().clone(), evidence.principal_id().clone());
    let authenticated = RequestContext::authenticated(principal.clone());
    Ok((principal, authenticated))
}

/// Abstract execution request.
pub struct AdminExecutionRequestView {
    /// The command identity.
    pub command_id: Seq<char>,
    /// The one-time decision identity.
    pub decision_id: Seq<char>,
    /// The policy version the caller expects.
    pub policy_version: u64,
    /// The action.
    pub action: AdminActionKind,
    /// The target.
    pub target: AdminTargetView,
    /// The reason code.
    pub reason: Seq<char>,
}

/// Bounded caller intent that contains no reusable authorization decision.
pub struct AdminExecutionRequest {
    command_id: AdminCommandId,
    decision_id: String,
    expected_policy_version: u64,
    action: AdminActionKind,
    target: AdminTarget,
    reason_code: String,
}

impl View for AdminExecutionRequest {
    type V = AdminExecutionRequestView;

    closed spec fn view(&self) -> AdminExecutionRequestView {
        AdminExecutionRequestView {
            command_id: self.command_id@,
            decision_id: self.decision_id@,
            policy_version: self.expected_policy_version,
            action: self.action,
            target: self.target@,
            reason: self.reason_code@,
        }
    }
}

impl AdminExecutionRequest {
    #[verifier::type_invariant]
    spec fn well_formed(self) -> bool {
        &&& action_target_kind(self.action) == kind_of(self.target@)
        &&& valid_reason_code(self.reason_code@)
    }

    /// Creates one bounded execution intent; an action that cannot operate on
    /// the target's category, or an invalid reason code, is `InvalidArgument`.
    pub fn new(
        command_id: AdminCommandId,
        decision_id: String,
        expected_policy_version: u64,
        action: AdminActionKind,
        target: AdminTarget,
        reason_code: &str,
    ) -> (res: Result<Self, AdminError>)
        ensures
            res is Ok <==> (action_target_kind(action) == kind_of(target@) && valid_reason_code(reason_code@)),
            res is Err ==> res->Err_0.code == AdminErrorCode::InvalidArgument,
            res matches Ok(r) ==> r@ == (AdminExecutionRequestView {
                command_id: command_id@,
                decision_id: decision_id@,
                policy_version: expected_policy_version,
                action,
                target: target@,
                reason: reason_code@,
            }),
    {
        validate_action_target(action, &target)?;
        let reason_code = parse_reason_code(reason_code)?;
        Ok(AdminExecutionRequest { command_id, decision_id, expected_policy_version, action, target, reason_code })
    }

    /// Returns the exact target.
    pub(crate) fn target(&self) -> (res: &AdminTarget)
        ensures
            res@ == self@.target,
    {
        &self.target
    }

    /// Returns the policy version the caller expects.
    pub(crate) fn expected_policy_version(&self) -> (res: u64)
        ensures
            res == self@.policy_version,
    {
        self.expected_policy_version
    }
}

/// Abstract replay intent.
pub struct AdminCommandIntentView {
    /// The command identity.
    pub command_id: Seq<char>,
    /// The authenticated tenant.
    pub tenant: Seq<char>,
    /// The authenticated actor.
    pub actor: Seq<char>,
    /// The one-time decision identity.
    pub decision_id: Seq<char>,
    /// The policy version the caller expects.
    pub policy_version: u64,
    /// The action.
    pub action: AdminActionKind,
    /// The target.
    pub target: AdminTargetView,
    /// The reason code.
    pub reason: Seq<char>,
}

/// Authenticated stable material used to reconcile command replays: the
/// request's intent bound to the authenticated principal, without the
/// evaluation instant or any mutable authorization fact.
pub struct AdminCommandIntent {
    command_id: AdminCommandId,
    tenant_id: TenantId,
    actor: PrincipalId,
    decision_id: String,
    expected_policy_version: u64,
    action: AdminActionKind,
    target: AdminTarget,
    reason_code: String,
}

impl View for AdminCommandIntent {
    type V = AdminCommandIntentView;

    closed spec fn view(&self) -> AdminCommandIntentView {
        AdminCommandIntentView {
            command_id: self.command_id@,
            tenant: self.tenant_id@,
            actor: self.actor@,
            decision_id: self.decision_id@,
            policy_version: self.expected_policy_version,
            action: self.action,
            target: self.target@,
            reason: self.reason_code@,
        }
    }
}

/// The replay intent of `request` made by `principal`.
pub open spec fn intent_of(request: AdminExecutionRequestView, principal: PrincipalContextView) -> AdminCommandIntentView {
    AdminCommandIntentView {
        command_id: request.command_id,
        tenant: principal.tenant_id,
        actor: principal.principal_id,
        decision_id: request.decision_id,
        policy_version: request.policy_version,
        action: request.action,
        target: request.target,
        reason: request.reason,
    }
}

/// Whether a command carries exactly the stable material of an intent.
pub open spec fn intent_matches_command(i: AdminCommandIntentView, c: AdminCommandView) -> bool {
    &&& c.id == i.command_id
    &&& c.tenant == i.tenant
    &&& c.actor == i.actor
    &&& c.decision_id == i.decision_id
    &&& c.policy_version == i.policy_version
    &&& c.action == i.action
    &&& c.target == i.target
    &&& c.reason == i.reason
}

impl AdminCommandIntent {
    /// Binds `request` to the authenticated `principal`.
    pub fn from_request(request: &AdminExecutionRequest, principal: &PrincipalContext) -> (res: Self)
        ensures
            res@ == intent_of(request@, principal@),
    {
        AdminCommandIntent {
            command_id: request.command_id.clone(),
            tenant_id: principal.tenant_id().clone(),
            actor: principal.principal_id().clone(),
            decision_id: request.decision_id.clone(),
            expected_policy_version: request.expected_policy_version,
            action: request.action,
            target: request.target.clone(),
            reason_code: request.reason_code.clone(),
        }
    }

    /// Returns the opaque command identity.
    pub fn command_id(&self) -> (res: &AdminCommandId)
        ensures
            res@ == self@.command_id,
    {
        &self.command_id
    }

    /// Returns the authenticated tenant boundary.
    pub fn tenant_id(&self) -> (res: &TenantId)
        ensures
            res@ == self@.tenant,
    {
        &self.tenant_id
    }

    /// Returns the authenticated actor.
    pub fn actor(&self) -> (res: &PrincipalId)
        ensures
            res@ == self@.actor,
    {
        &self.actor
    }

    /// Returns the caller-provided one-time decision identity.
    pub fn decision_id(&self) -> (res: &str)
        ensures
            res@ == self@.decision_id,
    {
        self.decision_id.as_str()
    }

    /// Returns the policy version expected by the caller.
    pub fn expected_policy_version(&self) -> (res: u64)
        ensures
            res == self@.policy_version,
    {
        self.expected_policy_version
    }

    /// Returns the administration action.
    pub fn action(&self) -> (res: AdminActionKind)
        ensures
            res == self@.action,
    {
        self.action
    }

    /// Returns the exact tenant-bound target.
    pub fn target(&self) -> (res: &AdminTarget)
        ensures
            res@ == self@.target,
    {
        &self.target
    }

    /// Returns the bounded stable reason code.
    pub fn reason_code(&self) -> (res: &str)
        ensures
            res@ == self@.reason,
    {
        self.reason_code.as_str()
    }

    /// Reports whether `command` carries exactly this intent's stable material.
    pub fn matches_command(&self, command: &AdminCommand) -> (res: bool)
        ensures
            res == intent_matches_command(self@, command@),
    {
        str_equals(command.id.as_str(), self.command_id.as_str()) && command.tenant_id.same_id(&self.tenant_id)
            && str_equals(command.actor.as_str(), self.actor.as_str()) && command.decision_id == self.decision_id
            && command.policy_version == self.expected_policy_version && command.action == self.action
            && same_target(&command.target, &self.target) && command.reason_code == self.reason_code
    }
}

/// Abstract authorization snapshot.
pub struct AuthoritativeAuthorizationSnapshotView {
    /// The version of the active policy.
    pub policy_version: u64,
    /// The tenant the active policy governs.
    pub policy_tenant: Seq<char>,
    /// The subject facts.
    pub subject: AuthorizationSubjectView,
    /// The current target state.
    pub state: ResourceState,
    /// The trusted evaluation instant.
    pub evaluated_at: int,
}

/// One authoritative authorization snapshot loaded immediately before
/// evaluation: of the active policy, its version and the tenant it governs.
pub struct AuthoritativeAuthorizationSnapshot {
    policy_version: u64,
    policy_tenant_id: TenantId,
    subject: AuthorizationSubject,
    resource_state: ResourceState,
    evaluated_at: UnixInstant,
}

impl View for AuthoritativeAuthorizationSnapshot {
    type V = AuthoritativeAuthorizationSnapshotView;

    closed spec fn view(&self) -> AuthoritativeAuthorizationSnapshotView {
        AuthoritativeAuthorizationSnapshotView {
            policy_version: self.policy_version,
            policy_tenant: self.policy_tenant_id@,
            subject: self.subject@,
            state: self.resource_state,
            evaluated_at: self.evaluated_at@,
        }
    }
}

impl AuthoritativeAuthorizationSnapshot {
    /// Creates a trusted snapshot returned by an authoritative adapter.
    pub fn new(
        policy_version: u64,
        policy_tenant_id: TenantId,
        subject: AuthorizationSubject,
        resource_state: ResourceState,
        evaluated_at: UnixInstant,
    ) -> (res: Self)
        ensures
            res@ == (AuthoritativeAuthorizationSnapshotView {
                policy_version,
                policy_tenant: policy_tenant_id@,
                subject: subject@,
                state: resource_state,
                evaluated_at: evaluated_at@,
            }),
    {
        AuthoritativeAuthorizationSnapshot { policy_version, policy_tenant_id, subject, resource_state, evaluated_at }
    }

    /// Returns the version of the active policy.
    pub fn policy_version(&self) -> (res: u64)
        ensures
            res == self@.policy_version,
    {
        self.policy_version
    }

    /// Returns the tenant the active policy governs.
    pub fn policy_tenant_id(&self) -> (res: &TenantId)
        ensures
            res@ == self@.policy_tenant,
    {
        &self.policy_tenant_id
    }

    /// Returns the authenticated user and membership facts.
    pub fn subject(&self) -> (res: &AuthorizationSubject)
        ensures
            res@ == self@.subject,
    {
        &self.subject
    }

    /// Returns the current trusted target state.
    pub fn resource_state(&self) -> (res: ResourceState)
        ensures
            res == self@.state,
    {
        self.resource_state
    }

    /// Returns the trusted evaluation instant.
    pub fn evaluated_at(&self) -> (res: UnixInstant)
        ensures
            res@ == self@.evaluated_at,
    {
        self.evaluated_at
    }
}

/// Checks a loaded snapshot against the caller: a policy of another version
/// than expected is a `Conflict`; a policy or subject of another tenant, or a
/// subject of another principal, is an `IntegrityFailure`.
pub fn validate_snapshot(snapshot: &AuthoritativeAuthorizationSnapshot, principal: &PrincipalContext, expected: u64) -> (res: Result<(), AdminError>)
    ensures
        snapshot@.policy_version != expected ==> res == Err::<(), AdminError>(AdminError { code: AdminErrorCode::Conflict }),
        snapshot@.policy_version == expected && (snapshot@.policy_tenant != principal@.tenant_id || snapshot@.subject.principal != principal@) ==> res == Err::<(), AdminError>(AdminError { code: AdminErrorCode::IntegrityFailure }),
        snapshot@.policy_version == expected && snapshot@.policy_tenant == principal@.tenant_id && snapshot@.subject.principal == principal@ ==> res is Ok,
{
    if snapshot.policy_version != expected {
        return Err(AdminError::new(AdminErrorCode::Conflict));
    }
    let subject = &snapshot.subject.principal;
    if !snapshot.policy_tenant_id.same_id(principal.tenant_id()) || !subject.tenant_id().same_id(principal.tenant_id())
        || !str_equals(subject.principal_id().as_str(), principal.principal_id().as_str()) {
        return Err(AdminError::new(AdminErrorCode::IntegrityFailure));
    }
    Ok(())
}

/// Decides what a freshly loaded snapshot yields: a request that is no
/// longer active fails with its context failure; otherwise the snapshot is
/// held to `validate_snapshot` and returned unchanged when it passes.
pub fn checked_snapshot(
    snapshot: AuthoritativeAuthorizationSnapshot,
    context_failure: Option<CoreErrorCode>,
    principal: &PrincipalContext,
    expected: u64,
) -> (res: Result<AuthoritativeAuthorizationSnapshot, AdminError>)
    ensures
        context_failure matches Some(c) ==> res == Err::<AuthoritativeAuthorizationSnapshot, AdminError>(AdminError { code: admin_context_code(c) }),
        context_failure is None && snapshot@.policy_version != expected ==> res == Err::<AuthoritativeAuthorizationSnapshot, AdminError>(AdminError { code: AdminErrorCode::Conflict }),
        context_failure is None && snapshot@.policy_version == expected && (snapshot@.policy_tenant != principal@.tenant_id || snapshot@.subject.principal != principal@) ==> res == Err::<AuthoritativeAuthorizationSnapshot, AdminError>(AdminError { code: AdminErrorCode::IntegrityFailure }),
        context_failure is None && snapshot@.policy_version == expected && snapshot@.policy_tenant == principal@.tenant_id && snapshot@.subject.principal == principal@ ==> res == Ok::<AuthoritativeAuthorizationSnapshot, AdminError>(snapshot),
{
    check_context(context_failure)?;
    validate_snapshot(&snapshot, principal, expected)?;
    Ok(snapshot)
}

/// Denies an action on a target that is not in the state the action expects.
pub fn validate_resource_state(action: AdminActionKind, actual: ResourceState) -> (res: Result<(), AdminError>)
    ensures
        res is Ok <==> actual == expected_target_state_of(action).1,
        res is Err ==> res->Err_0.code == AdminErrorCode::AuthorizationDenied,
{
    let (_, expected) = expected_target_state(action);
    if actual != expected {
        return Err(AdminError::new(AdminErrorCode::AuthorizationDenied));
    }
    Ok(())
}

/// The policy request for `request` made by `principal` over `snapshot`.
pub open spec fn authorization_request_of(
    request: AdminExecutionRequestView,
    snapshot: AuthoritativeAuthorizationSnapshotView,
    principal: PrincipalContextView,
) -> AuthorizationRequestView {
    AuthorizationRequestView {
        decision_id: request.decision_id,
        policy_version: request.policy_version,
        subject: snapshot.subject,
        target: authorization_target_of(request.action, principal.tenant_id, request.target, snapshot.state),
        evaluated_at: snapshot.evaluated_at,
    }
}

/// Builds the request the policy evaluates for `request` made by
/// `principal`, once the target is in the state the action expects
/// (otherwise `AuthorizationDenied`).
pub fn authorization_request(
    request: &AdminExecutionRequest,
    snapshot: &AuthoritativeAuthorizationSnapshot,
    principal: &PrincipalContext,
) -> (res: Result<AuthorizationRequest, AdminError>)
    ensures
        res is Ok <==> snapshot@.state == expected_target_state_of(request@.action).1,
        res is Err ==> res->Err_0.code == AdminErrorCode::AuthorizationDenied,
        res matches Ok(r) ==> r@ == authorization_request_of(request@, snapshot@, principal@),
{
    validate_resource_state(request.action, snapshot.resource_state)?;
    let target = authorization_target(request.action, principal.tenant_id(), &request.target, snapshot.resource_state);
    Ok(AuthorizationRequest {
        decision_id: request.decision_id.clone(),
        policy_version: request.expected_policy_version,
        subject: snapshot.subject.clone(),
        target,
        evaluated_at: snapshot.evaluated_at,
    })
}

/// The acceptance request that binds `request` made by `principal` to the
/// `decision` evaluated over `snapshot`.
pub open spec fn command_request_of(
    request: AdminExecutionRequestView,
    snapshot: AuthoritativeAuthorizationSnapshotView,
    principal: PrincipalContextView,
    decision: AuthorizationDecisionView,
) -> AdminCommandRequestView {
    AdminCommandRequestView {
        binding: AdminCommandBindingView {
            id: request.command_id,
            tenant: principal.tenant_id,
            actor: principal.principal_id,
            occurred_at: snapshot.evaluated_at,
            decision_id: request.decision_id,
            policy_version: request.policy_version,
        },
        action: request.action,
        target: request.target,
        reason: request.reason,
        subject: snapshot.subject,
        decision,
    }
}

/// Authorizes `request` made by `principal` with the `decision` the policy
/// returned for [`authorization_request`]: the target must be in the state
/// the action expects (otherwise `AuthorizationDenied`), and the decision
/// must authorize exactly this command, bound to the principal and to the
/// snapshot's evaluation instant (otherwise the first rule it breaks).
pub fn authorize_command(
    request: AdminExecutionRequest,
    snapshot: AuthoritativeAuthorizationSnapshot,
    principal: &PrincipalContext,
    decision: AuthorizationDecision,
) -> (res: Result<AdminCommand, AdminError>)
    ensures
        snapshot@.state != expected_target_state_of(request@.action).1 ==> res == Err::<AdminCommand, AdminError>(AdminError { code: AdminErrorCode::AuthorizationDenied }),
        snapshot@.state == expected_target_state_of(request@.action).1 ==> (res is Ok <==> acceptance_failure(command_request_of(request@, snapshot@, principal@, decision@)) is None),
        snapshot@.state == expected_target_state_of(request@.action).1 && res is Err ==> Some(res->Err_0.code) == acceptance_failure(command_request_of(request@, snapshot@, principal@, decision@)),
        res matches Ok(c) ==> c@ == accepted_command_of(command_request_of(request@, snapshot@, principal@, decision@)),
{
    proof {
        use_type_invariant(&request);
    }
    validate_resource_state(request.action, snapshot.resource_state)?;
    let AdminExecutionRequest { command_id, decision_id, expected_policy_version, action, target, reason_code } = request;
    let AuthoritativeAuthorizationSnapshot { subject, evaluated_at, .. } = snapshot;
    let binding = AdminCommandBinding::new(
        command_id,
        principal.tenant_id().clone(),
        principal.principal_id().clone(),
        evaluated_at,
        decision_id,
        expected_policy_version,
    );
    let command = AdminCommandRequest::new(binding, action, target, reason_code.as_str(), subject, decision)?;
    accept_admin_command(command)
}

/// Abstract durable receipt.
pub struct AdminCommandReceiptView {
    /// The command identity.
    pub command_id: Seq<char>,
    /// The tenant boundary.
    pub tenant: Seq<char>,
    /// The consumed decision identity.
    pub decision_id: Seq<char>,
    /// The policy version rechecked by the mutation.
    pub policy_version: u64,
    /// The durable application instant.
    pub applied_at: int,
}

/// Durable receipt for the first application or exact replay of one command.
pub struct AdminCommandReceipt {
    command_id: AdminCommandId,
    tenant_id: TenantId,
    decision_id: String,
    policy_version: u64,
    applied_at: UnixInstant,
}

impl View for AdminCommandReceipt {
    type V = AdminCommandReceiptView;

    closed spec fn view(&self) -> AdminCommandReceiptView {
        AdminCommandReceiptView {
            command_id: self.command_id@,
            tenant: self.tenant_id@,
            decision_id: self.decision_id@,
            policy_version: self.policy_version,
            applied_at: self.applied_at@,
        }
    }
}

/// Whether a receipt records the command, tenant, decision and policy
/// version of an intent.
pub open spec fn receipt_matches_intent(r: AdminCommandReceiptView, i: AdminCommandIntentView) -> bool {
    &&& r.command_id == i.command_id
    &&& r.tenant == i.tenant
    &&& r.decision_id == i.decision_id
    &&& r.policy_version == i.policy_version
}

impl AdminCommandReceipt {
    /// Creates a receipt from durable command-ledger facts.
    pub fn new(
        command_id: AdminCommandId,
        tenant_id: TenantId,
        decision_id: String,
        policy_version: u64,
        applied_at: UnixInstant,
    ) -> (res: Self)
        ensures
            res@ == (AdminCommandReceiptView {
                command_id: command_id@,
                tenant: tenant_id@,
                decision_id: decision_id@,
                policy_version,
                applied_at: applied_at@,
            }),
    {
        AdminCommandReceipt { command_id, tenant_id, decision_id, policy_version, applied_at }
    }

    /// Returns the opaque command identity.
    pub fn command_id(&self) -> (res: &AdminCommandId)
        ensures
            res@ == self@.command_id,
    {
        &self.command_id
    }

    /// Returns the tenant boundary.
    pub fn tenant_id(&self) -> (res: &TenantId)
        ensures
            res@ == self@.tenant,
    {
        &self.tenant_id
    }

    /// Returns the consumed authorization decision identity.
    pub fn decision_id(&self) -> (res: &str)
        ensures
            res@ == self@.decision_id,
    {
        self.decision_id.as_str()
    }

    /// Returns the policy version rechecked by the mutation.
    pub fn policy_version(&self) -> (res: u64)
        ensures
            res == self@.policy_version,
    {
        self.policy_version
    }

    /// Returns the trusted durable application instant.
    pub fn applied_at(&self) -> (res: UnixInstant)
        ensures
            res@ == self@.applied_at,
    {
        self.applied_at
    }

    /// Reports whether this receipt records the stable identities of `intent`.
    pub fn matches_intent(&self, intent: &AdminCommandIntent) -> (res: bool)
        ensures
            res == receipt_matches_intent(self@, intent@),
    {
        str_equals(self.command_id.as_str(), intent.command_id().as_str()) && self.tenant_id.same_id(intent.tenant_id())
            && str_equals(self.decision_id.as_str(), intent.decision_id())
            && self.policy_version == intent.expected_policy_version()
    }
}

/// Repository result: the first durable application, or the receipt of an
/// exact earlier one.
pub enum AdminCommandExecution {
    /// This invocation performed the first durable mutation.
    Applied(AdminCommandReceipt),
    /// Another invocation already durably applied the exact stable material.
    Replayed(AdminCommandReceipt),
}

/// Whether an execution performed the first durable mutation.
pub open spec fn execution_applied(e: AdminCommandExecution) -> bool {
    e is Applied
}

/// The receipt an execution carries.
pub open spec fn execution_receipt(e: AdminCommandExecution) -> AdminCommandReceiptView {
    match e {
        AdminCommandExecution::Applied(r) => r@,
        AdminCommandExecution::Replayed(r) => r@,
    }
}

impl AdminCommandExecution {
    /// Reports that this invocation performed the first durable mutation.
    pub fn applied(receipt: AdminCommandReceipt) -> (res: Self)
        ensures
            execution_applied(res),
            execution_receipt(res) == receipt@,
    {
        AdminCommandExecution::Applied(receipt)
    }

    /// Reports that a concurrent invocation already applied the exact command.
    pub fn replayed(receipt: AdminCommandReceipt) -> (res: Self)
        ensures
            !execution_applied(res),
            execution_receipt(res) == receipt@,
    {
        AdminCommandExecution::Replayed(receipt)
    }

    /// Returns whether this invocation performed the first durable mutation.
    pub fn is_applied(&self) -> (res: bool)
        ensures
            res == execution_applied(*self),
    {
        match self {
            AdminCommandExecution::Applied(_) => true,
            AdminCommandExecution::Replayed(_) => false,
        }
    }

    /// Returns the durable receipt.
    pub fn receipt(&self) -> (res: &AdminCommandReceipt)
        ensures
            res@ == execution_receipt(*self),
    {
        match self {
            AdminCommandExecution::Applied(r) => r,
            AdminCommandExecution::Replayed(r) => r,
        }
    }

    /// Returns the durable receipt, consuming the execution.
    pub fn into_receipt(self) -> (res: AdminCommandReceipt)
        ensures
            res@ == execution_receipt(self),
    {
        match self {
            AdminCommandExecution::Applied(r) => r,
            AdminCommandExecution::Replayed(r) => r,
        }
    }
}

/// Accepts a replayed receipt only when it records the intent's stable
/// identities; anything else is an `IntegrityFailure`.
pub fn validate_replay_receipt(receipt: &AdminCommandReceipt, intent: &AdminCommandIntent) -> (res: Result<(), AdminError>)
    ensures
        res is Ok <==> receipt_matches_intent(receipt@, intent@),
        res is Err ==> res->Err_0.code == AdminErrorCode::IntegrityFailure,
{
    if !receipt.matches_intent(intent) {
        return Err(AdminError::new(AdminErrorCode::IntegrityFailure));
    }
    Ok(())
}

/// Decides what a replay lookup yields: a request that is no longer active
/// fails with its context failure; otherwise no stored receipt is `None`, and
/// a stored receipt is returned only when it records the intent's stable
/// identities, anything else being an `IntegrityFailure`.
pub fn replay_outcome(
    found: Option<AdminCommandReceipt>,
    context_failure: Option<CoreErrorCode>,
    intent: &AdminCommandIntent,
) -> (res: Result<Option<AdminCommandReceipt>, AdminError>)
    ensures
        context_failure matches Some(c) ==> res == Err::<Option<AdminCommandReceipt>, AdminError>(AdminError { code: admin_context_code(c) }),
        context_failure is None && found is None ==> res == Ok::<Option<AdminCommandReceipt>, AdminError>(None),
        context_failure is None && found is Some && receipt_matches_intent(found->Some_0@, intent@) ==> res == Ok::<Option<AdminCommandReceipt>, AdminError>(found),
        context_failure is None && found is Some && !receipt_matches_intent(found->Some_0@, intent@) ==> res == Err::<Option<AdminCommandReceipt>, AdminError>(AdminError { code: AdminErrorCode::IntegrityFailure }),
{
    check_context(context_failure)?;
    match found {
        Some(receipt) => {
            validate_replay_receipt(&receipt, intent)?;
            Ok(Some(receipt))
        },
        None => Ok(None),
    }
}

/// Whether a repository execution is consistent with the intent and the
/// accepted command: the command carries the intent's material, the receipt
/// records it, and a first application is not dated before the command.
pub open spec fn execution_consistent(e: AdminCommandExecution, i: AdminCommandIntentView, c: AdminCommandView) -> bool {
    &&& intent_matches_command(i, c)
    &&& receipt_matches_intent(execution_receipt(e), i)
    &&& (execution_applied(e) ==> c.occurred_at <= execution_receipt(e).applied_at)
}

/// Returns the receipt of a repository execution that is consistent with the
/// intent and command; anything else is an `IntegrityFailure`.
pub fn validate_execution(execution: AdminCommandExecution, intent: &AdminCommandIntent, command: &AdminCommand) -> (res: Result<
    AdminCommandReceipt,
    AdminError,
>)
    ensures
        res is Ok <==> execution_consistent(execution, intent@, command@),
        res is Err ==> res->Err_0.code == AdminErrorCode::IntegrityFailure,
        res matches Ok(r) ==> r@ == execution_receipt(execution),
{
    if !intent.matches_command(command) || !execution.receipt().matches_intent(intent) {
        return Err(AdminError::new(AdminErrorCode::IntegrityFailure));
    }
    if execution.is_applied() && execution.receipt().applied_at().precedes(command.occurred_at()) {
        return Err(AdminError::new(AdminErrorCode::IntegrityFailure));
    }
    Ok(execution.into_receipt())
}

/// No command is accepted unless its decision allows it and is bound to it:
/// an accepted request's decision allows, carries the command's decision
/// identity, policy version, instant, tenant and actor, was evaluated under
/// the action's intent and target state, for the action's permission on the
/// target's scope, and the subject is the command's principal.
pub proof fn accepted_commands_are_authorized(r: AdminCommandRequestView)
    requires
        acceptance_failure(r) is None,
    ensures
        r.decision.allowed,
        r.decision.decision_id == r.binding.decision_id,
        r.decision.policy_version == r.binding.policy_version,
        r.decision.evaluated_at == r.binding.occurred_at,
        r.decision.tenant == r.binding.tenant,
        r.decision.principal == r.binding.actor,
        (r.decision.intent, r.decision.state) == expected_target_state_of(r.action),
        r.decision.permission == action_permission_text(r.action),
        r.decision.scope == expected_scope_of(r.binding.tenant, r.target),
        r.subject.principal.tenant_id == r.binding.tenant,
        r.subject.principal.principal_id == r.binding.actor,
        action_target_kind(r.action) == kind_of(r.target),
{
}

/// A command authorized for one principal is authorized for no other: the
/// accepted command's tenant and actor are the requesting principal's.
pub proof fn authorized_commands_belong_to_principal(
    request: AdminExecutionRequestView,
    snapshot: AuthoritativeAuthorizationSnapshotView,
    principal: PrincipalContextView,
    decision: AuthorizationDecisionView,
)
    requires
        acceptance_failure(command_request_of(request, snapshot, principal, decision)) is None,
    ensures
        accepted_command_of(command_request_of(request, snapshot, principal, decision)).tenant == principal.tenant_id,
        accepted_command_of(command_request_of(request, snapshot, principal, decision)).actor == principal.principal_id,
        decision.tenant == principal.tenant_id,
        decision.principal == principal.principal_id,
        snapshot.subject.principal == principal,
{
}

/// The replay intent leaves out the evaluation instant and every mutable
/// authorization fact, so an exact retry yields the same intent, and the
/// command it authorizes carries exactly that intent's material.
pub proof fn accepted_command_matches_its_intent(
    request: AdminExecutionRequestView,
    snapshot: AuthoritativeAuthorizationSnapshotView,
    principal: PrincipalContextView,
    decision: AuthorizationDecisionView,
)
    ensures
        intent_matches_command(
            intent_of(request, principal),
            accepted_command_of(command_request_of(request, snapshot, principal, decision)),
        ),
{
}

/// Each action's authorization intent and required target state: restoring
/// a user and unfreezing an organization recover a restricted (suspended or
/// frozen) target; suspending, freezing and revoking need an active one.
/// So an action and the one that undoes it ask for opposite states.
pub proof fn action_target_states(action: AdminActionKind)
    ensures
        action == AdminActionKind::RestoreUser ==> expected_target_state_of(action) == (
            AuthorizationIntent::Recovery,
            ResourceState::Restricted,
        ),
        action == AdminActionKind::UnfreezeOrganization ==> expected_target_state_of(action) == (
            AuthorizationIntent::Recovery,
            ResourceState::Restricted,
        ),
        action == AdminActionKind::SuspendUser ==> expected_target_state_of(action) == (
            AuthorizationIntent::Access,
            ResourceState::Active,
        ),
        action == AdminActionKind::FreezeOrganization ==> expected_target_state_of(action) == (
            AuthorizationIntent::Access,
            ResourceState::Active,
        ),
        action == AdminActionKind::RevokeInvitation ==> expected_target_state_of(action) == (
            AuthorizationIntent::Access,
            ResourceState::Active,
        ),
        action == AdminActionKind::RevokeApiKey ==> expected_target_state_of(action) == (
            AuthorizationIntent::Access,
            ResourceState::Active,
        ),
        expected_target_state_of(AdminActionKind::SuspendUser).1 != expected_target_state_of(
            AdminActionKind::RestoreUser,
        ).1,
        expected_target_state_of(AdminActionKind::FreezeOrganization).1 != expected_target_state_of(
            AdminActionKind::UnfreezeOrganization,
        ).1,
{
}

} // verus!
