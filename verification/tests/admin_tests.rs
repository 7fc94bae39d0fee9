use ariadnion_api::admin::command::{
    AdminCommand, AdminCommandExecution, AdminCommandIntent, AdminCommandReceipt,
    AdminExecutionRequest, AuthenticatedPrincipalEvidence, AuthorizationDecision,
    AuthorizationIntent, AuthorizationScope, AuthorizationSubject,
    AuthoritativeAuthorizationSnapshot, MembershipIdentity, ResourceState, authorization_request,
    authorize_command, check_context, checked_snapshot, expected_scope, expected_target_state, prepare_execution,
    replay_outcome, same_membership_identity, validate_execution, validate_replay_receipt, validate_resource_state,
    validate_snapshot,
};
use ariadnion_api::admin::{
    AdminActionKind, AdminCommandId, AdminErrorCode, AdminTarget, AdminTargetKind,
    action_permission, admin_context_failure, parse_reason_code, validate_action_target,
};
use ariadnion_api::domain::batch_timestamps::UnixInstant;
use ariadnion_api::platform::{CoreErrorCode, PrincipalContext, PrincipalId, TenantId};

const TENANT: &str = "tenant-1";
const ACTOR: &str = "principal-1";

fn principal() -> PrincipalContext {
    PrincipalContext::new(TenantId::new(TENANT), PrincipalId::new(ACTOR))
}

fn subject() -> AuthorizationSubject {
    AuthorizationSubject { principal: principal(), user_id: "user-9".to_owned(), membership: None }
}

fn request(action: AdminActionKind, target: AdminTarget) -> AdminExecutionRequest {
    AdminExecutionRequest::new(
        AdminCommandId::parse("cmd-1").unwrap(),
        "decision-1".to_owned(),
        7,
        action,
        target,
        "POLICY_BREACH",
    )
    .unwrap()
}

fn snapshot(state: ResourceState, at: i128) -> AuthoritativeAuthorizationSnapshot {
    AuthoritativeAuthorizationSnapshot::new(
        7,
        TenantId::new(TENANT),
        subject(),
        state,
        UnixInstant::from_unix_nanos(at),
    )
}

fn allowing_decision(action: AdminActionKind, target: &AdminTarget, at: i128) -> AuthorizationDecision {
    let (intent, state) = expected_target_state(action);
    AuthorizationDecision {
        decision_id: "decision-1".to_owned(),
        policy_version: 7,
        evaluated_at: UnixInstant::from_unix_nanos(at),
        tenant_id: TenantId::new(TENANT),
        principal_id: PrincipalId::new(ACTOR),
        allowed: true,
        intent,
        resource_state: state,
        permission_id: action_permission(action).to_owned(),
        scope: expected_scope(&TenantId::new(TENANT), target),
    }
}

fn suspend_user() -> (AdminActionKind, AdminTarget) {
    (AdminActionKind::SuspendUser, AdminTarget::User("user-9".to_owned()))
}

fn accepted_command() -> (AdminCommandIntent, AdminCommand) {
    let (action, target) = suspend_user();
    let decision = allowing_decision(action, &target, 100);
    let request = request(action, target);
    let intent = AdminCommandIntent::from_request(&request, &principal());
    let command =
        authorize_command(request, snapshot(ResourceState::Active, 100), &principal(), decision).unwrap();
    (intent, command)
}

#[test]
fn admin_codes_have_stable_texts() {
    assert_eq!(AdminErrorCode::InvalidArgument.as_str(), "ADMIN_INVALID_ARGUMENT");
    assert_eq!(AdminErrorCode::DecisionMismatch.as_str(), "ADMIN_DECISION_MISMATCH");
    assert_eq!(AdminErrorCode::CommitIndeterminate.as_str(), "ADMIN_COMMIT_INDETERMINATE");
    assert_eq!(AdminErrorCode::IntegrityFailure.as_str(), "ADMIN_INTEGRITY_FAILURE");
}

#[test]
fn command_ids_are_bounded_path_free_ascii() {
    assert_eq!(AdminCommandId::parse("cmd_1.a-b").unwrap().as_str(), "cmd_1.a-b");
    for rejected in ["", "a/b", "a b", "é"] {
        assert_eq!(AdminCommandId::parse(rejected).error().code(), AdminErrorCode::InvalidArgument);
    }
    assert!(AdminCommandId::parse(&"c".repeat(128)).is_ok());
    assert!(AdminCommandId::parse(&"c".repeat(129)).is_err());
}

#[test]
fn reason_codes_are_uppercase_digits_and_underscores() {
    assert_eq!(parse_reason_code("FRAUD_2").unwrap(), "FRAUD_2");
    assert!(parse_reason_code("fraud").is_err());
    assert!(parse_reason_code("").is_err());
    assert!(parse_reason_code(&"A".repeat(65)).is_err());
    assert!(parse_reason_code(&"A".repeat(64)).is_ok());
}

#[test]
fn actions_apply_only_to_their_target_category() {
    assert!(validate_action_target(AdminActionKind::RestoreUser, &AdminTarget::User("u".into())).is_ok());
    assert!(validate_action_target(
        AdminActionKind::RevokeInvitation,
        &AdminTarget::Invitation { organization_id: "o".into(), invitation_id: "i".into() }
    )
    .is_ok());
    let error =
        validate_action_target(AdminActionKind::RevokeApiKey, &AdminTarget::User("u".into())).error();
    assert_eq!(error.code(), AdminErrorCode::InvalidArgument);
    assert_eq!(AdminTarget::ApiKey("k".into()).kind(), AdminTargetKind::ApiKey);
    assert_eq!(action_permission(AdminActionKind::RevokeApiKey), "admin.api-key.revoke");
    assert_eq!(action_permission(AdminActionKind::UnfreezeOrganization), "admin.organization.unfreeze");
}

#[test]
fn recovery_actions_expect_restricted_targets() {
    assert_eq!(
        expected_target_state(AdminActionKind::RestoreUser),
        (AuthorizationIntent::Recovery, ResourceState::Restricted)
    );
    assert_eq!(
        expected_target_state(AdminActionKind::FreezeOrganization),
        (AuthorizationIntent::Access, ResourceState::Active)
    );
    assert!(validate_resource_state(AdminActionKind::SuspendUser, ResourceState::Active).is_ok());
    assert_eq!(
        validate_resource_state(AdminActionKind::SuspendUser, ResourceState::Restricted).error().code(),
        AdminErrorCode::AuthorizationDenied
    );
}

#[test]
fn invitation_scopes_carry_their_organization() {
    let scope = expected_scope(
        &TenantId::new(TENANT),
        &AdminTarget::Invitation { organization_id: "org-1".into(), invitation_id: "inv-1".into() },
    );
    assert_eq!(scope.tenant_id, TENANT);
    assert_eq!(scope.organization_id.as_deref(), Some("org-1"));
    assert_eq!(scope.resource_kind, "invitation");
    assert_eq!(scope.resource_id, "inv-1");
    let user = expected_scope(&TenantId::new(TENANT), &AdminTarget::User("user-9".into()));
    assert_eq!(user.organization_id, None);
    assert_eq!(user.resource_kind, "user");
    let key = expected_scope(&TenantId::new(TENANT), &AdminTarget::ApiKey("k".into()));
    assert_eq!(key.resource_kind, "api-key");
}

#[test]
fn context_failures_keep_cancellation_and_deadline() {
    assert!(check_context(None).is_ok());
    assert_eq!(check_context(Some(CoreErrorCode::Cancelled)).error().code(), AdminErrorCode::Cancelled);
    assert_eq!(
        admin_context_failure(CoreErrorCode::DeadlineExceeded).code(),
        AdminErrorCode::DeadlineExceeded
    );
    assert_eq!(
        admin_context_failure(CoreErrorCode::Unavailable).code(),
        AdminErrorCode::IntegrityFailure
    );
    let evidence = AuthenticatedPrincipalEvidence::new(TenantId::new(TENANT), PrincipalId::new(ACTOR));
    let (prepared, context) = prepare_execution(&evidence, None).unwrap();
    assert_eq!(prepared.tenant_id().as_str(), TENANT);
    assert_eq!(context.principal().unwrap().principal_id().as_str(), ACTOR);
    assert!(prepare_execution(&evidence, Some(CoreErrorCode::Cancelled)).is_err());
}

#[test]
fn an_allowing_bound_decision_accepts_the_command() {
    let (intent, command) = accepted_command();
    assert_eq!(command.id().as_str(), "cmd-1");
    assert_eq!(command.tenant_id().as_str(), TENANT);
    assert_eq!(command.actor().as_str(), ACTOR);
    assert_eq!(command.occurred_at().unix_nanos(), 100);
    assert_eq!(command.decision_id(), "decision-1");
    assert_eq!(command.policy_version(), 7);
    assert_eq!(command.reason_code(), "POLICY_BREACH");
    assert!(intent.matches_command(&command));
}

#[test]
fn the_request_for_the_policy_names_the_action_target() {
    let (action, target) = suspend_user();
    let request = request(action, target);
    let asked = authorization_request(&request, &snapshot(ResourceState::Active, 5), &principal()).unwrap();
    assert_eq!(asked.decision_id, "decision-1");
    assert_eq!(asked.policy_version, 7);
    assert_eq!(asked.target.permission_id, "admin.user.suspend");
    assert_eq!(asked.target.scope.resource_id, "user-9");
    assert_eq!(asked.target.intent, AuthorizationIntent::Access);
    assert_eq!(asked.evaluated_at.unix_nanos(), 5);
    assert_eq!(
        authorization_request(&request, &snapshot(ResourceState::Restricted, 5), &principal())
            .error()
            .code(),
        AdminErrorCode::AuthorizationDenied
    );
}

fn authorize_with(decision: AuthorizationDecision) -> AdminErrorCode {
    let (action, target) = suspend_user();
    authorize_command(request(action, target), snapshot(ResourceState::Active, 100), &principal(), decision)
        .error()
        .code()
}

#[test]
fn every_mismatch_between_decision_and_command_is_refused() {
    let (action, target) = suspend_user();
    let base = || allowing_decision(action, &target, 100);

    let mut denied = base();
    denied.allowed = false;
    assert_eq!(authorize_with(denied), AdminErrorCode::AuthorizationDenied);

    let mut other_decision = base();
    other_decision.decision_id = "decision-2".to_owned();
    assert_eq!(authorize_with(other_decision), AdminErrorCode::DecisionMismatch);

    let mut stale = base();
    stale.policy_version = 6;
    assert_eq!(authorize_with(stale), AdminErrorCode::DecisionMismatch);

    let mut other_time = base();
    other_time.evaluated_at = UnixInstant::from_unix_nanos(99);
    assert_eq!(authorize_with(other_time), AdminErrorCode::DecisionMismatch);

    let mut other_tenant = base();
    other_tenant.tenant_id = TenantId::new("tenant-2");
    assert_eq!(authorize_with(other_tenant), AdminErrorCode::TenantMismatch);

    let mut other_actor = base();
    other_actor.principal_id = PrincipalId::new("principal-2");
    assert_eq!(authorize_with(other_actor), AdminErrorCode::DecisionMismatch);

    let mut recovery = base();
    recovery.intent = AuthorizationIntent::Recovery;
    assert_eq!(authorize_with(recovery), AdminErrorCode::DecisionMismatch);

    let mut other_permission = base();
    other_permission.permission_id = "admin.user.restore".to_owned();
    assert_eq!(authorize_with(other_permission), AdminErrorCode::DecisionMismatch);

    let mut other_scope = base();
    other_scope.scope = AuthorizationScope {
        tenant_id: TENANT.to_owned(),
        organization_id: None,
        resource_kind: "user".to_owned(),
        resource_id: "user-8".to_owned(),
    };
    assert_eq!(authorize_with(other_scope), AdminErrorCode::DecisionMismatch);
}

#[test]
fn a_target_in_the_wrong_state_is_denied_before_the_decision_is_read() {
    let (action, target) = suspend_user();
    let decision = allowing_decision(action, &target, 100);
    let error = authorize_command(
        request(action, target),
        snapshot(ResourceState::Restricted, 100),
        &principal(),
        decision,
    )
    .error();
    assert_eq!(error.code(), AdminErrorCode::AuthorizationDenied);
}

#[test]
fn snapshots_must_match_version_tenant_and_principal() {
    assert!(validate_snapshot(&snapshot(ResourceState::Active, 0), &principal(), 7).is_ok());
    assert_eq!(
        validate_snapshot(&snapshot(ResourceState::Active, 0), &principal(), 8).error().code(),
        AdminErrorCode::Conflict
    );
    let stranger = PrincipalContext::new(TenantId::new(TENANT), PrincipalId::new("principal-2"));
    assert_eq!(
        validate_snapshot(&snapshot(ResourceState::Active, 0), &stranger, 7).error().code(),
        AdminErrorCode::IntegrityFailure
    );
}

#[test]
fn reauthorization_requires_the_same_subject_identity() {
    let (_, command) = accepted_command();
    let (action, target) = suspend_user();
    let allowed = allowing_decision(action, &target, 200);
    assert!(command.remains_authorized(&subject(), &allowed));
    let mut denied = allowing_decision(action, &target, 200);
    denied.allowed = false;
    assert!(!command.remains_authorized(&subject(), &denied));
    let mut member = subject();
    member.membership = Some(MembershipIdentity {
        tenant_id: TENANT.to_owned(),
        organization_id: "org-1".to_owned(),
        membership_id: "m-1".to_owned(),
        user_id: "user-9".to_owned(),
    });
    assert!(!same_membership_identity(&subject(), &member));
    assert!(!command.remains_authorized(&member, &allowed));
    let again = command.reauthorization_request(subject(), UnixInstant::from_unix_nanos(200));
    assert_eq!(again.decision_id, "decision-1");
    assert_eq!(again.target.resource_state, ResourceState::Active);
}

fn receipt(command_id: &str, applied_at: i128) -> AdminCommandReceipt {
    AdminCommandReceipt::new(
        AdminCommandId::parse(command_id).unwrap(),
        TenantId::new(TENANT),
        "decision-1".to_owned(),
        7,
        UnixInstant::from_unix_nanos(applied_at),
    )
}

#[test]
fn executions_must_record_the_intent_and_not_predate_the_command() {
    let (intent, command) = accepted_command();
    let applied = validate_execution(AdminCommandExecution::applied(receipt("cmd-1", 150)), &intent, &command);
    assert_eq!(applied.unwrap().applied_at().unix_nanos(), 150);
    let early = validate_execution(AdminCommandExecution::applied(receipt("cmd-1", 50)), &intent, &command);
    assert_eq!(early.error().code(), AdminErrorCode::IntegrityFailure);
    // A replay of an earlier application may carry an earlier time.
    let replayed = validate_execution(AdminCommandExecution::replayed(receipt("cmd-1", 50)), &intent, &command);
    assert!(replayed.is_ok());
    let foreign = validate_execution(AdminCommandExecution::applied(receipt("cmd-2", 150)), &intent, &command);
    assert_eq!(foreign.error().code(), AdminErrorCode::IntegrityFailure);
    assert!(validate_replay_receipt(&receipt("cmd-1", 1), &intent).is_ok());
    assert!(validate_replay_receipt(&receipt("cmd-2", 1), &intent).is_err());
    assert!(AdminCommandExecution::applied(receipt("cmd-1", 1)).is_applied());
}

#[test]
fn loaded_snapshots_are_checked_after_the_activity_check() {
    let ok = checked_snapshot(snapshot(ResourceState::Restricted, 3), None, &principal(), 7).unwrap();
    assert_eq!(ok.policy_version(), 7);
    assert_eq!(ok.resource_state(), ResourceState::Restricted);
    assert_eq!(ok.evaluated_at().unix_nanos(), 3);
    let cancelled = checked_snapshot(snapshot(ResourceState::Active, 0), Some(CoreErrorCode::Cancelled), &principal(), 7);
    assert_eq!(cancelled.error().code(), AdminErrorCode::Cancelled);
    let late = checked_snapshot(snapshot(ResourceState::Active, 0), Some(CoreErrorCode::DeadlineExceeded), &principal(), 8);
    assert_eq!(late.error().code(), AdminErrorCode::DeadlineExceeded);
    assert_eq!(
        checked_snapshot(snapshot(ResourceState::Active, 0), None, &principal(), 8).error().code(),
        AdminErrorCode::Conflict
    );
    let stranger = PrincipalContext::new(TenantId::new("tenant-2"), PrincipalId::new(ACTOR));
    assert_eq!(
        checked_snapshot(snapshot(ResourceState::Active, 0), None, &stranger, 7).error().code(),
        AdminErrorCode::IntegrityFailure
    );
}

#[test]
fn replay_lookups_return_only_matching_receipts() {
    let (intent, _) = accepted_command();
    assert!(replay_outcome(None, None, &intent).unwrap().is_none());
    let found = replay_outcome(Some(receipt("cmd-1", 42)), None, &intent).unwrap().unwrap();
    assert_eq!(found.applied_at().unix_nanos(), 42);
    assert_eq!(found.command_id().as_str(), "cmd-1");
    assert_eq!(
        replay_outcome(Some(receipt("cmd-2", 42)), None, &intent).error().code(),
        AdminErrorCode::IntegrityFailure
    );
    assert_eq!(
        replay_outcome(Some(receipt("cmd-1", 42)), Some(CoreErrorCode::Cancelled), &intent).error().code(),
        AdminErrorCode::Cancelled
    );
    assert_eq!(
        replay_outcome(None, Some(CoreErrorCode::DeadlineExceeded), &intent).error().code(),
        AdminErrorCode::DeadlineExceeded
    );
}

trait ExpectError<E> {
    fn error(self) -> E;
}

impl<T, E> ExpectError<E> for Result<T, E> {
    fn error(self) -> E {
        match self {
            Ok(_) => panic!("expected an error"),
            Err(error) => error,
        }
    }
}
