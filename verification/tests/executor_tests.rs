use std::cell::Cell;

use ariadnion_api::admin::command::{
    AdminCommand, AdminCommandExecution, AdminCommandIntent, AdminCommandReceipt, AdminExecutionRequest,
    AuthenticatedPrincipalEvidence, AuthorizationDecision, AuthorizationRequest, AuthorizationSubject,
    AuthoritativeAuthorizationSnapshot, ResourceState, expected_scope, expected_target_state,
};
use ariadnion_api::admin::executor::{
    AdminCommandExecutor, AdminCommandRepositoryPort, AuthenticatedPrincipalPort, AuthoritativePolicyPort,
    RequestActivity,
};
use ariadnion_api::admin::{
    AdminActionKind, AdminCommandId, AdminError, AdminErrorCode, AdminTarget, action_permission,
};
use ariadnion_api::domain::batch_timestamps::UnixInstant;
use ariadnion_api::platform::{CoreErrorCode, PrincipalContext, PrincipalId, RequestContext, TenantId};

const TENANT: &str = "tenant-1";
const ACTOR: &str = "principal-1";

struct Activity(Option<CoreErrorCode>);

impl RequestActivity for Activity {
    fn check_active(&self) -> Option<CoreErrorCode> {
        self.0
    }
}

struct Principals {
    calls: Cell<u32>,
}

impl AuthenticatedPrincipalPort for Principals {
    fn validate(&self, _evidence: &AuthenticatedPrincipalEvidence, _context: &RequestContext) -> Result<(), AdminError> {
        self.calls.set(self.calls.get() + 1);
        Ok(())
    }
}

struct Policies {
    version: u64,
    allow: bool,
    loads: Cell<u32>,
}

impl AuthoritativePolicyPort for Policies {
    fn load_for(
        &self,
        _tenant: &TenantId,
        _target: &AdminTarget,
        _context: &RequestContext,
    ) -> Result<AuthoritativeAuthorizationSnapshot, AdminError> {
        self.loads.set(self.loads.get() + 1);
        Ok(AuthoritativeAuthorizationSnapshot::new(
            self.version,
            TenantId::new(TENANT),
            AuthorizationSubject {
                principal: PrincipalContext::new(TenantId::new(TENANT), PrincipalId::new(ACTOR)),
                user_id: "user-9".to_owned(),
                membership: None,
            },
            ResourceState::Active,
            UnixInstant::from_unix_nanos(100),
        ))
    }

    fn evaluate(&self, _snapshot: &AuthoritativeAuthorizationSnapshot, request: &AuthorizationRequest) -> AuthorizationDecision {
        let (intent, state) = expected_target_state(AdminActionKind::SuspendUser);
        AuthorizationDecision {
            decision_id: request.decision_id.clone(),
            policy_version: request.policy_version,
            evaluated_at: request.evaluated_at,
            tenant_id: TenantId::new(TENANT),
            principal_id: PrincipalId::new(ACTOR),
            allowed: self.allow,
            intent,
            resource_state: state,
            permission_id: action_permission(AdminActionKind::SuspendUser).to_owned(),
            scope: expected_scope(&TenantId::new(TENANT), &AdminTarget::User("user-9".to_owned())),
        }
    }
}

struct Repository {
    replay: Option<&'static str>,
    applied_as: &'static str,
    executions: Cell<u32>,
}

fn receipt(command_id: &str) -> AdminCommandReceipt {
    AdminCommandReceipt::new(
        AdminCommandId::parse(command_id).unwrap(),
        TenantId::new(TENANT),
        "decision-1".to_owned(),
        7,
        UnixInstant::from_unix_nanos(150),
    )
}

impl AdminCommandRepositoryPort for Repository {
    fn find_replay(&self, _intent: &AdminCommandIntent, _context: &RequestContext) -> Result<Option<AdminCommandReceipt>, AdminError> {
        Ok(self.replay.map(receipt))
    }

    fn execute_once(
        &self,
        _intent: &AdminCommandIntent,
        _command: &AdminCommand,
        _context: &RequestContext,
    ) -> Result<AdminCommandExecution, AdminError> {
        self.executions.set(self.executions.get() + 1);
        Ok(AdminCommandExecution::applied(receipt(self.applied_as)))
    }
}

fn executor(
    version: u64,
    allow: bool,
    replay: Option<&'static str>,
    applied_as: &'static str,
) -> AdminCommandExecutor<Principals, Policies, Repository> {
    AdminCommandExecutor::new(
        Principals { calls: Cell::new(0) },
        Policies { version, allow, loads: Cell::new(0) },
        Repository { replay, applied_as, executions: Cell::new(0) },
    )
}

fn request() -> AdminExecutionRequest {
    AdminExecutionRequest::new(
        AdminCommandId::parse("cmd-1").unwrap(),
        "decision-1".to_owned(),
        7,
        AdminActionKind::SuspendUser,
        AdminTarget::User("user-9".to_owned()),
        "POLICY_BREACH",
    )
    .unwrap()
}

fn evidence() -> AuthenticatedPrincipalEvidence {
    AuthenticatedPrincipalEvidence::new(TenantId::new(TENANT), PrincipalId::new(ACTOR))
}

fn code(result: Result<AdminCommandReceipt, AdminError>) -> AdminErrorCode {
    match result {
        Ok(_) => panic!("expected an error"),
        Err(error) => error.code(),
    }
}

#[test]
fn an_allowed_command_is_applied_once() {
    let executor = executor(7, true, None, "cmd-1");
    let receipt = executor.execute(request(), &evidence(), &Activity(None)).unwrap();
    assert_eq!(receipt.command_id().as_str(), "cmd-1");
    assert_eq!(receipt.applied_at().unix_nanos(), 150);
}

#[test]
fn an_exact_replay_is_answered_without_loading_policy() {
    // The loaded policy would be stale, yet the exact replay is answered first.
    let executor = executor(8, true, Some("cmd-1"), "cmd-1");
    let receipt = executor.execute(request(), &evidence(), &Activity(None)).unwrap();
    assert_eq!(receipt.command_id().as_str(), "cmd-1");
}

#[test]
fn receipts_for_another_command_are_integrity_failures() {
    assert_eq!(
        code(executor(7, true, Some("cmd-2"), "cmd-1").execute(request(), &evidence(), &Activity(None))),
        AdminErrorCode::IntegrityFailure
    );
    assert_eq!(
        code(executor(7, true, None, "cmd-2").execute(request(), &evidence(), &Activity(None))),
        AdminErrorCode::IntegrityFailure
    );
}

#[test]
fn stale_policies_denials_and_inactive_requests_are_refused() {
    assert_eq!(
        code(executor(8, true, None, "cmd-1").execute(request(), &evidence(), &Activity(None))),
        AdminErrorCode::Conflict
    );
    assert_eq!(
        code(executor(7, false, None, "cmd-1").execute(request(), &evidence(), &Activity(None))),
        AdminErrorCode::AuthorizationDenied
    );
    assert_eq!(
        code(executor(7, true, None, "cmd-1").execute(
            request(),
            &evidence(),
            &Activity(Some(CoreErrorCode::Cancelled))
        )),
        AdminErrorCode::Cancelled
    );
}
