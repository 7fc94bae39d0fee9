//! Authoritative just-in-time execution of administration commands: the
//! request is checked and bound to the authenticated principal, an exact
//! replay is answered before any policy is loaded, and otherwise current
//! authoritative facts are loaded, evaluated and applied once.

use vstd::prelude::*;

use crate::admin::command::{
    AdminCommand, AdminCommandExecution, AdminCommandIntent, AdminCommandIntentView, AdminCommandReceipt,
    AdminCommandReceiptView, AdminExecutionRequest, AdminExecutionRequestView, AuthenticatedPrincipalEvidence,
    AuthoritativeAuthorizationSnapshot, AuthoritativeAuthorizationSnapshotView, AuthorizationDecision,
    AuthorizationDecisionView, AuthorizationRequest, AuthorizationRequestView, acceptance_failure,
    accepted_commands_are_authorized, authorization_request, authorization_request_of, authorize_command, check_context,
    checked_snapshot, command_request_of, expected_target_state_of, intent_of, prepare_execution,
    receipt_matches_intent, replay_outcome, validate_execution,
};
use crate::admin::{AdminError, AdminTarget};
use crate::platform::{CoreErrorCode, PrincipalContext, PrincipalContextView, RequestContext, TenantId};

verus! {

/// The activity of the request an execution serves.
pub trait RequestActivity {
    /// The failure of the request's activity check (cancellation or a passed
    /// deadline), or `None` while it is active.
    fn check_active(&self) -> Option<CoreErrorCode>;
}

/// Revalidates transient authentication evidence against authoritative state
/// on every execution attempt, replays included.
pub trait AuthenticatedPrincipalPort {
    /// Whether this port has accepted `evidence` for a request in `context`:
    /// a relation over the port's lifetime, since its answer follows live
    /// state. A verified implementation defines it; nothing is known of the
    /// default.
    closed spec fn accepted(&self, evidence: PrincipalContextView, context: Option<PrincipalContextView>) -> bool {
        arbitrary()
    }

    /// Validates the exact active authenticator and principal binding.
    fn validate(&self, evidence: &AuthenticatedPrincipalEvidence, context: &RequestContext) -> (res: Result<(), AdminError>)
        ensures
            res is Ok ==> self.accepted(evidence@, context@),
    ;
}

/// Loads the authorization facts of one target, and evaluates requests under
/// the policy it loaded; the policy itself stays with this port.
pub trait AuthoritativePolicyPort {
    /// Loads the current policy, subject, target state and trusted time.
    fn load_for(&self, tenant: &TenantId, target: &AdminTarget, context: &RequestContext) -> Result<
        AuthoritativeAuthorizationSnapshot,
        AdminError,
    >;

    /// The decision the policy of `snapshot` gives for `request`: a
    /// tenant's policy version names one policy, and evaluating it is pure.
    /// A verified implementation defines it; nothing is known of the default.
    closed spec fn evaluation(
        &self,
        snapshot: AuthoritativeAuthorizationSnapshotView,
        request: AuthorizationRequestView,
    ) -> AuthorizationDecisionView {
        arbitrary()
    }

    /// Evaluates `request` under the policy of `snapshot`.
    fn evaluate(&self, snapshot: &AuthoritativeAuthorizationSnapshot, request: &AuthorizationRequest) -> (res:
        AuthorizationDecision)
        ensures
            res@ == self.evaluation(snapshot@, request@),
    ;
}

/// Applies an accepted command once and returns its original receipt on
/// replay.
pub trait AdminCommandRepositoryPort {
    /// Whether this repository has answered `receipt` as the stored receipt
    /// of `intent` when asked for a replay: a relation over the repository's
    /// lifetime. A verified implementation defines it; nothing is known of
    /// the default.
    closed spec fn answered_replay(&self, intent: AdminCommandIntentView, receipt: AdminCommandReceiptView) -> bool {
        arbitrary()
    }

    /// Reconciles an authenticated stable intent before any policy is loaded.
    fn find_replay(&self, intent: &AdminCommandIntent, context: &RequestContext) -> (res: Result<
        Option<AdminCommandReceipt>,
        AdminError,
    >)
        ensures
            res matches Ok(Some(r)) ==> self.answered_replay(intent@, r@),
    ;

    /// Executes one command within its durable idempotency transaction.
    fn execute_once(&self, intent: &AdminCommandIntent, command: &AdminCommand, context: &RequestContext) -> Result<
        AdminCommandExecution,
        AdminError,
    >;
}

/// Whether `policies` authorized `request` for `principal` over some
/// snapshot of the expected policy version of the principal's tenant: the
/// target was in the state the action expects, and the decision the policy
/// gives for the request built from that snapshot allows exactly this
/// command.
pub open spec fn policy_authorized<P: AuthoritativePolicyPort>(
    policies: P,
    request: AdminExecutionRequestView,
    principal: PrincipalContextView,
) -> bool {
    exists|s: AuthoritativeAuthorizationSnapshotView|
        {
            let decision = #[trigger] policies.evaluation(s, authorization_request_of(request, s, principal));
            &&& s.policy_version == request.policy_version
            &&& s.policy_tenant == principal.tenant_id
            &&& s.subject.principal == principal
            &&& s.state == expected_target_state_of(request.action).1
            &&& decision.allowed
            &&& acceptance_failure(command_request_of(request, s, principal, decision)) is None
        }
}

/// Coordinates authoritative evaluation and one durable command attempt.
pub struct AdminCommandExecutor<A, P, R> {
    authenticated_principals: A,
    policies: P,
    repository: R,
}

impl<A: AuthenticatedPrincipalPort, P: AuthoritativePolicyPort, R: AdminCommandRepositoryPort> AdminCommandExecutor<A, P, R> {
    /// The port that revalidates authentication evidence.
    pub closed spec fn principals_port(&self) -> A {
        self.authenticated_principals
    }

    /// The port that loads and evaluates authoritative policy.
    pub closed spec fn policy_port(&self) -> P {
        self.policies
    }

    /// The port that applies commands once.
    pub closed spec fn repository_port(&self) -> R {
        self.repository
    }

    /// Creates an executor over authentication, policy and command ports.
    pub fn new(authenticated_principals: A, policies: P, repository: R) -> (res: Self)
        ensures
            res.principals_port() == authenticated_principals,
            res.policy_port() == policies,
            res.repository_port() == repository,
    {
        AdminCommandExecutor { authenticated_principals, policies, repository }
    }

    /// Evaluates and applies one command on behalf of the principal the
    /// evidence binds. The request must be active before any port is asked,
    /// the evidence is revalidated, an exact replay is answered before any
    /// policy is loaded, and every receipt returned records exactly the
    /// command, tenant, decision and policy version of this request. A
    /// receipt is returned only for revalidated evidence, and only as the
    /// repository's replay answer for this intent or after the policy
    /// authorized this very command; no serialized decision is accepted.
    pub fn execute<C: RequestActivity>(
        &self,
        request: AdminExecutionRequest,
        evidence: &AuthenticatedPrincipalEvidence,
        context: &C,
    ) -> (res: Result<AdminCommandReceipt, AdminError>)
        ensures
            res matches Ok(r) ==> receipt_matches_intent(r@, intent_of(request@, evidence@)),
            res is Ok ==> self.principals_port().accepted(evidence@, Some(evidence@)),
            res matches Ok(r) ==> self.repository_port().answered_replay(intent_of(request@, evidence@), r@)
                || policy_authorized(self.policy_port(), request@, evidence@),
    {
        let (principal, authenticated) = prepare_execution(evidence, context.check_active())?;
        self.authenticated_principals.validate(evidence, &authenticated)?;
        check_context(context.check_active())?;
        self.execute_authenticated(request, &principal, &authenticated, context)
    }

    fn execute_authenticated<C: RequestActivity>(
        &self,
        request: AdminExecutionRequest,
        principal: &PrincipalContext,
        authenticated: &RequestContext,
        context: &C,
    ) -> (res: Result<AdminCommandReceipt, AdminError>)
        ensures
            res matches Ok(r) ==> receipt_matches_intent(r@, intent_of(request@, principal@)),
            res matches Ok(r) ==> self.repository_port().answered_replay(intent_of(request@, principal@), r@)
                || policy_authorized(self.policy_port(), request@, principal@),
    {
        let intent = AdminCommandIntent::from_request(&request, principal);
        if let Some(receipt) = self.find_replay(&intent, authenticated, context)? {
            return Ok(receipt);
        }
        let ghost req = request@;
        let snapshot = self.load_authoritative_snapshot(&request, principal, authenticated, context)?;
        let authorization = authorization_request(&request, &snapshot, principal)?;
        let decision = self.policies.evaluate(&snapshot, &authorization);
        let ghost sv = snapshot@;
        let ghost dv = decision@;
        let command = authorize_command(request, snapshot, principal, decision)?;
        proof {
            accepted_commands_are_authorized(command_request_of(req, sv, principal@, dv));
            assert(dv == self.policy_port().evaluation(sv, authorization_request_of(req, sv, principal@)));
        }
        self.execute_authorized_command(&intent, &command, authenticated, context)
    }

    fn find_replay<C: RequestActivity>(&self, intent: &AdminCommandIntent, authenticated: &RequestContext, context: &C) -> (res:
        Result<Option<AdminCommandReceipt>, AdminError>)
        ensures
            res matches Ok(Some(r)) ==> receipt_matches_intent(r@, intent@) && self.repository_port().answered_replay(
                intent@,
                r@,
            ),
    {
        let found = self.repository.find_replay(intent, authenticated)?;
        replay_outcome(found, context.check_active(), intent)
    }

    fn load_authoritative_snapshot<C: RequestActivity>(
        &self,
        request: &AdminExecutionRequest,
        principal: &PrincipalContext,
        authenticated: &RequestContext,
        context: &C,
    ) -> (res: Result<AuthoritativeAuthorizationSnapshot, AdminError>)
        ensures
            res matches Ok(s) ==> s@.policy_version == request@.policy_version && s@.policy_tenant == principal@.tenant_id
                && s@.subject.principal == principal@,
    {
        let snapshot = self.policies.load_for(principal.tenant_id(), request.target(), authenticated)?;
        checked_snapshot(snapshot, context.check_active(), principal, request.expected_policy_version())
    }

    fn execute_authorized_command<C: RequestActivity>(
        &self,
        intent: &AdminCommandIntent,
        command: &AdminCommand,
        authenticated: &RequestContext,
        context: &C,
    ) -> (res: Result<AdminCommandReceipt, AdminError>)
        ensures
            res matches Ok(r) ==> receipt_matches_intent(r@, intent@),
    {
        check_context(context.check_active())?;
        let execution = self.repository.execute_once(intent, command, authenticated)?;
        validate_execution(execution, intent, command)
    }
}

} // verus!
