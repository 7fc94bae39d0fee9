//! The HTTP framing of administration commands: bounded request metadata,
//! the suspend-user body, and the projection of a command outcome onto a
//! status code and stable machine code.

use vstd::prelude::*;

use crate::admin::command::{AdminCommandReceipt, AdminCommandReceiptView, AdminExecutionRequest, AdminExecutionRequestView};
use crate::admin::{AdminActionKind, AdminCommandId, AdminError, AdminErrorCode, AdminTarget, AdminTargetView, admin_code_text, valid_reason_code};
use crate::http::credentials::HttpAuthorization;
use crate::http::identity::{HttpRequestIdentity, HttpRequestIdentityView};

verus! {

/// Maximum encoded size of an administration request body.
pub const MAX_ENCODED_BODY_BYTES: usize = 16_384;

/// Maximum encoded size of the headers of an administration request.
pub const MAX_ENCODED_HEADER_BYTES: usize = 32_768;

/// Request identity of one administration request whose encoded body and
/// headers fit their bounds.
pub struct HttpRequestMetadata {
    identity: HttpRequestIdentity,
}

impl View for HttpRequestMetadata {
    type V = HttpRequestIdentityView;

    closed spec fn view(&self) -> HttpRequestIdentityView {
        self.identity@
    }
}

impl HttpRequestMetadata {
    /// Accepts request metadata when the encoded body is at most 16 KiB and
    /// the encoded headers at most 32 KiB; anything larger is
    /// `InvalidArgument`.
    pub fn new(identity: HttpRequestIdentity, encoded_body_bytes: usize, encoded_header_bytes: usize) -> (res: Result<
        Self,
        AdminError,
    >)
        ensures
            res is Ok <==> (encoded_body_bytes <= MAX_ENCODED_BODY_BYTES && encoded_header_bytes
                <= MAX_ENCODED_HEADER_BYTES),
            res is Err ==> res->Err_0.code == AdminErrorCode::InvalidArgument,
            res matches Ok(m) ==> m@ == identity@,
    {
        if encoded_body_bytes > MAX_ENCODED_BODY_BYTES || encoded_header_bytes > MAX_ENCODED_HEADER_BYTES {
            return Err(AdminError::new(AdminErrorCode::InvalidArgument));
        }
        Ok(HttpRequestMetadata { identity })
    }

    /// Returns the request identity.
    pub fn identity(&self) -> (res: &HttpRequestIdentity)
        ensures
            res@ == self@,
    {
        &self.identity
    }
}

/// The validated body of one suspend-user request.
pub struct HttpSuspendUserBody {
    execution: AdminExecutionRequest,
}

impl View for HttpSuspendUserBody {
    type V = AdminExecutionRequestView;

    closed spec fn view(&self) -> AdminExecutionRequestView {
        self.execution@
    }
}

impl HttpSuspendUserBody {
    /// Builds the suspend-user intent for `user_id`; an invalid reason code
    /// is `InvalidArgument`.
    pub fn new(
        command_id: AdminCommandId,
        decision_id: String,
        expected_policy_version: u64,
        user_id: String,
        reason_code: &str,
    ) -> (res: Result<Self, AdminError>)
        ensures
            res is Ok <==> valid_reason_code(reason_code@),
            res is Err ==> res->Err_0.code == AdminErrorCode::InvalidArgument,
            res matches Ok(b) ==> b@ == (AdminExecutionRequestView {
                command_id: command_id@,
                decision_id: decision_id@,
                policy_version: expected_policy_version,
                action: AdminActionKind::SuspendUser,
                target: AdminTargetView::User(user_id@),
                reason: reason_code@,
            }),
    {
        let execution = AdminExecutionRequest::new(
            command_id,
            decision_id,
            expected_policy_version,
            AdminActionKind::SuspendUser,
            AdminTarget::User(user_id),
            reason_code,
        )?;
        Ok(HttpSuspendUserBody { execution })
    }

    /// Returns the execution intent, consuming the body.
    pub fn into_execution(self) -> (res: AdminExecutionRequest)
        ensures
            res@ == self@,
    {
        self.execution
    }
}

/// One complete suspend-user request.
pub struct HttpSuspendUserRequest {
    metadata: HttpRequestMetadata,
    authorization: HttpAuthorization,
    body: HttpSuspendUserBody,
}

/// Abstract contents of an [`HttpSuspendUserRequest`].
pub struct HttpSuspendUserRequestView {
    /// The request identity.
    pub metadata: HttpRequestIdentityView,
    /// The presented authorization field.
    pub authorization: Seq<u8>,
    /// The execution intent.
    pub body: AdminExecutionRequestView,
}

impl View for HttpSuspendUserRequest {
    type V = HttpSuspendUserRequestView;

    closed spec fn view(&self) -> HttpSuspendUserRequestView {
        HttpSuspendUserRequestView {
            metadata: self.metadata@,
            authorization: self.authorization@,
            body: self.body@,
        }
    }
}

impl HttpSuspendUserRequest {
    /// Owns the metadata, credentials and body of one request.
    pub fn new(metadata: HttpRequestMetadata, authorization: HttpAuthorization, body: HttpSuspendUserBody) -> (res:
        Self)
        ensures
            res@ == (HttpSuspendUserRequestView {
                metadata: metadata@,
                authorization: authorization@,
                body: body@,
            }),
    {
        HttpSuspendUserRequest { metadata, authorization, body }
    }

    /// Returns the request metadata.
    pub fn metadata(&self) -> (res: &HttpRequestMetadata)
        ensures
            res@ == self@.metadata,
    {
        &self.metadata
    }

    /// Returns the presented credentials.
    pub fn authorization(&self) -> (res: &HttpAuthorization)
        ensures
            res@ == self@.authorization,
    {
        &self.authorization
    }

    /// Splits the request into its parts.
    pub fn into_parts(self) -> (res: (HttpRequestMetadata, HttpAuthorization, HttpSuspendUserBody))
        ensures
            res.0@ == self@.metadata,
            res.1@ == self@.authorization,
            res.2@ == self@.body,
    {
        (self.metadata, self.authorization, self.body)
    }
}

/// The HTTP status of each administration failure: client failures are 4xx
/// (authorization and binding failures are all 403, a cancelled request is
/// 499), and the others 5xx.
pub open spec fn admin_status_of(code: AdminErrorCode) -> u16 {
    match code {
        AdminErrorCode::InvalidArgument => 400,
        AdminErrorCode::Unauthenticated => 401,
        AdminErrorCode::AuthorizationDenied | AdminErrorCode::TenantMismatch
        | AdminErrorCode::DecisionMismatch => 403,
        AdminErrorCode::Cancelled => 499,
        AdminErrorCode::Conflict => 409,
        AdminErrorCode::DeadlineExceeded => 504,
        AdminErrorCode::Unavailable | AdminErrorCode::CommitIndeterminate => 503,
        AdminErrorCode::IntegrityFailure => 500,
    }
}

fn client_error_status(code: AdminErrorCode) -> (res: Option<u16>)
    ensures
        match res {
            Some(s) => s == admin_status_of(code) && s < 500,
            None => admin_status_of(code) >= 500,
        },
{
    match code {
        AdminErrorCode::InvalidArgument => Some(400),
        AdminErrorCode::Unauthenticated => Some(401),
        AdminErrorCode::AuthorizationDenied | AdminErrorCode::TenantMismatch | AdminErrorCode::DecisionMismatch => Some(
            403,
        ),
        AdminErrorCode::Cancelled => Some(499),
        AdminErrorCode::Conflict => Some(409),
        _ => None,
    }
}

fn server_error_status(code: AdminErrorCode) -> (res: u16)
    requires
        admin_status_of(code) >= 500,
    ensures
        res == admin_status_of(code),
{
    match code {
        AdminErrorCode::DeadlineExceeded => 504,
        AdminErrorCode::Unavailable | AdminErrorCode::CommitIndeterminate => 503,
        _ => 500,
    }
}

/// Returns the HTTP status of an administration failure.
pub fn status_for(code: AdminErrorCode) -> (res: u16)
    ensures
        res == admin_status_of(code),
{
    match client_error_status(code) {
        Some(status) => status,
        None => server_error_status(code),
    }
}

/// The machine code of a successful command.
pub open spec fn succeeded_code() -> Seq<char> {
    "ADMIN_COMMAND_SUCCEEDED"@
}

/// The status, machine code and receipt an administration request is
/// answered with.
pub struct HttpAdminResponse {
    status: u16,
    code: &'static str,
    receipt: Option<AdminCommandReceipt>,
}

/// Abstract contents of an [`HttpAdminResponse`].
pub struct HttpAdminResponseView {
    /// The HTTP status.
    pub status: u16,
    /// The stable machine code.
    pub code: Seq<char>,
    /// The receipt of a successful command.
    pub receipt: Option<AdminCommandReceiptView>,
}

impl View for HttpAdminResponse {
    type V = HttpAdminResponseView;

    closed spec fn view(&self) -> HttpAdminResponseView {
        HttpAdminResponseView {
            status: self.status,
            code: self.code@,
            receipt: match self.receipt {
                Some(r) => Some(r@),
                None => None,
            },
        }
    }
}

impl HttpAdminResponse {
    /// Projects a command outcome: a receipt is `200` with the success code;
    /// a failure is its status and machine code, without receipt.
    pub fn from_result(result: Result<AdminCommandReceipt, AdminError>) -> (res: Self)
        ensures
            match result {
                Ok(r) => res@ == (HttpAdminResponseView { status: 200, code: succeeded_code(), receipt: Some(r@) }),
                Err(e) => res@ == (HttpAdminResponseView {
                    status: admin_status_of(e.code),
                    code: admin_code_text(e.code),
                    receipt: None,
                }),
            },
    {
        match result {
            Ok(receipt) => HttpAdminResponse { status: 200, code: "ADMIN_COMMAND_SUCCEEDED", receipt: Some(receipt) },
            Err(error) => HttpAdminResponse {
                status: status_for(error.code()),
                code: error.code().as_str(),
                receipt: None,
            },
        }
    }

    /// Returns the HTTP status.
    pub fn status(&self) -> (res: u16)
        ensures
            res == self@.status,
    {
        self.status
    }

    /// Returns the stable machine code.
    pub fn code(&self) -> (res: &'static str)
        ensures
            res@ == self@.code,
    {
        self.code
    }

    /// Returns the receipt of a successful command.
    pub fn receipt(&self) -> (res: Option<&AdminCommandReceipt>)
        ensures
            match res {
                Some(r) => self@.receipt == Some(r@),
                None => self@.receipt is None,
            },
    {
        match &self.receipt {
            Some(r) => Some(r),
            None => None,
        }
    }
}

} // verus!
