//! Failure classes and caller identities shared with the platform core.

use vstd::prelude::*;

verus! {

/// Stable failure class of a platform-core error, as the core reports it.
#[derive(Clone, Copy, Debug, PartialEq, Eq, Structural, Hash)]
pub enum CoreErrorCode {
    /// A supplied value violates its documented syntax.
    InvalidArgument,
    /// The operation conflicts with current state.
    Conflict,
    /// The caller cancelled the operation.
    Cancelled,
    /// The operation deadline expired.
    DeadlineExceeded,
    /// A required capability is unavailable.
    Unavailable,
    /// A bounded resource budget was exhausted.
    ResourceExhausted,
    /// The operation failed without a safe external explanation.
    Internal,
}

/// An opaque tenant identity issued by the platform core.
#[derive(Debug, PartialEq, Eq, Hash)]
pub struct TenantId(String);

impl View for TenantId {
    type V = Seq<char>;

    closed spec fn view(&self) -> Seq<char> {
        self.0@
    }
}

impl Clone for TenantId {
    fn clone(&self) -> (res: Self)
        ensures
            res@ == self@,
    {
        TenantId(self.0.clone())
    }
}

impl TenantId {
    /// Wraps a tenant identity already issued by the platform core.
    pub fn new(value: &str) -> (res: Self)
        ensures
            res@ == value@,
    {
        TenantId(value.to_owned())
    }

    /// Returns the tenant identity text.
    pub fn as_str(&self) -> (res: &str)
        ensures
            res@ == self@,
    {
        self.0.as_str()
    }

    /// Reports whether two tenant identities are equal.
    pub fn same_id(&self, other: &TenantId) -> (res: bool)
        ensures
            res == (self@ == other@),
    {
        self.0 == other.0
    }
}

/// An opaque principal identity issued by the platform core.
#[derive(Debug, PartialEq, Eq, Hash)]
pub struct PrincipalId(String);

impl View for PrincipalId {
    type V = Seq<char>;

    closed spec fn view(&self) -> Seq<char> {
        self.0@
    }
}

impl Clone for PrincipalId {
    fn clone(&self) -> (res: Self)
        ensures
            res@ == self@,
    {
        PrincipalId(self.0.clone())
    }
}

impl PrincipalId {
    /// Wraps a principal identity already issued by the platform core.
    pub fn new(value: &str) -> (res: Self)
        ensures
            res@ == value@,
    {
        PrincipalId(value.to_owned())
    }

    /// Returns the principal identity text.
    pub fn as_str(&self) -> (res: &str)
        ensures
            res@ == self@,
    {
        self.0.as_str()
    }
}

/// An authenticated principal within one tenant.
#[derive(Debug, PartialEq, Eq, Hash)]
pub struct PrincipalContext {
    tenant_id: TenantId,
    principal_id: PrincipalId,
}

/// Abstract contents of a [`PrincipalContext`].
pub struct PrincipalContextView {
    /// Tenant identity text.
    pub tenant_id: Seq<char>,
    /// Principal identity text.
    pub principal_id: Seq<char>,
}

impl View for PrincipalContext {
    type V = PrincipalContextView;

    closed spec fn view(&self) -> PrincipalContextView {
        PrincipalContextView { tenant_id: self.tenant_id@, principal_id: self.principal_id@ }
    }
}

impl Clone for PrincipalContext {
    fn clone(&self) -> (res: Self)
        ensures
            res@ == self@,
    {
        PrincipalContext { tenant_id: self.tenant_id.clone(), principal_id: self.principal_id.clone() }
    }
}

impl PrincipalContext {
    /// Binds a principal to its tenant.
    pub fn new(tenant_id: TenantId, principal_id: PrincipalId) -> (res: Self)
        ensures
            res@ == (PrincipalContextView { tenant_id: tenant_id@, principal_id: principal_id@ }),
    {
        PrincipalContext { tenant_id, principal_id }
    }

    /// Returns the tenant identity.
    pub fn tenant_id(&self) -> (res: &TenantId)
        ensures
            res@ == self@.tenant_id,
    {
        &self.tenant_id
    }

    /// Returns the principal identity.
    pub fn principal_id(&self) -> (res: &PrincipalId)
        ensures
            res@ == self@.principal_id,
    {
        &self.principal_id
    }
}

/// The caller identity a request carries: an authenticated principal, or none.
#[derive(Debug, PartialEq, Eq)]
pub struct RequestContext {
    principal: Option<PrincipalContext>,
}

impl View for RequestContext {
    type V = Option<PrincipalContextView>;

    closed spec fn view(&self) -> Option<PrincipalContextView> {
        match self.principal {
            Some(p) => Some(p@),
            None => None,
        }
    }
}

impl RequestContext {
    /// A request made by no authenticated principal.
    pub fn anonymous() -> (res: Self)
        ensures
            res@ is None,
    {
        RequestContext { principal: None }
    }

    /// A request made by `principal`.
    pub fn authenticated(principal: PrincipalContext) -> (res: Self)
        ensures
            res@ == Some(principal@),
    {
        RequestContext { principal: Some(principal) }
    }

    /// Returns the authenticated principal, when there is one.
    pub fn principal(&self) -> (res: Option<&PrincipalContext>)
        ensures
            match res {
                Some(p) => self@ == Some(p@),
                None => self@ is None,
            },
    {
        match &self.principal {
            Some(p) => Some(p),
            None => None,
        }
    }
}

} // verus!
