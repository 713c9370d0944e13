//! Tenant-centric identity helpers.
use std::collections::BTreeMap;
use vstd::prelude::*;

use crate::ids::{TeamId, TenantId, UserId};
use crate::invocation::{clone_opt_team, clone_opt_user, TenantCtx};

verus! {

/// Metadata describing an impersonated user acting on behalf of the main identity.
#[derive(Clone, Debug, PartialEq, Eq, Hash)]
pub struct Impersonation {
    /// Identifier of the user performing the impersonation.
    pub actor_id: UserId,
    /// Optional justification recorded for auditing.
    pub reason: Option<String>,
}


/// Copies an optional impersonation record.
pub(crate) fn clone_opt_impersonation(o: &Option<Impersonation>) -> (r: Option<Impersonation>)
    ensures
        r == *o,
{
    match o {
        Some(i) => Some(
            Impersonation {
                actor_id: i.actor_id.clone(),
                reason: crate::invocation::clone_opt_string(&i.reason),
            },
        ),
        None => None,
    }
}

/// Stable multi-tenant identity extracted from [`TenantCtx`].
#[derive(Clone, Debug, PartialEq, Eq, Hash)]
pub struct TenantIdentity {
    /// Tenant identifier.
    pub tenant_id: TenantId,
    /// Optional team identifier.
    pub team_id: Option<TeamId>,
    /// Optional user identifier.
    pub user_id: Option<UserId>,
    /// Optional impersonation information.
    pub impersonation: Option<Impersonation>,
    /// Free-form attributes propagated for routing and tracing.
    pub attributes: BTreeMap<String, String>,
}

/// The first of two options that is present.
pub open spec fn first_present<T>(a: Option<T>, b: Option<T>) -> Option<T> {
    match a {
        Some(x) => Some(x),
        None => b,
    }
}

impl TenantIdentity {
    /// Creates a new tenant identity scoped to a tenant id.
    pub fn new(tenant_id: TenantId) -> (r: Self)
        ensures
            r.tenant_id == tenant_id,
            r.team_id is None,
            r.user_id is None,
            r.impersonation is None,
            r.attributes@ == Map::<String, String>::empty(),
    {
        Self {
            tenant_id,
            team_id: None,
            user_id: None,
            impersonation: None,
            attributes: BTreeMap::new(),
        }
    }
}

impl<'a> From<&'a TenantCtx> for TenantIdentity {
    fn from(ctx: &'a TenantCtx) -> (r: Self)
        ensures
            r.tenant_id == ctx.tenant_id,
            r.team_id == first_present(ctx.team_id, ctx.team),
            r.user_id == first_present(ctx.user_id, ctx.user),
            r.impersonation == ctx.impersonation,
            r.attributes@ == ctx.attributes@,
    {
        ctx.identity()
    }
}

impl<'a> vstd::std_specs::convert::FromSpecImpl<&'a TenantCtx> for TenantIdentity {
    /// Only the fields' contents are specified (see `from`).
    open spec fn obeys_from_spec() -> bool {
        false
    }

    open spec fn from_spec(v: &'a TenantCtx) -> Self {
        vstd::pervasive::arbitrary()
    }
}

impl TenantCtx {
    /// Returns the tenant identity derived from this context.
    pub fn identity(&self) -> (r: TenantIdentity)
        ensures
            r.tenant_id == self.tenant_id,
            r.team_id == first_present(self.team_id, self.team),
            r.user_id == first_present(self.user_id, self.user),
            r.impersonation == self.impersonation,
            r.attributes@ == self.attributes@,
    {
        let team_id = match &self.team_id {
            Some(t) => Some(t.clone()),
            None => clone_opt_team(&self.team),
        };
        let user_id = match &self.user_id {
            Some(u) => Some(u.clone()),
            None => clone_opt_user(&self.user),
        };
        TenantIdentity {
            tenant_id: self.tenant_id.clone(),
            team_id,
            user_id,
            impersonation: clone_opt_impersonation(&self.impersonation),
            attributes: self.attributes.clone(),
        }
    }

    /// Returns the impersonation context, when present.
    pub fn impersonated_by(&self) -> (r: Option<&Impersonation>)
        ensures
            r is Some <==> self.impersonation is Some,
            r is Some ==> *r->Some_0 == self.impersonation->Some_0,
    {
        self.impersonation.as_ref()
    }

    /// Updates the identity fields to match the provided value.
    pub fn with_identity(self, identity: TenantIdentity) -> (r: Self)
        ensures
            r == (TenantCtx {
                tenant: identity.tenant_id,
                tenant_id: identity.tenant_id,
                team: identity.team_id,
                team_id: identity.team_id,
                user: identity.user_id,
                user_id: identity.user_id,
                impersonation: identity.impersonation,
                attributes: identity.attributes,
                ..self
            }),
    {
        let mut ctx = self;
        ctx.tenant = identity.tenant_id.clone();
        ctx.tenant_id = identity.tenant_id;
        ctx.team = clone_opt_team(&identity.team_id);
        ctx.team_id = identity.team_id;
        ctx.user = clone_opt_user(&identity.user_id);
        ctx.user_id = identity.user_id;
        ctx.impersonation = identity.impersonation;
        ctx.attributes = identity.attributes;
        ctx
    }
}

/// Reading the identity back out of a context that took it gives the same
/// identity (its team and user are kept in both legacy and shared fields).
pub proof fn law_identity_roundtrip(ctx: TenantCtx, identity: TenantIdentity)
    ensures
        ({
            let c = TenantCtx {
                tenant: identity.tenant_id,
                tenant_id: identity.tenant_id,
                team: identity.team_id,
                team_id: identity.team_id,
                user: identity.user_id,
                user_id: identity.user_id,
                impersonation: identity.impersonation,
                attributes: identity.attributes,
                ..ctx
            };
            &&& c.tenant_id == identity.tenant_id
            &&& first_present(c.team_id, c.team) == identity.team_id
            &&& first_present(c.user_id, c.user) == identity.user_id
            &&& c.impersonation == identity.impersonation
            &&& c.attributes@ == identity.attributes@
        }),
{
}

} // verus!
