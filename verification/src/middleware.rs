//! The guard in front of the resource endpoints.
//!
//! A process-wide switch turns authentication on. While it is off every
//! request passes as anonymous. While it is on a request must carry
//! credentials; which credentials is not checked, so any value passes.

use vstd::prelude::*;

verus! {

/// Who makes a request.
#[derive(Clone, Debug, PartialEq, Eq)]
pub struct AuthContext {
    pub user_id: Option<String>,
    pub is_authenticated: bool,
}

/// Builds the guard around a service.
#[derive(Clone, Debug)]
pub struct AuthLayer {
    enabled: bool,
}

/// A guarded service.
#[derive(Clone, Debug)]
pub struct AuthMiddleware<S> {
    inner: S,
    enabled: bool,
}

/// What the guard does with a request.
#[derive(Clone, Debug, PartialEq, Eq)]
pub enum AuthDecision {
    /// The request goes on to the service, with the context attached.
    Forward(AuthContext),
    /// The request is answered at once with status 401.
    Reject,
}

/// The context of a request whose maker is not known.
pub open spec fn anonymous_context() -> AuthContext {
    AuthContext { user_id: None, is_authenticated: false }
}

/// The context that credentials give: none without credentials, and the
/// anonymous one for any credentials.
pub open spec fn credentials_context(auth_header: Option<&str>) -> Option<AuthContext> {
    match auth_header {
        Some(_) => Some(anonymous_context()),
        None => None,
    }
}

/// The decision on a request with the given `Authorization` header.
pub open spec fn admission(enabled: bool, auth_header: Option<&str>) -> AuthDecision {
    if !enabled {
        AuthDecision::Forward(anonymous_context())
    } else {
        match credentials_context(auth_header) {
            Some(context) => AuthDecision::Forward(context),
            None => AuthDecision::Reject,
        }
    }
}

impl AuthContext {
    /// The context of a request whose maker is not known.
    pub fn anonymous() -> (context: AuthContext)
        ensures
            context == anonymous_context(),
    {
        AuthContext { user_id: None, is_authenticated: false }
    }
}

/// Looks at the credentials of a request.
pub fn authenticate(auth_header: Option<&str>) -> (context: Option<AuthContext>)
    ensures
        context == credentials_context(auth_header),
{
    match auth_header {
        Some(_) => Some(AuthContext::anonymous()),
        None => None,
    }
}

impl AuthLayer {
    /// Whether credentials are asked for.
    pub closed spec fn enabled(&self) -> bool {
        self.enabled
    }

    /// A guard that asks for credentials if `enabled`.
    pub fn new(enabled: bool) -> (layer: AuthLayer)
        ensures
            layer.enabled() == enabled,
    {
        AuthLayer { enabled }
    }

    /// Whether credentials are asked for.
    pub fn is_enabled(&self) -> (enabled: bool)
        ensures
            enabled == self.enabled(),
    {
        self.enabled
    }

    /// Puts the guard in front of `inner`.
    pub fn layer<S>(&self, inner: S) -> (service: AuthMiddleware<S>)
        ensures
            service.enabled() == self.enabled(),
            service.inner() == inner,
    {
        AuthMiddleware { inner, enabled: self.enabled }
    }
}

impl<S> AuthMiddleware<S> {
    /// Whether credentials are asked for.
    pub closed spec fn enabled(&self) -> bool {
        self.enabled
    }

    /// The guarded service.
    pub closed spec fn inner(&self) -> S {
        self.inner
    }

    /// The guarded service.
    pub fn get_ref(&self) -> (inner: &S)
        ensures
            *inner == self.inner(),
    {
        &self.inner
    }

    /// The guarded service, for a call that changes it; the switch is not
    /// touched.
    pub fn get_mut(&mut self) -> (inner: &mut S)
        ensures
            *inner == old(self).inner(),
            final(self).inner() == *final(inner),
            final(self).enabled() == old(self).enabled(),
    {
        &mut self.inner
    }

    /// Decides on a request with the given `Authorization` header.
    pub fn call(&self, auth_header: Option<&str>) -> (decision: AuthDecision)
        ensures
            decision == admission(self.enabled(), auth_header),
    {
        if !self.enabled {
            return AuthDecision::Forward(AuthContext::anonymous());
        }
        match authenticate(auth_header) {
            Some(context) => AuthDecision::Forward(context),
            None => AuthDecision::Reject,
        }
    }
}

} // verus!
