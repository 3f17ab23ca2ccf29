//! The endpoints of the REST surface: where each is found, and which of them
//! stand behind the guard.

use crate::text::join;
use vstd::prelude::*;
use vstd::string::StringExecFns;

verus! {

/// The prefix of the addresses of the guarded endpoints.
pub const API_PREFIX: &'static str = "/api/v1";

/// The HTTP methods that the surface uses.
#[derive(Clone, Copy, Debug, PartialEq, Eq, Structural)]
pub enum Method {
    Get,
    Post,
    Put,
    Delete,
}

/// The endpoints of the surface.
#[derive(Clone, Copy, Debug, PartialEq, Eq, Structural)]
pub enum Endpoint {
    Health,
    ListResources,
    CreateResource,
    GetResource,
    UpdateResource,
    DeleteResource,
}

impl Method {
    /// The name of the method.
    pub fn name(&self) -> (name: &'static str)
        ensures
            name@ == (match *self {
                Method::Get => "GET"@,
                Method::Post => "POST"@,
                Method::Put => "PUT"@,
                Method::Delete => "DELETE"@,
            }),
    {
        match self {
            Method::Get => "GET",
            Method::Post => "POST",
            Method::Put => "PUT",
            Method::Delete => "DELETE",
        }
    }
}

impl Endpoint {
    /// The method that reaches the endpoint.
    pub open spec fn method_of(self) -> Method {
        match self {
            Endpoint::Health => Method::Get,
            Endpoint::ListResources => Method::Get,
            Endpoint::CreateResource => Method::Post,
            Endpoint::GetResource => Method::Get,
            Endpoint::UpdateResource => Method::Put,
            Endpoint::DeleteResource => Method::Delete,
        }
    }

    /// Whether the endpoint stands behind the guard: all but the health
    /// endpoint do.
    pub open spec fn guarded(self) -> bool {
        self != Endpoint::Health
    }

    /// The address of the endpoint within its group, with the identifier of
    /// a resource written as `{id}`.
    pub open spec fn route_text(self) -> Seq<char> {
        match self {
            Endpoint::Health => "/health"@,
            Endpoint::ListResources => "/resources"@,
            Endpoint::CreateResource => "/resources"@,
            Endpoint::GetResource => "/resources/{id}"@,
            Endpoint::UpdateResource => "/resources/{id}"@,
            Endpoint::DeleteResource => "/resources/{id}"@,
        }
    }

    /// The method that reaches the endpoint.
    pub fn method(&self) -> (method: Method)
        ensures
            method == self.method_of(),
    {
        match self {
            Endpoint::Health => Method::Get,
            Endpoint::ListResources => Method::Get,
            Endpoint::CreateResource => Method::Post,
            Endpoint::GetResource => Method::Get,
            Endpoint::UpdateResource => Method::Put,
            Endpoint::DeleteResource => Method::Delete,
        }
    }

    /// Whether the endpoint stands behind the guard.
    pub fn is_protected(&self) -> (protected: bool)
        ensures
            protected == self.guarded(),
    {
        match self {
            Endpoint::Health => false,
            _ => true,
        }
    }

    /// The address of the endpoint within its group.
    pub fn route(&self) -> (route: &'static str)
        ensures
            route@ == self.route_text(),
    {
        match self {
            Endpoint::Health => "/health",
            Endpoint::ListResources => "/resources",
            Endpoint::CreateResource => "/resources",
            Endpoint::GetResource => "/resources/{id}",
            Endpoint::UpdateResource => "/resources/{id}",
            Endpoint::DeleteResource => "/resources/{id}",
        }
    }

    /// The full address of the endpoint: its route, behind the prefix if it
    /// is guarded.
    pub fn path(&self) -> (path: String)
        ensures
            path@ == (if self.guarded() {
                API_PREFIX@ + self.route_text()
            } else {
                self.route_text()
            }),
    {
        if self.is_protected() {
            join(API_PREFIX, self.route())
        } else {
            String::from_str(self.route())
        }
    }
}

/// All endpoints, the health endpoint first.
pub fn endpoints() -> (all: Vec<Endpoint>)
    ensures
        all@ == seq![
            Endpoint::Health,
            Endpoint::ListResources,
            Endpoint::CreateResource,
            Endpoint::GetResource,
            Endpoint::UpdateResource,
            Endpoint::DeleteResource,
        ],
{
    let mut all: Vec<Endpoint> = Vec::new();
    all.push(Endpoint::Health);
    all.push(Endpoint::ListResources);
    all.push(Endpoint::CreateResource);
    all.push(Endpoint::GetResource);
    all.push(Endpoint::UpdateResource);
    all.push(Endpoint::DeleteResource);
    assert(all@ =~= seq![
        Endpoint::Health,
        Endpoint::ListResources,
        Endpoint::CreateResource,
        Endpoint::GetResource,
        Endpoint::UpdateResource,
        Endpoint::DeleteResource,
    ]);
    all
}

} // verus!
