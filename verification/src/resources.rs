//! The resource entity as it crosses the REST surface, and the bodies of the
//! requests that create and update it.

use vstd::prelude::*;

verus! {

/// The identifier of a resource.
pub type ResourceId = String;

/// A stored resource. The timestamps are epoch seconds written in decimal.
#[derive(Clone, Debug, PartialEq, Eq)]
pub struct Resource {
    pub id: ResourceId,
    pub name: String,
    pub description: Option<String>,
    pub created_at: String,
    pub updated_at: String,
}

/// The body of a request that creates a resource.
#[derive(Clone, Debug, PartialEq, Eq)]
pub struct CreateResource {
    pub name: String,
    pub description: Option<String>,
}

/// The body of a request that updates a resource: a field left out keeps its
/// stored value.
#[derive(Clone, Debug, PartialEq, Eq)]
pub struct UpdateResource {
    pub name: Option<String>,
    pub description: Option<String>,
}

/// A resource as plain text values.
pub struct ResourceView {
    pub id: Seq<char>,
    pub name: Seq<char>,
    pub description: Option<Seq<char>>,
    pub created_at: Seq<char>,
    pub updated_at: Seq<char>,
}

/// A creation request as plain text values.
pub struct CreateResourceView {
    pub name: Seq<char>,
    pub description: Option<Seq<char>>,
}

/// An update request as plain text values.
pub struct UpdateResourceView {
    pub name: Option<Seq<char>>,
    pub description: Option<Seq<char>>,
}

/// The characters of an optional text.
pub open spec fn optional_text(text: Option<String>) -> Option<Seq<char>> {
    match text {
        Some(text) => Some(text@),
        None => None,
    }
}

impl View for Resource {
    type V = ResourceView;

    open spec fn view(&self) -> ResourceView {
        ResourceView {
            id: self.id@,
            name: self.name@,
            description: optional_text(self.description),
            created_at: self.created_at@,
            updated_at: self.updated_at@,
        }
    }
}

impl View for CreateResource {
    type V = CreateResourceView;

    open spec fn view(&self) -> CreateResourceView {
        CreateResourceView { name: self.name@, description: optional_text(self.description) }
    }
}

impl View for UpdateResource {
    type V = UpdateResourceView;

    open spec fn view(&self) -> UpdateResourceView {
        UpdateResourceView {
            name: optional_text(self.name),
            description: optional_text(self.description),
        }
    }
}

/// A copy of an optional text.
pub fn copy_optional_text(text: &Option<String>) -> (copy: Option<String>)
    ensures
        optional_text(copy) == optional_text(*text),
{
    match text {
        Some(text) => Some(text.clone()),
        None => None,
    }
}

} // verus!
