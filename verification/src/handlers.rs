//! What each endpoint answers, given what the repository replied.

use crate::error::ApiError;
use crate::resources::Resource;
use crate::responses::{ApiListResponse, ApiResponse, HealthResponse};
use vstd::prelude::*;
use vstd::string::StringExecFns;

verus! {

/// The answer to a request for the list: the resources and their number, or
/// the repository's failure.
pub open spec fn list_reply(listed: Result<Vec<Resource>, ApiError>) -> Result<
    ApiListResponse<Resource>,
    ApiError,
> {
    match listed {
        Ok(resources) => Ok(ApiListResponse { data: resources, total: resources@.len() as usize }),
        Err(error) => Err(error),
    }
}

/// The answer to a request for one resource: the resource, not-found where
/// the repository has none, or the repository's failure.
pub open spec fn found_reply(found: Result<Option<Resource>, ApiError>) -> Result<
    ApiResponse<Resource>,
    ApiError,
> {
    match found {
        Ok(Some(resource)) => Ok(ApiResponse { data: resource }),
        Ok(None) => Err(ApiError::NotFound),
        Err(error) => Err(error),
    }
}

/// The answer to a creation: the new resource, or the repository's failure.
pub open spec fn created_reply(created: Result<Resource, ApiError>) -> Result<
    ApiResponse<Resource>,
    ApiError,
> {
    match created {
        Ok(resource) => Ok(ApiResponse { data: resource }),
        Err(error) => Err(error),
    }
}

/// The answer to a deletion: nothing where a resource was deleted, not-found
/// where none was, or the repository's failure.
pub open spec fn deleted_reply(deleted: Result<bool, ApiError>) -> Result<(), ApiError> {
    match deleted {
        Ok(true) => Ok(()),
        Ok(false) => Err(ApiError::NotFound),
        Err(error) => Err(error),
    }
}

/// The body of the health endpoint for a service of the given version.
pub fn health_check(version: &str) -> (response: HealthResponse)
    ensures
        response.status@ == "ok"@,
        response.version@ == version@,
{
    HealthResponse { status: String::from_str("ok"), version: String::from_str(version) }
}

/// Answers a request for the list.
pub fn list_resources(listed: Result<Vec<Resource>, ApiError>) -> (r: Result<
    ApiListResponse<Resource>,
    ApiError,
>)
    ensures
        r == list_reply(listed),
{
    match listed {
        Ok(resources) => {
            let total = resources.len();
            Ok(ApiListResponse { data: resources, total })
        },
        Err(error) => Err(error),
    }
}

/// Answers a request for one resource.
pub fn get_resource(found: Result<Option<Resource>, ApiError>) -> (r: Result<
    ApiResponse<Resource>,
    ApiError,
>)
    ensures
        r == found_reply(found),
{
    match found {
        Ok(Some(resource)) => Ok(ApiResponse { data: resource }),
        Ok(None) => Err(ApiError::NotFound),
        Err(error) => Err(error),
    }
}

/// Answers a creation.
pub fn create_resource(created: Result<Resource, ApiError>) -> (r: Result<
    ApiResponse<Resource>,
    ApiError,
>)
    ensures
        r == created_reply(created),
{
    match created {
        Ok(resource) => Ok(ApiResponse { data: resource }),
        Err(error) => Err(error),
    }
}

/// Answers an update, as a request for the updated resource is answered.
pub fn update_resource(updated: Result<Option<Resource>, ApiError>) -> (r: Result<
    ApiResponse<Resource>,
    ApiError,
>)
    ensures
        r == found_reply(updated),
{
    get_resource(updated)
}

/// Answers a deletion.
pub fn delete_resource(deleted: Result<bool, ApiError>) -> (r: Result<(), ApiError>)
    ensures
        r == deleted_reply(deleted),
{
    match deleted {
        Ok(true) => Ok(()),
        Ok(false) => Err(ApiError::NotFound),
        Err(error) => Err(error),
    }
}

} // verus!
