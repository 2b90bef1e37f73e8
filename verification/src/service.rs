//! One service for each kind of row. A service checks what a request must
//! carry, runs the repository, and answers in the shapes that callers see.

use vstd::prelude::*;

use crate::entity::Entity;
use crate::error::ServiceError;

pub mod bookmark_service;
pub mod group_service;
pub mod organization_service;
pub mod user_service;
pub mod workspace_service;

verus! {

/// An update must say which row it is about: the id of its input, or the
/// refusal of an input without one.
pub fn required_id(id: Option<i32>, entity: Entity) -> (r: Result<i32, ServiceError>)
    ensures
        r == match id {
            Some(id) => Ok::<i32, ServiceError>(id),
            None => Err(ServiceError::ValidationError(entity)),
        },
{
    match id {
        Some(id) => Ok(id),
        None => Err(ServiceError::ValidationError(entity)),
    }
}

} // verus!
