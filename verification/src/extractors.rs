//! Who is asking, and what they ask leave for.

use vstd::prelude::*;
use crate::error::Error;

verus! {

#[verifier::external_type_specification]
#[verifier::external_body]
pub struct ExUuid(uuid::Uuid);

/// Per-user presentation settings.
pub struct Settings {}

/// The identity behind a request: the user and their group, where the
/// session token named one.
pub struct Authentication {
    pub group_id: Option<i32>,
    pub id: Option<uuid::Uuid>,
}

/// Leave to perform an operation on a class of resources.
pub struct Permission(pub Operation, pub Resource);

/// What can be done to a resource.
#[derive(Clone, Copy, Debug, PartialEq, Eq, Structural)]
pub enum Operation {
    Read,
    Modify,
    Delete,
    Create,
}

/// The classes of resources.
#[derive(Clone, Copy, Debug, PartialEq, Eq, Structural)]
pub enum Resource {
    Posts,
    Wiki,
}

impl Operation {
    /// The name under which the access-control tables know the operation.
    pub fn name(&self) -> (name: &'static str)
        ensures
            name@ == match self {
                Operation::Read => "read"@,
                Operation::Modify => "modify"@,
                Operation::Delete => "delete"@,
                Operation::Create => "create"@,
            },
    {
        match self {
            Operation::Read => "read",
            Operation::Modify => "modify",
            Operation::Delete => "delete",
            Operation::Create => "create",
        }
    }
}

impl Resource {
    /// The name under which the access-control tables know the resource class.
    pub fn name(&self) -> (name: &'static str)
        ensures
            name@ == match self {
                Resource::Posts => "posts"@,
                Resource::Wiki => "wiki"@,
            },
    {
        match self {
            Resource::Posts => "posts",
            Resource::Wiki => "wiki",
        }
    }
}

impl Authentication {
    /// Whether the request came with a valid session.
    pub fn signed_in(&self) -> (yes: bool)
        ensures
            yes == self.id is Some,
    {
        self.id.is_some()
    }
}

/// The permission that an upload needs: to create posts.
pub fn upload_permission() -> (needed: Permission)
    ensures
        needed.0 == Operation::Create,
        needed.1 == Resource::Posts,
{
    Permission(Operation::Create, Resource::Posts)
}

/// Admission of a batch of uploads: a caller who may create posts is let
/// in, and everyone else is refused alike.
pub fn authorize(may_create: bool) -> (admitted: Result<(), Error>)
    ensures
        may_create ==> admitted is Ok,
        !may_create ==> admitted matches Err(Error::Unauthorized),
{
    if may_create {
        Ok(())
    } else {
        Err(Error::Unauthorized)
    }
}

} // verus!
