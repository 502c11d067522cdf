//! Role payloads: what the registry returns for a listed role, and the
//! create/update request bodies with their validation rules.

use vstd::prelude::*;
use crate::permissions::{Permission, permission_of_name, permission_from_name};

verus! {

/// A listed role together with its aggregated permission names.
#[derive(Debug)]
pub struct RoleWithPermissions {
    pub id: u64,
    pub name: String,
    pub description: Option<String>,
    pub permissions: Vec<Permission>,
}

/// The envelope for a role listing.
#[derive(Debug)]
pub struct RoleResponse {
    pub status: &'static str,
    pub roles: Vec<RoleWithPermissions>,
}

/// Whether every requested permission name is drawn from the catalog.
pub open spec fn all_names_in_catalog(names: Seq<String>) -> bool {
    forall|i: int| 0 <= i < names.len() ==> permission_of_name((#[trigger] names[i])@) is Some
}

/// A create-role request: a name of at least three characters, an optional
/// description, and the requested permission names.
#[derive(Debug)]
pub struct CreateRoleDto {
    pub name: String,
    pub description: Option<String>,
    pub permissions: Vec<String>,
}

impl CreateRoleDto {
    /// Accepts the request exactly when the name has at least three
    /// characters and every permission name is in the catalog.
    pub fn validate_all(&self) -> (r: Result<(), String>)
        ensures
            r is Ok <==> (self.name@.len() >= 3 && all_names_in_catalog(self.permissions@)),
    {
        validate_role_payload(&self.name, &self.permissions)
    }
}

/// An update-role request, shaped as the create request is.
#[derive(Debug)]
pub struct UpdateRoleDto {
    pub name: String,
    pub description: Option<String>,
    pub permissions: Vec<String>,
}

impl UpdateRoleDto {
    /// Accepts the request exactly when the name has at least three
    /// characters and every permission name is in the catalog.
    pub fn validate_all(&self) -> (r: Result<(), String>)
        ensures
            r is Ok <==> (self.name@.len() >= 3 && all_names_in_catalog(self.permissions@)),
    {
        validate_role_payload(&self.name, &self.permissions)
    }

    /// The field rules alone: the name has at least three characters.
    pub fn validate(&self) -> (r: Result<(), String>)
        ensures
            r is Ok <==> self.name@.len() >= 3,
    {
        if self.name.as_str().unicode_len() < 3 {
            return Err(String::from_str("Name must be at least 3 characters long"));
        }
        Ok(())
    }
}

/// The shared rule behind both role payloads: name length, then each
/// permission name held against the catalog.
fn validate_role_payload(name: &String, permissions: &Vec<String>) -> (r: Result<(), String>)
    ensures
        r is Ok <==> (name@.len() >= 3 && all_names_in_catalog(permissions@)),
{
    if name.as_str().unicode_len() < 3 {
        return Err(String::from_str("Name must be at least 3 characters long"));
    }
    let n = permissions.len();
    let mut i: usize = 0;
    while i < n
        invariant
            0 <= i <= n == permissions@.len(),
            forall|j: int| 0 <= j < i ==> permission_of_name((#[trigger] permissions@[j])@) is Some,
        decreases n - i,
    {
        if permission_from_name(&permissions[i]).is_none() {
            return Err(
                String::from_str("Invalid permissions:").concat(permissions[i].as_str()),
            );
        }
        i = i + 1;
    }
    Ok(())
}

} // verus!
