//! Membership payloads: the member listing rows and the role-reassignment
//! request.

use vstd::prelude::*;

verus! {

/// One member of a workspace, joined with their role name.
#[derive(Debug)]
pub struct WorkspaceUserWithRoleDto {
    pub user_id: u64,
    pub user_name: String,
    pub user_email: String,
    pub role_name: String,
}

/// The members of one workspace.
#[derive(Debug)]
pub struct WorkSpaceUsers {
    pub users: Vec<WorkspaceUserWithRoleDto>,
}

/// The envelope for a member listing.
#[derive(Debug)]
pub struct WorkSpaceUserResponseWithRoleDto {
    pub status: &'static str,
    pub data: WorkSpaceUsers,
}

/// A role-reassignment request: the human-chosen role name.
#[derive(Debug)]
pub struct UpdateUserRoleDto {
    pub role_name: String,
}

impl UpdateUserRoleDto {
    /// Accepts the request exactly when the role name is non-empty.
    pub fn validate(&self) -> (r: Result<(), String>)
        ensures
            r is Ok <==> self.role_name@.len() >= 1,
    {
        if self.role_name.as_str().unicode_len() < 1 {
            return Err(String::from_str("Role name is required"));
        }
        Ok(())
    }
}

} // verus!
