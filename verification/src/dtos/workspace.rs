//! Workspace payloads: creation and rename requests, the filtered
//! workspace view, and the resolved role-and-permissions context.

use vstd::prelude::*;
use crate::permissions::Permission;

verus! {

/// A create-workspace request: a non-empty name.
#[derive(Debug)]
pub struct WorkspaceCreateDto {
    pub name: String,
}

impl WorkspaceCreateDto {
    /// Accepts the request exactly when the name is non-empty.
    pub fn validate(&self) -> (r: Result<(), String>)
        ensures
            r is Ok <==> self.name@.len() >= 1,
    {
        if self.name.as_str().unicode_len() < 1 {
            return Err(String::from_str("Workspace name is required"));
        }
        Ok(())
    }
}

/// A rename-workspace request: a name of at least three characters.
#[derive(Debug)]
pub struct UpdateWorkspaceDto {
    pub name: String,
}

impl UpdateWorkspaceDto {
    /// Accepts the request exactly when the name has at least three
    /// characters.
    pub fn validate(&self) -> (r: Result<(), String>)
        ensures
            r is Ok <==> self.name@.len() >= 3,
    {
        if self.name.as_str().unicode_len() < 3 {
            return Err(String::from_str("Workspace name must be at least 3 characters long"));
        }
        Ok(())
    }
}

/// A workspace as returned to clients.
#[derive(Debug)]
pub struct FilterWorkspaceResponse {
    pub id: u64,
    pub name: String,
    pub owner_user_id: u64,
    pub invite_code: String,
    pub is_default: bool,
}

/// A caller's resolved context in one workspace: the workspace, the
/// caller's role, and the role's effective permission set.
#[derive(Debug)]
pub struct WorkspaceWithRoleAndPermissions {
    pub workspace: FilterWorkspaceResponse,
    pub role_id: u64,
    pub role_name: String,
    pub permissions: Vec<Permission>,
}

/// The envelope for a created or fetched workspace context.
#[derive(Debug)]
pub struct WorkspaceCreateResponseDto {
    pub status: &'static str,
    pub data: WorkspaceWithRoleAndPermissions,
}

/// One row of a user's workspace listing.
#[derive(Debug)]
pub struct WorkspaceListDto {
    pub workspace_id: u64,
    pub workspace_name: String,
    pub invite_code: String,
    pub is_default: bool,
    pub role_name: Option<String>,
}

/// The workspaces of one user.
#[derive(Debug)]
pub struct WorkspaceList {
    pub workspaces: Vec<WorkspaceListDto>,
}

/// The envelope for a user's workspace listing.
#[derive(Debug)]
pub struct WorkspaceListResponse {
    pub status: &'static str,
    pub data: WorkspaceList,
}

} // verus!
