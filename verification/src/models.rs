//! The persisted entities, modeled as plain records: identifiers are
//! integers, timestamps are seconds, and the permission catalog is the
//! closed enumeration from `permissions`.

use vstd::prelude::*;
use crate::permissions::Permission;

verus! {

/// A registered account.
#[derive(Debug)]
pub struct User {
    pub id: u64,
    pub name: String,
    pub email: String,
    pub password: String,
    pub email_verified: bool,
    pub pending_email: Option<String>,
    pub pending_email_token: Option<u64>,
    pub pending_email_expires_at: Option<u64>,
}

impl Clone for User {
    fn clone(&self) -> (r: Self)
        ensures
            r == *self,
    {
        User {
            id: self.id,
            name: self.name.clone(),
            email: self.email.clone(),
            password: self.password.clone(),
            email_verified: self.email_verified,
            pending_email: match &self.pending_email {
                Some(e) => Some(e.clone()),
                None => None,
            },
            pending_email_token: self.pending_email_token,
            pending_email_expires_at: self.pending_email_expires_at,
        }
    }
}

/// A tenant boundary: owns roles, members and an invite code.
#[derive(Debug)]
pub struct Workspace {
    pub id: u64,
    pub name: String,
    pub owner_user_id: Option<u64>,
    pub invite_code: String,
    pub is_default: bool,
}

impl Clone for Workspace {
    fn clone(&self) -> (r: Self)
        ensures
            r == *self,
    {
        Workspace {
            id: self.id,
            name: self.name.clone(),
            owner_user_id: self.owner_user_id,
            invite_code: self.invite_code.clone(),
            is_default: self.is_default,
        }
    }
}

/// The binding of a user to exactly one role within exactly one workspace.
#[derive(Clone, Copy, PartialEq, Eq, Structural, Debug)]
pub struct WorkspaceUser {
    pub workspace_id: u64,
    pub user_id: u64,
    pub role_id: u64,
}

/// A named, workspace-scoped bundle of permissions. The row named `Admin`
/// is protected and implicitly carries the full catalog.
#[derive(Debug)]
pub struct Role {
    pub id: u64,
    pub workspace_id: u64,
    pub name: String,
    pub description: Option<String>,
}

impl Clone for Role {
    fn clone(&self) -> (r: Self)
        ensures
            r == *self,
    {
        Role {
            id: self.id,
            workspace_id: self.workspace_id,
            name: self.name.clone(),
            description: match &self.description {
                Some(d) => Some(d.clone()),
                None => None,
            },
        }
    }
}

/// A link granting one catalog permission to one role.
#[derive(Clone, Copy, PartialEq, Eq, Structural, Debug)]
pub struct RolePermission {
    pub role_id: u64,
    pub permission: Permission,
}

/// A pending address-verification token for a new account.
#[derive(Clone, Copy, PartialEq, Eq, Structural, Debug)]
pub struct EmailVerification {
    pub user_id: u64,
    pub token: u64,
    pub expires_at: u64,
}

/// A pending password-reset token.
#[derive(Clone, Copy, PartialEq, Eq, Structural, Debug)]
pub struct PasswordReset {
    pub user_id: u64,
    pub token: u64,
    pub expires_at: u64,
}

} // verus!
