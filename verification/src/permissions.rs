//! The closed permission catalog: every capability a workspace role can
//! grant is one of these ten identifiers.

use vstd::prelude::*;

verus! {

/// One grantable capability, drawn from the fixed catalog.
#[derive(Clone, Copy, PartialEq, Eq, Structural, Debug, Hash)]
pub enum Permission {
    UpdateWorkspace,
    DeleteWorkspace,
    ManageRoles,
    ManagePermissions,
    InviteMembers,
    ViewMembers,
    ViewRoles,
    ViewPermissions,
    RemoveMembers,
    AssignRolesToMembers,
}

/// The wire name of a permission, as stored and serialized.
pub open spec fn permission_name(p: Permission) -> Seq<char> {
    match p {
        Permission::UpdateWorkspace => "update_workspace"@,
        Permission::DeleteWorkspace => "delete_workspace"@,
        Permission::ManageRoles => "manage_roles"@,
        Permission::ManagePermissions => "manage_permissions"@,
        Permission::InviteMembers => "invite_members"@,
        Permission::ViewMembers => "view_members"@,
        Permission::ViewRoles => "view_roles"@,
        Permission::ViewPermissions => "view_permissions"@,
        Permission::RemoveMembers => "remove_members"@,
        Permission::AssignRolesToMembers => "assign_roles_to_members"@,
    }
}

/// The catalog in its canonical order.
pub open spec fn catalog() -> Seq<Permission> {
    seq![
        Permission::UpdateWorkspace,
        Permission::DeleteWorkspace,
        Permission::ManageRoles,
        Permission::ManagePermissions,
        Permission::InviteMembers,
        Permission::ViewMembers,
        Permission::ViewRoles,
        Permission::ViewPermissions,
        Permission::RemoveMembers,
        Permission::AssignRolesToMembers,
    ]
}

impl Permission {
    /// The wire name of this permission.
    pub fn name(&self) -> (r: String)
        ensures
            r@ == permission_name(*self),
    {
        match self {
            Permission::UpdateWorkspace => String::from_str("update_workspace"),
            Permission::DeleteWorkspace => String::from_str("delete_workspace"),
            Permission::ManageRoles => String::from_str("manage_roles"),
            Permission::ManagePermissions => String::from_str("manage_permissions"),
            Permission::InviteMembers => String::from_str("invite_members"),
            Permission::ViewMembers => String::from_str("view_members"),
            Permission::ViewRoles => String::from_str("view_roles"),
            Permission::ViewPermissions => String::from_str("view_permissions"),
            Permission::RemoveMembers => String::from_str("remove_members"),
            Permission::AssignRolesToMembers => String::from_str("assign_roles_to_members"),
        }
    }
}

/// The full catalog as a vector, in canonical order.
pub fn all_permissions() -> (r: Vec<Permission>)
    ensures
        r@ == catalog(),
{
    let mut v: Vec<Permission> = Vec::new();
    v.push(Permission::UpdateWorkspace);
    v.push(Permission::DeleteWorkspace);
    v.push(Permission::ManageRoles);
    v.push(Permission::ManagePermissions);
    v.push(Permission::InviteMembers);
    v.push(Permission::ViewMembers);
    v.push(Permission::ViewRoles);
    v.push(Permission::ViewPermissions);
    v.push(Permission::RemoveMembers);
    v.push(Permission::AssignRolesToMembers);
    proof {
        assert(v@ =~= catalog());
    }
    v
}

/// The permission whose wire name is `s`, if any: name lookups against the
/// catalog resolve this way, and unknown names resolve to nothing.
pub open spec fn permission_of_name(s: Seq<char>) -> Option<Permission> {
    if s == permission_name(Permission::UpdateWorkspace) {
        Some(Permission::UpdateWorkspace)
    } else if s == permission_name(Permission::DeleteWorkspace) {
        Some(Permission::DeleteWorkspace)
    } else if s == permission_name(Permission::ManageRoles) {
        Some(Permission::ManageRoles)
    } else if s == permission_name(Permission::ManagePermissions) {
        Some(Permission::ManagePermissions)
    } else if s == permission_name(Permission::InviteMembers) {
        Some(Permission::InviteMembers)
    } else if s == permission_name(Permission::ViewMembers) {
        Some(Permission::ViewMembers)
    } else if s == permission_name(Permission::ViewRoles) {
        Some(Permission::ViewRoles)
    } else if s == permission_name(Permission::ViewPermissions) {
        Some(Permission::ViewPermissions)
    } else if s == permission_name(Permission::RemoveMembers) {
        Some(Permission::RemoveMembers)
    } else if s == permission_name(Permission::AssignRolesToMembers) {
        Some(Permission::AssignRolesToMembers)
    } else {
        None
    }
}

/// Every permission value is in the catalog: the enumeration is the
/// catalog, so a role resolved to the full catalog allows every check.
pub proof fn lemma_catalog_complete(p: Permission)
    ensures
        catalog().contains(p),
{
    match p {
        Permission::UpdateWorkspace => assert(catalog()[0] == p),
        Permission::DeleteWorkspace => assert(catalog()[1] == p),
        Permission::ManageRoles => assert(catalog()[2] == p),
        Permission::ManagePermissions => assert(catalog()[3] == p),
        Permission::InviteMembers => assert(catalog()[4] == p),
        Permission::ViewMembers => assert(catalog()[5] == p),
        Permission::ViewRoles => assert(catalog()[6] == p),
        Permission::ViewPermissions => assert(catalog()[7] == p),
        Permission::RemoveMembers => assert(catalog()[8] == p),
        Permission::AssignRolesToMembers => assert(catalog()[9] == p),
    }
}

/// Whether a permission list holds `p`.
pub fn contains_permission(v: &Vec<Permission>, p: Permission) -> (b: bool)
    ensures
        b == v@.contains(p),
{
    let n = v.len();
    let mut i: usize = 0;
    while i < n
        invariant
            0 <= i <= n == v@.len(),
            forall|j: int| 0 <= j < i ==> v@[j] != p,
        decreases n - i,
    {
        if v[i] == p {
            return true;
        }
        i = i + 1;
    }
    false
}

/// One catalog entry as served to clients.
#[derive(Debug)]
pub struct PermissionDto {
    pub name: String,
    pub description: Option<String>,
}

/// The catalog as served to clients.
#[derive(Debug)]
pub struct PermissionsDto {
    pub permissions: Vec<PermissionDto>,
}

/// The envelope for the catalog listing.
#[derive(Debug)]
pub struct PermissionDtoResponse {
    pub status: &'static str,
    pub data: PermissionsDto,
}

/// Looks a wire name up in the catalog.
pub fn permission_from_name(s: &String) -> (r: Option<Permission>)
    ensures
        r == permission_of_name(s@),
{
    if s.eq(&String::from_str("update_workspace")) {
        Some(Permission::UpdateWorkspace)
    } else if s.eq(&String::from_str("delete_workspace")) {
        Some(Permission::DeleteWorkspace)
    } else if s.eq(&String::from_str("manage_roles")) {
        Some(Permission::ManageRoles)
    } else if s.eq(&String::from_str("manage_permissions")) {
        Some(Permission::ManagePermissions)
    } else if s.eq(&String::from_str("invite_members")) {
        Some(Permission::InviteMembers)
    } else if s.eq(&String::from_str("view_members")) {
        Some(Permission::ViewMembers)
    } else if s.eq(&String::from_str("view_roles")) {
        Some(Permission::ViewRoles)
    } else if s.eq(&String::from_str("view_permissions")) {
        Some(Permission::ViewPermissions)
    } else if s.eq(&String::from_str("remove_members")) {
        Some(Permission::RemoveMembers)
    } else if s.eq(&String::from_str("assign_roles_to_members")) {
        Some(Permission::AssignRolesToMembers)
    } else {
        None
    }
}

} // verus!
