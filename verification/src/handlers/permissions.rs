//! The permission-catalog route: the fixed catalog, served as named
//! entries.

use vstd::prelude::*;
use crate::middleware::jwt_auth_middleware::JwtAuthMiddleware;
use crate::middleware::workspace_middleware::WorkspaceAuthMiddleware;
use crate::permissions::{PermissionDto, PermissionDtoResponse, PermissionsDto, all_permissions,
    catalog, permission_name};

verus! {

/// Serves the fixed catalog: one entry per permission, in canonical
/// order, under its wire name.
pub fn get_permissions(_user: &JwtAuthMiddleware, _workspace: &WorkspaceAuthMiddleware) -> (r:
    PermissionDtoResponse)
    ensures
        r.status@ == "success"@,
        r.data.permissions@.len() == catalog().len(),
        forall|i: int|
            0 <= i < r.data.permissions@.len() ==> (#[trigger] r.data.permissions@[i]).name@
                == permission_name(catalog()[i]),
{
    let all = all_permissions();
    let n = all.len();
    let mut out: Vec<PermissionDto> = Vec::new();
    let mut i: usize = 0;
    while i < n
        invariant
            0 <= i <= n == all@.len(),
            all@ == catalog(),
            out@.len() == i,
            forall|j: int|
                0 <= j < i ==> (#[trigger] out@[j]).name@ == permission_name(catalog()[j]),
        decreases n - i,
    {
        out.push(PermissionDto { name: all[i].name(), description: None });
        i = i + 1;
    }
    PermissionDtoResponse { status: "success", data: PermissionsDto { permissions: out } }
}

} // verus!
