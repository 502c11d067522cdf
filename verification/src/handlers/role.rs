//! Role routes: listing and the three protected mutations, each reached
//! only through the manage-roles gate.

use vstd::prelude::*;
use crate::dtos::Response;
use crate::dtos::role::{CreateRoleDto, RoleResponse, UpdateRoleDto, all_names_in_catalog};
use crate::errors::{ErrorMessage, HttpError, is_server_error};
use crate::middleware::jwt_auth_middleware::JwtAuthMiddleware;
use crate::middleware::workspace_middleware::WorkspaceAuthMiddleware;
use crate::models::{Role, RolePermission};
use crate::permissions::Permission;
use crate::store::Store;
use crate::store::role::{has_role, is_admin_role, listed_roles, requested_perms};

verus! {

/// Lists the workspace's roles, never including the Admin role.
pub fn get_roles(store: &Store, _user: &JwtAuthMiddleware, workspace: &WorkspaceAuthMiddleware) -> (
    r: RoleResponse)
    requires
        store.wf(),
    ensures
        r.status@ == "success"@,
        r.roles@.len() == listed_roles(*store, workspace.workspace_id).len(),
        forall|i: int|
            0 <= i < r.roles@.len() ==> (#[trigger] r.roles@[i]).id == listed_roles(
                *store,
                workspace.workspace_id,
            )[i].id && r.roles@[i].name == listed_roles(*store, workspace.workspace_id)[i].name,
        forall|i: int, p: Permission|
            0 <= i < r.roles@.len() ==> (#[trigger] r.roles@[i].permissions@.contains(p)
                <==> store.role_perm_set(
                listed_roles(*store, workspace.workspace_id)[i].id,
            ).contains(p)),
{
    let roles = store.get_role_with_permissions(workspace.workspace_id);
    RoleResponse { status: "success", roles }
}

/// Creates a role from a validated payload; an invalid payload is a 400
/// and nothing else fails.
pub fn create_roles(
    store: &mut Store,
    _user: &JwtAuthMiddleware,
    workspace: &WorkspaceAuthMiddleware,
    payload: CreateRoleDto,
) -> (r: Result<Response, HttpError>)
    requires
        old(store).wf(),
        old(store).next_role_id < u64::MAX,
    ensures
        final(store).wf(),
        r is Err <==> !(payload.name@.len() >= 3 && all_names_in_catalog(payload.permissions@)),
        r matches Err(e) ==> e.status == 400 && *final(store) == *old(store),
        r matches Ok(resp) ==> {
            &&& resp.status@ == "success"@
            &&& resp.message@ == "Role created successfully"@
            &&& final(store).roles@ == old(store).roles@.push(
                Role {
                    id: old(store).next_role_id,
                    workspace_id: workspace.workspace_id,
                    name: payload.name,
                    description: payload.description,
                },
            )
            &&& final(store).next_role_id == old(store).next_role_id + 1
            &&& forall|q: RolePermission|
                #[trigger] final(store).role_permissions@.contains(q) <==> (old(
                    store,
                ).role_permissions@.contains(q) || (q.role_id == old(store).next_role_id
                    && requested_perms(payload.permissions@).contains(q.permission)))
            &&& final(store).users == old(store).users
            &&& final(store).workspaces == old(store).workspaces
            &&& final(store).workspace_users == old(store).workspace_users
        },
{
    if let Err(m) = payload.validate_all() {
        return Err(HttpError::bad_request(m));
    }
    let _ = store.create_role(
        workspace.workspace_id,
        payload.name,
        payload.description,
        payload.permissions,
    );
    Ok(
        Response {
            status: "success",
            message: String::from_str("Role created successfully"),
        },
    )
}

/// Updates a role from a validated payload: permission assignment is
/// full-replace, and the Admin role is untouchable — targeting it fails
/// with the generic store failure, whatever the caller may hold.
pub fn update_role(
    store: &mut Store,
    _user: &JwtAuthMiddleware,
    workspace: &WorkspaceAuthMiddleware,
    role_id: u64,
    payload: UpdateRoleDto,
) -> (r: Result<Response, HttpError>)
    requires
        old(store).wf(),
    ensures
        final(store).wf(),
        !(payload.name@.len() >= 3 && all_names_in_catalog(payload.permissions@)) <==> (r matches
            Err(e) && e.status == 400),
        r matches Err(e) ==> *final(store) == *old(store),
        (payload.name@.len() >= 3 && all_names_in_catalog(payload.permissions@)) && is_admin_role(
            *old(store),
            workspace.workspace_id,
            role_id,
        ) ==> (r matches Err(e) && is_server_error(e) && *final(store) == *old(store)),
        r matches Ok(resp) ==> {
            &&& resp.status@ == "success"@
            &&& resp.message@ == "Role updated successfully"@
            &&& !is_admin_role(*old(store), workspace.workspace_id, role_id)
            &&& has_role(*old(store), workspace.workspace_id, role_id) ==> {
                &&& forall|i: int|
                    0 <= i < old(store).roles@.len() ==> #[trigger] final(store).roles@[i] == (
                    if old(store).roles@[i].id == role_id && old(store).roles@[i].workspace_id
                        == workspace.workspace_id {
                        Role {
                            id: role_id,
                            workspace_id: workspace.workspace_id,
                            name: payload.name,
                            description: payload.description,
                        }
                    } else {
                        old(store).roles@[i]
                    })
                &&& forall|q: RolePermission|
                    #[trigger] final(store).role_permissions@.contains(q) <==> ((old(
                        store,
                    ).role_permissions@.contains(q) && q.role_id != role_id) || (q.role_id
                        == role_id && requested_perms(payload.permissions@).contains(q.permission)))
            }
            &&& !has_role(*old(store), workspace.workspace_id, role_id) ==> *final(store) == *old(
                store,
            )
            &&& final(store).users == old(store).users
            &&& final(store).workspaces == old(store).workspaces
            &&& final(store).workspace_users == old(store).workspace_users
        },
{
    if let Err(m) = payload.validate_all() {
        return Err(HttpError::bad_request(m));
    }
    match store.update_role(
        workspace.workspace_id,
        role_id,
        payload.name,
        payload.description,
        payload.permissions,
    ) {
        Ok(_) => Ok(
            Response {
                status: "success",
                message: String::from_str("Role updated successfully"),
            },
        ),
        Err(_) => Err(HttpError::server_error(ErrorMessage::ServerError.to_str())),
    }
}

/// Deletes a role and its links; the Admin role is untouchable and fails
/// with the generic store failure, whatever the caller may hold.
pub fn delete_role(
    store: &mut Store,
    _user: &JwtAuthMiddleware,
    workspace: &WorkspaceAuthMiddleware,
    role_id: u64,
) -> (r: Result<Response, HttpError>)
    requires
        old(store).wf(),
    ensures
        final(store).wf(),
        r is Err <==> is_admin_role(*old(store), workspace.workspace_id, role_id),
        r matches Err(e) ==> is_server_error(e) && *final(store) == *old(store),
        r matches Ok(resp) ==> {
            &&& resp.status@ == "success"@
            &&& resp.message@ == "Role deleted successfully"@
            &&& has_role(*old(store), workspace.workspace_id, role_id) ==> {
                &&& final(store).roles@ == old(store).roles@.filter(
                    |r2: Role| !(r2.id == role_id && r2.workspace_id == workspace.workspace_id),
                )
                &&& forall|q: RolePermission|
                    #[trigger] final(store).role_permissions@.contains(q) <==> (old(
                        store,
                    ).role_permissions@.contains(q) && q.role_id != role_id)
            }
            &&& !has_role(*old(store), workspace.workspace_id, role_id) ==> *final(store) == *old(
                store,
            )
            &&& final(store).users == old(store).users
            &&& final(store).workspaces == old(store).workspaces
            &&& final(store).workspace_users == old(store).workspace_users
        },
{
    match store.delete_role(workspace.workspace_id, role_id) {
        Ok(_) => Ok(
            Response {
                status: "success",
                message: String::from_str("Role deleted successfully"),
            },
        ),
        Err(_) => Err(HttpError::server_error(ErrorMessage::ServerError.to_str())),
    }
}

} // verus!
