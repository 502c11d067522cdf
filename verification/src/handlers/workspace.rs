//! Workspace routes: creation with the resolved context reply, rename,
//! deletion, the per-user listing, and fetching one workspace's context.

use vstd::prelude::*;
use crate::dtos::Response;
use crate::dtos::role::UpdateRoleDto;
use crate::dtos::workspace::{WorkspaceCreateDto, WorkspaceCreateResponseDto, WorkspaceList,
    WorkspaceListResponse, WorkspaceWithRoleAndPermissions};
use crate::errors::{ErrorMessage, HttpError, is_server_error};
use crate::middleware::jwt_auth_middleware::JwtAuthMiddleware;
use crate::middleware::workspace_middleware::WorkspaceAuthMiddleware;
use crate::models::Workspace;
use crate::store::Store;
use crate::store::workspace::{details_available, details_correspond, first_details_match,
    joined_members, list_row_corresponds, owns_workspace};

verus! {

/// Wraps a resolved workspace context in the success envelope; setting
/// the workspace cookie alongside it is the embedding layer's concern.
pub fn create_workspace_response(workspace_data: WorkspaceWithRoleAndPermissions) -> (r:
    WorkspaceCreateResponseDto)
    ensures
        r.status@ == "success"@,
        r.data == workspace_data,
{
    WorkspaceCreateResponseDto { status: "success", data: workspace_data }
}

/// Creates a workspace owned by the caller, with its implicit Admin role
/// and the owner's membership, and replies with the owner's resolved
/// context. A duplicate name or invite code is a conflict.
pub fn create_workspace(
    store: &mut Store,
    user: &JwtAuthMiddleware,
    payload: WorkspaceCreateDto,
    invite_code: String,
) -> (r: Result<WorkspaceCreateResponseDto, HttpError>)
    requires
        old(store).wf(),
        old(store).next_workspace_id < u64::MAX,
        old(store).next_role_id < u64::MAX,
    ensures
        final(store).wf(),
        payload.name@.len() < 1 <==> (r matches Err(e) && e.status == 400),
        payload.name@.len() >= 1 && (old(store).has_workspace_name(payload.name@) || old(
            store,
        ).has_invite_code(invite_code@)) <==> (r matches Err(e) && e.status == 409),
        r matches Err(e) ==> *final(store) == *old(store),
        r matches Ok(resp) ==> {
            &&& resp.status@ == "success"@
            &&& resp.data.workspace.id == old(store).next_workspace_id
            &&& resp.data.workspace.name == payload.name
            &&& resp.data.workspace.invite_code == invite_code
            &&& resp.data.workspace.is_default == !owns_workspace(*old(store), user.user.id)
            &&& final(store).workspaces@ == old(store).workspaces@.push(
                Workspace {
                    id: old(store).next_workspace_id,
                    name: payload.name,
                    owner_user_id: Some(user.user.id),
                    invite_code,
                    is_default: !owns_workspace(*old(store), user.user.id),
                },
            )
            &&& final(store).roles@.len() == old(store).roles@.len() + 1
            &&& final(store).workspace_users@.len() == old(store).workspace_users@.len() + 1
            &&& final(store).users == old(store).users
            &&& exists|mi: int|
                #[trigger] first_details_match(
                    *final(store),
                    user.user.id,
                    Some(resp.data.workspace.id),
                    mi,
                ) && details_correspond(*final(store), resp.data, mi)
        },
{
    if let Err(m) = payload.validate() {
        return Err(HttpError::bad_request(m));
    }
    let workspace = match store.create_workspace(&payload.name, user.user.id, invite_code) {
        Ok(w) => w,
        Err(_) => {
            return Err(
                HttpError::unique_constraint_violation(
                    String::from_str("Workspace with the same name already exists"),
                ),
            );
        },
    };
    proof {
        let s1 = *store;
        let mi = s1.workspace_users@.len() - 1;
        assert(crate::store::workspace::details_match(s1, user.user.id, Some(workspace.id), mi))
            by {
            assert(s1.workspace_users@[mi] == s1.workspace_users@.last());
            assert((s1.workspaces@[s1.workspaces@.len() - 1]).id == workspace.id);
            assert((s1.roles@[s1.roles@.len() - 1]).id == s1.workspace_users@[mi].role_id);
        }
    }
    match store.get_workspace_details(Some(user.user.id), Some(workspace.id)) {
        Ok(d) => Ok(create_workspace_response(d)),
        Err(_) => {
            proof {
                assert(false);
            }
            Err(HttpError::server_error(ErrorMessage::ServerError.to_str()))
        },
    }
}

/// Renames the resolved workspace; a name another workspace carries is a
/// conflict.
pub fn update_workspace(
    store: &mut Store,
    _user: &JwtAuthMiddleware,
    workspace: &WorkspaceAuthMiddleware,
    payload: UpdateRoleDto,
) -> (r: Result<Response, HttpError>)
    requires
        old(store).wf(),
    ensures
        final(store).wf(),
        payload.name@.len() < 3 <==> (r matches Err(e) && e.status == 400),
        r matches Err(e) ==> *final(store) == *old(store),
        payload.name@.len() >= 3 ==> ((r matches Err(e) && e.status == 409) <==> exists|i: int|
            0 <= i < old(store).workspaces@.len() && (#[trigger] old(store).workspaces@[i]).name@
                == payload.name@ && old(store).workspaces@[i].id != workspace.workspace_id),
        r matches Ok(resp) ==> {
            &&& resp.status@ == "success"@
            &&& resp.message@ == "Workspace updated successfully"@
            &&& final(store).workspaces@.len() == old(store).workspaces@.len()
            &&& forall|i: int|
                0 <= i < old(store).workspaces@.len() ==> #[trigger] final(store).workspaces@[i]
                    == (if old(store).workspaces@[i].id == workspace.workspace_id {
                    Workspace {
                        id: old(store).workspaces@[i].id,
                        name: payload.name,
                        owner_user_id: old(store).workspaces@[i].owner_user_id,
                        invite_code: old(store).workspaces@[i].invite_code,
                        is_default: old(store).workspaces@[i].is_default,
                    }
                } else {
                    old(store).workspaces@[i]
                })
            &&& final(store).users == old(store).users
            &&& final(store).roles == old(store).roles
            &&& final(store).role_permissions == old(store).role_permissions
            &&& final(store).workspace_users == old(store).workspace_users
        },
{
    if let Err(m) = payload.validate() {
        return Err(HttpError::bad_request(m));
    }
    match store.update_workspace(workspace.workspace_id, &payload.name) {
        Ok(_) => Ok(
            Response {
                status: "success",
                message: String::from_str("Workspace updated successfully"),
            },
        ),
        Err(_) => Err(
            HttpError::unique_constraint_violation(
                String::from_str("Workspace with the same name already exists"),
            ),
        ),
    }
}

/// Deletes the resolved workspace, cascading its roles, links and
/// memberships.
pub fn delete_workspace(
    store: &mut Store,
    _user: &JwtAuthMiddleware,
    workspace: &WorkspaceAuthMiddleware,
) -> (r: Result<Response, HttpError>)
    requires
        old(store).wf(),
    ensures
        final(store).wf(),
        r is Ok,
        final(store).workspaces@ == old(store).workspaces@.filter(
            |w: Workspace| w.id != workspace.workspace_id,
        ),
        final(store).users == old(store).users,
        r matches Ok(resp) ==> resp.status@ == "success"@ && resp.message@
            == "Workspace deleted successfully"@,
{
    let _ = store.delete_workspace(workspace.workspace_id);
    Ok(
        Response {
            status: "success",
            message: String::from_str("Workspace deleted successfully"),
        },
    )
}

/// Lists every workspace the caller belongs to.
pub fn get_all_workspace(store: &Store, user: &JwtAuthMiddleware) -> (r: WorkspaceListResponse)
    requires
        store.wf(),
    ensures
        r.status@ == "success"@,
        r.data.workspaces@.len() == joined_members(*store, user.user.id).len(),
        forall|i: int|
            0 <= i < r.data.workspaces@.len() ==> list_row_corresponds(
                *store,
                #[trigger] r.data.workspaces@[i],
                joined_members(*store, user.user.id)[i],
            ),
{
    let workspaces = store.get_all_user_workspace(user.user.id);
    WorkspaceListResponse { status: "success", data: WorkspaceList { workspaces } }
}

/// Fetches the caller's resolved context in one workspace; a workspace
/// the caller is no member of is the generic store failure.
pub fn get_workspace_by_id(store: &Store, user: &JwtAuthMiddleware, workspace_id: u64) -> (r:
    Result<WorkspaceCreateResponseDto, HttpError>)
    requires
        store.wf(),
    ensures
        r is Err <==> !details_available(*store, user.user.id, Some(workspace_id)),
        r matches Err(e) ==> is_server_error(e),
        r matches Ok(resp) ==> resp.status@ == "success"@ && exists|mi: int|
            #[trigger] first_details_match(*store, user.user.id, Some(workspace_id), mi)
                && details_correspond(*store, resp.data, mi),
{
    match store.get_workspace_details(Some(user.user.id), Some(workspace_id)) {
        Ok(d) => Ok(create_workspace_response(d)),
        Err(_) => Err(HttpError::server_error(ErrorMessage::ServerError.to_str())),
    }
}

} // verus!
