//! Membership routes: invite-code join, removal, the member listing, and
//! role reassignment.

use vstd::prelude::*;
use crate::dtos::Response;
use crate::dtos::workspace::WorkspaceCreateResponseDto;
use crate::dtos::workspace_user::{UpdateUserRoleDto, WorkSpaceUserResponseWithRoleDto,
    WorkSpaceUsers};
use crate::errors::{ErrorMessage, HttpError, is_server_error};
use crate::handlers::workspace::create_workspace_response;
use crate::middleware::jwt_auth_middleware::JwtAuthMiddleware;
use crate::middleware::workspace_middleware::WorkspaceAuthMiddleware;
use crate::models::WorkspaceUser;
use crate::store::Store;
use crate::store::workspace::{details_correspond, first_details_match};
use crate::store::workspace_user::{join_possible, join_updates, member_row_corresponds,
    member_rows};

verus! {

/// Redeems an invite code: the caller becomes a member under the
/// workspace's first non-Admin role by name, and the resolved context
/// comes back. A bad code, a workspace without such a role, and a repeat
/// join all report "invalid invite code".
pub fn join_workspace(store: &mut Store, user: &JwtAuthMiddleware, invite_code: &String) -> (r:
    Result<WorkspaceCreateResponseDto, HttpError>)
    requires
        old(store).wf(),
    ensures
        final(store).wf(),
        !join_possible(*old(store), user.user.id, invite_code@) ==> (r matches Err(e) && e.status
            == 400 && e.message@ == "Invalid invite code"@ && *final(store) == *old(store)),
        r matches Ok(resp) ==> {
            &&& resp.status@ == "success"@
            &&& join_updates(
                *old(store),
                *final(store),
                user.user.id,
                invite_code@,
                resp.data.workspace.id,
            )
            &&& exists|mi: int|
                #[trigger] first_details_match(
                    *final(store),
                    user.user.id,
                    Some(resp.data.workspace.id),
                    mi,
                ) && details_correspond(*final(store), resp.data, mi)
        },
        r matches Err(e) ==> *final(store) == *old(store) && (e.status == 400 || is_server_error(
            e,
        )),
{
    let workspace_id = match store.join_workspace(user.user.id, invite_code) {
        Ok(w) => w,
        Err(_) => {
            return Err(HttpError::bad_request(String::from_str("Invalid invite code")));
        },
    };
    proof {
        let s0 = *old(store);
        let s1 = *store;
        let mi = s1.workspace_users@.len() - 1;
        assert(crate::store::workspace::details_match(s1, user.user.id, Some(workspace_id), mi))
            by {
            let ri = choose|ri: int|
                #[trigger] crate::store::workspace_user::chosen_join_role(s0, workspace_id, ri)
                    && s1.workspace_users@ == s0.workspace_users@.push(
                    WorkspaceUser {
                        workspace_id,
                        user_id: user.user.id,
                        role_id: s0.roles@[ri].id,
                    },
                );
            let wi = choose|wi: int|
                0 <= wi < s0.workspaces@.len() && (#[trigger] s0.workspaces@[wi]).invite_code@
                    == invite_code@ && s0.workspaces@[wi].id == workspace_id;
            assert(s1.workspace_users@[mi] == s1.workspace_users@.last());
            assert((s1.workspaces@[wi]).id == workspace_id);
            assert((s1.roles@[ri]).id == s1.workspace_users@[mi].role_id);
        }
    }
    match store.get_workspace_details(Some(user.user.id), Some(workspace_id)) {
        Ok(d) => Ok(create_workspace_response(d)),
        Err(_) => {
            proof {
                assert(false);
            }
            Err(HttpError::server_error(ErrorMessage::ServerError.to_str()))
        },
    }
}

/// Removes a member from the workspace; removing a non-member changes
/// nothing and still succeeds.
pub fn remove_user_from_workspace(
    store: &mut Store,
    _user: &JwtAuthMiddleware,
    workspace: &WorkspaceAuthMiddleware,
    user_id: u64,
) -> (r: Result<Response, HttpError>)
    requires
        old(store).wf(),
    ensures
        final(store).wf(),
        r is Ok,
        final(store).workspace_users@ == old(store).workspace_users@.filter(
            |m: WorkspaceUser| !(m.user_id == user_id && m.workspace_id == workspace.workspace_id),
        ),
        final(store).users == old(store).users,
        final(store).workspaces == old(store).workspaces,
        final(store).roles == old(store).roles,
        final(store).role_permissions == old(store).role_permissions,
        r matches Ok(resp) ==> resp.status@ == "success"@ && resp.message@
            == "Removed user from workspace successfully"@,
{
    let _ = store.remove_workspace(user_id, workspace.workspace_id);
    Ok(
        Response {
            status: "success",
            message: String::from_str("Removed user from workspace successfully"),
        },
    )
}

/// Lists the workspace's members with their role names.
pub fn get_workspace_users(
    store: &Store,
    _user: &JwtAuthMiddleware,
    workspace: &WorkspaceAuthMiddleware,
) -> (r: WorkSpaceUserResponseWithRoleDto)
    requires
        store.wf(),
    ensures
        r.status@ == "success"@,
        r.data.users@.len() == member_rows(*store, workspace.workspace_id).len(),
        forall|i: int|
            0 <= i < r.data.users@.len() ==> member_row_corresponds(
                *store,
                #[trigger] r.data.users@[i],
                member_rows(*store, workspace.workspace_id)[i],
            ),
{
    let users = store.get_workspace_users(workspace.workspace_id);
    WorkSpaceUserResponseWithRoleDto { status: "success", data: WorkSpaceUsers { users } }
}

/// Reassigns a member's role by role name, resolving the name within the
/// workspace first; an unknown name is the generic store failure.
pub fn update_user_role(
    store: &mut Store,
    _user: &JwtAuthMiddleware,
    workspace: &WorkspaceAuthMiddleware,
    user_id: u64,
    payload: UpdateUserRoleDto,
) -> (r: Result<Response, HttpError>)
    requires
        old(store).wf(),
    ensures
        final(store).wf(),
        payload.role_name@.len() < 1 <==> (r matches Err(e) && e.status == 400),
        payload.role_name@.len() >= 1 && !(exists|i: int|
            0 <= i < old(store).roles@.len() && (#[trigger] old(store).roles@[i]).workspace_id
                == workspace.workspace_id && old(store).roles@[i].name@ == payload.role_name@)
            ==> (r matches Err(e) && is_server_error(e)),
        r matches Err(e) ==> *final(store) == *old(store),
        r matches Ok(resp) ==> {
            &&& resp.status@ == "success"@
            &&& resp.message@ == "User role updated successfully"@
            &&& exists|i: int|
                0 <= i < old(store).roles@.len() && (#[trigger] old(store).roles@[i]).workspace_id
                    == workspace.workspace_id && old(store).roles@[i].name@ == payload.role_name@
                    && final(store).workspace_users@.len() == old(store).workspace_users@.len()
                    && (forall|k: int|
                    0 <= k < old(store).workspace_users@.len()
                        ==> #[trigger] final(store).workspace_users@[k] == (if old(
                        store,
                    ).workspace_users@[k].workspace_id == workspace.workspace_id && old(
                        store,
                    ).workspace_users@[k].user_id == user_id {
                        WorkspaceUser {
                            workspace_id: workspace.workspace_id,
                            user_id,
                            role_id: old(store).roles@[i].id,
                        }
                    } else {
                        old(store).workspace_users@[k]
                    }))
            &&& final(store).users == old(store).users
            &&& final(store).workspaces == old(store).workspaces
            &&& final(store).roles == old(store).roles
            &&& final(store).role_permissions == old(store).role_permissions
        },
{
    if let Err(m) = payload.validate() {
        return Err(HttpError::bad_request(m));
    }
    let role_id = match store.get_role_id_by_name(workspace.workspace_id, &payload.role_name) {
        Ok(id) => id,
        Err(_) => {
            return Err(HttpError::server_error(ErrorMessage::ServerError.to_str()));
        },
    };
    proof {
        let i = choose|i: int|
            0 <= i < store.roles@.len() && (#[trigger] store.roles@[i]).workspace_id
                == workspace.workspace_id && store.roles@[i].name@ == payload.role_name@
                && store.roles@[i].id == role_id && (forall|j: int|
                0 <= j < i ==> !((#[trigger] store.roles@[j]).workspace_id
                    == workspace.workspace_id && store.roles@[j].name@ == payload.role_name@));
        assert(store.roles@[i].id < store.next_role_id);
    }
    let _ = store.update_workspace_user_role(workspace.workspace_id, user_id, role_id);
    Ok(
        Response {
            status: "success",
            message: String::from_str("User role updated successfully"),
        },
    )
}

} // verus!
