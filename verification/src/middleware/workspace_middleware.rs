//! Workspace context and the authorization gate: the workspace id from
//! the `workspace` cookie, the caller's resolved permission set, and the
//! allow/deny decision against one required permission.

use vstd::prelude::*;
use crate::errors::{ErrorMessage, HttpError, is_server_error, is_unauthorized};
use crate::middleware::jwt_auth_middleware::JwtAuthMiddleware;
use crate::permissions::{Permission, contains_permission, lemma_catalog_complete};
use crate::store::Store;
use crate::store::workspace::{details_available, details_correspond, first_details_match};
use crate::store::admin_name;
use crate::text::{all_digits, dec_value, parse_u64};

verus! {

/// The single permission a protected route requires.
#[derive(Clone, Copy, PartialEq, Eq, Structural, Debug)]
pub struct RequirePermission(pub Permission);

/// The resolved workspace a protected request runs against.
#[derive(Clone, Copy, PartialEq, Eq, Structural, Debug)]
pub struct WorkspaceAuthMiddleware {
    pub workspace_id: u64,
}

/// Whether membership row `mi`'s role allows `p`: the Admin role allows
/// everything, any other role allows what its links grant.
pub open spec fn member_allows(s: Store, mi: int, p: Permission) -> bool {
    exists|ri: int|
        0 <= ri < s.roles@.len() && (#[trigger] s.roles@[ri]).id
            == s.workspace_users@[mi].role_id && (s.roles@[ri].name@ == admin_name()
            || s.role_perm_set(s.roles@[ri].id).contains(p))
}

/// Whether a workspace cookie value parses as a workspace id.
pub open spec fn workspace_cookie_parses(c: Seq<char>) -> bool {
    c.len() > 0 && all_digits(c) && dec_value(c) <= u64::MAX
}

impl Store {
    /// Resolves the caller's workspace from the `workspace` cookie and
    /// gates on one required permission: a missing or malformed cookie is
    /// a 401, a failed resolution a 500, a resolved set without the
    /// permission a 401 denial.
    pub fn workspace_permission_middleware(
        &self,
        user: &JwtAuthMiddleware,
        workspace_cookie: Option<&String>,
        permission: RequirePermission,
    ) -> (r: Result<WorkspaceAuthMiddleware, HttpError>)
        requires
            self.wf(),
        ensures
            workspace_cookie is None ==> (r matches Err(e) && e.status == 401 && e.message@
                == "Workspace id not found"@),
            workspace_cookie matches Some(c) && !workspace_cookie_parses(c@) ==> (r matches Err(e)
                && e.status == 401 && e.message@ == "Invalid workspace id"@),
            workspace_cookie matches Some(c) && workspace_cookie_parses(c@)
                && !details_available(*self, user.user.id, Some((dec_value(c@) as u64))) ==> (
            r matches Err(e) && is_server_error(e)),
            workspace_cookie matches Some(c) ==> (workspace_cookie_parses(c@) && details_available(
                *self,
                user.user.id,
                Some((dec_value(c@) as u64)),
            )) ==> {
                let wid = (dec_value(c@) as u64);
                &&& (r is Ok <==> exists|mi: int|
                    #[trigger] first_details_match(*self, user.user.id, Some(wid), mi)
                        && member_allows(*self, mi, permission.0))
                &&& (r matches Ok(w) ==> w.workspace_id == wid)
                &&& (r matches Err(e) ==> is_unauthorized(e, ErrorMessage::PermissionDenied))
            },
    {
        let cookie = match workspace_cookie {
            Some(c) => c,
            None => {
                return Err(HttpError::unauthorized(String::from_str("Workspace id not found")));
            },
        };
        let workspace_id = match parse_u64(cookie) {
            Some(id) => id,
            None => {
                return Err(HttpError::unauthorized(String::from_str("Invalid workspace id")));
            },
        };
        let details = match self.get_workspace_details(Some(user.user.id), Some(workspace_id)) {
            Ok(d) => d,
            Err(_) => {
                return Err(HttpError::server_error(ErrorMessage::ServerError.to_str()));
            },
        };
        let allowed = contains_permission(&details.permissions, permission.0);
        proof {
            let uid = user.user.id;
            let mi = choose|mi: int|
                #[trigger] first_details_match(*self, uid, Some(workspace_id), mi)
                    && details_correspond(*self, details, mi);
            let ri = choose|ri: int|
                {
                    let role = self.roles@[ri];
                    0 <= ri < self.roles@.len() && (#[trigger] self.roles@[ri]).id
                        == self.workspace_users@[mi].role_id && details.role_id == role.id
                        && details.role_name == role.name && (if role.name@ == admin_name() {
                        details.permissions@ == crate::permissions::catalog()
                    } else {
                        details.permissions@.no_duplicates() && forall|p: Permission|
                            #[trigger] details.permissions@.contains(p) <==> self.role_perm_set(
                                role.id,
                            ).contains(p)
                    })
                };
            if allowed {
                assert(member_allows(*self, mi, permission.0)) by {
                    if self.roles@[ri].name@ == admin_name() {
                        assert((self.roles@[ri]).id == self.workspace_users@[mi].role_id);
                    } else {
                        assert(self.role_perm_set(self.roles@[ri].id).contains(permission.0));
                    }
                }
            } else {
                assert forall|mj: int|
                    #[trigger] first_details_match(*self, uid, Some(workspace_id), mj) implies
                    !member_allows(*self, mj, permission.0) by {
                    assert(mj == mi) by {
                        if mj < mi {
                            assert(false);
                        } else if mj > mi {
                            assert(false);
                        }
                    }
                    if member_allows(*self, mi, permission.0) {
                        let rj = choose|rj: int|
                            0 <= rj < self.roles@.len() && (#[trigger] self.roles@[rj]).id
                                == self.workspace_users@[mi].role_id && (self.roles@[rj].name@
                                == admin_name() || self.role_perm_set(self.roles@[rj].id).contains(
                                permission.0,
                            ));
                        assert(rj == ri) by {
                            if rj != ri {
                                assert(self.roles@[rj].id == self.roles@[ri].id);
                                assert(false);
                            }
                        }
                        if self.roles@[ri].name@ == admin_name() {
                            lemma_catalog_complete(permission.0);
                            assert(details.permissions@.contains(permission.0));
                            assert(false);
                        } else {
                            assert(details.permissions@.contains(permission.0));
                            assert(false);
                        }
                    }
                }
            }
        }
        if !allowed {
            return Err(HttpError::unauthorized(ErrorMessage::PermissionDenied.to_str()));
        }
        Ok(WorkspaceAuthMiddleware { workspace_id })
    }
}

} // verus!
