//! Workspaces: creation with the implicit Admin role and owner membership,
//! the joined role-and-permission resolution every protected request runs,
//! rename, deletion with its cascades, and the per-user listing.

use vstd::prelude::*;
use crate::dtos::workspace::{FilterWorkspaceResponse, WorkspaceListDto,
    WorkspaceWithRoleAndPermissions};
use crate::models::{Role, RolePermission, Workspace, WorkspaceUser};
use crate::permissions::{Permission, all_permissions, catalog};
use crate::store::{Store, StoreError, admin_name, lemma_filter_distinct_by,
    lemma_filter_take_step};

verus! {

broadcast use vstd::seq_lib::group_seq_properties;

/// Whether `user_id` already owns some workspace.
pub open spec fn owns_workspace(s: Store, user_id: u64) -> bool {
    exists|i: int|
        0 <= i < s.workspaces@.len() && (#[trigger] s.workspaces@[i]).owner_user_id == Some(
            user_id,
        )
}

/// Whether membership row `mi` is one the details resolution can select
/// for `user`: the user's row, its workspace present (and, with an explicit
/// target, that one; without, a default workspace), and its role present.
pub open spec fn details_match(s: Store, user: u64, target: Option<u64>, mi: int) -> bool {
    &&& 0 <= mi < s.workspace_users@.len()
    &&& s.workspace_users@[mi].user_id == user
    &&& exists|wi: int|
        0 <= wi < s.workspaces@.len() && (#[trigger] s.workspaces@[wi]).id
            == s.workspace_users@[mi].workspace_id && (match target {
            Some(w) => s.workspace_users@[mi].workspace_id == w,
            None => s.workspaces@[wi].is_default,
        })
    &&& exists|ri: int|
        0 <= ri < s.roles@.len() && (#[trigger] s.roles@[ri]).id
            == s.workspace_users@[mi].role_id
}

/// Whether the details resolution of (`user`, `target`) can return a row.
pub open spec fn details_available(s: Store, user: u64, target: Option<u64>) -> bool {
    exists|mi: int| details_match(s, user, target, mi)
}

/// Whether `mi` is the first membership row the details resolution selects.
pub open spec fn first_details_match(s: Store, user: u64, target: Option<u64>, mi: int) -> bool {
    details_match(s, user, target, mi) && (forall|j: int|
        0 <= j < mi ==> !details_match(s, user, target, j))
}

/// Whether `d` is the resolved context of membership row `mi`: the joined
/// workspace and role fields, and the effective permission set — the full
/// catalog for the Admin role, the linked set otherwise.
pub open spec fn details_correspond(
    s: Store,
    d: WorkspaceWithRoleAndPermissions,
    mi: int,
) -> bool {
    &&& 0 <= mi < s.workspace_users@.len()
    &&& exists|wi: int|
        {
            let w = s.workspaces@[wi];
            0 <= wi < s.workspaces@.len() && (#[trigger] s.workspaces@[wi]).id
                == s.workspace_users@[mi].workspace_id && d.workspace.id == w.id
                && d.workspace.name == w.name && d.workspace.invite_code == w.invite_code
                && d.workspace.is_default == w.is_default && d.workspace.owner_user_id == (
            match w.owner_user_id {
                Some(u) => u,
                None => 0u64,
            })
        }
    &&& exists|ri: int|
        {
            let role = s.roles@[ri];
            0 <= ri < s.roles@.len() && (#[trigger] s.roles@[ri]).id
                == s.workspace_users@[mi].role_id && d.role_id == role.id && d.role_name
                == role.name && (if role.name@ == admin_name() {
                d.permissions@ == catalog()
            } else {
                d.permissions@.no_duplicates() && forall|p: Permission|
                    #[trigger] d.permissions@.contains(p) <==> s.role_perm_set(role.id).contains(
                        p,
                    )
            })
        }
}

impl Store {
    /// The index of the workspace row with this id, if present.
    pub(crate) fn find_workspace_index(&self, id: u64) -> (r: Option<usize>)
        ensures
            r matches Some(w) ==> 0 <= w < self.workspaces@.len() && self.workspaces@[w as int].id
                == id,
            r is None <==> !self.has_workspace(id),
    {
        let n = self.workspaces.len();
        let mut i: usize = 0;
        while i < n
            invariant
                0 <= i <= n == self.workspaces@.len(),
                forall|j: int| 0 <= j < i ==> (#[trigger] self.workspaces@[j]).id != id,
            decreases n - i,
        {
            if self.workspaces[i].id == id {
                return Some(i);
            }
            i = i + 1;
        }
        None
    }

    /// The index of the role row with this id, in any workspace.
    pub(crate) fn find_role_by_id(&self, role_id: u64) -> (r: Option<usize>)
        ensures
            r matches Some(t) ==> 0 <= t < self.roles@.len() && self.roles@[t as int].id == role_id,
            r is None <==> !(exists|i: int|
                0 <= i < self.roles@.len() && (#[trigger] self.roles@[i]).id == role_id),
    {
        let n = self.roles.len();
        let mut i: usize = 0;
        while i < n
            invariant
                0 <= i <= n == self.roles@.len(),
                forall|j: int| 0 <= j < i ==> (#[trigger] self.roles@[j]).id != role_id,
            decreases n - i,
        {
            if self.roles[i].id == role_id {
                return Some(i);
            }
            i = i + 1;
        }
        None
    }

    /// Creates a workspace owned by `user_id`: the row itself (default for
    /// the owner's first workspace), its implicit Admin role, and the
    /// owner's membership bound to that role. Duplicate names and invite
    /// codes are unique-constraint violations.
    pub fn create_workspace(&mut self, name: &String, user_id: u64, invite_code: String) -> (r:
        Result<Workspace, StoreError>)
        requires
            old(self).wf(),
            old(self).next_workspace_id < u64::MAX,
            old(self).next_role_id < u64::MAX,
        ensures
            final(self).wf(),
            r is Err <==> (old(self).has_workspace_name(name@) || old(self).has_invite_code(
                invite_code@,
            )),
            r matches Err(e) ==> e == StoreError::UniqueViolation && *final(self) == *old(self),
            r matches Ok(w) ==> {
                let ws = Workspace {
                    id: old(self).next_workspace_id,
                    name: *name,
                    owner_user_id: Some(user_id),
                    invite_code,
                    is_default: !owns_workspace(*old(self), user_id),
                };
                &&& w == ws
                &&& final(self).workspaces@ == old(self).workspaces@.push(ws)
                &&& final(self).roles@.len() == old(self).roles@.len() + 1
                &&& final(self).roles@ == old(self).roles@.push(
                    final(self).roles@.last(),
                )
                &&& final(self).roles@.last().id == old(self).next_role_id
                &&& final(self).roles@.last().workspace_id == old(self).next_workspace_id
                &&& final(self).roles@.last().name@ == admin_name()
                &&& final(self).roles@.last().description is None
                &&& final(self).workspace_users@ == old(self).workspace_users@.push(
                    WorkspaceUser {
                        workspace_id: old(self).next_workspace_id,
                        user_id,
                        role_id: old(self).next_role_id,
                    },
                )
                &&& final(self).next_workspace_id == old(self).next_workspace_id + 1
                &&& final(self).next_role_id == old(self).next_role_id + 1
                &&& final(self).users == old(self).users
                &&& final(self).role_permissions == old(self).role_permissions
                &&& final(self).email_verifications == old(self).email_verifications
                &&& final(self).password_resets == old(self).password_resets
                &&& final(self).next_user_id == old(self).next_user_id
            },
    {
        let n = self.workspaces.len();
        let mut i: usize = 0;
        while i < n
            invariant
                *self == *old(self),
                self.wf(),
                0 <= i <= n == self.workspaces@.len(),
                forall|j: int|
                    0 <= j < i ==> (#[trigger] self.workspaces@[j]).name@ != name@
                        && self.workspaces@[j].invite_code@ != invite_code@,
            decreases n - i,
        {
            if self.workspaces[i].name.eq(name) || self.workspaces[i].invite_code.eq(
                &invite_code,
            ) {
                return Err(StoreError::UniqueViolation);
            }
            i = i + 1;
        }
        let is_default = !self.user_owns_workspace(user_id);
        let ws_id = self.next_workspace_id;
        let role_id = self.next_role_id;
        let ws = Workspace {
            id: ws_id,
            name: name.clone(),
            owner_user_id: Some(user_id),
            invite_code,
            is_default,
        };
        let result = ws.clone();
        self.workspaces.push(ws);
        self.roles.push(
            Role {
                id: role_id,
                workspace_id: ws_id,
                name: String::from_str("Admin"),
                description: None,
            },
        );
        self.workspace_users.push(WorkspaceUser { workspace_id: ws_id, user_id, role_id });
        self.next_workspace_id = ws_id + 1;
        self.next_role_id = role_id + 1;
        proof {
            let old_s = *old(self);
            assert forall|a: int, b: int|
                #![trigger self.workspaces@[a], self.workspaces@[b]]
                0 <= a < b < self.workspaces@.len() implies self.workspaces@[a].id
                != self.workspaces@[b].id && self.workspaces@[a].name@ != self.workspaces@[b].name@
                && self.workspaces@[a].invite_code@ != self.workspaces@[b].invite_code@ by {
                if b == self.workspaces@.len() - 1 {
                    assert(old_s.workspaces@[a].id < old_s.next_workspace_id);
                    assert(self.workspaces@[a] == old_s.workspaces@[a]);
                }
            }
            assert forall|a: int| 0 <= a < self.workspaces@.len() implies (
            #[trigger] self.workspaces@[a]).id < self.next_workspace_id by {
                if a < self.workspaces@.len() - 1 {
                    assert(self.workspaces@[a] == old_s.workspaces@[a]);
                    assert(old_s.workspaces@[a].id < old_s.next_workspace_id);
                }
            }
            assert forall|a: int, b: int|
                #![trigger self.roles@[a], self.roles@[b]]
                0 <= a < b < self.roles@.len() implies self.roles@[a].id != self.roles@[b].id by {
                if b == self.roles@.len() - 1 {
                    assert(old_s.roles@[a].id < old_s.next_role_id);
                    assert(self.roles@[a] == old_s.roles@[a]);
                }
            }
            assert forall|a: int| 0 <= a < self.roles@.len() implies (#[trigger] self.roles@[a]).id
                < self.next_role_id by {
                if a < self.roles@.len() - 1 {
                    assert(self.roles@[a] == old_s.roles@[a]);
                    assert(old_s.roles@[a].id < old_s.next_role_id);
                }
            }
            assert forall|a: int, b: int|
                #![trigger self.workspace_users@[a], self.workspace_users@[b]]
                0 <= a < b < self.workspace_users@.len() implies !(self.workspace_users@[a].workspace_id
                == self.workspace_users@[b].workspace_id && self.workspace_users@[a].user_id
                == self.workspace_users@[b].user_id) by {
                if b == self.workspace_users@.len() - 1 {
                    assert(self.workspace_users@[a] == old_s.workspace_users@[a]);
                    assert(old_s.workspace_users@[a].workspace_id < old_s.next_workspace_id);
                }
            }
            assert forall|a: int| 0 <= a < self.workspace_users@.len() implies (
            #[trigger] self.workspace_users@[a]).workspace_id < self.next_workspace_id by {
                if a < self.workspace_users@.len() - 1 {
                    assert(self.workspace_users@[a] == old_s.workspace_users@[a]);
                    assert(old_s.workspace_users@[a].workspace_id < old_s.next_workspace_id);
                }
            }
        }
        Ok(result)
    }

    /// Whether `user_id` owns some workspace row.
    fn user_owns_workspace(&self, user_id: u64) -> (r: bool)
        ensures
            r == owns_workspace(*self, user_id),
    {
        let n = self.workspaces.len();
        let mut i: usize = 0;
        while i < n
            invariant
                0 <= i <= n == self.workspaces@.len(),
                forall|j: int|
                    0 <= j < i ==> (#[trigger] self.workspaces@[j]).owner_user_id != Some(user_id),
            decreases n - i,
        {
            if let Some(owner) = self.workspaces[i].owner_user_id {
                if owner == user_id {
                    return true;
                }
            }
            i = i + 1;
        }
        false
    }

    /// Resolves a caller's workspace context: the membership row for the
    /// explicit workspace, or the caller's first default-workspace
    /// membership when none is given, joined with its workspace and role;
    /// the Admin role resolves to the full catalog. Fails when no such
    /// joined row exists, without saying why.
    pub fn get_workspace_details(&self, user_id: Option<u64>, workspace_id: Option<u64>) -> (r:
        Result<WorkspaceWithRoleAndPermissions, StoreError>)
        requires
            self.wf(),
            user_id is Some,
        ensures
            user_id matches Some(u) ==> {
                &&& r is Err <==> !details_available(*self, u, workspace_id)
                &&& r matches Err(e) ==> e == StoreError::RowNotFound
                &&& r matches Ok(d) ==> exists|mi: int|
                    #[trigger] first_details_match(*self, u, workspace_id, mi)
                        && details_correspond(*self, d, mi)
            },
    {
        let user = match user_id {
            Some(u) => u,
            None => {
                proof {
                    assert(false);
                }
                0
            },
        };
        let admin = String::from_str("Admin");
        let n = self.workspace_users.len();
        let mut i: usize = 0;
        while i < n
            invariant
                self.wf(),
                admin@ == admin_name(),
                user_id == Some(user),
                0 <= i <= n == self.workspace_users@.len(),
                forall|j: int| 0 <= j < i ==> !details_match(*self, user, workspace_id, j),
            decreases n - i,
        {
            let m = self.workspace_users[i];
            if m.user_id == user {
                let selected: bool = match workspace_id {
                    Some(w) => m.workspace_id == w,
                    None => true,
                };
                if selected {
                    if let Some(wi) = self.find_workspace_index(m.workspace_id) {
                        let ws = &self.workspaces[wi];
                        let ws_selected: bool = match workspace_id {
                            Some(_) => true,
                            None => ws.is_default,
                        };
                        if ws_selected {
                            if let Some(ri) = self.find_role_by_id(m.role_id) {
                                let role = &self.roles[ri];
                                let permissions: Vec<Permission> = if role.name.eq(&admin) {
                                    all_permissions()
                                } else {
                                    self.collect_role_permissions(role.id)
                                };
                                let d = WorkspaceWithRoleAndPermissions {
                                    workspace: FilterWorkspaceResponse {
                                        id: ws.id,
                                        name: ws.name.clone(),
                                        owner_user_id: match ws.owner_user_id {
                                            Some(u) => u,
                                            None => 0,
                                        },
                                        invite_code: ws.invite_code.clone(),
                                        is_default: ws.is_default,
                                    },
                                    role_id: role.id,
                                    role_name: role.name.clone(),
                                    permissions,
                                };
                                proof {
                                    assert(details_match(*self, user, workspace_id, i as int));
                                    assert(details_correspond(*self, d, i as int));
                                    assert(first_details_match(*self, user, workspace_id, i as int));
                                }
                                return Ok(d);
                            } else {
                                proof {
                                    assert(!details_match(*self, user, workspace_id, i as int));
                                }
                            }
                        } else {
                            proof {
                                assert(!details_match(*self, user, workspace_id, i as int)) by {
                                    if details_match(*self, user, workspace_id, i as int) {
                                        let wj = choose|wj: int|
                                            0 <= wj < self.workspaces@.len() && (
                                            #[trigger] self.workspaces@[wj]).id
                                                == self.workspace_users@[i as int].workspace_id && (
                                            match workspace_id {
                                                Some(w) => self.workspace_users@[i as int].workspace_id
                                                    == w,
                                                None => self.workspaces@[wj].is_default,
                                            });
                                        assert(self.workspaces@[wj].id == self.workspaces@[
                                            wi as int].id);
                                        assert(wj == wi);
                                    }
                                }
                            }
                        }
                    } else {
                        proof {
                            assert(!details_match(*self, user, workspace_id, i as int));
                        }
                    }
                } else {
                    proof {
                        assert(!details_match(*self, user, workspace_id, i as int));
                    }
                }
            } else {
                proof {
                    assert(!details_match(*self, user, workspace_id, i as int));
                }
            }
            i = i + 1;
        }
        Err(StoreError::RowNotFound)
    }

    /// Renames a workspace; a name another workspace already carries is a
    /// unique-constraint violation, and a missing id changes nothing.
    pub fn update_workspace(&mut self, workspace_id: u64, name: &String) -> (r: Result<
        (),
        StoreError,
    >)
        requires
            old(self).wf(),
        ensures
            final(self).wf(),
            r is Err <==> exists|i: int|
                0 <= i < old(self).workspaces@.len() && (#[trigger] old(self).workspaces@[i]).name@
                    == name@ && old(self).workspaces@[i].id != workspace_id,
            r matches Err(e) ==> e == StoreError::UniqueViolation && *final(self) == *old(self),
            r is Ok ==> {
                &&& final(self).workspaces@.len() == old(self).workspaces@.len()
                &&& forall|i: int|
                    0 <= i < old(self).workspaces@.len() ==> #[trigger] final(self).workspaces@[i]
                        == (if old(self).workspaces@[i].id == workspace_id {
                        Workspace {
                            id: old(self).workspaces@[i].id,
                            name: *name,
                            owner_user_id: old(self).workspaces@[i].owner_user_id,
                            invite_code: old(self).workspaces@[i].invite_code,
                            is_default: old(self).workspaces@[i].is_default,
                        }
                    } else {
                        old(self).workspaces@[i]
                    })
                &&& final(self).users == old(self).users
                &&& final(self).roles == old(self).roles
                &&& final(self).role_permissions == old(self).role_permissions
                &&& final(self).workspace_users == old(self).workspace_users
                &&& final(self).email_verifications == old(self).email_verifications
                &&& final(self).password_resets == old(self).password_resets
                &&& final(self).next_user_id == old(self).next_user_id
                &&& final(self).next_workspace_id == old(self).next_workspace_id
                &&& final(self).next_role_id == old(self).next_role_id
            },
    {
        let ghost old_s = *old(self);
        let n = self.workspaces.len();
        let mut i: usize = 0;
        while i < n
            invariant
                self.wf(),
                *self == old_s,
                0 <= i <= n == self.workspaces@.len(),
                forall|j: int|
                    0 <= j < i ==> !((#[trigger] self.workspaces@[j]).name@ == name@
                        && self.workspaces@[j].id != workspace_id),
            decreases n - i,
        {
            if self.workspaces[i].name.eq(name) && self.workspaces[i].id != workspace_id {
                return Err(StoreError::UniqueViolation);
            }
            i = i + 1;
        }
        let target = self.find_workspace_index(workspace_id);
        if let Some(t) = target {
            let old_ws = &self.workspaces[t];
            let updated = Workspace {
                id: old_ws.id,
                name: name.clone(),
                owner_user_id: old_ws.owner_user_id,
                invite_code: old_ws.invite_code.clone(),
                is_default: old_ws.is_default,
            };
            self.workspaces.remove(t);
            self.workspaces.insert(t, updated);
            proof {
                assert forall|k: int| 0 <= k < old_s.workspaces@.len() implies
                    #[trigger] self.workspaces@[k] == (if old_s.workspaces@[k].id == workspace_id {
                    Workspace {
                        id: old_s.workspaces@[k].id,
                        name: *name,
                        owner_user_id: old_s.workspaces@[k].owner_user_id,
                        invite_code: old_s.workspaces@[k].invite_code,
                        is_default: old_s.workspaces@[k].is_default,
                    }
                } else {
                    old_s.workspaces@[k]
                }) by {
                    if k != t {
                        assert(self.workspaces@[k] == old_s.workspaces@[k]);
                        if old_s.workspaces@[k].id == workspace_id {
                            assert(old_s.workspaces@[k].id == old_s.workspaces@[t as int].id);
                            assert(false);
                        }
                    }
                }
                assert(self.wf()) by {
                    assert forall|a: int, b: int|
                        #![trigger self.workspaces@[a], self.workspaces@[b]]
                        0 <= a < b < self.workspaces@.len() implies self.workspaces@[a].id
                        != self.workspaces@[b].id && self.workspaces@[a].name@
                        != self.workspaces@[b].name@ && self.workspaces@[a].invite_code@
                        != self.workspaces@[b].invite_code@ by {
                        assert(old_s.workspaces@[a].id != old_s.workspaces@[b].id);
                        if a == t {
                            assert(self.workspaces@[b] == old_s.workspaces@[b]);
                        } else if b == t {
                            assert(self.workspaces@[a] == old_s.workspaces@[a]);
                        }
                    }
                    assert forall|a: int| 0 <= a < self.workspaces@.len() implies (
                    #[trigger] self.workspaces@[a]).id < self.next_workspace_id by {
                        assert(self.workspaces@[a].id == old_s.workspaces@[a].id);
                    }
                }
            }
        }
        Ok(())
    }

    /// Deletes a workspace and cascades: its roles, those roles'
    /// permission links, and its memberships all leave; a missing id
    /// changes nothing. Idempotent.
    pub fn delete_workspace(&mut self, workspace_id: u64) -> (r: Result<(), StoreError>)
        requires
            old(self).wf(),
        ensures
            final(self).wf(),
            r is Ok,
            final(self).workspaces@ == old(self).workspaces@.filter(
                |w: Workspace| w.id != workspace_id,
            ),
            final(self).roles@ == old(self).roles@.filter(
                |r2: Role| r2.workspace_id != workspace_id,
            ),
            forall|q: RolePermission|
                #[trigger] final(self).role_permissions@.contains(q) <==> (old(
                    self,
                ).role_permissions@.contains(q) && !(exists|i: int|
                    0 <= i < old(self).roles@.len() && (#[trigger] old(self).roles@[i]).id
                        == q.role_id && old(self).roles@[i].workspace_id == workspace_id)),
            final(self).workspace_users@ == old(self).workspace_users@.filter(
                |m: WorkspaceUser| m.workspace_id != workspace_id,
            ),
            final(self).users == old(self).users,
            final(self).email_verifications == old(self).email_verifications,
            final(self).password_resets == old(self).password_resets,
            final(self).next_user_id == old(self).next_user_id,
            final(self).next_workspace_id == old(self).next_workspace_id,
            final(self).next_role_id == old(self).next_role_id,
    {
        let ghost old_s = *old(self);
        let ghost rp0 = self.role_permissions@;

        // Links first, while the role table still shows which roles leave.
        let nl = self.role_permissions.len();
        let mut kept_links: Vec<RolePermission> = Vec::new();
        let mut i: usize = 0;
        while i < nl
            invariant
                self.wf(),
                *self == old_s,
                rp0 == self.role_permissions@,
                0 <= i <= nl == rp0.len(),
                forall|a: int, b: int|
                    #![trigger kept_links@[a], kept_links@[b]]
                    0 <= a < b < kept_links@.len() ==> kept_links@[a] != kept_links@[b],
                forall|a: int|
                    0 <= a < kept_links@.len() ==> (#[trigger] kept_links@[a]).role_id
                        < self.next_role_id,
                forall|q: RolePermission|
                    #[trigger] kept_links@.contains(q) <==> (exists|m: int|
                        0 <= m < i && rp0[m] == q) && !(exists|k: int|
                        0 <= k < self.roles@.len() && (#[trigger] self.roles@[k]).id == q.role_id
                            && self.roles@[k].workspace_id == workspace_id),
            decreases nl - i,
        {
            let ghost pre = kept_links@;
            let link = self.role_permissions[i];
            let drop: bool = match self.find_role_by_id(link.role_id) {
                Some(ri) => self.roles[ri].workspace_id == workspace_id,
                None => false,
            };
            if !drop {
                proof {
                    if pre.contains(link) {
                        let m = choose|m: int| 0 <= m < i && rp0[m] == link;
                        assert(rp0[m] == rp0[i as int]);
                        assert(false);
                    }
                    assert(!(exists|k: int|
                        0 <= k < self.roles@.len() && (#[trigger] self.roles@[k]).id == link.role_id
                            && self.roles@[k].workspace_id == workspace_id)) by {
                        if exists|k: int|
                            0 <= k < self.roles@.len() && (#[trigger] self.roles@[k]).id
                                == link.role_id && self.roles@[k].workspace_id == workspace_id {
                            let k = choose|k: int|
                                0 <= k < self.roles@.len() && (#[trigger] self.roles@[k]).id
                                    == link.role_id && self.roles@[k].workspace_id == workspace_id;
                            let ri = choose|ri: int|
                                0 <= ri < self.roles@.len() && (#[trigger] self.roles@[ri]).id
                                    == link.role_id;
                        }
                    }
                }
                kept_links.push(link);
            }
            proof {
                assert forall|q: RolePermission| #[trigger] kept_links@.contains(q) <==> ((exists|
                    m: int,
                |
                    0 <= m < i + 1 && rp0[m] == q) && !(exists|k: int|
                    0 <= k < self.roles@.len() && (#[trigger] self.roles@[k]).id == q.role_id
                        && self.roles@[k].workspace_id == workspace_id)) by {
                    if kept_links@.contains(q) {
                        if pre.contains(q) {
                            let m = choose|m: int| 0 <= m < i && rp0[m] == q;
                            assert(rp0[m] == q);
                        } else {
                            assert(rp0[i as int] == q);
                        }
                    }
                    if (exists|m: int| 0 <= m < i + 1 && rp0[m] == q) && !(exists|k: int|
                        0 <= k < self.roles@.len() && (#[trigger] self.roles@[k]).id == q.role_id
                            && self.roles@[k].workspace_id == workspace_id) {
                        let m = choose|m: int| 0 <= m < i + 1 && rp0[m] == q;
                        if m < i {
                            assert(pre.contains(q));
                            let a = choose|a: int| 0 <= a < pre.len() && pre[a] == q;
                            assert(kept_links@[a] == q);
                        } else {
                            assert(kept_links@.last() == q);
                        }
                    }
                }
            }
            i = i + 1;
        }

        // Roles of the workspace leave.
        let ghost roles0 = self.roles@;
        let ghost role_pred = |r2: Role| r2.workspace_id != workspace_id;
        let nr = self.roles.len();
        let mut kept_roles: Vec<Role> = Vec::new();
        let mut j: usize = 0;
        proof {
            assert(roles0.take(0).filter(role_pred) =~= Seq::<Role>::empty());
        }
        while j < nr
            invariant
                self.wf(),
                *self == old_s,
                roles0 == self.roles@,
                role_pred == (|r2: Role| r2.workspace_id != workspace_id),
                0 <= j <= nr == roles0.len(),
                kept_roles@ == roles0.take(j as int).filter(role_pred),
            decreases nr - j,
        {
            proof {
                lemma_filter_take_step(roles0, role_pred, j as int);
            }
            let role = &self.roles[j];
            if role.workspace_id != workspace_id {
                kept_roles.push(role.clone());
            }
            j = j + 1;
        }
        proof {
            assert(roles0.take(nr as int) =~= roles0);
        }

        // Memberships of the workspace leave.
        let ghost wu0 = self.workspace_users@;
        let ghost wu_pred = |m: WorkspaceUser| m.workspace_id != workspace_id;
        let nm = self.workspace_users.len();
        let mut kept_members: Vec<WorkspaceUser> = Vec::new();
        let mut k: usize = 0;
        proof {
            assert(wu0.take(0).filter(wu_pred) =~= Seq::<WorkspaceUser>::empty());
        }
        while k < nm
            invariant
                self.wf(),
                *self == old_s,
                wu0 == self.workspace_users@,
                wu_pred == (|m: WorkspaceUser| m.workspace_id != workspace_id),
                0 <= k <= nm == wu0.len(),
                kept_members@ == wu0.take(k as int).filter(wu_pred),
            decreases nm - k,
        {
            proof {
                lemma_filter_take_step(wu0, wu_pred, k as int);
            }
            let m = self.workspace_users[k];
            if m.workspace_id != workspace_id {
                kept_members.push(m);
            }
            k = k + 1;
        }
        proof {
            assert(wu0.take(nm as int) =~= wu0);
        }

        // The workspace row itself leaves.
        let ghost ws0 = self.workspaces@;
        let ghost ws_pred = |w: Workspace| w.id != workspace_id;
        let nw = self.workspaces.len();
        let mut kept_ws: Vec<Workspace> = Vec::new();
        let mut l: usize = 0;
        proof {
            assert(ws0.take(0).filter(ws_pred) =~= Seq::<Workspace>::empty());
        }
        while l < nw
            invariant
                self.wf(),
                *self == old_s,
                ws0 == self.workspaces@,
                ws_pred == (|w: Workspace| w.id != workspace_id),
                0 <= l <= nw == ws0.len(),
                kept_ws@ == ws0.take(l as int).filter(ws_pred),
            decreases nw - l,
        {
            proof {
                lemma_filter_take_step(ws0, ws_pred, l as int);
            }
            let w = &self.workspaces[l];
            if w.id != workspace_id {
                kept_ws.push(w.clone());
            }
            l = l + 1;
        }
        proof {
            assert(ws0.take(nw as int) =~= ws0);
        }

        self.role_permissions = kept_links;
        self.roles = kept_roles;
        self.workspace_users = kept_members;
        self.workspaces = kept_ws;
        proof {
            lemma_filter_distinct_by(roles0, role_pred, |r2: Role| r2.id);
            lemma_filter_distinct_by(ws0, ws_pred, |w: Workspace| w.id);
            lemma_filter_distinct_by(ws0, ws_pred, |w: Workspace| w.name@);
            lemma_filter_distinct_by(ws0, ws_pred, |w: Workspace| w.invite_code@);
            lemma_filter_distinct_by(wu0, wu_pred, |m: WorkspaceUser| (m.workspace_id, m.user_id));
            assert(self.wf()) by {
                assert forall|a: int| 0 <= a < self.roles@.len() implies (
                #[trigger] self.roles@[a]).id < self.next_role_id by {
                    let b = choose|b: int|
                        0 <= b < roles0.len() && roles0[b] == roles0.filter(role_pred)[a];
                    assert(roles0[b].id < old_s.next_role_id);
                }
                assert forall|a: int| 0 <= a < self.workspaces@.len() implies (
                #[trigger] self.workspaces@[a]).id < self.next_workspace_id by {
                    let b = choose|b: int| 0 <= b < ws0.len() && ws0[b] == ws0.filter(ws_pred)[a];
                    assert(ws0[b].id < old_s.next_workspace_id);
                }
                assert forall|a: int| 0 <= a < self.workspace_users@.len() implies (
                #[trigger] self.workspace_users@[a]).workspace_id < self.next_workspace_id by {
                    let b = choose|b: int| 0 <= b < wu0.len() && wu0[b] == wu0.filter(wu_pred)[a];
                    assert(wu0[b].workspace_id < old_s.next_workspace_id);
                }
                assert forall|a: int, b: int|
                    #![trigger self.workspace_users@[a], self.workspace_users@[b]]
                    0 <= a < b < self.workspace_users@.len() implies !(self.workspace_users@[a].workspace_id
                    == self.workspace_users@[b].workspace_id && self.workspace_users@[a].user_id
                    == self.workspace_users@[b].user_id) by {
                    let f = wu0.filter(wu_pred);
                    assert((|m: WorkspaceUser| (m.workspace_id, m.user_id))(f[a]) != ((
                    |m: WorkspaceUser| (m.workspace_id, m.user_id))(f[b])));
                }
            }
        }
        Ok(())
    }

    /// Every workspace the user is a member of, joined with the workspace
    /// row and, when its role still exists, the role name.
    pub fn get_all_user_workspace(&self, user_id: u64) -> (r: Vec<WorkspaceListDto>)
        requires
            self.wf(),
        ensures
            r@.len() == joined_members(*self, user_id).len(),
            forall|i: int|
                0 <= i < r@.len() ==> list_row_corresponds(
                    *self,
                    #[trigger] r@[i],
                    joined_members(*self, user_id)[i],
                ),
    {
        let ghost pred = |m: WorkspaceUser| m.user_id == user_id && self.has_workspace(
            m.workspace_id,
        );
        let n = self.workspace_users.len();
        let mut out: Vec<WorkspaceListDto> = Vec::new();
        let mut i: usize = 0;
        proof {
            assert(self.workspace_users@.take(0).filter(pred) =~= Seq::<WorkspaceUser>::empty());
        }
        while i < n
            invariant
                self.wf(),
                pred == (|m: WorkspaceUser|
                    m.user_id == user_id && self.has_workspace(m.workspace_id)),
                0 <= i <= n == self.workspace_users@.len(),
                out@.len() == self.workspace_users@.take(i as int).filter(pred).len(),
                forall|k: int|
                    0 <= k < out@.len() ==> list_row_corresponds(
                        *self,
                        #[trigger] out@[k],
                        self.workspace_users@.take(i as int).filter(pred)[k],
                    ),
            decreases n - i,
        {
            let m = self.workspace_users[i];
            proof {
                lemma_filter_take_step(self.workspace_users@, pred, i as int);
            }
            if m.user_id == user_id {
                if let Some(wi) = self.find_workspace_index(m.workspace_id) {
                    let ws = &self.workspaces[wi];
                    let role_name: Option<String> = match self.find_role_by_id(m.role_id) {
                        Some(ri) => Some(self.roles[ri].name.clone()),
                        None => None,
                    };
                    out.push(
                        WorkspaceListDto {
                            workspace_id: ws.id,
                            workspace_name: ws.name.clone(),
                            invite_code: ws.invite_code.clone(),
                            is_default: ws.is_default,
                            role_name,
                        },
                    );
                    proof {
                        assert(pred(self.workspace_users@[i as int]));
                        assert(list_row_corresponds(
                            *self,
                            out@.last(),
                            self.workspace_users@[i as int],
                        ));
                    }
                } else {
                    proof {
                        assert(!pred(self.workspace_users@[i as int]));
                    }
                }
            } else {
                proof {
                    assert(!pred(self.workspace_users@[i as int]));
                }
            }
            i = i + 1;
        }
        proof {
            assert(self.workspace_users@.take(n as int) =~= self.workspace_users@);
        }
        out
    }
}

/// The membership rows a user's workspace listing joins: the user's rows
/// whose workspace still exists.
pub open spec fn joined_members(s: Store, user_id: u64) -> Seq<WorkspaceUser> {
    s.workspace_users@.filter(
        |m: WorkspaceUser| m.user_id == user_id && s.has_workspace(m.workspace_id),
    )
}

/// Whether `d` is the listing row for membership `m`: the joined workspace
/// fields, and the role name when the role row still exists.
pub open spec fn list_row_corresponds(s: Store, d: WorkspaceListDto, m: WorkspaceUser) -> bool {
    &&& exists|wi: int|
        {
            let w = s.workspaces@[wi];
            0 <= wi < s.workspaces@.len() && (#[trigger] s.workspaces@[wi]).id == m.workspace_id
                && d.workspace_id == w.id && d.workspace_name == w.name && d.invite_code
                == w.invite_code && d.is_default == w.is_default
        }
    &&& match d.role_name {
        Some(name) => exists|ri: int|
            0 <= ri < s.roles@.len() && (#[trigger] s.roles@[ri]).id == m.role_id && s.roles@[ri].name
                == name,
        None => !(exists|ri: int|
            0 <= ri < s.roles@.len() && (#[trigger] s.roles@[ri]).id == m.role_id),
    }
}

} // verus!
