//! The role registry: list, create, update, delete and name lookup, with
//! the protected-Admin invariant enforced at the start of every mutation.

use vstd::prelude::*;
use crate::dtos::role::RoleWithPermissions;
use crate::models::{Role, RolePermission};
use crate::permissions::{Permission, permission_from_name, permission_of_name};
use crate::store::{Store, StoreError, admin_name, lemma_filter_distinct_by, lemma_filter_take_step};

verus! {

broadcast use vstd::seq_lib::group_seq_properties;

/// Whether a role is visible in listings: in the workspace and not the
/// protected Admin role.
pub open spec fn is_listed_role(r: Role, workspace_id: u64) -> bool {
    r.workspace_id == workspace_id && r.name@ != admin_name()
}

/// The roles a listing of `workspace_id` returns, in store order.
pub open spec fn listed_roles(s: Store, workspace_id: u64) -> Seq<Role> {
    s.roles@.filter(|r: Role| is_listed_role(r, workspace_id))
}

/// Whether role `role_id` exists in workspace `workspace_id`.
pub open spec fn has_role(s: Store, workspace_id: u64, role_id: u64) -> bool {
    exists|i: int|
        0 <= i < s.roles@.len() && (#[trigger] s.roles@[i]).id == role_id
            && s.roles@[i].workspace_id == workspace_id
}

/// Whether role `role_id` is the protected Admin role of `workspace_id`.
pub open spec fn is_admin_role(s: Store, workspace_id: u64, role_id: u64) -> bool {
    exists|i: int|
        0 <= i < s.roles@.len() && (#[trigger] s.roles@[i]).id == role_id
            && s.roles@[i].workspace_id == workspace_id && s.roles@[i].name@ == admin_name()
}

/// The permissions a request's name list resolves to: names without a
/// catalog match contribute nothing.
pub open spec fn requested_perms(names: Seq<String>) -> Set<Permission> {
    Set::new(
        |p: Permission|
            exists|i: int|
                0 <= i < names.len() && permission_of_name((#[trigger] names[i])@) == Some(p),
    )
}

/// Whether `v` holds `p`.
fn perm_vec_contains(v: &Vec<Permission>, p: Permission) -> (b: bool)
    ensures
        b == v@.contains(p),
{
    let n = v.len();
    let mut i: usize = 0;
    while i < n
        invariant
            0 <= i <= n == v@.len(),
            forall|j: int| 0 <= j < i ==> v@[j] != p,
        decreases n - i,
    {
        if v[i] == p {
            return true;
        }
        i = i + 1;
    }
    false
}

/// Resolves a list of requested permission names against the catalog,
/// dropping unknown names and duplicates.
fn parse_permission_names(names: &Vec<String>) -> (r: Vec<Permission>)
    ensures
        r@.no_duplicates(),
        forall|p: Permission| r@.contains(p) <==> requested_perms(names@).contains(p),
{
    let n = names.len();
    let mut out: Vec<Permission> = Vec::new();
    let mut i: usize = 0;
    while i < n
        invariant
            0 <= i <= n == names@.len(),
            out@.no_duplicates(),
            forall|p: Permission|
                out@.contains(p) <==> exists|j: int|
                    0 <= j < i && permission_of_name((#[trigger] names@[j])@) == Some(p),
        decreases n - i,
    {
        let ghost pre = out@;
        let parsed = permission_from_name(&names[i]);
        if let Some(p) = parsed {
            if !perm_vec_contains(&out, p) {
                out.push(p);
                assert(out@.no_duplicates()) by {
                    assert(out@.drop_last() =~= pre);
                    assert forall|a: int, b: int| 0 <= a < b < out@.len() implies out@[a]
                        != out@[b] by {
                        if b == pre.len() {
                            assert(pre.contains(out@[a]) ==> out@[a] != p);
                            assert(pre.contains(pre[a]));
                        }
                    }
                }
            }
        }
        proof {
            assert forall|q: Permission| #[trigger] out@.contains(q) <==> (exists|j: int|
                0 <= j < i + 1 && permission_of_name((#[trigger] names@[j])@) == Some(q)) by {
                if out@.contains(q) {
                    if pre.contains(q) {
                        let j = choose|j: int|
                            0 <= j < i && permission_of_name((#[trigger] names@[j])@) == Some(q);
                        assert(permission_of_name((names@[j])@) == Some(q));
                    } else {
                        assert(parsed == Some(q));
                        assert(permission_of_name((names@[i as int])@) == Some(q));
                    }
                }
                if exists|j: int|
                    0 <= j < i + 1 && permission_of_name((#[trigger] names@[j])@) == Some(q) {
                    let j = choose|j: int|
                        0 <= j < i + 1 && permission_of_name((#[trigger] names@[j])@) == Some(q);
                    if j < i {
                        assert(pre.contains(q));
                        let k = choose|k: int| 0 <= k < pre.len() && pre[k] == q;
                        assert(out@[k] == q);
                    } else {
                        assert(parsed == Some(q));
                        if pre.contains(q) {
                            let k = choose|k: int| 0 <= k < pre.len() && pre[k] == q;
                            assert(out@[k] == q);
                        } else {
                            assert(out@.last() == q);
                        }
                    }
                }
            }
        }
        i = i + 1;
    }
    out
}

impl Store {
    /// The permissions linked to one role, without duplicates.
    pub(crate) fn collect_role_permissions(&self, role_id: u64) -> (r: Vec<Permission>)
        requires
            self.wf(),
        ensures
            r@.no_duplicates(),
            forall|p: Permission| r@.contains(p) <==> self.role_perm_set(role_id).contains(p),
    {
        let n = self.role_permissions.len();
        let mut out: Vec<Permission> = Vec::new();
        let mut i: usize = 0;
        while i < n
            invariant
                self.wf(),
                0 <= i <= n == self.role_permissions@.len(),
                out@.no_duplicates(),
                forall|p: Permission|
                    out@.contains(p) <==> exists|k: int|
                        0 <= k < i && (#[trigger] self.role_permissions@[k]).role_id == role_id
                            && self.role_permissions@[k].permission == p,
            decreases n - i,
        {
            let ghost pre = out@;
            let link = self.role_permissions[i];
            if link.role_id == role_id {
                proof {
                    if pre.contains(link.permission) {
                        let k = choose|k: int|
                            0 <= k < i && (#[trigger] self.role_permissions@[k]).role_id == role_id
                                && self.role_permissions@[k].permission == link.permission;
                        assert(self.role_permissions@[k] == self.role_permissions@[i as int]);
                        assert(false);
                    }
                }
                out.push(link.permission);
                assert(out@.no_duplicates()) by {
                    assert forall|a: int, b: int| 0 <= a < b < out@.len() implies out@[a]
                        != out@[b] by {
                        if b == pre.len() {
                            assert(pre.contains(pre[a]));
                        }
                    }
                }
            }
            proof {
                assert forall|p: Permission| #[trigger] out@.contains(p) <==> (exists|k: int|
                    0 <= k < i + 1 && (#[trigger] self.role_permissions@[k]).role_id == role_id
                        && self.role_permissions@[k].permission == p) by {
                    if out@.contains(p) {
                        if pre.contains(p) {
                            let k = choose|k: int|
                                0 <= k < i && (#[trigger] self.role_permissions@[k]).role_id
                                    == role_id && self.role_permissions@[k].permission == p;
                            assert((self.role_permissions@[k]).role_id == role_id);
                        } else {
                            assert((self.role_permissions@[i as int]).role_id == role_id
                                && self.role_permissions@[i as int].permission == p);
                        }
                    }
                    if exists|k: int|
                        0 <= k < i + 1 && (#[trigger] self.role_permissions@[k]).role_id == role_id
                            && self.role_permissions@[k].permission == p {
                        let k = choose|k: int|
                            0 <= k < i + 1 && (#[trigger] self.role_permissions@[k]).role_id
                                == role_id && self.role_permissions@[k].permission == p;
                        if k < i {
                            assert(pre.contains(p));
                            let m = choose|m: int| 0 <= m < pre.len() && pre[m] == p;
                            assert(out@[m] == p);
                        } else {
                            assert(out@.last() == p);
                        }
                    }
                }
            }
            i = i + 1;
        }
        out
    }

    /// All roles of a workspace except the protected Admin role, each with
    /// its aggregated permissions.
    pub fn get_role_with_permissions(&self, workspace_id: u64) -> (r: Vec<RoleWithPermissions>)
        requires
            self.wf(),
        ensures
            r@.len() == listed_roles(*self, workspace_id).len(),
            forall|i: int|
                0 <= i < r@.len() ==> (#[trigger] r@[i]).id == listed_roles(*self, workspace_id)[i].id
                    && r@[i].name == listed_roles(*self, workspace_id)[i].name && r@[i].description
                    == listed_roles(*self, workspace_id)[i].description,
            forall|i: int| 0 <= i < r@.len() ==> (#[trigger] r@[i]).permissions@.no_duplicates(),
            forall|i: int, p: Permission|
                0 <= i < r@.len() ==> (#[trigger] r@[i].permissions@.contains(p)
                    <==> self.role_perm_set(listed_roles(*self, workspace_id)[i].id).contains(p)),
    {
        let ghost pred = |r: Role| is_listed_role(r, workspace_id);
        let admin = String::from_str("Admin");
        let n = self.roles.len();
        let mut out: Vec<RoleWithPermissions> = Vec::new();
        let mut i: usize = 0;
        proof {
            assert(self.roles@.take(0).filter(pred) =~= Seq::<Role>::empty());
        }
        while i < n
            invariant
                self.wf(),
                admin@ == admin_name(),
                pred == (|r: Role| is_listed_role(r, workspace_id)),
                0 <= i <= n == self.roles@.len(),
                out@.len() == self.roles@.take(i as int).filter(pred).len(),
                forall|k: int|
                    0 <= k < out@.len() ==> (#[trigger] out@[k]).id == self.roles@.take(
                        i as int,
                    ).filter(pred)[k].id && out@[k].name == self.roles@.take(i as int).filter(
                        pred,
                    )[k].name && out@[k].description == self.roles@.take(i as int).filter(
                        pred,
                    )[k].description,
                forall|k: int| 0 <= k < out@.len() ==> (#[trigger] out@[k]).permissions@.no_duplicates(),
                forall|k: int, p: Permission|
                    0 <= k < out@.len() ==> (#[trigger] out@[k].permissions@.contains(p)
                        <==> self.role_perm_set(
                        self.roles@.take(i as int).filter(pred)[k].id,
                    ).contains(p)),
            decreases n - i,
        {
            let ghost pre = out@;
            let role = &self.roles[i];
            proof {
                lemma_filter_take_step(self.roles@, pred, i as int);
            }
            if role.workspace_id == workspace_id && !role.name.eq(&admin) {
                let perms = self.collect_role_permissions(role.id);
                out.push(
                    RoleWithPermissions {
                        id: role.id,
                        name: role.name.clone(),
                        description: match &role.description {
                            Some(d) => Some(d.clone()),
                            None => None,
                        },
                        permissions: perms,
                    },
                );
                proof {
                    assert(pred(self.roles@[i as int]));
                    assert(self.roles@.take(i + 1).filter(pred) == self.roles@.take(
                        i as int,
                    ).filter(pred).push(self.roles@[i as int]));
                }
            } else {
                proof {
                    assert(!pred(self.roles@[i as int]));
                }
            }
            i = i + 1;
        }
        proof {
            assert(self.roles@.take(n as int) =~= self.roles@);
        }
        out
    }

    /// Creates a role with a fresh id in `workspace_id` and links every
    /// requested permission name that the catalog resolves; unknown names
    /// contribute nothing.
    pub fn create_role(
        &mut self,
        workspace_id: u64,
        name: String,
        description: Option<String>,
        permissions: Vec<String>,
    ) -> (r: Result<(), StoreError>)
        requires
            old(self).wf(),
            old(self).next_role_id < u64::MAX,
        ensures
            final(self).wf(),
            r is Ok,
            final(self).roles@ == old(self).roles@.push(
                Role { id: old(self).next_role_id, workspace_id, name, description },
            ),
            final(self).next_role_id == old(self).next_role_id + 1,
            forall|q: RolePermission|
                final(self).role_permissions@.contains(q) <==> (old(
                    self,
                ).role_permissions@.contains(q) || (q.role_id == old(self).next_role_id
                    && requested_perms(permissions@).contains(q.permission))),
            final(self).users == old(self).users,
            final(self).workspaces == old(self).workspaces,
            final(self).workspace_users == old(self).workspace_users,
            final(self).email_verifications == old(self).email_verifications,
            final(self).password_resets == old(self).password_resets,
            final(self).next_user_id == old(self).next_user_id,
            final(self).next_workspace_id == old(self).next_workspace_id,
    {
        let ghost old_store = *self;
        let role_id = self.next_role_id;
        let parsed = parse_permission_names(&permissions);
        self.roles.push(Role { id: role_id, workspace_id, name, description });
        self.next_role_id = role_id + 1;
        let ghost mid = *self;
        let ghost old_rp = self.role_permissions@;
        let m = parsed.len();
        let mut j: usize = 0;
        while j < m
            invariant
                0 <= j <= m == parsed@.len(),
                self.roles == mid.roles,
                self.users == mid.users,
                self.workspaces == mid.workspaces,
                self.workspace_users == mid.workspace_users,
                self.email_verifications == mid.email_verifications,
                self.password_resets == mid.password_resets,
                self.next_user_id == mid.next_user_id,
                self.next_workspace_id == mid.next_workspace_id,
                self.next_role_id == mid.next_role_id,
                old_rp == mid.role_permissions@,
                self.role_permissions@.len() == old_rp.len() + j,
                forall|k: int|
                    0 <= k < old_rp.len() ==> #[trigger] self.role_permissions@[k] == old_rp[k],
                forall|k: int|
                    old_rp.len() <= k < self.role_permissions@.len() ==> (
                    #[trigger] self.role_permissions@[k]) == (RolePermission {
                        role_id,
                        permission: parsed@[k - old_rp.len()],
                    }),
            decreases m - j,
        {
            self.role_permissions.push(RolePermission { role_id, permission: parsed[j] });
            j = j + 1;
        }
        proof {
            let rp = self.role_permissions@;
            assert forall|q: RolePermission| rp.contains(q) implies (old_rp.contains(q) || (
            q.role_id == role_id && requested_perms(permissions@).contains(q.permission))) by {
                let k = choose|k: int| 0 <= k < rp.len() && rp[k] == q;
                if k < old_rp.len() {
                    assert(old_rp[k] == rp[k]);
                } else {
                    assert(parsed@.contains(parsed@[k - old_rp.len()]));
                }
            }
            assert forall|q: RolePermission| (old_rp.contains(q) || (q.role_id == role_id
                && requested_perms(permissions@).contains(q.permission))) implies rp.contains(
                q,
            ) by {
                if old_rp.contains(q) {
                    let k = choose|k: int| 0 <= k < old_rp.len() && old_rp[k] == q;
                    assert(rp[k] == old_rp[k]);
                } else {
                    assert(parsed@.contains(q.permission));
                    let k = choose|k: int| 0 <= k < parsed@.len() && parsed@[k] == q.permission;
                    assert(rp[old_rp.len() + k] == q);
                }
            }
            assert forall|k1: int, k2: int|
                #![trigger rp[k1], rp[k2]]
                0 <= k1 < k2 < rp.len() implies rp[k1] != rp[k2] by {
                if k2 < old_rp.len() {
                    assert(old_rp[k1] == rp[k1] && old_rp[k2] == rp[k2]);
                } else if k1 >= old_rp.len() {
                    assert(parsed@.no_duplicates());
                    assert(parsed@[k1 - old_rp.len()] != parsed@[k2 - old_rp.len()]);
                } else {
                    assert(old_rp[k1] == rp[k1]);
                    assert(old_store.wf());
                    assert(old_rp[k1].role_id < role_id);
                }
            }
            assert forall|k: int| 0 <= k < rp.len() implies (#[trigger] rp[k]).role_id
                < self.next_role_id by {
                if k < old_rp.len() {
                    assert(old_rp[k] == rp[k]);
                    assert(old_rp[k].role_id < role_id);
                }
            }
            let roles = self.roles@;
            assert forall|k1: int, k2: int|
                #![trigger roles[k1], roles[k2]]
                0 <= k1 < k2 < roles.len() implies roles[k1].id != roles[k2].id by {
                if k2 == roles.len() - 1 {
                    assert(old_store.roles@[k1].id < old_store.next_role_id);
                }
            }
            assert forall|k: int| 0 <= k < roles.len() implies (#[trigger] roles[k]).id
                < self.next_role_id by {
                if k < roles.len() - 1 {
                    assert(old_store.roles@[k].id < old_store.next_role_id);
                }
            }
        }
        Ok(())
    }

    /// The index of the role row `(workspace_id, role_id)`, if present.
    fn find_role_index(&self, workspace_id: u64, role_id: u64) -> (r: Option<usize>)
        requires
            self.wf(),
        ensures
            r matches Some(t) ==> 0 <= t < self.roles@.len() && self.roles@[t as int].id == role_id
                && self.roles@[t as int].workspace_id == workspace_id,
            r is None <==> !has_role(*self, workspace_id, role_id),
    {
        let n = self.roles.len();
        let mut i: usize = 0;
        while i < n
            invariant
                0 <= i <= n == self.roles@.len(),
                forall|j: int|
                    0 <= j < i ==> !((#[trigger] self.roles@[j]).id == role_id
                        && self.roles@[j].workspace_id == workspace_id),
            decreases n - i,
        {
            if self.roles[i].id == role_id && self.roles[i].workspace_id == workspace_id {
                return Some(i);
            }
            i = i + 1;
        }
        None
    }

    /// Replaces the permission links of role `role_id`: all its current
    /// links leave, and one link per requested permission enters.
    fn replace_role_links(&mut self, role_id: u64, parsed: Vec<Permission>)
        requires
            old(self).wf(),
            parsed@.no_duplicates(),
            role_id < old(self).next_role_id,
        ensures
            final(self).wf(),
            forall|q: RolePermission|
                #[trigger] final(self).role_permissions@.contains(q) <==> ((old(
                    self,
                ).role_permissions@.contains(q) && q.role_id != role_id) || (q.role_id == role_id
                    && parsed@.contains(q.permission))),
            final(self).users == old(self).users,
            final(self).workspaces == old(self).workspaces,
            final(self).roles == old(self).roles,
            final(self).workspace_users == old(self).workspace_users,
            final(self).email_verifications == old(self).email_verifications,
            final(self).password_resets == old(self).password_resets,
            final(self).next_user_id == old(self).next_user_id,
            final(self).next_workspace_id == old(self).next_workspace_id,
            final(self).next_role_id == old(self).next_role_id,
    {
        let ghost rp = self.role_permissions@;
        let n = self.role_permissions.len();
        let mut kept: Vec<RolePermission> = Vec::new();
        let mut i: usize = 0;
        while i < n
            invariant
                self.wf(),
                rp == self.role_permissions@,
                0 <= i <= n == rp.len(),
                forall|a: int, b: int|
                    #![trigger kept@[a], kept@[b]]
                    0 <= a < b < kept@.len() ==> kept@[a] != kept@[b],
                forall|a: int|
                    0 <= a < kept@.len() ==> (#[trigger] kept@[a]).role_id != role_id
                        && kept@[a].role_id < self.next_role_id,
                forall|q: RolePermission|
                    #[trigger] kept@.contains(q) <==> (exists|m: int|
                        0 <= m < i && rp[m] == q && q.role_id != role_id),
            decreases n - i,
        {
            let ghost pre = kept@;
            let link = self.role_permissions[i];
            if link.role_id != role_id {
                proof {
                    if pre.contains(link) {
                        let m = choose|m: int| 0 <= m < i && rp[m] == link && link.role_id != role_id;
                        assert(rp[m] == rp[i as int]);
                        assert(false);
                    }
                }
                kept.push(link);
            }
            proof {
                assert forall|q: RolePermission| #[trigger] kept@.contains(q) <==> (exists|m: int|
                    0 <= m < i + 1 && rp[m] == q && q.role_id != role_id) by {
                    if kept@.contains(q) {
                        if pre.contains(q) {
                            let m = choose|m: int| 0 <= m < i && rp[m] == q && q.role_id != role_id;
                            assert(rp[m] == q && q.role_id != role_id);
                        } else {
                            assert(rp[i as int] == q && q.role_id != role_id);
                        }
                    }
                    if exists|m: int| 0 <= m < i + 1 && rp[m] == q && q.role_id != role_id {
                        let m = choose|m: int| 0 <= m < i + 1 && rp[m] == q && q.role_id != role_id;
                        if m < i {
                            assert(pre.contains(q));
                            let a = choose|a: int| 0 <= a < pre.len() && pre[a] == q;
                            assert(kept@[a] == q);
                        } else {
                            assert(kept@.last() == q);
                        }
                    }
                }
            }
            i = i + 1;
        }
        let ghost keep = kept@;
        let m = parsed.len();
        let mut j: usize = 0;
        while j < m
            invariant
                0 <= j <= m == parsed@.len(),
                kept@.len() == keep.len() + j,
                forall|k: int| 0 <= k < keep.len() ==> #[trigger] kept@[k] == keep[k],
                forall|k: int|
                    keep.len() <= k < kept@.len() ==> (#[trigger] kept@[k]) == (RolePermission {
                        role_id,
                        permission: parsed@[k - keep.len()],
                    }),
            decreases m - j,
        {
            kept.push(RolePermission { role_id, permission: parsed[j] });
            j = j + 1;
        }
        proof {
            let out = kept@;
            assert forall|q: RolePermission| #[trigger] out.contains(q) <==> ((rp.contains(q)
                && q.role_id != role_id) || (q.role_id == role_id && parsed@.contains(
                q.permission,
            ))) by {
                if out.contains(q) {
                    let k = choose|k: int| 0 <= k < out.len() && out[k] == q;
                    if k < keep.len() {
                        assert(keep[k] == q);
                        assert(keep.contains(q));
                        let m2 = choose|m2: int| 0 <= m2 < rp.len() && rp[m2] == q && q.role_id != role_id;
                        assert(rp.contains(q));
                    } else {
                        assert(parsed@.contains(parsed@[k - keep.len()]));
                    }
                }
                if rp.contains(q) && q.role_id != role_id {
                    let m2 = choose|m2: int| 0 <= m2 < rp.len() && rp[m2] == q;
                    assert(keep.contains(q));
                    let a = choose|a: int| 0 <= a < keep.len() && keep[a] == q;
                    assert(out[a] == q);
                }
                if q.role_id == role_id && parsed@.contains(q.permission) {
                    let a = choose|a: int| 0 <= a < parsed@.len() && parsed@[a] == q.permission;
                    assert(out[keep.len() + a] == q);
                }
            }
            assert forall|a: int, b: int|
                #![trigger out[a], out[b]]
                0 <= a < b < out.len() implies out[a] != out[b] by {
                if b < keep.len() {
                    assert(keep[a] == out[a] && keep[b] == out[b]);
                } else if a >= keep.len() {
                    assert(parsed@.no_duplicates());
                    assert(parsed@[a - keep.len()] != parsed@[b - keep.len()]);
                } else {
                    assert(keep[a] == out[a]);
                    assert(keep[a].role_id != role_id);
                }
            }
            assert forall|k: int| 0 <= k < out.len() implies (#[trigger] out[k]).role_id
                < self.next_role_id by {
                if k < keep.len() {
                    assert(keep[k] == out[k]);
                }
            }
        }
        self.role_permissions = kept;
    }

    /// Updates a role's name, description and permission set; permission
    /// assignment is full-replace. The workspace's Admin role is immutable:
    /// targeting it fails as if the role did not exist, and targeting a
    /// missing role changes nothing.
    pub fn update_role(
        &mut self,
        workspace_id: u64,
        role_id: u64,
        name: String,
        description: Option<String>,
        permissions: Vec<String>,
    ) -> (r: Result<(), StoreError>)
        requires
            old(self).wf(),
        ensures
            final(self).wf(),
            is_admin_role(*old(self), workspace_id, role_id) ==> r == Err::<(), StoreError>(
                StoreError::RowNotFound,
            ) && *final(self) == *old(self),
            !is_admin_role(*old(self), workspace_id, role_id) ==> r is Ok,
            !is_admin_role(*old(self), workspace_id, role_id) && !has_role(
                *old(self),
                workspace_id,
                role_id,
            ) ==> *final(self) == *old(self),
            (!is_admin_role(*old(self), workspace_id, role_id) && has_role(
                *old(self),
                workspace_id,
                role_id,
            )) ==> {
                &&& final(self).roles@.len() == old(self).roles@.len()
                &&& forall|i: int|
                    0 <= i < old(self).roles@.len() ==> #[trigger] final(self).roles@[i] == (if old(
                        self,
                    ).roles@[i].id == role_id && old(self).roles@[i].workspace_id == workspace_id {
                        Role { id: role_id, workspace_id, name, description }
                    } else {
                        old(self).roles@[i]
                    })
                &&& forall|q: RolePermission|
                    #[trigger] final(self).role_permissions@.contains(q) <==> ((old(
                        self,
                    ).role_permissions@.contains(q) && q.role_id != role_id) || (q.role_id
                        == role_id && requested_perms(permissions@).contains(q.permission)))
            },
            final(self).users == old(self).users,
            final(self).workspaces == old(self).workspaces,
            final(self).workspace_users == old(self).workspace_users,
            final(self).email_verifications == old(self).email_verifications,
            final(self).password_resets == old(self).password_resets,
            final(self).next_user_id == old(self).next_user_id,
            final(self).next_workspace_id == old(self).next_workspace_id,
            final(self).next_role_id == old(self).next_role_id,
    {
        let ghost old_store = *old(self);
        let admin = String::from_str("Admin");
        let target = self.find_role_index(workspace_id, role_id);
        match target {
            None => {
                proof {
                    assert(!is_admin_role(old_store, workspace_id, role_id));
                }
                Ok(())
            },
            Some(t) => {
                if self.roles[t].name.eq(&admin) {
                    proof {
                        assert(is_admin_role(old_store, workspace_id, role_id)) by {
                            assert((old_store.roles@[t as int]).id == role_id
                                && old_store.roles@[t as int].workspace_id == workspace_id
                                && old_store.roles@[t as int].name@ == admin_name());
                        }
                    }
                    return Err(StoreError::RowNotFound);
                }
                proof {
                    assert(!is_admin_role(old_store, workspace_id, role_id)) by {
                        if is_admin_role(old_store, workspace_id, role_id) {
                            let i = choose|i: int|
                                0 <= i < old_store.roles@.len() && (
                                #[trigger] old_store.roles@[i]).id == role_id
                                    && old_store.roles@[i].workspace_id == workspace_id
                                    && old_store.roles@[i].name@ == admin_name();
                            assert(old_store.roles@[i].id == old_store.roles@[t as int].id);
                            assert(i == t);
                        }
                    }
                }
                let updated = Role { id: role_id, workspace_id, name, description };
                self.roles.remove(t);
                self.roles.insert(t, updated);
                proof {
                    assert forall|i: int| 0 <= i < old_store.roles@.len() implies
                        #[trigger] self.roles@[i] == (if old_store.roles@[i].id == role_id
                        && old_store.roles@[i].workspace_id == workspace_id {
                        Role { id: role_id, workspace_id, name, description }
                    } else {
                        old_store.roles@[i]
                    }) by {
                        if i != t {
                            assert(self.roles@[i] == old_store.roles@[i]);
                            if old_store.roles@[i].id == role_id {
                                assert(old_store.roles@[i].id == old_store.roles@[t as int].id);
                                assert(false);
                            }
                        }
                    }
                    assert(self.wf()) by {
                        assert forall|a: int, b: int|
                            #![trigger self.roles@[a], self.roles@[b]]
                            0 <= a < b < self.roles@.len() implies self.roles@[a].id
                            != self.roles@[b].id by {
                            assert(self.roles@[a].id == old_store.roles@[a].id);
                            assert(self.roles@[b].id == old_store.roles@[b].id);
                            assert(old_store.roles@[a].id != old_store.roles@[b].id);
                        }
                        assert forall|a: int| 0 <= a < self.roles@.len() implies (
                        #[trigger] self.roles@[a]).id < self.next_role_id by {
                            assert(self.roles@[a].id == old_store.roles@[a].id);
                            assert(old_store.roles@[a].id < old_store.next_role_id);
                        }
                    }
                }
                let parsed = parse_permission_names(&permissions);
                proof {
                    assert(role_id < self.next_role_id) by {
                        assert((old_store.roles@[t as int]).id < old_store.next_role_id);
                    }
                }
                self.replace_role_links(role_id, parsed);
                Ok(())
            },
        }
    }

    /// Deletes a role and its permission links. The workspace's Admin role
    /// is protected: targeting it fails as if the role did not exist, and
    /// targeting a missing role changes nothing.
    pub fn delete_role(&mut self, workspace_id: u64, role_id: u64) -> (r: Result<
        (),
        StoreError,
    >)
        requires
            old(self).wf(),
        ensures
            final(self).wf(),
            is_admin_role(*old(self), workspace_id, role_id) ==> r == Err::<(), StoreError>(
                StoreError::RowNotFound,
            ) && *final(self) == *old(self),
            !is_admin_role(*old(self), workspace_id, role_id) ==> r is Ok,
            !is_admin_role(*old(self), workspace_id, role_id) && !has_role(
                *old(self),
                workspace_id,
                role_id,
            ) ==> *final(self) == *old(self),
            (!is_admin_role(*old(self), workspace_id, role_id) && has_role(
                *old(self),
                workspace_id,
                role_id,
            )) ==> {
                &&& final(self).roles@ == old(self).roles@.filter(
                    |r2: Role| !(r2.id == role_id && r2.workspace_id == workspace_id),
                )
                &&& forall|q: RolePermission|
                    #[trigger] final(self).role_permissions@.contains(q) <==> (old(
                        self,
                    ).role_permissions@.contains(q) && q.role_id != role_id)
            },
            final(self).users == old(self).users,
            final(self).workspaces == old(self).workspaces,
            final(self).workspace_users == old(self).workspace_users,
            final(self).email_verifications == old(self).email_verifications,
            final(self).password_resets == old(self).password_resets,
            final(self).next_user_id == old(self).next_user_id,
            final(self).next_workspace_id == old(self).next_workspace_id,
            final(self).next_role_id == old(self).next_role_id,
    {
        let ghost old_store = *old(self);
        let ghost pred = |r2: Role| !(r2.id == role_id && r2.workspace_id == workspace_id);
        let admin = String::from_str("Admin");
        let target = self.find_role_index(workspace_id, role_id);
        match target {
            None => {
                proof {
                    assert(!is_admin_role(old_store, workspace_id, role_id));
                }
                Ok(())
            },
            Some(t) => {
                if self.roles[t].name.eq(&admin) {
                    proof {
                        assert(is_admin_role(old_store, workspace_id, role_id)) by {
                            assert((old_store.roles@[t as int]).id == role_id
                                && old_store.roles@[t as int].workspace_id == workspace_id
                                && old_store.roles@[t as int].name@ == admin_name());
                        }
                    }
                    return Err(StoreError::RowNotFound);
                }
                proof {
                    assert(!is_admin_role(old_store, workspace_id, role_id)) by {
                        if is_admin_role(old_store, workspace_id, role_id) {
                            let i = choose|i: int|
                                0 <= i < old_store.roles@.len() && (
                                #[trigger] old_store.roles@[i]).id == role_id
                                    && old_store.roles@[i].workspace_id == workspace_id
                                    && old_store.roles@[i].name@ == admin_name();
                            assert(old_store.roles@[i].id == old_store.roles@[t as int].id);
                            assert(i == t);
                        }
                    }
                }
                let ghost roles0 = self.roles@;
                let n = self.roles.len();
                let mut out: Vec<Role> = Vec::new();
                let mut i: usize = 0;
                proof {
                    assert(roles0.take(0).filter(pred) =~= Seq::<Role>::empty());
                }
                while i < n
                    invariant
                        self.wf(),
                        roles0 == self.roles@,
                        pred == (|r2: Role| !(r2.id == role_id && r2.workspace_id == workspace_id)),
                        0 <= i <= n == roles0.len(),
                        out@ == roles0.take(i as int).filter(pred),
                        forall|a: int|
                            0 <= a < out@.len() ==> exists|b: int|
                                0 <= b < i && roles0[b] == #[trigger] out@[a],
                    decreases n - i,
                {
                    let ghost pre = out@;
                    let role = &self.roles[i];
                    proof {
                        lemma_filter_take_step(roles0, pred, i as int);
                    }
                    if role.id == role_id && role.workspace_id == workspace_id {
                        proof {
                            assert(!pred(roles0[i as int]));
                        }
                    } else {
                        out.push(role.clone());
                        proof {
                            assert(pred(roles0[i as int]));
                            assert forall|a: int| 0 <= a < out@.len() implies exists|b: int|
                                0 <= b < i + 1 && roles0[b] == #[trigger] out@[a] by {
                                if a < pre.len() {
                                    let b = choose|b: int| 0 <= b < i && roles0[b] == pre[a];
                                    assert(roles0[b] == out@[a]);
                                } else {
                                    assert(roles0[i as int] == out@[a]);
                                }
                            }
                        }
                    }
                    i = i + 1;
                }
                proof {
                    assert(roles0.take(n as int) =~= roles0);
                }
                self.roles = out;
                proof {
                    lemma_filter_distinct_by(roles0, pred, |r2: Role| r2.id);
                    assert(self.wf()) by {
                        assert forall|a: int| 0 <= a < self.roles@.len() implies (
                        #[trigger] self.roles@[a]).id < self.next_role_id by {
                            let b = choose|b: int|
                                0 <= b < roles0.len() && roles0[b] == roles0.filter(pred)[a];
                            assert(roles0[b].id < old_store.next_role_id);
                        }
                    }
                }
                let none: Vec<Permission> = Vec::new();
                proof {
                    assert(role_id < self.next_role_id) by {
                        assert((old_store.roles@[t as int]).id < old_store.next_role_id);
                    }
                }
                self.replace_role_links(role_id, none);
                Ok(())
            },
        }
    }

    /// The id of the role named `name` in `workspace_id`, taking the first
    /// matching row; absent names are `RowNotFound`.
    pub fn get_role_id_by_name(&self, workspace_id: u64, name: &String) -> (r: Result<
        u64,
        StoreError,
    >)
        ensures
            r matches Ok(id) ==> exists|i: int|
                0 <= i < self.roles@.len() && (#[trigger] self.roles@[i]).workspace_id
                    == workspace_id && self.roles@[i].name@ == name@ && self.roles@[i].id == id && (
                forall|j: int|
                    0 <= j < i ==> !((#[trigger] self.roles@[j]).workspace_id == workspace_id
                        && self.roles@[j].name@ == name@)),
            r is Err <==> !(exists|i: int|
                0 <= i < self.roles@.len() && (#[trigger] self.roles@[i]).workspace_id
                    == workspace_id && self.roles@[i].name@ == name@),
            r matches Err(e) ==> e == StoreError::RowNotFound,
    {
        let n = self.roles.len();
        let mut i: usize = 0;
        while i < n
            invariant
                0 <= i <= n == self.roles@.len(),
                forall|j: int|
                    0 <= j < i ==> !((#[trigger] self.roles@[j]).workspace_id == workspace_id
                        && self.roles@[j].name@ == name@),
            decreases n - i,
        {
            if self.roles[i].workspace_id == workspace_id && self.roles[i].name.eq(name) {
                return Ok(self.roles[i].id);
            }
            i = i + 1;
        }
        Err(StoreError::RowNotFound)
    }
}


/// Law: the protected Admin role of a workspace is never among the roles
/// a listing returns.
pub proof fn lemma_admin_never_listed(s: Store, workspace_id: u64, i: int)
    requires
        0 <= i < listed_roles(s, workspace_id).len(),
    ensures
        listed_roles(s, workspace_id)[i].name@ != admin_name(),
{
    s.roles@.lemma_filter_pred(|r: Role| is_listed_role(r, workspace_id), i);
}

/// Law: a freshly created role appears at the end of its workspace's
/// listing, and its resolved permission set is exactly what the request's
/// names resolved to.
pub proof fn lemma_created_role_listed(
    s0: Store,
    s1: Store,
    workspace_id: u64,
    role: Role,
    names: Seq<String>,
)
    requires
        s0.wf(),
        role.workspace_id == workspace_id,
        role.name@ != admin_name(),
        role.id == s0.next_role_id,
        s1.roles@ == s0.roles@.push(role),
        forall|q: RolePermission|
            #[trigger] s1.role_permissions@.contains(q) <==> (s0.role_permissions@.contains(q) || (
            q.role_id == role.id && requested_perms(names).contains(q.permission))),
    ensures
        listed_roles(s1, workspace_id) == listed_roles(s0, workspace_id).push(role),
        forall|p: Permission|
            #[trigger] s1.role_perm_set(role.id).contains(p) <==> requested_perms(names).contains(
                p,
            ),
{
    let pred = |r: Role| is_listed_role(r, workspace_id);
    assert(listed_roles(s1, workspace_id) == listed_roles(s0, workspace_id).push(role)) by {
        reveal(Seq::filter);
        assert(s1.roles@.drop_last() =~= s0.roles@);
        assert(s1.roles@.last() == role);
    }
    assert forall|p: Permission| #[trigger] s1.role_perm_set(role.id).contains(p)
        <==> requested_perms(names).contains(p) by {
        s1.lemma_role_perm_set_contains(role.id, p);
        if s0.role_permissions@.contains(RolePermission { role_id: role.id, permission: p }) {
            let k = choose|k: int|
                0 <= k < s0.role_permissions@.len() && s0.role_permissions@[k] == (RolePermission {
                    role_id: role.id,
                    permission: p,
                });
            assert((#[trigger] s0.role_permissions@[k]).role_id < s0.next_role_id);
            assert(false);
        }
    }
}

/// Law: after a permission-set replacement, a role resolves to exactly
/// the requested set — not the union with what it held before — and
/// every other role's set is untouched.
pub proof fn lemma_updated_role_resolves_to_request(
    s0: Store,
    s1: Store,
    role_id: u64,
    names: Seq<String>,
)
    requires
        forall|q: RolePermission|
            #[trigger] s1.role_permissions@.contains(q) <==> ((s0.role_permissions@.contains(q)
                && q.role_id != role_id) || (q.role_id == role_id && requested_perms(
                names,
            ).contains(q.permission))),
    ensures
        forall|p: Permission|
            #[trigger] s1.role_perm_set(role_id).contains(p) <==> requested_perms(names).contains(
                p,
            ),
        forall|rid: u64, p: Permission|
            rid != role_id ==> (#[trigger] s1.role_perm_set(rid).contains(p)
                <==> s0.role_perm_set(rid).contains(p)),
{
    assert forall|p: Permission| #[trigger] s1.role_perm_set(role_id).contains(p)
        <==> requested_perms(names).contains(p) by {
        s1.lemma_role_perm_set_contains(role_id, p);
    }
    assert forall|rid: u64, p: Permission| rid != role_id implies (
    #[trigger] s1.role_perm_set(rid).contains(p) <==> s0.role_perm_set(rid).contains(p)) by {
        s1.lemma_role_perm_set_contains(rid, p);
        s0.lemma_role_perm_set_contains(rid, p);
    }
}

} // verus!

