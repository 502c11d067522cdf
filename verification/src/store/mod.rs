//! An in-memory relational store: the tables the authorization engine
//! reads and mutates, with the uniqueness invariants the engine relies on.
//!
//! Operations are grouped as the engine uses them: account and credential
//! rows in `auth`, the role registry in `role`, workspaces and permission
//! resolution in `workspace`, memberships in `workspace_user`.

pub mod auth;
pub mod user;
pub mod role;
pub mod workspace;
pub mod workspace_user;

use vstd::prelude::*;
use crate::models::{EmailVerification, PasswordReset, Role, RolePermission, User, Workspace,
    WorkspaceUser};
use crate::permissions::Permission;

verus! {

/// How a store operation fails: the target row is missing, or a uniqueness
/// constraint would be violated.
#[derive(Clone, Copy, PartialEq, Eq, Structural, Debug)]
pub enum StoreError {
    RowNotFound,
    UniqueViolation,
}

/// The store: one vector per table, plus the id counters rows are drawn
/// from.
#[derive(Debug)]
pub struct Store {
    pub users: Vec<User>,
    pub workspaces: Vec<Workspace>,
    pub roles: Vec<Role>,
    pub role_permissions: Vec<RolePermission>,
    pub workspace_users: Vec<WorkspaceUser>,
    pub email_verifications: Vec<EmailVerification>,
    pub password_resets: Vec<PasswordReset>,
    pub next_user_id: u64,
    pub next_workspace_id: u64,
    pub next_role_id: u64,
}

impl Store {
    /// The store's uniqueness invariants: ids, emails, workspace names and
    /// invite codes are unique; a (workspace, user) pair has at most one
    /// membership; a (role, permission) pair has at most one link; pending
    /// tokens are unique; and every id is below its counter.
    pub open spec fn wf(&self) -> bool {
        &&& forall|i: int, j: int|
            #![trigger self.users@[i], self.users@[j]]
            0 <= i < j < self.users@.len() ==> self.users@[i].id != self.users@[j].id
                && self.users@[i].email@ != self.users@[j].email@
        &&& forall|i: int| #![trigger self.users@[i]]
            0 <= i < self.users@.len() ==> self.users@[i].id < self.next_user_id
        &&& forall|i: int, j: int|
            #![trigger self.workspaces@[i], self.workspaces@[j]]
            0 <= i < j < self.workspaces@.len() ==> self.workspaces@[i].id
                != self.workspaces@[j].id && self.workspaces@[i].name@
                != self.workspaces@[j].name@ && self.workspaces@[i].invite_code@
                != self.workspaces@[j].invite_code@
        &&& forall|i: int| #![trigger self.workspaces@[i]]
            0 <= i < self.workspaces@.len() ==> self.workspaces@[i].id < self.next_workspace_id
        &&& forall|i: int, j: int|
            #![trigger self.roles@[i], self.roles@[j]]
            0 <= i < j < self.roles@.len() ==> self.roles@[i].id != self.roles@[j].id
        &&& forall|i: int| #![trigger self.roles@[i]]
            0 <= i < self.roles@.len() ==> self.roles@[i].id < self.next_role_id
        &&& forall|i: int, j: int|
            #![trigger self.workspace_users@[i], self.workspace_users@[j]]
            0 <= i < j < self.workspace_users@.len() ==> !(self.workspace_users@[i].workspace_id
                == self.workspace_users@[j].workspace_id && self.workspace_users@[i].user_id
                == self.workspace_users@[j].user_id)
        &&& forall|i: int, j: int|
            #![trigger self.role_permissions@[i], self.role_permissions@[j]]
            0 <= i < j < self.role_permissions@.len() ==> self.role_permissions@[i]
                != self.role_permissions@[j]
        &&& forall|i: int| #![trigger self.workspace_users@[i]]
            0 <= i < self.workspace_users@.len() ==> self.workspace_users@[i].workspace_id
                < self.next_workspace_id
        &&& forall|i: int| #![trigger self.role_permissions@[i]]
            0 <= i < self.role_permissions@.len() ==> self.role_permissions@[i].role_id
                < self.next_role_id
        &&& forall|i: int, j: int|
            #![trigger self.email_verifications@[i], self.email_verifications@[j]]
            0 <= i < j < self.email_verifications@.len() ==> self.email_verifications@[i].token
                != self.email_verifications@[j].token
        &&& forall|i: int, j: int|
            #![trigger self.password_resets@[i], self.password_resets@[j]]
            0 <= i < j < self.password_resets@.len() ==> self.password_resets@[i].token
                != self.password_resets@[j].token
    }

    /// Whether some user row carries this id.
    pub open spec fn has_user(&self, id: u64) -> bool {
        exists|i: int| 0 <= i < self.users@.len() && (#[trigger] self.users@[i]).id == id
    }

    /// Whether some user row carries this email.
    pub open spec fn has_email(&self, email: Seq<char>) -> bool {
        exists|i: int| 0 <= i < self.users@.len() && (#[trigger] self.users@[i]).email@ == email
    }

    /// Whether some workspace row carries this id.
    pub open spec fn has_workspace(&self, id: u64) -> bool {
        exists|i: int| 0 <= i < self.workspaces@.len() && (#[trigger] self.workspaces@[i]).id == id
    }

    /// Whether some workspace row carries this name.
    pub open spec fn has_workspace_name(&self, name: Seq<char>) -> bool {
        exists|i: int|
            0 <= i < self.workspaces@.len() && (#[trigger] self.workspaces@[i]).name@ == name
    }

    /// Whether some workspace row carries this invite code.
    pub open spec fn has_invite_code(&self, code: Seq<char>) -> bool {
        exists|i: int|
            0 <= i < self.workspaces@.len() && (#[trigger] self.workspaces@[i]).invite_code@
                == code
    }

    /// Whether user `user_id` is a member of workspace `workspace_id`.
    pub open spec fn has_membership(&self, workspace_id: u64, user_id: u64) -> bool {
        exists|i: int|
            0 <= i < self.workspace_users@.len() && (#[trigger] self.workspace_users@[i]).workspace_id
                == workspace_id && self.workspace_users@[i].user_id == user_id
    }

    /// A permission is in a role's set exactly when the corresponding link
    /// row is in the table.
    pub proof fn lemma_role_perm_set_contains(&self, role_id: u64, p: Permission)
        ensures
            self.role_perm_set(role_id).contains(p) <==> self.role_permissions@.contains(
                RolePermission { role_id, permission: p },
            ),
    {
        if self.role_perm_set(role_id).contains(p) {
            let i = choose|i: int|
                0 <= i < self.role_permissions@.len() && (
                #[trigger] self.role_permissions@[i]).role_id == role_id
                    && self.role_permissions@[i].permission == p;
            assert(self.role_permissions@[i] == RolePermission { role_id, permission: p });
        }
        if self.role_permissions@.contains(RolePermission { role_id, permission: p }) {
            let i = choose|i: int|
                0 <= i < self.role_permissions@.len() && self.role_permissions@[i]
                    == RolePermission { role_id, permission: p };
            assert((#[trigger] self.role_permissions@[i]).role_id == role_id
                && self.role_permissions@[i].permission == p);
        }
    }

    /// Whether some role row, in any workspace, carries this id.
    pub open spec fn has_role_row(&self, id: u64) -> bool {
        exists|i: int| 0 <= i < self.roles@.len() && (#[trigger] self.roles@[i]).id == id
    }

    /// The set of permissions linked to role `role_id`.
    pub open spec fn role_perm_set(&self, role_id: u64) -> Set<Permission> {
        Set::new(
            |p: Permission|
                exists|i: int|
                    0 <= i < self.role_permissions@.len() && (
                    #[trigger] self.role_permissions@[i]).role_id == role_id
                        && self.role_permissions@[i].permission == p,
        )
    }

    /// An empty store.
    pub fn new() -> (r: Store)
        ensures
            r.wf(),
            r.users@.len() == 0,
            r.workspaces@.len() == 0,
            r.roles@.len() == 0,
            r.role_permissions@.len() == 0,
            r.workspace_users@.len() == 0,
            r.email_verifications@.len() == 0,
            r.password_resets@.len() == 0,
    {
        Store {
            users: Vec::new(),
            workspaces: Vec::new(),
            roles: Vec::new(),
            role_permissions: Vec::new(),
            workspace_users: Vec::new(),
            email_verifications: Vec::new(),
            password_resets: Vec::new(),
            next_user_id: 1,
            next_workspace_id: 1,
            next_role_id: 1,
        }
    }
}

/// The name of the protected role every workspace carries.
pub open spec fn admin_name() -> Seq<char> {
    "Admin"@
}

/// Filtering a sequence whose rows have pairwise-distinct keys keeps the
/// keys pairwise distinct, and every filtered row comes from a source row.
pub proof fn lemma_filter_distinct_by<A, K>(s: Seq<A>, pred: spec_fn(A) -> bool, key: spec_fn(A) -> K)
    requires
        forall|a: int, b: int|
            #![trigger s[a], s[b]]
            0 <= a < b < s.len() ==> key(s[a]) != key(s[b]),
    ensures
        forall|a: int, b: int|
            #![trigger s.filter(pred)[a], s.filter(pred)[b]]
            0 <= a < b < s.filter(pred).len() ==> key(s.filter(pred)[a]) != key(s.filter(pred)[b]),
        forall|a: int|
            0 <= a < s.filter(pred).len() ==> exists|b: int|
                0 <= b < s.len() && s[b] == #[trigger] s.filter(pred)[a],
    decreases s.len(),
{
    reveal(Seq::filter);
    if s.len() > 0 {
        let head = s.drop_last();
        lemma_filter_distinct_by(head, pred, key);
        let f = s.filter(pred);
        let fh = head.filter(pred);
        assert forall|a: int| 0 <= a < f.len() implies exists|b: int|
            0 <= b < s.len() && s[b] == #[trigger] f[a] by {
            if pred(s.last()) && a == f.len() - 1 {
                assert(s[s.len() - 1] == f[a]);
            } else {
                assert(f[a] == fh[a]);
                let b = choose|b: int| 0 <= b < head.len() && head[b] == fh[a];
                assert(s[b] == f[a]);
            }
        }
        assert forall|a: int, b: int|
            #![trigger f[a], f[b]]
            0 <= a < b < f.len() implies key(f[a]) != key(f[b]) by {
            if pred(s.last()) {
                assert(f == fh.push(s.last()));
                if b < fh.len() {
                    assert(f[a] == fh[a] && f[b] == fh[b]);
                } else {
                    assert(f[b] == s.last());
                    assert(f[a] == fh[a]);
                    let src = choose|src: int| 0 <= src < head.len() && head[src] == fh[a];
                    assert(s[src] == fh[a]);
                    assert(key(s[src]) != key(s[s.len() - 1]));
                }
            } else {
                assert(f == fh);
            }
        }
    }
}

/// Taking one more element extends a filtered prefix by that element
/// exactly when the predicate accepts it.
pub proof fn lemma_filter_take_step<A>(s: Seq<A>, pred: spec_fn(A) -> bool, i: int)
    requires
        0 <= i < s.len(),
    ensures
        s.take(i + 1).filter(pred) == if pred(s[i]) {
            s.take(i).filter(pred).push(s[i])
        } else {
            s.take(i).filter(pred)
        },
{
    reveal(Seq::filter);
    assert(s.take(i + 1).drop_last() =~= s.take(i));
    assert(s.take(i + 1).last() == s[i]);
}

} // verus!
