//! Memberships: invite-code join with the deterministic role choice,
//! idempotent removal, the member listing, and role reassignment.

use vstd::prelude::*;
use crate::dtos::workspace_user::WorkspaceUserWithRoleDto;
use crate::models::WorkspaceUser;
use crate::store::{Store, StoreError, admin_name, lemma_filter_distinct_by,
    lemma_filter_take_step};
use crate::text::{lex_le, lex_lt, str_lt};

verus! {

broadcast use vstd::seq_lib::group_seq_properties;

/// Whether role row `ri` is one a join into workspace `ws_id` may bind:
/// in the workspace and not the Admin role.
pub open spec fn join_candidate(s: Store, ws_id: u64, ri: int) -> bool {
    0 <= ri < s.roles@.len() && s.roles@[ri].workspace_id == ws_id && s.roles@[ri].name@
        != admin_name()
}

/// Whether workspace `ws_id` has any role a join may bind.
pub open spec fn has_join_candidate(s: Store, ws_id: u64) -> bool {
    exists|ri: int| join_candidate(s, ws_id, ri)
}

/// Whether role row `ri` is a candidate whose name sorts first among the
/// workspace's candidates (ties between equal names are not resolved).
pub open spec fn chosen_join_role(s: Store, ws_id: u64, ri: int) -> bool {
    join_candidate(s, ws_id, ri) && (forall|rj: int|
        join_candidate(s, ws_id, rj) ==> lex_le(s.roles@[ri].name@, s.roles@[rj].name@))
}

/// Whether a join with `code` can succeed for `user_id`: the code resolves
/// to a workspace that has a candidate role and no membership for the user
/// yet. A failed join does not say which condition was missing.
pub open spec fn join_possible(s: Store, user_id: u64, code: Seq<char>) -> bool {
    exists|wi: int|
        0 <= wi < s.workspaces@.len() && (#[trigger] s.workspaces@[wi]).invite_code@ == code
            && has_join_candidate(s, s.workspaces@[wi].id) && !s.has_membership(
            s.workspaces@[wi].id,
            user_id,
        )
}

/// What a successful join of `user_id` with `code` does to the store:
/// nothing but one membership row, binding the user to the workspace the
/// code resolves to, under a chosen role.
pub open spec fn join_updates(s0: Store, s1: Store, user_id: u64, code: Seq<char>, wid: u64) -> bool {
    &&& exists|wi: int|
        0 <= wi < s0.workspaces@.len() && (#[trigger] s0.workspaces@[wi]).invite_code@ == code
            && s0.workspaces@[wi].id == wid
    &&& exists|ri: int|
        #[trigger] chosen_join_role(s0, wid, ri) && s1.workspace_users@
            == s0.workspace_users@.push(
            WorkspaceUser { workspace_id: wid, user_id, role_id: s0.roles@[ri].id },
        )
    &&& s1.users == s0.users
    &&& s1.workspaces == s0.workspaces
    &&& s1.roles == s0.roles
    &&& s1.role_permissions == s0.role_permissions
    &&& s1.email_verifications == s0.email_verifications
    &&& s1.password_resets == s0.password_resets
    &&& s1.next_user_id == s0.next_user_id
    &&& s1.next_workspace_id == s0.next_workspace_id
    &&& s1.next_role_id == s0.next_role_id
}

/// The membership rows a member listing of `ws_id` joins: rows of the
/// workspace whose user and role rows still exist.
pub open spec fn member_rows(s: Store, ws_id: u64) -> Seq<WorkspaceUser> {
    s.workspace_users@.filter(
        |m: WorkspaceUser| m.workspace_id == ws_id && s.has_user(m.user_id) && s.has_role_row(
            m.role_id,
        ),
    )
}

/// Whether `d` is the listing row for membership `m`: the joined user
/// fields and role name.
pub open spec fn member_row_corresponds(s: Store, d: WorkspaceUserWithRoleDto, m: WorkspaceUser) -> bool {
    &&& d.user_id == m.user_id
    &&& exists|ui: int|
        0 <= ui < s.users@.len() && (#[trigger] s.users@[ui]).id == m.user_id && d.user_name
            == s.users@[ui].name && d.user_email == s.users@[ui].email
    &&& exists|ri: int|
        0 <= ri < s.roles@.len() && (#[trigger] s.roles@[ri]).id == m.role_id && d.role_name
            == s.roles@[ri].name
}

impl Store {
    /// Whether some user row carries this id (exec mirror of
    /// `has_user`).
    pub(crate) fn find_user_index(&self, id: u64) -> (r: Option<usize>)
        ensures
            r matches Some(u) ==> 0 <= u < self.users@.len() && self.users@[u as int].id == id,
            r is None <==> !self.has_user(id),
    {
        let n = self.users.len();
        let mut i: usize = 0;
        while i < n
            invariant
                0 <= i <= n == self.users@.len(),
                forall|j: int| 0 <= j < i ==> (#[trigger] self.users@[j]).id != id,
            decreases n - i,
        {
            if self.users[i].id == id {
                return Some(i);
            }
            i = i + 1;
        }
        None
    }

    /// The index of the workspace row carrying this invite code, if any.
    fn find_workspace_by_code(&self, code: &String) -> (r: Option<usize>)
        ensures
            r matches Some(w) ==> 0 <= w < self.workspaces@.len()
                && self.workspaces@[w as int].invite_code@ == code@,
            r is None <==> !self.has_invite_code(code@),
    {
        let n = self.workspaces.len();
        let mut i: usize = 0;
        while i < n
            invariant
                0 <= i <= n == self.workspaces@.len(),
                forall|j: int| 0 <= j < i ==> (#[trigger] self.workspaces@[j]).invite_code@ != code@,
            decreases n - i,
        {
            if self.workspaces[i].invite_code.eq(code) {
                return Some(i);
            }
            i = i + 1;
        }
        None
    }

    /// Joins `user_id` into the workspace owning `invite_code`, bound to
    /// the workspace's non-Admin role whose name sorts first. An unknown
    /// code, a workspace without such a role, and an existing membership
    /// all report the same failure.
    #[verifier::loop_isolation(false)]
    pub fn join_workspace(&mut self, user_id: u64, invite_code: &String) -> (r: Result<
        u64,
        StoreError,
    >)
        requires
            old(self).wf(),
        ensures
            final(self).wf(),
            r is Err <==> !join_possible(*old(self), user_id, invite_code@),
            r matches Err(e) ==> e == StoreError::RowNotFound && *final(self) == *old(self),
            r matches Ok(wid) ==> join_updates(
                *old(self),
                *final(self),
                user_id,
                invite_code@,
                wid,
            ),
    {
        let admin = String::from_str("Admin");

        // The workspace the code resolves to.
        let wi_found = self.find_workspace_by_code(invite_code);
        let wi = match wi_found {
            Some(w) => w,
            None => {
                proof {
                    assert(!join_possible(*old(self), user_id, invite_code@));
                }
                return Err(StoreError::RowNotFound);
            },
        };
        let ws_id = self.workspaces[wi].id;

        // The candidate role whose name sorts first.
        let nr = self.roles.len();
        let mut best: Option<usize> = None;
        let mut j: usize = 0;
        while j < nr
            invariant
                *self == *old(self),
                self.wf(),
                admin@ == admin_name(),
                0 <= j <= nr == self.roles@.len(),
                best is None ==> forall|k: int| 0 <= k < j ==> !join_candidate(*self, ws_id, k),
                best matches Some(b) ==> 0 <= b < j && join_candidate(*self, ws_id, b as int) && (
                forall|k: int|
                    0 <= k < j && join_candidate(*self, ws_id, k) ==> lex_le(
                        self.roles@[b as int].name@,
                        self.roles@[k].name@,
                    )),
            decreases nr - j,
        {
            let role = &self.roles[j];
            if role.workspace_id == ws_id && !role.name.eq(&admin) {
                proof {
                    assert(join_candidate(*self, ws_id, j as int));
                }
                match best {
                    None => {
                        best = Some(j);
                        proof {
                            lemma_lex_irrefl(self.roles@[j as int].name@);
                        }
                    },
                    Some(b) => {
                        if str_lt(&role.name, &self.roles[b].name) {
                            best = Some(j);
                            proof {
                                lemma_lex_irrefl(self.roles@[j as int].name@);
                                assert forall|k: int|
                                    0 <= k < j + 1 && join_candidate(*self, ws_id, k) implies lex_le(
                                    self.roles@[j as int].name@,
                                    self.roles@[k].name@,
                                ) by {
                                    if k < j {
                                        assert(lex_le(
                                            self.roles@[b as int].name@,
                                            self.roles@[k].name@,
                                        ));
                                        lemma_lex_lt_le_trans(
                                            self.roles@[j as int].name@,
                                            self.roles@[b as int].name@,
                                            self.roles@[k].name@,
                                        );
                                    }
                                }
                            }
                        }
                    },
                }
            } else {
                proof {
                    assert(!join_candidate(*self, ws_id, j as int));
                }
            }
            j = j + 1;
        }
        let chosen = match best {
            Some(b) => b,
            None => {
                proof {
                    assert(!join_possible(*old(self), user_id, invite_code@)) by {
                        if join_possible(*old(self), user_id, invite_code@) {
                            let w2 = choose|w2: int|
                                0 <= w2 < self.workspaces@.len() && (
                                #[trigger] self.workspaces@[w2]).invite_code@ == invite_code@
                                    && has_join_candidate(*self, self.workspaces@[w2].id)
                                    && !self.has_membership(self.workspaces@[w2].id, user_id);
                            assert(self.workspaces@[w2].invite_code@
                                == self.workspaces@[wi as int].invite_code@);
                            assert(w2 == wi);
                        }
                    }
                }
                return Err(StoreError::RowNotFound);
            },
        };
        let role_id = self.roles[chosen].id;

        // "Do nothing on conflict": an existing membership is a failed join.
        let nm = self.workspace_users.len();
        let mut k: usize = 0;
        while k < nm
            invariant
                *self == *old(self),
                self.wf(),
                0 <= k <= nm == self.workspace_users@.len(),
                forall|m: int|
                    0 <= m < k ==> !((#[trigger] self.workspace_users@[m]).workspace_id == ws_id
                        && self.workspace_users@[m].user_id == user_id),
            decreases nm - k,
        {
            let m = self.workspace_users[k];
            if m.workspace_id == ws_id && m.user_id == user_id {
                proof {
                    assert(!join_possible(*old(self), user_id, invite_code@)) by {
                        if join_possible(*old(self), user_id, invite_code@) {
                            let w2 = choose|w2: int|
                                0 <= w2 < self.workspaces@.len() && (
                                #[trigger] self.workspaces@[w2]).invite_code@ == invite_code@
                                    && has_join_candidate(*self, self.workspaces@[w2].id)
                                    && !self.has_membership(self.workspaces@[w2].id, user_id);
                            assert(self.workspaces@[w2].invite_code@
                                == self.workspaces@[wi as int].invite_code@);
                            assert(w2 == wi);
                            assert(self.has_membership(ws_id, user_id));
                        }
                    }
                }
                return Err(StoreError::RowNotFound);
            }
            k = k + 1;
        }
        self.workspace_users.push(WorkspaceUser { workspace_id: ws_id, user_id, role_id });
        proof {
            let old_s = *old(self);
            assert(join_possible(old_s, user_id, invite_code@)) by {
                assert((old_s.workspaces@[wi as int]).invite_code@ == invite_code@
                    && has_join_candidate(old_s, ws_id) && !old_s.has_membership(ws_id, user_id));
            }
            assert(chosen_join_role(old_s, ws_id, chosen as int));
            assert(role_id == old_s.roles@[chosen as int].id);
            assert(exists|wi2: int|
                0 <= wi2 < old_s.workspaces@.len() && (#[trigger] old_s.workspaces@[wi2]).invite_code@
                    == invite_code@ && old_s.workspaces@[wi2].id == ws_id) by {
                assert((old_s.workspaces@[wi as int]).invite_code@ == invite_code@
                    && old_s.workspaces@[wi as int].id == ws_id);
            }
            assert(exists|ri: int|
                #[trigger] chosen_join_role(old_s, ws_id, ri) && self.workspace_users@
                    == old_s.workspace_users@.push(
                    WorkspaceUser { workspace_id: ws_id, user_id, role_id: old_s.roles@[ri].id },
                ));
            assert(join_updates(old_s, *self, user_id, invite_code@, ws_id));
            assert forall|a: int, b: int|
                #![trigger self.workspace_users@[a], self.workspace_users@[b]]
                0 <= a < b < self.workspace_users@.len() implies !(self.workspace_users@[a].workspace_id
                == self.workspace_users@[b].workspace_id && self.workspace_users@[a].user_id
                == self.workspace_users@[b].user_id) by {
                if b == self.workspace_users@.len() - 1 {
                    assert(self.workspace_users@[a] == old_s.workspace_users@[a]);
                }
            }
            assert forall|a: int| 0 <= a < self.workspace_users@.len() implies (
            #[trigger] self.workspace_users@[a]).workspace_id < self.next_workspace_id by {
                if a < self.workspace_users@.len() - 1 {
                    assert(self.workspace_users@[a] == old_s.workspace_users@[a]);
                } else {
                    assert(old_s.workspaces@[wi as int].id < old_s.next_workspace_id);
                }
            }
        }
        Ok(ws_id)
    }

    /// Removes `user_id`'s membership in `workspace_id`; removing a
    /// missing membership changes nothing.
    pub fn remove_workspace(&mut self, user_id: u64, workspace_id: u64) -> (r: Result<
        (),
        StoreError,
    >)
        requires
            old(self).wf(),
        ensures
            final(self).wf(),
            r is Ok,
            final(self).workspace_users@ == old(self).workspace_users@.filter(
                |m: WorkspaceUser| !(m.user_id == user_id && m.workspace_id == workspace_id),
            ),
            final(self).users == old(self).users,
            final(self).workspaces == old(self).workspaces,
            final(self).roles == old(self).roles,
            final(self).role_permissions == old(self).role_permissions,
            final(self).email_verifications == old(self).email_verifications,
            final(self).password_resets == old(self).password_resets,
            final(self).next_user_id == old(self).next_user_id,
            final(self).next_workspace_id == old(self).next_workspace_id,
            final(self).next_role_id == old(self).next_role_id,
    {
        let ghost old_s = *old(self);
        let ghost wu0 = self.workspace_users@;
        let ghost pred = |m: WorkspaceUser| !(m.user_id == user_id && m.workspace_id
            == workspace_id);
        let n = self.workspace_users.len();
        let mut kept: Vec<WorkspaceUser> = Vec::new();
        let mut i: usize = 0;
        proof {
            assert(wu0.take(0).filter(pred) =~= Seq::<WorkspaceUser>::empty());
        }
        while i < n
            invariant
                *self == old_s,
                self.wf(),
                wu0 == self.workspace_users@,
                pred == (|m: WorkspaceUser|
                    !(m.user_id == user_id && m.workspace_id == workspace_id)),
                0 <= i <= n == wu0.len(),
                kept@ == wu0.take(i as int).filter(pred),
            decreases n - i,
        {
            proof {
                lemma_filter_take_step(wu0, pred, i as int);
            }
            let m = self.workspace_users[i];
            if !(m.user_id == user_id && m.workspace_id == workspace_id) {
                kept.push(m);
            }
            i = i + 1;
        }
        proof {
            assert(wu0.take(n as int) =~= wu0);
        }
        self.workspace_users = kept;
        proof {
            lemma_filter_distinct_by(wu0, pred, |m: WorkspaceUser| (m.workspace_id, m.user_id));
            assert(self.wf()) by {
                assert forall|a: int| 0 <= a < self.workspace_users@.len() implies (
                #[trigger] self.workspace_users@[a]).workspace_id < self.next_workspace_id by {
                    let b = choose|b: int| 0 <= b < wu0.len() && wu0[b] == wu0.filter(pred)[a];
                    assert(wu0[b].workspace_id < old_s.next_workspace_id);
                }
                assert forall|a: int, b: int|
                    #![trigger self.workspace_users@[a], self.workspace_users@[b]]
                    0 <= a < b < self.workspace_users@.len() implies !(self.workspace_users@[a].workspace_id
                    == self.workspace_users@[b].workspace_id && self.workspace_users@[a].user_id
                    == self.workspace_users@[b].user_id) by {
                    let f = wu0.filter(pred);
                    assert((|m: WorkspaceUser| (m.workspace_id, m.user_id))(f[a]) != ((
                    |m: WorkspaceUser| (m.workspace_id, m.user_id))(f[b])));
                }
            }
        }
        Ok(())
    }

    /// Every member of the workspace, joined with their name, email and
    /// role name.
    pub fn get_workspace_users(&self, workspace_id: u64) -> (r: Vec<WorkspaceUserWithRoleDto>)
        requires
            self.wf(),
        ensures
            r@.len() == member_rows(*self, workspace_id).len(),
            forall|i: int|
                0 <= i < r@.len() ==> member_row_corresponds(
                    *self,
                    #[trigger] r@[i],
                    member_rows(*self, workspace_id)[i],
                ),
    {
        let ghost pred = |m: WorkspaceUser| m.workspace_id == workspace_id && self.has_user(
            m.user_id,
        ) && self.has_role_row(m.role_id);
        let n = self.workspace_users.len();
        let mut out: Vec<WorkspaceUserWithRoleDto> = Vec::new();
        let mut i: usize = 0;
        proof {
            assert(self.workspace_users@.take(0).filter(pred) =~= Seq::<WorkspaceUser>::empty());
        }
        while i < n
            invariant
                self.wf(),
                pred == (|m: WorkspaceUser|
                    m.workspace_id == workspace_id && self.has_user(m.user_id)
                        && self.has_role_row(m.role_id)),
                0 <= i <= n == self.workspace_users@.len(),
                out@.len() == self.workspace_users@.take(i as int).filter(pred).len(),
                forall|k: int|
                    0 <= k < out@.len() ==> member_row_corresponds(
                        *self,
                        #[trigger] out@[k],
                        self.workspace_users@.take(i as int).filter(pred)[k],
                    ),
            decreases n - i,
        {
            let m = self.workspace_users[i];
            proof {
                lemma_filter_take_step(self.workspace_users@, pred, i as int);
            }
            if m.workspace_id == workspace_id {
                if let Some(ui) = self.find_user_index(m.user_id) {
                    if let Some(ri) = self.find_role_by_id(m.role_id) {
                        out.push(
                            WorkspaceUserWithRoleDto {
                                user_id: m.user_id,
                                user_name: self.users[ui].name.clone(),
                                user_email: self.users[ui].email.clone(),
                                role_name: self.roles[ri].name.clone(),
                            },
                        );
                        proof {
                            assert(pred(self.workspace_users@[i as int]));
                            assert(member_row_corresponds(
                                *self,
                                out@.last(),
                                self.workspace_users@[i as int],
                            ));
                        }
                    } else {
                        proof {
                            assert(!pred(self.workspace_users@[i as int]));
                        }
                    }
                } else {
                    proof {
                        assert(!pred(self.workspace_users@[i as int]));
                    }
                }
            } else {
                proof {
                    assert(!pred(self.workspace_users@[i as int]));
                }
            }
            i = i + 1;
        }
        proof {
            assert(self.workspace_users@.take(n as int) =~= self.workspace_users@);
        }
        out
    }

    /// Overwrites the role pointer of `user_id`'s membership in
    /// `workspace_id`; no check relates `role_id` to the workspace, and a
    /// missing membership changes nothing.
    #[verifier::loop_isolation(false)]
    pub fn update_workspace_user_role(
        &mut self,
        workspace_id: u64,
        user_id: u64,
        role_id: u64,
    ) -> (r: Result<(), StoreError>)
        requires
            old(self).wf(),
            role_id < old(self).next_role_id,
        ensures
            final(self).wf(),
            r is Ok,
            final(self).workspace_users@.len() == old(self).workspace_users@.len(),
            forall|i: int|
                0 <= i < old(self).workspace_users@.len()
                    ==> #[trigger] final(self).workspace_users@[i] == (if old(
                    self,
                ).workspace_users@[i].workspace_id
                    == workspace_id && old(self).workspace_users@[i].user_id == user_id {
                    WorkspaceUser { workspace_id, user_id, role_id }
                } else {
                    old(self).workspace_users@[i]
                }),
            final(self).users == old(self).users,
            final(self).workspaces == old(self).workspaces,
            final(self).roles == old(self).roles,
            final(self).role_permissions == old(self).role_permissions,
            final(self).email_verifications == old(self).email_verifications,
            final(self).password_resets == old(self).password_resets,
            final(self).next_user_id == old(self).next_user_id,
            final(self).next_workspace_id == old(self).next_workspace_id,
            final(self).next_role_id == old(self).next_role_id,
    {
        let ghost old_s = *old(self);
        let n = self.workspace_users.len();
        let mut i: usize = 0;
        while i < n
            invariant
                *self == old_s,
                self.wf(),
                0 <= i <= n == self.workspace_users@.len(),
                forall|j: int|
                    0 <= j < i ==> !((#[trigger] self.workspace_users@[j]).workspace_id
                        == workspace_id && self.workspace_users@[j].user_id == user_id),
            decreases n - i,
        {
            let m = self.workspace_users[i];
            if m.workspace_id == workspace_id && m.user_id == user_id {
                self.workspace_users.remove(i);
                self.workspace_users.insert(
                    i,
                    WorkspaceUser { workspace_id, user_id, role_id },
                );
                proof {
                    assert forall|k: int| 0 <= k < old_s.workspace_users@.len() implies
                        #[trigger] self.workspace_users@[k] == (if old_s.workspace_users@[k].workspace_id
                        == workspace_id && old_s.workspace_users@[k].user_id == user_id {
                        WorkspaceUser { workspace_id, user_id, role_id }
                    } else {
                        old_s.workspace_users@[k]
                    }) by {
                        if k != i {
                            assert(self.workspace_users@[k] == old_s.workspace_users@[k]);
                            if old_s.workspace_users@[k].workspace_id == workspace_id
                                && old_s.workspace_users@[k].user_id == user_id {
                                assert(false);
                            }
                        }
                    }
                    assert(self.wf()) by {
                        assert forall|a: int, b: int|
                            #![trigger self.workspace_users@[a], self.workspace_users@[b]]
                            0 <= a < b < self.workspace_users@.len() implies !(self.workspace_users@[a].workspace_id
                            == self.workspace_users@[b].workspace_id
                            && self.workspace_users@[a].user_id
                            == self.workspace_users@[b].user_id) by {
                            assert(self.workspace_users@[a].workspace_id
                                == old_s.workspace_users@[a].workspace_id
                                && self.workspace_users@[a].user_id
                                == old_s.workspace_users@[a].user_id);
                            assert(self.workspace_users@[b].workspace_id
                                == old_s.workspace_users@[b].workspace_id
                                && self.workspace_users@[b].user_id
                                == old_s.workspace_users@[b].user_id);
                        }
                        assert forall|a: int| 0 <= a < self.workspace_users@.len() implies (
                        #[trigger] self.workspace_users@[a]).workspace_id
                            < self.next_workspace_id by {
                            assert(self.workspace_users@[a].workspace_id
                                == old_s.workspace_users@[a].workspace_id);
                        }
                    }
                }
                return Ok(());
            }
            i = i + 1;
        }
        Ok(())
    }
}

/// Nothing sorts strictly before itself.
proof fn lemma_lex_irrefl(a: Seq<char>)
    ensures
        !lex_lt(a, a),
    decreases a.len(),
{
    if a.len() > 0 {
        lemma_lex_irrefl(a.skip(1));
    }
}

/// Strict lexicographic order composes with its reflexive closure: what
/// sorts strictly before `b` sorts no later than anything `b` sorts no
/// later than.
proof fn lemma_lex_lt_le_trans(a: Seq<char>, b: Seq<char>, c: Seq<char>)
    requires
        lex_lt(a, b),
        lex_le(b, c),
    ensures
        lex_le(a, c),
{
    if lex_lt(c, a) {
        lemma_lex_lt_trans(c, a, b);
    }
}

/// Strict lexicographic order is transitive.
proof fn lemma_lex_lt_trans(a: Seq<char>, b: Seq<char>, c: Seq<char>)
    requires
        lex_lt(a, b),
        lex_lt(b, c),
    ensures
        lex_lt(a, c),
    decreases a.len(),
{
    if c.len() == 0 {
    } else if a.len() == 0 {
    } else if b.len() == 0 {
    } else {
        if (a[0] as u32) < (b[0] as u32) {
        } else if (b[0] as u32) < (c[0] as u32) {
        } else {
            lemma_lex_lt_trans(a.skip(1), b.skip(1), c.skip(1));
        }
    }
}


/// Law: a join is not repeatable — once it has succeeded, the same user
/// joining with the same code fails, so no second membership row can
/// appear.
pub proof fn lemma_rejoin_impossible(s0: Store, s1: Store, user_id: u64, code: Seq<char>, wid: u64)
    requires
        s0.wf(),
        join_updates(s0, s1, user_id, code, wid),
    ensures
        !join_possible(s1, user_id, code),
{
    if join_possible(s1, user_id, code) {
        let wi = choose|wi: int|
            0 <= wi < s1.workspaces@.len() && (#[trigger] s1.workspaces@[wi]).invite_code@ == code
                && has_join_candidate(s1, s1.workspaces@[wi].id) && !s1.has_membership(
                s1.workspaces@[wi].id,
                user_id,
            );
        let wj = choose|wj: int|
            0 <= wj < s0.workspaces@.len() && (#[trigger] s0.workspaces@[wj]).invite_code@ == code
                && s0.workspaces@[wj].id == wid;
        assert(s1.workspaces@[wj].invite_code@ == code);
        assert(wi == wj) by {
            if wi != wj {
                assert(s0.workspaces@[wi].invite_code@ != s0.workspaces@[wj].invite_code@);
            }
        }
        let ri = choose|ri: int|
            #[trigger] chosen_join_role(s0, wid, ri) && s1.workspace_users@
                == s0.workspace_users@.push(
                WorkspaceUser { workspace_id: wid, user_id, role_id: s0.roles@[ri].id },
            );
        assert(s1.workspace_users@.last().workspace_id == wid
            && s1.workspace_users@.last().user_id == user_id);
        assert(s1.has_membership(wid, user_id)) by {
            let last = s1.workspace_users@.len() - 1;
            assert((s1.workspace_users@[last]).workspace_id == wid
                && s1.workspace_users@[last].user_id == user_id);
        }
        assert(false);
    }
}

} // verus!
