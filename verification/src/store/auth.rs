//! Accounts and credentials: user lookup and registration, email
//! verification, password-reset tokens, and email-change requests.

use vstd::prelude::*;
use crate::models::{EmailVerification, PasswordReset, User};
use crate::store::{Store, StoreError, lemma_filter_distinct_by, lemma_filter_take_step};

verus! {

broadcast use vstd::seq_lib::group_seq_properties;

/// Whether a user row passes all the filters a lookup provides.
pub open spec fn user_filter_match(
    u: User,
    user_id: Option<u64>,
    name: Option<&String>,
    email: Option<&String>,
) -> bool {
    &&& (user_id matches Some(id) ==> u.id == id)
    &&& (name matches Some(n) ==> u.name@ == n@)
    &&& (email matches Some(e) ==> u.email@ == e@)
}

/// Whether some pending verification row carries this token.
pub open spec fn has_verification_token(s: Store, token: u64) -> bool {
    exists|i: int|
        0 <= i < s.email_verifications@.len() && (#[trigger] s.email_verifications@[i]).token
            == token
}

/// Whether some password-reset row carries this token.
pub open spec fn has_reset_token(s: Store, token: u64) -> bool {
    exists|i: int|
        0 <= i < s.password_resets@.len() && (#[trigger] s.password_resets@[i]).token == token
}

impl Store {
    /// The first user row matching every provided filter, if any.
    pub fn get_user(
        &self,
        user_id: Option<u64>,
        name: Option<&String>,
        email: Option<&String>,
    ) -> (r: Option<User>)
        ensures
            r matches Some(u) ==> exists|i: int|
                0 <= i < self.users@.len() && u == #[trigger] self.users@[i] && user_filter_match(
                    self.users@[i],
                    user_id,
                    name,
                    email,
                ) && (forall|j: int|
                    0 <= j < i ==> !user_filter_match(
                        #[trigger] self.users@[j],
                        user_id,
                        name,
                        email,
                    )),
            r is None <==> !(exists|i: int|
                0 <= i < self.users@.len() && user_filter_match(
                    #[trigger] self.users@[i],
                    user_id,
                    name,
                    email,
                )),
    {
        let n = self.users.len();
        let mut i: usize = 0;
        while i < n
            invariant
                0 <= i <= n == self.users@.len(),
                forall|j: int|
                    0 <= j < i ==> !user_filter_match(
                        #[trigger] self.users@[j],
                        user_id,
                        name,
                        email,
                    ),
            decreases n - i,
        {
            let u = &self.users[i];
            let id_ok: bool = match user_id {
                Some(id) => u.id == id,
                None => true,
            };
            let name_ok: bool = match name {
                Some(nm) => u.name.eq(nm),
                None => true,
            };
            let email_ok: bool = match email {
                Some(e) => u.email.eq(e),
                None => true,
            };
            if id_ok && name_ok && email_ok {
                proof {
                    assert(user_filter_match(self.users@[i as int], user_id, name, email));
                }
                return Some(u.clone());
            }
            proof {
                assert(!user_filter_match(self.users@[i as int], user_id, name, email));
            }
            i = i + 1;
        }
        None
    }

    /// Registers a user with a fresh id and an unverified address, and
    /// stores the verification token. A taken email is a unique-constraint
    /// violation, as is a token collision.
    #[verifier::loop_isolation(false)]
    pub fn save_user(
        &mut self,
        name: String,
        email: String,
        password: String,
        verification_token: u64,
        token_expires_at: u64,
    ) -> (r: Result<User, StoreError>)
        requires
            old(self).wf(),
            old(self).next_user_id < u64::MAX,
        ensures
            final(self).wf(),
            r is Err <==> (old(self).has_email(email@) || has_verification_token(
                *old(self),
                verification_token,
            )),
            r matches Err(e) ==> e == StoreError::UniqueViolation && *final(self) == *old(self),
            r matches Ok(u) ==> {
                let row = User {
                    id: old(self).next_user_id,
                    name,
                    email,
                    password,
                    email_verified: false,
                    pending_email: None,
                    pending_email_token: None,
                    pending_email_expires_at: None,
                };
                &&& u == row
                &&& final(self).users@ == old(self).users@.push(row)
                &&& final(self).next_user_id == old(self).next_user_id + 1
                &&& final(self).email_verifications@ == old(self).email_verifications@.push(
                    EmailVerification {
                        user_id: old(self).next_user_id,
                        token: verification_token,
                        expires_at: token_expires_at,
                    },
                )
                &&& final(self).workspaces == old(self).workspaces
                &&& final(self).roles == old(self).roles
                &&& final(self).role_permissions == old(self).role_permissions
                &&& final(self).workspace_users == old(self).workspace_users
                &&& final(self).password_resets == old(self).password_resets
                &&& final(self).next_workspace_id == old(self).next_workspace_id
                &&& final(self).next_role_id == old(self).next_role_id
            },
    {
        let n = self.users.len();
        let mut i: usize = 0;
        while i < n
            invariant
                forall|j: int| 0 <= j < i ==> (#[trigger] self.users@[j]).email@ != email@,
            decreases n - i,
        {
            if self.users[i].email.eq(&email) {
                return Err(StoreError::UniqueViolation);
            }
            i = i + 1;
        }
        let nv = self.email_verifications.len();
        let mut k: usize = 0;
        while k < nv
            invariant
                forall|j: int|
                    0 <= j < k ==> (#[trigger] self.email_verifications@[j]).token
                        != verification_token,
            decreases nv - k,
        {
            if self.email_verifications[k].token == verification_token {
                return Err(StoreError::UniqueViolation);
            }
            k = k + 1;
        }
        let id = self.next_user_id;
        let row = User {
            id,
            name,
            email,
            password,
            email_verified: false,
            pending_email: None,
            pending_email_token: None,
            pending_email_expires_at: None,
        };
        let result = row.clone();
        self.users.push(row);
        self.email_verifications.push(
            EmailVerification { user_id: id, token: verification_token, expires_at: token_expires_at },
        );
        self.next_user_id = id + 1;
        proof {
            let old_s = *old(self);
            assert forall|a: int, b: int|
                #![trigger self.users@[a], self.users@[b]]
                0 <= a < b < self.users@.len() implies self.users@[a].id != self.users@[b].id
                && self.users@[a].email@ != self.users@[b].email@ by {
                if b == self.users@.len() - 1 {
                    assert(self.users@[a] == old_s.users@[a]);
                    assert(old_s.users@[a].id < old_s.next_user_id);
                }
            }
            assert forall|a: int| 0 <= a < self.users@.len() implies (#[trigger] self.users@[a]).id
                < self.next_user_id by {
                if a < self.users@.len() - 1 {
                    assert(self.users@[a] == old_s.users@[a]);
                    assert(old_s.users@[a].id < old_s.next_user_id);
                }
            }
            assert forall|a: int, b: int|
                #![trigger self.email_verifications@[a], self.email_verifications@[b]]
                0 <= a < b < self.email_verifications@.len() implies self.email_verifications@[a].token
                != self.email_verifications@[b].token by {
                if b == self.email_verifications@.len() - 1 {
                    assert(self.email_verifications@[a] == old_s.email_verifications@[a]);
                }
            }
        }
        Ok(result)
    }

    /// The pending verification row carrying this token, if any.
    pub fn get_user_id_by_token(&self, token: u64) -> (r: Option<EmailVerification>)
        ensures
            r matches Some(ev) ==> exists|i: int|
                0 <= i < self.email_verifications@.len() && ev
                    == #[trigger] self.email_verifications@[i] && ev.token == token,
            r is None <==> !has_verification_token(*self, token),
    {
        let n = self.email_verifications.len();
        let mut i: usize = 0;
        while i < n
            invariant
                0 <= i <= n == self.email_verifications@.len(),
                forall|j: int|
                    0 <= j < i ==> (#[trigger] self.email_verifications@[j]).token != token,
            decreases n - i,
        {
            if self.email_verifications[i].token == token {
                return Some(self.email_verifications[i]);
            }
            i = i + 1;
        }
        None
    }

    /// Marks the user's address verified and discards the user's pending
    /// verification rows; a missing user changes nothing.
    #[verifier::loop_isolation(false)]
    pub fn verify_user(&mut self, user_id: u64) -> (r: Result<(), StoreError>)
        requires
            old(self).wf(),
        ensures
            final(self).wf(),
            r is Ok,
            final(self).users@.len() == old(self).users@.len(),
            forall|i: int|
                0 <= i < old(self).users@.len() ==> #[trigger] final(self).users@[i]
                    == verified_updated(old(self).users@[i], user_id),
            final(self).email_verifications@ == old(self).email_verifications@.filter(
                |ev: EmailVerification| ev.user_id != user_id,
            ),
            final(self).workspaces == old(self).workspaces,
            final(self).roles == old(self).roles,
            final(self).role_permissions == old(self).role_permissions,
            final(self).workspace_users == old(self).workspace_users,
            final(self).password_resets == old(self).password_resets,
            final(self).next_user_id == old(self).next_user_id,
            final(self).next_workspace_id == old(self).next_workspace_id,
            final(self).next_role_id == old(self).next_role_id,
    {
        if let Some(t) = self.find_user_index(user_id) {
            let u = &self.users[t];
            let updated = User {
                id: u.id,
                name: u.name.clone(),
                email: u.email.clone(),
                password: u.password.clone(),
                email_verified: true,
                pending_email: match &u.pending_email {
                    Some(e) => Some(e.clone()),
                    None => None,
                },
                pending_email_token: u.pending_email_token,
                pending_email_expires_at: u.pending_email_expires_at,
            };
            self.users.remove(t);
            self.users.insert(t, updated);
            proof {
                assert forall|k: int| 0 <= k < old(self).users@.len() implies
                    #[trigger] self.users@[k] == verified_updated(
                    old(self).users@[k],
                    user_id,
                ) by {
                    if k != t {
                        assert(self.users@[k] == old(self).users@[k]);
                        if old(self).users@[k].id == user_id {
                            assert(old(self).users@[k].id == old(self).users@[t as int].id);
                            assert(false);
                        }
                    }
                }
                assert forall|a: int, b: int|
                    #![trigger self.users@[a], self.users@[b]]
                    0 <= a < b < self.users@.len() implies self.users@[a].id != self.users@[b].id
                    && self.users@[a].email@ != self.users@[b].email@ by {
                    assert(self.users@[a].id == old(self).users@[a].id && self.users@[a].email@
                        == old(self).users@[a].email@);
                    assert(self.users@[b].id == old(self).users@[b].id && self.users@[b].email@
                        == old(self).users@[b].email@);
                }
                assert forall|a: int| 0 <= a < self.users@.len() implies (
                #[trigger] self.users@[a]).id < self.next_user_id by {
                    assert(self.users@[a].id == old(self).users@[a].id);
                }
            }
        }
        let ghost ev0 = self.email_verifications@;
        let ghost pred = |ev: EmailVerification| ev.user_id != user_id;
        let n = self.email_verifications.len();
        let mut kept: Vec<EmailVerification> = Vec::new();
        let mut i: usize = 0;
        proof {
            assert(ev0.take(0).filter(pred) =~= Seq::<EmailVerification>::empty());
        }
        while i < n
            invariant
                ev0 == self.email_verifications@,
                0 <= i <= n == ev0.len(),
                kept@ == ev0.take(i as int).filter(pred),
            decreases n - i,
        {
            proof {
                lemma_filter_take_step(ev0, pred, i as int);
            }
            let ev = self.email_verifications[i];
            if ev.user_id != user_id {
                kept.push(ev);
            }
            i = i + 1;
        }
        proof {
            assert(ev0.take(n as int) =~= ev0);
        }
        self.email_verifications = kept;
        proof {
            lemma_filter_distinct_by(ev0, pred, |ev: EmailVerification| ev.token);
        }
        Ok(())
    }

    /// Stores a password-reset token for the user; a token collision is a
    /// unique-constraint violation.
    #[verifier::loop_isolation(false)]
    pub fn save_password_reset_token(&mut self, user_id: u64, token: u64, expires_at: u64) -> (r:
        Result<(), StoreError>)
        requires
            old(self).wf(),
        ensures
            final(self).wf(),
            r is Err <==> has_reset_token(*old(self), token),
            r matches Err(e) ==> e == StoreError::UniqueViolation && *final(self) == *old(self),
            r is Ok ==> {
                &&& final(self).password_resets@ == old(self).password_resets@.push(
                    PasswordReset { user_id, token, expires_at },
                )
                &&& final(self).users == old(self).users
                &&& final(self).workspaces == old(self).workspaces
                &&& final(self).roles == old(self).roles
                &&& final(self).role_permissions == old(self).role_permissions
                &&& final(self).workspace_users == old(self).workspace_users
                &&& final(self).email_verifications == old(self).email_verifications
                &&& final(self).next_user_id == old(self).next_user_id
                &&& final(self).next_workspace_id == old(self).next_workspace_id
                &&& final(self).next_role_id == old(self).next_role_id
            },
    {
        let n = self.password_resets.len();
        let mut i: usize = 0;
        while i < n
            invariant
                forall|j: int| 0 <= j < i ==> (#[trigger] self.password_resets@[j]).token != token,
            decreases n - i,
        {
            if self.password_resets[i].token == token {
                return Err(StoreError::UniqueViolation);
            }
            i = i + 1;
        }
        self.password_resets.push(PasswordReset { user_id, token, expires_at });
        proof {
            assert forall|a: int, b: int|
                #![trigger self.password_resets@[a], self.password_resets@[b]]
                0 <= a < b < self.password_resets@.len() implies self.password_resets@[a].token
                != self.password_resets@[b].token by {
                if b == self.password_resets@.len() - 1 {
                    assert(self.password_resets@[a] == old(self).password_resets@[a]);
                }
            }
        }
        Ok(())
    }

    /// The password-reset row carrying this token, if any.
    pub fn get_password_reset_token(&self, token: u64) -> (r: Option<PasswordReset>)
        ensures
            r matches Some(pr) ==> exists|i: int|
                0 <= i < self.password_resets@.len() && pr == #[trigger] self.password_resets@[i]
                    && pr.token == token,
            r is None <==> !has_reset_token(*self, token),
    {
        let n = self.password_resets.len();
        let mut i: usize = 0;
        while i < n
            invariant
                0 <= i <= n == self.password_resets@.len(),
                forall|j: int| 0 <= j < i ==> (#[trigger] self.password_resets@[j]).token != token,
            decreases n - i,
        {
            if self.password_resets[i].token == token {
                return Some(self.password_resets[i]);
            }
            i = i + 1;
        }
        None
    }

    /// Overwrites the user's credential hash and discards the user's
    /// password-reset rows; a missing user still discards the rows.
    #[verifier::loop_isolation(false)]
    pub fn reset_password(&mut self, user_id: u64, new_password: &String) -> (r: Result<
        (),
        StoreError,
    >)
        requires
            old(self).wf(),
        ensures
            final(self).wf(),
            r is Ok,
            final(self).users@.len() == old(self).users@.len(),
            forall|i: int|
                0 <= i < old(self).users@.len() ==> #[trigger] final(self).users@[i]
                    == password_updated(old(self).users@[i], user_id, *new_password),
            final(self).password_resets@ == old(self).password_resets@.filter(
                |pr: PasswordReset| pr.user_id != user_id,
            ),
            final(self).workspaces == old(self).workspaces,
            final(self).roles == old(self).roles,
            final(self).role_permissions == old(self).role_permissions,
            final(self).workspace_users == old(self).workspace_users,
            final(self).email_verifications == old(self).email_verifications,
            final(self).next_user_id == old(self).next_user_id,
            final(self).next_workspace_id == old(self).next_workspace_id,
            final(self).next_role_id == old(self).next_role_id,
    {
        self.set_user_password(user_id, new_password);
        let ghost pr0 = self.password_resets@;
        let ghost pred = |pr: PasswordReset| pr.user_id != user_id;
        let n = self.password_resets.len();
        let mut kept: Vec<PasswordReset> = Vec::new();
        let mut i: usize = 0;
        proof {
            assert(pr0.take(0).filter(pred) =~= Seq::<PasswordReset>::empty());
        }
        while i < n
            invariant
                pr0 == self.password_resets@,
                0 <= i <= n == pr0.len(),
                kept@ == pr0.take(i as int).filter(pred),
            decreases n - i,
        {
            proof {
                lemma_filter_take_step(pr0, pred, i as int);
            }
            let pr = self.password_resets[i];
            if pr.user_id != user_id {
                kept.push(pr);
            }
            i = i + 1;
        }
        proof {
            assert(pr0.take(n as int) =~= pr0);
        }
        self.password_resets = kept;
        proof {
            lemma_filter_distinct_by(pr0, pred, |pr: PasswordReset| pr.token);
        }
        Ok(())
    }

    /// Overwrites the user's credential hash; a missing user changes
    /// nothing.
    #[verifier::loop_isolation(false)]
    pub fn update_user_password(&mut self, user_id: u64, new_password: &String) -> (r: Result<
        (),
        StoreError,
    >)
        requires
            old(self).wf(),
        ensures
            final(self).wf(),
            r is Ok,
            final(self).users@.len() == old(self).users@.len(),
            forall|i: int|
                0 <= i < old(self).users@.len() ==> #[trigger] final(self).users@[i]
                    == password_updated(old(self).users@[i], user_id, *new_password),
            final(self).workspaces == old(self).workspaces,
            final(self).roles == old(self).roles,
            final(self).role_permissions == old(self).role_permissions,
            final(self).workspace_users == old(self).workspace_users,
            final(self).email_verifications == old(self).email_verifications,
            final(self).password_resets == old(self).password_resets,
            final(self).next_user_id == old(self).next_user_id,
            final(self).next_workspace_id == old(self).next_workspace_id,
            final(self).next_role_id == old(self).next_role_id,
    {
        self.set_user_password(user_id, new_password);
        Ok(())
    }

    /// The shared credential overwrite behind both password operations.
    #[verifier::loop_isolation(false)]
    fn set_user_password(&mut self, user_id: u64, new_password: &String)
        requires
            old(self).wf(),
        ensures
            final(self).wf(),
            final(self).users@.len() == old(self).users@.len(),
            forall|i: int|
                0 <= i < old(self).users@.len() ==> #[trigger] final(self).users@[i]
                    == password_updated(old(self).users@[i], user_id, *new_password),
            final(self).workspaces == old(self).workspaces,
            final(self).roles == old(self).roles,
            final(self).role_permissions == old(self).role_permissions,
            final(self).workspace_users == old(self).workspace_users,
            final(self).email_verifications == old(self).email_verifications,
            final(self).password_resets == old(self).password_resets,
            final(self).next_user_id == old(self).next_user_id,
            final(self).next_workspace_id == old(self).next_workspace_id,
            final(self).next_role_id == old(self).next_role_id,
    {
        if let Some(t) = self.find_user_index(user_id) {
            let u = &self.users[t];
            let updated = User {
                id: u.id,
                name: u.name.clone(),
                email: u.email.clone(),
                password: new_password.clone(),
                email_verified: u.email_verified,
                pending_email: match &u.pending_email {
                    Some(e) => Some(e.clone()),
                    None => None,
                },
                pending_email_token: u.pending_email_token,
                pending_email_expires_at: u.pending_email_expires_at,
            };
            self.users.remove(t);
            self.users.insert(t, updated);
            proof {
                assert forall|k: int| 0 <= k < old(self).users@.len() implies
                    #[trigger] self.users@[k] == password_updated(
                    old(self).users@[k],
                    user_id,
                    *new_password,
                ) by {
                    if k != t {
                        assert(self.users@[k] == old(self).users@[k]);
                        if old(self).users@[k].id == user_id {
                            assert(old(self).users@[k].id == old(self).users@[t as int].id);
                            assert(false);
                        }
                    } else {
                        assert(self.users@[t as int] == updated);
                        assert(updated.password@ == new_password@);
                        assert(updated.password == *new_password);
                    }
                }
                assert forall|a: int, b: int|
                    #![trigger self.users@[a], self.users@[b]]
                    0 <= a < b < self.users@.len() implies self.users@[a].id != self.users@[b].id
                    && self.users@[a].email@ != self.users@[b].email@ by {
                    assert(self.users@[a].id == old(self).users@[a].id && self.users@[a].email@
                        == old(self).users@[a].email@);
                    assert(self.users@[b].id == old(self).users@[b].id && self.users@[b].email@
                        == old(self).users@[b].email@);
                }
                assert forall|a: int| 0 <= a < self.users@.len() implies (
                #[trigger] self.users@[a]).id < self.next_user_id by {
                    assert(self.users@[a].id == old(self).users@[a].id);
                }
            }
        } else {
            proof {
                assert forall|k: int| 0 <= k < old(self).users@.len() implies
                    #[trigger] self.users@[k] == password_updated(
                    old(self).users@[k],
                    user_id,
                    *new_password,
                ) by {
                    assert(old(self).users@[k].id != user_id);
                }
            }
        }
    }
}

/// The user row after an address verification targeting `user_id`: the
/// flag set on the matching row, every other row unchanged.
pub open spec fn verified_updated(u: User, user_id: u64) -> User {
    if u.id == user_id {
        User {
            id: u.id,
            name: u.name,
            email: u.email,
            password: u.password,
            email_verified: true,
            pending_email: u.pending_email,
            pending_email_token: u.pending_email_token,
            pending_email_expires_at: u.pending_email_expires_at,
        }
    } else {
        u
    }
}

/// The user row after a password overwrite targeting `user_id`: the hash
/// replaced on the matching row, every other row unchanged.
pub open spec fn password_updated(u: User, user_id: u64, new_password: String) -> User {
    if u.id == user_id {
        User {
            id: u.id,
            name: u.name,
            email: u.email,
            password: new_password,
            email_verified: u.email_verified,
            pending_email: u.pending_email,
            pending_email_token: u.pending_email_token,
            pending_email_expires_at: u.pending_email_expires_at,
        }
    } else {
        u
    }
}

} // verus!
