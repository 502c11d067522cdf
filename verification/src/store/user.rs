//! Email-change requests: recording the pending address and token, and
//! applying the change when the token is redeemed.

use vstd::prelude::*;
use crate::models::User;
use crate::store::{Store, StoreError};

verus! {

broadcast use vstd::seq_lib::group_seq_properties;

/// The user row after an email-change request targeting `user_id`: the
/// pending fields set on the matching row, every other row unchanged.
pub open spec fn email_request_updated(
    u: User,
    user_id: u64,
    email: String,
    token: u64,
    expires_at: u64,
) -> User {
    if u.id == user_id {
        User {
            id: u.id,
            name: u.name,
            email: u.email,
            password: u.password,
            email_verified: u.email_verified,
            pending_email: Some(email),
            pending_email_token: Some(token),
            pending_email_expires_at: Some(expires_at),
        }
    } else {
        u
    }
}

/// Whether row `i` is the first user row an email-change redemption of
/// `token` can apply to: it holds the token and a pending address.
pub open spec fn first_pending_match(s: Store, token: u64, i: int) -> bool {
    &&& 0 <= i < s.users@.len()
    &&& s.users@[i].pending_email_token == Some(token)
    &&& s.users@[i].pending_email is Some
    &&& forall|j: int|
        0 <= j < i ==> !((#[trigger] s.users@[j]).pending_email_token == Some(token)
            && s.users@[j].pending_email is Some)
}

/// Whether an email-change redemption of `token` finds a row to apply to.
pub open spec fn has_pending_match(s: Store, token: u64) -> bool {
    exists|i: int| first_pending_match(s, token, i)
}

impl Store {
    /// Records an email-change request: the new address and its token
    /// become the user's pending fields, and the updated row is returned.
    /// A missing user is `RowNotFound`.
    #[verifier::loop_isolation(false)]
    pub fn update_user_email_request(
        &mut self,
        user_id: u64,
        email: String,
        token: u64,
        token_expires_at: u64,
    ) -> (r: Result<User, StoreError>)
        requires
            old(self).wf(),
        ensures
            final(self).wf(),
            r is Err <==> !old(self).has_user(user_id),
            r matches Err(e) ==> e == StoreError::RowNotFound && *final(self) == *old(self),
            r matches Ok(u) ==> {
                &&& u.id == user_id && u.pending_email == Some(email) && u.pending_email_token
                    == Some(token) && u.pending_email_expires_at == Some(token_expires_at)
                &&& final(self).users@.len() == old(self).users@.len()
                &&& forall|i: int|
                    0 <= i < old(self).users@.len() ==> #[trigger] final(self).users@[i]
                        == email_request_updated(
                        old(self).users@[i],
                        user_id,
                        email,
                        token,
                        token_expires_at,
                    )
                &&& final(self).workspaces == old(self).workspaces
                &&& final(self).roles == old(self).roles
                &&& final(self).role_permissions == old(self).role_permissions
                &&& final(self).workspace_users == old(self).workspace_users
                &&& final(self).email_verifications == old(self).email_verifications
                &&& final(self).password_resets == old(self).password_resets
                &&& final(self).next_user_id == old(self).next_user_id
                &&& final(self).next_workspace_id == old(self).next_workspace_id
                &&& final(self).next_role_id == old(self).next_role_id
            },
    {
        let t = match self.find_user_index(user_id) {
            Some(t) => t,
            None => {
                return Err(StoreError::RowNotFound);
            },
        };
        let u = &self.users[t];
        let updated = User {
            id: u.id,
            name: u.name.clone(),
            email: u.email.clone(),
            password: u.password.clone(),
            email_verified: u.email_verified,
            pending_email: Some(email),
            pending_email_token: Some(token),
            pending_email_expires_at: Some(token_expires_at),
        };
        let result = updated.clone();
        self.users.remove(t);
        self.users.insert(t, updated);
        proof {
            assert forall|k: int| 0 <= k < old(self).users@.len() implies #[trigger] self.users@[k]
                == email_request_updated(
                old(self).users@[k],
                user_id,
                email,
                token,
                token_expires_at,
            ) by {
                if k != t {
                    assert(self.users@[k] == old(self).users@[k]);
                    if old(self).users@[k].id == user_id {
                        assert(old(self).users@[k].id == old(self).users@[t as int].id);
                        assert(false);
                    }
                }
            }
            assert forall|a: int, b: int|
                #![trigger self.users@[a], self.users@[b]]
                0 <= a < b < self.users@.len() implies self.users@[a].id != self.users@[b].id
                && self.users@[a].email@ != self.users@[b].email@ by {
                assert(self.users@[a].id == old(self).users@[a].id && self.users@[a].email@ == old(
                    self,
                ).users@[a].email@);
                assert(self.users@[b].id == old(self).users@[b].id && self.users@[b].email@ == old(
                    self,
                ).users@[b].email@);
            }
            assert forall|a: int| 0 <= a < self.users@.len() implies (#[trigger] self.users@[a]).id
                < self.next_user_id by {
                assert(self.users@[a].id == old(self).users@[a].id);
            }
        }
        Ok(result)
    }

    /// Redeems an email-change token: the pending address becomes the
    /// user's address and the pending fields clear. A token nobody holds
    /// changes nothing; a pending address another user already carries is
    /// a unique-constraint violation.
    #[verifier::loop_isolation(false)]
    pub fn verify_email_change(&mut self, token: u64) -> (r: Result<(), StoreError>)
        requires
            old(self).wf(),
        ensures
            final(self).wf(),
            !has_pending_match(*old(self), token) ==> r is Ok && *final(self) == *old(self),
            r is Ok ==> forall|i: int|
                #[trigger] first_pending_match(*old(self), token, i) ==> final(self).users@ == old(
                    self,
                ).users@.update(i, email_change_applied(old(self).users@[i], token)),
            r is Ok ==> {
                &&& final(self).workspaces == old(self).workspaces
                &&& final(self).roles == old(self).roles
                &&& final(self).role_permissions == old(self).role_permissions
                &&& final(self).workspace_users == old(self).workspace_users
                &&& final(self).email_verifications == old(self).email_verifications
                &&& final(self).password_resets == old(self).password_resets
                &&& final(self).next_user_id == old(self).next_user_id
                &&& final(self).next_workspace_id == old(self).next_workspace_id
                &&& final(self).next_role_id == old(self).next_role_id
            },
            r matches Err(e) ==> e == StoreError::UniqueViolation && *final(self) == *old(self) && (
            exists|i: int, j: int|
                #![trigger old(self).users@[i], old(self).users@[j]]
                0 <= i < old(self).users@.len() && 0 <= j < old(self).users@.len() && i != j && old(
                    self,
                ).users@[i].pending_email_token == Some(token) && (old(
                    self,
                ).users@[i].pending_email matches Some(p) && p@ == old(self).users@[j].email@)),
    {
        let n = self.users.len();
        let mut i: usize = 0;
        while i < n
            invariant
                *self == *old(self),
                0 <= i <= n == self.users@.len(),
                forall|j: int|
                    0 <= j < i ==> !((#[trigger] self.users@[j]).pending_email_token == Some(token)
                        && self.users@[j].pending_email is Some),
            decreases n - i,
        {
            let token_matches: bool = match self.users[i].pending_email_token {
                Some(t2) => t2 == token,
                None => false,
            };
            if token_matches {
                let pending = match &self.users[i].pending_email {
                    Some(p) => p.clone(),
                    None => {
                        i = i + 1;
                        continue ;
                    },
                };
                // The address must still be free among the other rows.
                let mut j: usize = 0;
                while j < n
                    invariant
                        forall|k: int|
                            0 <= k < j ==> (k != i ==> (#[trigger] self.users@[k]).email@
                                != pending@),
                    decreases n - j,
                {
                    if j != i && self.users[j].email.eq(&pending) {
                        proof {
                            assert((old(self).users@[i as int]).pending_email_token == Some(token));
                            assert((old(self).users@[j as int]).email@ == pending@);
                            assert(first_pending_match(*old(self), token, i as int));
                        }
                        return Err(StoreError::UniqueViolation);
                    }
                    j = j + 1;
                }
                let u = &self.users[i];
                let updated = User {
                    id: u.id,
                    name: u.name.clone(),
                    email: pending,
                    password: u.password.clone(),
                    email_verified: u.email_verified,
                    pending_email: None,
                    pending_email_token: None,
                    pending_email_expires_at: None,
                };
                self.users.remove(i);
                self.users.insert(i, updated);
                proof {
                    assert(first_pending_match(*old(self), token, i as int));
                    assert(self.users@ =~= old(self).users@.update(
                        i as int,
                        email_change_applied(old(self).users@[i as int], token),
                    ));
                    assert forall|k: int|
                        #[trigger] first_pending_match(*old(self), token, k) implies self.users@
                        == old(self).users@.update(
                        k,
                        email_change_applied(old(self).users@[k], token),
                    ) by {
                        if k > i as int {
                            assert((old(self).users@[i as int]).pending_email_token == Some(token)
                                && old(self).users@[i as int].pending_email is Some);
                            assert(false);
                        }
                    }
                    assert forall|a: int, b: int|
                        #![trigger self.users@[a], self.users@[b]]
                        0 <= a < b < self.users@.len() implies self.users@[a].id
                        != self.users@[b].id && self.users@[a].email@ != self.users@[b].email@ by {
                        assert(self.users@[a].id == old(self).users@[a].id);
                        assert(self.users@[b].id == old(self).users@[b].id);
                        if a == i as int {
                            assert(self.users@[b].email@ == old(self).users@[b].email@);
                        } else if b == i as int {
                            assert(self.users@[a].email@ == old(self).users@[a].email@);
                        } else {
                            assert(self.users@[a].email@ == old(self).users@[a].email@);
                            assert(self.users@[b].email@ == old(self).users@[b].email@);
                        }
                    }
                    assert forall|a: int| 0 <= a < self.users@.len() implies (
                    #[trigger] self.users@[a]).id < self.next_user_id by {
                        assert(self.users@[a].id == old(self).users@[a].id);
                    }
                }
                return Ok(());
            }
            i = i + 1;
        }
        proof {
            assert(!has_pending_match(*old(self), token)) by {
                if has_pending_match(*old(self), token) {
                    let i0 = choose|i0: int| first_pending_match(*old(self), token, i0);
                    assert((old(self).users@[i0]).pending_email_token == Some(token));
                    assert(false);
                }
            }
        }
        Ok(())
    }
}

/// The user row after redeeming token `token`: on the row holding that
/// pending token with a pending address, the address is applied and the
/// pending fields clear; every other row is unchanged.
pub open spec fn email_change_applied(u: User, token: u64) -> User {
    if u.pending_email_token == Some(token) && u.pending_email is Some {
        User {
            id: u.id,
            name: u.name,
            email: u.pending_email->0,
            password: u.password,
            email_verified: u.email_verified,
            pending_email: None,
            pending_email_token: None,
            pending_email_expires_at: None,
        }
    } else {
        u
    }
}

} // verus!
