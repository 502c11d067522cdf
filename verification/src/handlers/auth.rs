//! Authentication routes: registration, login, email verification and
//! the password-reset pair. Mail delivery and cookie assembly sit with
//! the caller; these functions decide and mutate.

use vstd::prelude::*;
use vstd::utf8::encode_utf8;
use crate::dtos::Response;
use crate::dtos::auth::{ForgotPasswordDto, LoginResponse, LoginUserDto, RegisterUserDto,
    ResetPasswordDto, UserDataResponse, VerifyEmailQueryDto, login_valid, register_valid,
    reset_password_valid};
use crate::dtos::email_format_valid;
use crate::dtos::user::FilterUserDto;
use crate::errors::{ErrorMessage, HttpError, is_bad_request, is_server_error};
use crate::models::{EmailVerification, PasswordReset, User};
use crate::password::{argon2_outcome, compare, hash_password};
use crate::store::Store;
use crate::store::auth::{has_reset_token, has_verification_token, user_filter_match, verified_updated};
use crate::store::workspace::{details_available, details_correspond, first_details_match};
use crate::text::{dec_digits, parse_u64, u64_to_string, lemma_dec_round_trip,
    lemma_encode_utf8_len};
use crate::token::{create_token, hs256_token};

verus! {

/// Registers an account: the payload is validated, the password hashed,
/// and the user row stored with its verification token. The caller sends
/// the verification mail afterwards. A taken email is a conflict.
pub fn register(
    store: &mut Store,
    payload: RegisterUserDto,
    verification_token: u64,
    token_expires_at: u64,
) -> (r: Result<User, HttpError>)
    requires
        old(store).wf(),
        old(store).next_user_id < u64::MAX,
    ensures
        final(store).wf(),
        r matches Err(e) ==> *final(store) == *old(store),
        !register_valid(payload) ==> (r matches Err(e) && e.status == 400),
        r matches Err(e) ==> (e.status == 400 || e.status == 409),
        r matches Err(e) ==> (e.status == 409 ==> e.message@ == "EmailExit"@ && (old(
            store,
        ).has_email(payload.email@) || has_verification_token(*old(store), verification_token))),
        register_valid(payload) && old(store).has_email(payload.email@) ==> r is Err,
        register_valid(payload) && encode_utf8(payload.password@).len() <= 64 && old(
            store,
        ).has_email(payload.email@) ==> (r matches Err(e) && ((e.status == 409 && e.message@
            == "EmailExit"@) || (e.status == 400 && e.message@ == "HashingError"@))),
        register_valid(payload) && encode_utf8(payload.password@).len() <= 64 && !old(
            store,
        ).has_email(payload.email@) && !has_verification_token(*old(store), verification_token)
            ==> (r is Ok || (r matches Err(e) && e.status == 400 && e.message@
            == "HashingError"@)),
        r matches Ok(u) ==> {
            &&& register_valid(payload)
            &&& !old(store).has_email(payload.email@)
            &&& u.id == old(store).next_user_id
            &&& u.name == payload.name
            &&& u.email == payload.email
            &&& !u.email_verified
            &&& argon2_outcome(encode_utf8(payload.password@), u.password@) == Ok::<bool, bool>(
                true,
            )
            &&& final(store).users@ == old(store).users@.push(u)
            &&& final(store).email_verifications@ == old(store).email_verifications@.push(
                EmailVerification {
                    user_id: u.id,
                    token: verification_token,
                    expires_at: token_expires_at,
                },
            )
            &&& final(store).workspaces == old(store).workspaces
            &&& final(store).roles == old(store).roles
            &&& final(store).role_permissions == old(store).role_permissions
            &&& final(store).workspace_users == old(store).workspace_users
            &&& final(store).password_resets == old(store).password_resets
        },
{
    if let Err(m) = payload.validate() {
        return Err(HttpError::bad_request(m));
    }
    proof {
        lemma_encode_utf8_len(payload.password@);
    }
    let hash = match hash_password(payload.password.as_str().as_bytes()) {
        Ok(h) => h,
        Err(e) => {
            return Err(HttpError::bad_request(e.to_str()));
        },
    };
    match store.save_user(payload.name, payload.email, hash, verification_token, token_expires_at)
    {
        Ok(u) => Ok(u),
        Err(_) => Err(
            HttpError::unique_constraint_violation(ErrorMessage::EmailExit.to_str()),
        ),
    }
}

/// Logs a caller in: the password is held against the stored hash, a
/// session token is issued for the account id, and the default-workspace
/// context is attached when one resolves. Any credential failure is the
/// same wrong-credentials reply.
pub fn login(
    store: &Store,
    payload: LoginUserDto,
    secret: &[u8],
    expires_in_seconds: u64,
    now: u64,
) -> (r: Result<LoginResponse, HttpError>)
    requires
        store.wf(),
        now + expires_in_seconds <= u64::MAX,
    ensures
        !login_valid(payload) ==> (r matches Err(e) && e.status == 400),
        login_valid(payload) && !store.has_email(payload.email@) ==> (r matches Err(e)
            && is_bad_request(e, ErrorMessage::WrongeCredentials)),
        login_valid(payload) && (exists|i: int|
            0 <= i < store.users@.len() && (#[trigger] store.users@[i]).email@ == payload.email@
                && argon2_outcome(encode_utf8(payload.password@), store.users@[i].password@)
                == Ok::<bool, bool>(false)) ==> (r matches Err(e) && is_bad_request(
            e,
            ErrorMessage::WrongeCredentials,
        )),
        login_valid(payload) && (exists|i: int|
            0 <= i < store.users@.len() && (#[trigger] store.users@[i]).email@ == payload.email@
                && argon2_outcome(encode_utf8(payload.password@), store.users@[i].password@)
                is Err) ==> (r matches Err(e) && is_bad_request(
            e,
            ErrorMessage::WrongeCredentials,
        )),
        login_valid(payload) && 8 <= encode_utf8(payload.password@).len() <= 64 && (exists|i: int|
            0 <= i < store.users@.len() && (#[trigger] store.users@[i]).email@ == payload.email@
                && argon2_outcome(encode_utf8(payload.password@), store.users@[i].password@)
                == Ok::<bool, bool>(true)) ==> r is Ok,
        r matches Ok(resp) ==> {
            &&& login_valid(payload)
            &&& resp.status@ == "success"@
            &&& exists|i: int|
                {
                    let u = store.users@[i];
                    &&& 0 <= i < store.users@.len()
                    &&& (#[trigger] store.users@[i]).email@ == payload.email@
                    &&& argon2_outcome(encode_utf8(payload.password@), u.password@) == Ok::<
                        bool,
                        bool,
                    >(true)
                    &&& resp.token@ == hs256_token(
                        dec_digits(u.id as nat),
                        now,
                        (now + expires_in_seconds) as u64,
                        secret@,
                    )
                    &&& resp.data.user.id == Some(u.id)
                    &&& resp.data.user.email == Some(u.email)
                    &&& resp.data.user.name == Some(u.name)
                    &&& resp.data.user.verified == u.email_verified
                    &&& (resp.data.workspace matches Some(d) ==> exists|mi: int|
                        #[trigger] first_details_match(*store, u.id, None, mi)
                            && details_correspond(*store, d, mi))
                    &&& (resp.data.workspace is None ==> !details_available(*store, u.id, None))
                }
        },
{
    if let Err(m) = payload.validate() {
        return Err(HttpError::bad_request(m));
    }
    let user = match store.get_user(None, None, Some(&payload.email)) {
        Some(u) => u,
        None => {
            proof {
                assert(!store.has_email(payload.email@)) by {
                    if store.has_email(payload.email@) {
                        let i = choose|i: int|
                            0 <= i < store.users@.len() && (#[trigger] store.users@[i]).email@
                                == payload.email@;
                        assert(user_filter_match(
                            store.users@[i],
                            None,
                            None,
                            Some(&payload.email),
                        ));
                    }
                }
            }
            return Err(HttpError::bad_request(ErrorMessage::WrongeCredentials.to_str()));
        },
    };
    proof {
        lemma_dec_round_trip(user.id as nat);
        assert forall|j: int|
            0 <= j < store.users@.len() && (#[trigger] store.users@[j]).email@ == payload.email@
                implies store.users@[j] == user by {
            let i = choose|i: int|
                0 <= i < store.users@.len() && user == #[trigger] store.users@[i]
                    && user_filter_match(store.users@[i], None, None, Some(&payload.email)) && (
                forall|k: int|
                    0 <= k < i ==> !user_filter_match(
                        #[trigger] store.users@[k],
                        None,
                        None,
                        Some(&payload.email),
                    ));
            if j != i {
                assert(store.users@[j].email@ != store.users@[i].email@);
                assert(false);
            }
        }
    }
    let password_matched = match compare(payload.password.as_str().as_bytes(), &user.password) {
        Ok(b) => b,
        Err(_) => {
            return Err(HttpError::bad_request(ErrorMessage::WrongeCredentials.to_str()));
        },
    };
    if !password_matched {
        return Err(HttpError::bad_request(ErrorMessage::WrongeCredentials.to_str()));
    }
    let subject = u64_to_string(user.id);
    let token = match create_token(&subject, secret, expires_in_seconds, now) {
        Ok(t) => t,
        Err(_) => {
            return Err(HttpError::server_error(ErrorMessage::ServerError.to_str()));
        },
    };
    let workspace = match store.get_workspace_details(Some(user.id), None) {
        Ok(d) => Some(d),
        Err(_) => None,
    };
    let filter_user = FilterUserDto::filter_user(&user);
    Ok(
        LoginResponse {
            status: "success",
            token,
            data: UserDataResponse { user: filter_user, workspace },
        },
    )
}

/// Redeems an email-verification token: the account is marked verified,
/// its pending verification rows leave, and a fresh session token for the
/// account comes back with the verified user. An unknown or expired token
/// is rejected.
pub fn verify_email(
    store: &mut Store,
    query: VerifyEmailQueryDto,
    secret: &[u8],
    expires_in_seconds: u64,
    now: u64,
) -> (r: Result<(String, User), HttpError>)
    requires
        old(store).wf(),
        now + expires_in_seconds <= u64::MAX,
    ensures
        final(store).wf(),
        r matches Err(e) ==> (e.status == 400 || e.status == 500),
        query.token@.len() < 1 ==> (r matches Err(e) && e.status == 400),
        (match parsed_token(query.token@) {
            None => true,
            Some(t) => !has_verification_token(*old(store), t),
        }) ==> (r matches Err(e) && e.status == 400 && *final(store) == *old(store)),
        query.token@.len() >= 1 && (match parsed_token(query.token@) {
            None => true,
            Some(t) => !has_verification_token(*old(store), t),
        }) ==> (r matches Err(e) && e.message@ == "InvalidToken"@),
        (exists|vi: int|
            0 <= vi < old(store).email_verifications@.len() && Some(
                (#[trigger] old(store).email_verifications@[vi]).token,
            ) == parsed_token(query.token@) && now > old(store).email_verifications@[vi].expires_at)
            ==> (r matches Err(e) && e.status == 400 && e.message@
            == "Verification token has expired"@ && *final(store) == *old(store)),
        (exists|vi: int|
            0 <= vi < old(store).email_verifications@.len() && Some(
                (#[trigger] old(store).email_verifications@[vi]).token,
            ) == parsed_token(query.token@) && now <= old(store).email_verifications@[vi].expires_at
                && old(store).has_user(old(store).email_verifications@[vi].user_id)) ==> r is Ok,
        r matches Ok(tu) ==> {
            &&& exists|vi: int|
                {
                    let ev = old(store).email_verifications@[vi];
                    &&& 0 <= vi < old(store).email_verifications@.len()
                    &&& Some((#[trigger] old(store).email_verifications@[vi]).token)
                        == parsed_token(query.token@)
                    &&& now <= ev.expires_at
                    &&& tu.1.id == ev.user_id
                    &&& tu.1.email_verified
                    &&& final(store).email_verifications@ == old(
                        store,
                    ).email_verifications@.filter(
                        |ev2: EmailVerification| ev2.user_id != ev.user_id,
                    )
                    &&& forall|k: int|
                        0 <= k < old(store).users@.len() ==> #[trigger] final(store).users@[k]
                            == verified_updated(old(store).users@[k], ev.user_id)
                }
            &&& tu.0@ == hs256_token(
                dec_digits(tu.1.id as nat),
                now,
                (now + expires_in_seconds) as u64,
                secret@,
            )
            &&& final(store).users@.len() == old(store).users@.len()
            &&& final(store).workspaces == old(store).workspaces
            &&& final(store).roles == old(store).roles
            &&& final(store).role_permissions == old(store).role_permissions
            &&& final(store).workspace_users == old(store).workspace_users
            &&& final(store).password_resets == old(store).password_resets
        },
{
    if let Err(m) = query.validate() {
        return Err(HttpError::bad_request(m));
    }
    let token = match parse_u64(&query.token) {
        Some(t) => t,
        None => {
            return Err(HttpError::bad_request(ErrorMessage::InvalidToken.to_str()));
        },
    };
    let verification = match store.get_user_id_by_token(token) {
        Some(ev) => ev,
        None => {
            return Err(HttpError::bad_request(ErrorMessage::InvalidToken.to_str()));
        },
    };
    let ghost old_s = *old(store);
    proof {
        // The fetched row is the only one carrying this token.
        assert forall|vi: int|
            0 <= vi < old_s.email_verifications@.len() && (
            #[trigger] old_s.email_verifications@[vi]).token == token implies
            old_s.email_verifications@[vi] == verification by {
            let wi = choose|wi: int|
                0 <= wi < old_s.email_verifications@.len() && verification == (
                #[trigger] old_s.email_verifications@[wi]) && verification.token == token;
            if vi != wi {
                assert(old_s.email_verifications@[vi].token
                    != old_s.email_verifications@[wi].token);
                assert(false);
            }
        }
    }
    if now > verification.expires_at {
        return Err(
            HttpError::bad_request(String::from_str("Verification token has expired")),
        );
    }
    let _ = store.verify_user(verification.user_id);
    let user = match store.get_user(Some(verification.user_id), None, None) {
        Some(u) => u,
        None => {
            // A verification row can outlive its account; such a token
            // cannot load anyone.
            proof {
                if old_s.has_user(verification.user_id) {
                    let ui = choose|ui: int|
                        0 <= ui < old_s.users@.len() && (#[trigger] old_s.users@[ui]).id
                            == verification.user_id;
                    assert(store.users@[ui] == verified_updated(
                        old_s.users@[ui],
                        verification.user_id,
                    ));
                    assert(user_filter_match(
                        store.users@[ui],
                        Some(verification.user_id),
                        None,
                        None,
                    ));
                    assert(false);
                }
            }
            return Err(HttpError::bad_request(ErrorMessage::WrongeCredentials.to_str()));
        },
    };
    proof {
        lemma_dec_round_trip(user.id as nat);
    }
    let subject = u64_to_string(user.id);
    let session = match create_token(&subject, secret, expires_in_seconds, now) {
        Ok(t) => t,
        Err(_) => {
            return Err(HttpError::server_error(ErrorMessage::ServerError.to_str()));
        },
    };
    Ok((session, user))
}

/// What a verification-token string parses to, if anything.
pub open spec fn parsed_token(s: Seq<char>) -> Option<u64> {
    if s.len() > 0 && crate::text::all_digits(s) && crate::text::dec_value(s) <= u64::MAX {
        Some((crate::text::dec_value(s) as u64))
    } else {
        None
    }
}

/// Starts a password reset: the account behind the email gets a reset
/// token stored, and the account comes back so the caller can send the
/// reset mail. An unknown email is the wrong-credentials reply.
pub fn forgot_password(
    store: &mut Store,
    payload: ForgotPasswordDto,
    reset_token: u64,
    expires_at: u64,
) -> (r: Result<User, HttpError>)
    requires
        old(store).wf(),
    ensures
        final(store).wf(),
        r matches Err(e) ==> *final(store) == *old(store),
        !email_format_valid(payload.email@) ==> (r matches Err(e) && e.status == 400),
        email_format_valid(payload.email@) && !old(store).has_email(payload.email@) ==> (r matches
            Err(e) && is_bad_request(e, ErrorMessage::WrongeCredentials)),
        email_format_valid(payload.email@) && old(store).has_email(payload.email@)
            && has_reset_token(*old(store), reset_token) ==> (r matches Err(e) && is_server_error(
            e,
        )),
        email_format_valid(payload.email@) && old(store).has_email(payload.email@)
            && !has_reset_token(*old(store), reset_token) ==> r is Ok,
        r matches Ok(u) ==> {
            &&& email_format_valid(payload.email@)
            &&& exists|i: int|
                0 <= i < old(store).users@.len() && #[trigger] old(store).users@[i] == u
            &&& u.email@ == payload.email@
            &&& final(store).password_resets@ == old(store).password_resets@.push(
                PasswordReset { user_id: u.id, token: reset_token, expires_at },
            )
            &&& final(store).users == old(store).users
            &&& final(store).workspaces == old(store).workspaces
            &&& final(store).roles == old(store).roles
            &&& final(store).role_permissions == old(store).role_permissions
            &&& final(store).workspace_users == old(store).workspace_users
            &&& final(store).email_verifications == old(store).email_verifications
        },
{
    if let Err(m) = payload.validate() {
        return Err(HttpError::bad_request(m));
    }
    let user = match store.get_user(None, None, Some(&payload.email)) {
        Some(u) => u,
        None => {
            proof {
                assert(!store.has_email(payload.email@)) by {
                    if store.has_email(payload.email@) {
                        let i = choose|i: int|
                            0 <= i < store.users@.len() && (#[trigger] store.users@[i]).email@
                                == payload.email@;
                        assert(user_filter_match(
                            store.users@[i],
                            None,
                            None,
                            Some(&payload.email),
                        ));
                    }
                }
            }
            return Err(HttpError::bad_request(ErrorMessage::WrongeCredentials.to_str()));
        },
    };
    match store.save_password_reset_token(user.id, reset_token, expires_at) {
        Ok(_) => Ok(user),
        Err(_) => Err(HttpError::server_error(ErrorMessage::ServerError.to_str())),
    }
}

/// Completes a password reset: the token must exist and not be expired,
/// the new password is hashed and stored, and the account's reset rows
/// leave.
pub fn reset_password(store: &mut Store, payload: ResetPasswordDto, now: u64) -> (r: Result<
    Response,
    HttpError,
>)
    requires
        old(store).wf(),
    ensures
        final(store).wf(),
        r matches Err(e) ==> *final(store) == *old(store) && e.status == 400,
        !reset_password_valid(payload) ==> (r matches Err(e) && e.status == 400),
        reset_password_valid(payload) && encode_utf8(payload.password@).len() <= 64 && (exists|
            pi: int,
        |
            0 <= pi < old(store).password_resets@.len() && Some(
                (#[trigger] old(store).password_resets@[pi]).token,
            ) == parsed_token(payload.token@) && now <= old(store).password_resets@[pi].expires_at)
            ==> (r is Ok || (r matches Err(e) && e.status == 400 && e.message@
            == "HashingError"@)),
        r matches Ok(resp) ==> {
            &&& resp.status@ == "success"@
            &&& resp.message@ == "Password reset successful"@
            &&& exists|pi: int, h: String|
                #![trigger old(store).password_resets@[pi], argon2_outcome(encode_utf8(payload.password@), h@)]
                {
                    let pr = old(store).password_resets@[pi];
                    &&& 0 <= pi < old(store).password_resets@.len()
                    &&& Some(old(store).password_resets@[pi].token) == parsed_token(
                        payload.token@,
                    )
                    &&& now <= pr.expires_at
                    &&& argon2_outcome(encode_utf8(payload.password@), h@) == Ok::<bool, bool>(
                        true,
                    )
                    &&& final(store).users@.len() == old(store).users@.len()
                    &&& forall|k: int|
                        0 <= k < old(store).users@.len() ==> #[trigger] final(store).users@[k]
                            == crate::store::auth::password_updated(
                            old(store).users@[k],
                            pr.user_id,
                            h,
                        )
                    &&& final(store).password_resets@ == old(store).password_resets@.filter(
                        |q: PasswordReset| q.user_id != pr.user_id,
                    )
                }
            &&& final(store).workspaces == old(store).workspaces
            &&& final(store).roles == old(store).roles
            &&& final(store).role_permissions == old(store).role_permissions
            &&& final(store).workspace_users == old(store).workspace_users
            &&& final(store).email_verifications == old(store).email_verifications
        },
{
    if let Err(m) = payload.validate() {
        return Err(HttpError::bad_request(m));
    }
    let token = match parse_u64(&payload.token) {
        Some(t) => t,
        None => {
            return Err(HttpError::bad_request(ErrorMessage::InvalidToken.to_str()));
        },
    };
    let reset = match store.get_password_reset_token(token) {
        Some(pr) => pr,
        None => {
            return Err(HttpError::bad_request(ErrorMessage::WrongeCredentials.to_str()));
        },
    };
    proof {
        // The fetched row is the only one carrying this token.
        assert forall|pi: int|
            0 <= pi < old(store).password_resets@.len() && (
            #[trigger] old(store).password_resets@[pi]).token == token implies
            old(store).password_resets@[pi] == reset by {
            let wi = choose|wi: int|
                0 <= wi < old(store).password_resets@.len() && reset == (
                #[trigger] old(store).password_resets@[wi]) && reset.token == token;
            if pi != wi {
                assert(old(store).password_resets@[pi].token
                    != old(store).password_resets@[wi].token);
                assert(false);
            }
        }
        lemma_encode_utf8_len(payload.password@);
    }
    if now > reset.expires_at {
        return Err(
            HttpError::bad_request(String::from_str("Password reset token has expired")),
        );
    }
    let hash = match hash_password(payload.password.as_str().as_bytes()) {
        Ok(h) => h,
        Err(e) => {
            return Err(HttpError::bad_request(e.to_str()));
        },
    };
    let _ = store.reset_password(reset.user_id, &hash);
    Ok(
        Response {
            status: "success",
            message: String::from_str("Password reset successful"),
        },
    )
}

} // verus!
