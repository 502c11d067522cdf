//! Account routes: the caller's own data, password change, and the
//! email-change request/confirm pair.

use vstd::prelude::*;
use vstd::utf8::encode_utf8;
use crate::dtos::Response;
use crate::dtos::email_format_valid;
use crate::dtos::user::{FilterUserDto, UserData, UserEmailChangeRequest,
    UserEmailChangeVerificationDto, UserPasswordUpdate, UserResponse, password_update_valid};
use crate::errors::{ErrorMessage, HttpError, is_server_error};
use crate::handlers::auth::parsed_token;
use crate::middleware::jwt_auth_middleware::JwtAuthMiddleware;
use crate::models::User;
use crate::password::{argon2_outcome, compare, hash_password};
use crate::store::Store;
use crate::text::{lemma_encode_utf8_len, parse_u64};
use crate::store::auth::password_updated;
use crate::store::user::{email_request_updated, first_pending_match, has_pending_match,
    email_change_applied};

verus! {

/// The caller's own filtered data.
pub fn get_me(user: &JwtAuthMiddleware) -> (r: UserResponse)
    ensures
        r.status@ == "success"@,
        r.data.user.id == Some(user.user.id),
        r.data.user.email == Some(user.user.email),
        r.data.user.name == Some(user.user.name),
        r.data.user.verified == user.user.email_verified,
{
    let filtered_user = FilterUserDto::filter_user(&user.user);
    UserResponse { status: "success", data: UserData { user: filtered_user } }
}

/// Changes the caller's password: the current one must match the stored
/// hash, and the new one replaces it.
pub fn update_user_password(
    store: &mut Store,
    user: &JwtAuthMiddleware,
    payload: UserPasswordUpdate,
) -> (r: Result<Response, HttpError>)
    requires
        old(store).wf(),
    ensures
        final(store).wf(),
        r matches Err(e) ==> *final(store) == *old(store),
        !password_update_valid(payload) ==> (r matches Err(e) && e.status == 400),
        password_update_valid(payload) && 8 <= encode_utf8(payload.current_password@).len() <= 64
            && argon2_outcome(encode_utf8(payload.current_password@), user.user.password@)
            == Ok::<bool, bool>(false) ==> (r matches Err(e) && e.status == 401 && e.message@
            == "Current password is incorrect"@),
        password_update_valid(payload) && encode_utf8(payload.current_password@).len() <= 64
            && encode_utf8(payload.new_password@).len() <= 64 && argon2_outcome(
            encode_utf8(payload.current_password@),
            user.user.password@,
        ) == Ok::<bool, bool>(true) ==> (r is Ok || (r matches Err(e) && e.status == 500
            && e.message@ == "HashingError"@)),
        r matches Ok(resp) ==> {
            &&& resp.status@ == "success"@
            &&& resp.message@ == "Password updated successfully"@
            &&& password_update_valid(payload)
            &&& argon2_outcome(encode_utf8(payload.current_password@), user.user.password@)
                == Ok::<bool, bool>(true)
            &&& exists|h: String|
                #![trigger argon2_outcome(encode_utf8(payload.new_password@), h@)]
                argon2_outcome(encode_utf8(payload.new_password@), h@) == Ok::<
                    bool,
                    bool,
                >(true) && final(store).users@.len() == old(store).users@.len() && (forall|k: int|
                    0 <= k < old(store).users@.len() ==> #[trigger] final(store).users@[k]
                        == password_updated(old(store).users@[k], user.user.id, h))
            &&& final(store).workspaces == old(store).workspaces
            &&& final(store).roles == old(store).roles
            &&& final(store).role_permissions == old(store).role_permissions
            &&& final(store).workspace_users == old(store).workspace_users
            &&& final(store).email_verifications == old(store).email_verifications
            &&& final(store).password_resets == old(store).password_resets
        },
{
    if let Err(m) = payload.validate() {
        return Err(HttpError::bad_request(m));
    }
    proof {
        lemma_encode_utf8_len(payload.current_password@);
        lemma_encode_utf8_len(payload.new_password@);
    }
    let password_match = match compare(
        payload.current_password.as_str().as_bytes(),
        &user.user.password,
    ) {
        Ok(b) => b,
        Err(e) => {
            return Err(HttpError::server_error(e.to_str()));
        },
    };
    if !password_match {
        return Err(
            HttpError::unauthorized(String::from_str("Current password is incorrect")),
        );
    }
    let hash = match hash_password(payload.new_password.as_str().as_bytes()) {
        Ok(h) => h,
        Err(e) => {
            return Err(HttpError::server_error(e.to_str()));
        },
    };
    let _ = store.update_user_password(user.user.id, &hash);
    Ok(
        Response {
            status: "success",
            message: String::from_str("Password updated successfully"),
        },
    )
}

/// Starts an email change: the new address and its token become the
/// caller's pending fields, and the updated account comes back so the
/// caller can send the confirmation mail.
pub fn change_email_request(
    store: &mut Store,
    user: &JwtAuthMiddleware,
    payload: UserEmailChangeRequest,
    token: u64,
    token_expires_at: u64,
) -> (r: Result<User, HttpError>)
    requires
        old(store).wf(),
    ensures
        final(store).wf(),
        r matches Err(e) ==> *final(store) == *old(store),
        !email_format_valid(payload.email@) <==> (r matches Err(e) && e.status == 400),
        email_format_valid(payload.email@) && !old(store).has_user(user.user.id) ==> (r matches
            Err(e) && is_server_error(e)),
        email_format_valid(payload.email@) && old(store).has_user(user.user.id) ==> r is Ok,
        r matches Ok(u) ==> {
            &&& u.id == user.user.id
            &&& u.pending_email == Some(payload.email)
            &&& u.pending_email_token == Some(token)
            &&& final(store).users@.len() == old(store).users@.len()
            &&& forall|k: int|
                0 <= k < old(store).users@.len() ==> #[trigger] final(store).users@[k]
                    == email_request_updated(
                    old(store).users@[k],
                    user.user.id,
                    payload.email,
                    token,
                    token_expires_at,
                )
            &&& final(store).workspaces == old(store).workspaces
            &&& final(store).roles == old(store).roles
            &&& final(store).role_permissions == old(store).role_permissions
            &&& final(store).workspace_users == old(store).workspace_users
            &&& final(store).email_verifications == old(store).email_verifications
            &&& final(store).password_resets == old(store).password_resets
        },
{
    if let Err(m) = payload.validate() {
        return Err(HttpError::bad_request(m));
    }
    match store.update_user_email_request(user.user.id, payload.email, token, token_expires_at) {
        Ok(u) => Ok(u),
        Err(_) => Err(HttpError::server_error(ErrorMessage::ServerError.to_str())),
    }
}

/// Confirms an email change: the pending address behind the token
/// becomes the account's address. A token held by nobody still succeeds,
/// changing nothing; a pending address already taken is the generic
/// store failure.
pub fn verify_email_change(store: &mut Store, query: UserEmailChangeVerificationDto) -> (r:
    Result<Response, HttpError>)
    requires
        old(store).wf(),
    ensures
        final(store).wf(),
        r matches Err(e) ==> *final(store) == *old(store),
        query.token@.len() < 1 ==> (r matches Err(e) && e.status == 400),
        r matches Err(e) ==> (e.status == 400 || is_server_error(e)),
        (match parsed_token(query.token@) {
            Some(t) => !(exists|i: int, j: int|
                #![trigger old(store).users@[i], old(store).users@[j]]
                0 <= i < old(store).users@.len() && 0 <= j < old(store).users@.len() && i != j
                    && old(store).users@[i].pending_email_token == Some(t) && (old(
                    store,
                ).users@[i].pending_email matches Some(p) && p@ == old(store).users@[j].email@)),
            None => false,
        }) ==> r is Ok,
        r matches Ok(resp) ==> {
            &&& resp.status@ == "success"@
            &&& resp.message@ == "Email changed successfully"@
            &&& (match parsed_token(query.token@) {
                Some(t) => {
                    &&& (!has_pending_match(*old(store), t) ==> *final(store) == *old(store))
                    &&& forall|i: int|
                        #[trigger] first_pending_match(*old(store), t, i) ==> final(store).users@
                            == old(store).users@.update(
                            i,
                            email_change_applied(old(store).users@[i], t),
                        )
                },
                None => false,
            })
            &&& final(store).workspaces == old(store).workspaces
            &&& final(store).roles == old(store).roles
            &&& final(store).role_permissions == old(store).role_permissions
            &&& final(store).workspace_users == old(store).workspace_users
            &&& final(store).email_verifications == old(store).email_verifications
            &&& final(store).password_resets == old(store).password_resets
        },
{
    if let Err(m) = query.validate() {
        return Err(HttpError::bad_request(m));
    }
    let token = match parse_u64(&query.token) {
        Some(t) => t,
        None => {
            return Err(HttpError::bad_request(ErrorMessage::InvalidToken.to_str()));
        },
    };
    match store.verify_email_change(token) {
        Ok(_) => Ok(
            Response {
                status: "success",
                message: String::from_str("Email changed successfully"),
            },
        ),
        Err(_) => Err(HttpError::server_error(ErrorMessage::ServerError.to_str())),
    }
}

} // verus!
