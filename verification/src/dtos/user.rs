//! User payloads: the filtered user view and the account-settings
//! requests with their validation rules.

use vstd::prelude::*;
use crate::dtos::email_format_valid;
use crate::dtos::validate_email_field;
use crate::dtos::auth::{password_field_valid, validate_password_complexity};
use crate::models::User;

verus! {

/// A user as returned to clients: no credential hash, no pending fields.
#[derive(Debug)]
pub struct FilterUserDto {
    pub id: Option<u64>,
    pub email: Option<String>,
    pub name: Option<String>,
    pub verified: bool,
}

impl FilterUserDto {
    /// The client view of a user row.
    pub fn filter_user(user: &User) -> (r: FilterUserDto)
        ensures
            r.id == Some(user.id),
            r.email == Some(user.email),
            r.name == Some(user.name),
            r.verified == user.email_verified,
    {
        FilterUserDto {
            id: Some(user.id),
            email: Some(user.email.clone()),
            name: Some(user.name.clone()),
            verified: user.email_verified,
        }
    }
}

/// The data envelope around a filtered user.
#[derive(Debug)]
pub struct UserData {
    pub user: FilterUserDto,
}

/// The envelope for a fetched user.
#[derive(Debug)]
pub struct UserResponse {
    pub status: &'static str,
    pub data: UserData,
}

/// A password-change request: the current password and the new one,
/// twice.
#[derive(Debug)]
pub struct UserPasswordUpdate {
    pub current_password: String,
    pub new_password: String,
    pub confirm_password: String,
}

/// Whether a password-change request passes every rule.
pub open spec fn password_update_valid(dto: UserPasswordUpdate) -> bool {
    &&& password_field_valid(dto.current_password@)
    &&& password_field_valid(dto.new_password@)
    &&& password_field_valid(dto.confirm_password@)
    &&& dto.confirm_password@ == dto.new_password@
}

impl UserPasswordUpdate {
    /// Accepts the request exactly when all three fields pass the
    /// password rules and the confirmation repeats the new password.
    pub fn validate(&self) -> (r: Result<(), String>)
        ensures
            r is Ok <==> password_update_valid(*self),
    {
        validate_password_update_field(&self.current_password)?;
        validate_password_update_field(&self.new_password)?;
        validate_password_update_field(&self.confirm_password)?;
        if !self.confirm_password.eq(&self.new_password) {
            return Err(String::from_str("Passwords do not match"));
        }
        Ok(())
    }
}

/// One password field of the change request: length bounds, then
/// complexity.
fn validate_password_update_field(password: &String) -> (r: Result<(), String>)
    ensures
        r is Ok <==> password_field_valid(password@),
{
    let len = password.as_str().unicode_len();
    if len < 8 || len > 64 {
        return Err(String::from_str("Password must be between 8 and 64 characters"));
    }
    validate_password_complexity(password.as_str())
}

/// An email-change request: the new address.
#[derive(Debug)]
pub struct UserEmailChangeRequest {
    pub email: String,
}

impl UserEmailChangeRequest {
    /// Accepts the request exactly when the new address is well-formed.
    pub fn validate(&self) -> (r: Result<(), String>)
        ensures
            r is Ok <==> email_format_valid(self.email@),
    {
        validate_email_field(&self.email)
    }
}

/// An email-change confirmation: the token from the notification link.
#[derive(Debug)]
pub struct UserEmailChangeVerificationDto {
    pub token: String,
}

impl UserEmailChangeVerificationDto {
    /// Accepts the request exactly when the token is non-empty.
    pub fn validate(&self) -> (r: Result<(), String>)
        ensures
            r is Ok <==> self.token@.len() >= 1,
    {
        if self.token.as_str().unicode_len() < 1 {
            return Err(String::from_str("Token is required"));
        }
        Ok(())
    }
}

} // verus!
