//! Authentication payloads and their validation rules: registration,
//! login, email verification, and the password-reset pair.

use vstd::prelude::*;
use crate::dtos::email_ok;
use crate::dtos::email_format_valid;
use crate::dtos::validate_email_field;
use crate::dtos::user::FilterUserDto;
use crate::dtos::workspace::WorkspaceWithRoleAndPermissions;

verus! {

/// Whether `c` is an ASCII uppercase letter.
pub open spec fn is_ascii_upper(c: char) -> bool {
    'A' as u32 <= c as u32 && c as u32 <= 'Z' as u32
}

/// Whether `c` is an ASCII lowercase letter.
pub open spec fn is_ascii_lower(c: char) -> bool {
    'a' as u32 <= c as u32 && c as u32 <= 'z' as u32
}

/// Whether `c` is an ASCII decimal digit.
pub open spec fn is_ascii_digit(c: char) -> bool {
    '0' as u32 <= c as u32 && c as u32 <= '9' as u32
}

/// Whether `c` counts as a special character: anything that is not an
/// ASCII letter or digit.
pub open spec fn is_special(c: char) -> bool {
    !is_ascii_upper(c) && !is_ascii_lower(c) && !is_ascii_digit(c)
}

/// Whether a password has an uppercase letter, a lowercase letter, a
/// digit and a special character.
pub open spec fn password_complex(s: Seq<char>) -> bool {
    &&& exists|i: int| 0 <= i < s.len() && is_ascii_upper(#[trigger] s[i])
    &&& exists|i: int| 0 <= i < s.len() && is_ascii_lower(#[trigger] s[i])
    &&& exists|i: int| 0 <= i < s.len() && is_ascii_digit(#[trigger] s[i])
    &&& exists|i: int| 0 <= i < s.len() && is_special(#[trigger] s[i])
}

/// Checks the four character-class rules, reporting the first missing
/// class in the order uppercase, lowercase, number, special.
pub fn validate_password_complexity(password: &str) -> (r: Result<(), String>)
    ensures
        r is Ok <==> password_complex(password@),
        !(exists|i: int| 0 <= i < password@.len() && is_ascii_upper(#[trigger] password@[i])) ==> (
        r matches Err(m) && m@ == "Password must contain at least one uppercase letter"@),
        (exists|i: int| 0 <= i < password@.len() && is_ascii_upper(#[trigger] password@[i])) && !(
        exists|i: int| 0 <= i < password@.len() && is_ascii_lower(#[trigger] password@[i])) ==> (
        r matches Err(m) && m@ == "Password must contain at least one lowercase letter"@),
        (exists|i: int| 0 <= i < password@.len() && is_ascii_upper(#[trigger] password@[i])) && (
        exists|i: int| 0 <= i < password@.len() && is_ascii_lower(#[trigger] password@[i])) && !(
        exists|i: int| 0 <= i < password@.len() && is_ascii_digit(#[trigger] password@[i])) ==> (
        r matches Err(m) && m@ == "Password must contain at least one number"@),
        (exists|i: int| 0 <= i < password@.len() && is_ascii_upper(#[trigger] password@[i])) && (
        exists|i: int| 0 <= i < password@.len() && is_ascii_lower(#[trigger] password@[i])) && (
        exists|i: int| 0 <= i < password@.len() && is_ascii_digit(#[trigger] password@[i])) && !(
        exists|i: int| 0 <= i < password@.len() && is_special(#[trigger] password@[i])) ==> (
        r matches Err(m) && m@ == "Password must contain at least one special character"@),
{
    let n = password.unicode_len();
    let mut has_upper = false;
    let mut has_lower = false;
    let mut has_digit = false;
    let mut has_special = false;
    let mut i: usize = 0;
    while i < n
        invariant
            0 <= i <= n == password@.len(),
            has_upper <==> exists|j: int|
                0 <= j < i && is_ascii_upper(#[trigger] password@[j]),
            has_lower <==> exists|j: int|
                0 <= j < i && is_ascii_lower(#[trigger] password@[j]),
            has_digit <==> exists|j: int|
                0 <= j < i && is_ascii_digit(#[trigger] password@[j]),
            has_special <==> exists|j: int| 0 <= j < i && is_special(#[trigger] password@[j]),
        decreases n - i,
    {
        let c = password.get_char(i);
        let v = c as u32;
        if 'A' as u32 <= v && v <= 'Z' as u32 {
            has_upper = true;
        } else if 'a' as u32 <= v && v <= 'z' as u32 {
            has_lower = true;
        } else if '0' as u32 <= v && v <= '9' as u32 {
            has_digit = true;
        } else {
            has_special = true;
        }
        proof {
            assert(password@[i as int] == c);
        }
        i = i + 1;
    }
    if !has_upper {
        return Err(String::from_str("Password must contain at least one uppercase letter"));
    }
    if !has_lower {
        return Err(String::from_str("Password must contain at least one lowercase letter"));
    }
    if !has_digit {
        return Err(String::from_str("Password must contain at least one number"));
    }
    if !has_special {
        return Err(String::from_str("Password must contain at least one special character"));
    }
    Ok(())
}

/// Whether a password field passes its rules: eight to sixty-four
/// characters with all four character classes.
pub open spec fn password_field_valid(s: Seq<char>) -> bool {
    8 <= s.len() <= 64 && password_complex(s)
}

/// Checks one password field: length bounds, then complexity.
fn validate_password_field(password: &String) -> (r: Result<(), String>)
    ensures
        r is Ok <==> password_field_valid(password@),
{
    let len = password.as_str().unicode_len();
    if len < 8 || len > 64 {
        return Err(String::from_str("Password must be between 8 and 64 characters"));
    }
    validate_password_complexity(password.as_str())
}

/// A registration request.
#[derive(Debug)]
pub struct RegisterUserDto {
    pub name: String,
    pub email: String,
    pub password: String,
    pub password_confirm: String,
}

/// Whether a registration request passes every rule.
pub open spec fn register_valid(dto: RegisterUserDto) -> bool {
    &&& dto.name@.len() >= 1
    &&& email_format_valid(dto.email@)
    &&& password_field_valid(dto.password@)
    &&& 8 <= dto.password_confirm@.len() <= 64
    &&& dto.password_confirm@ == dto.password@
}

impl RegisterUserDto {
    /// Accepts the request exactly when the name is present, the email is
    /// well-formed, the password passes its rules, and the confirmation
    /// repeats it.
    pub fn validate(&self) -> (r: Result<(), String>)
        ensures
            r is Ok <==> register_valid(*self),
    {
        if self.name.as_str().unicode_len() < 1 {
            return Err(String::from_str("Name is required"));
        }
        validate_email_field(&self.email)?;
        validate_password_field(&self.password)?;
        let confirm_len = self.password_confirm.as_str().unicode_len();
        if confirm_len < 8 || confirm_len > 64 {
            return Err(String::from_str("Password must be between 8 and 64 characters"));
        }
        if !self.password_confirm.eq(&self.password) {
            return Err(String::from_str("Passwords do not match"));
        }
        Ok(())
    }
}

/// A login request.
#[derive(Debug)]
pub struct LoginUserDto {
    pub email: String,
    pub password: String,
}

/// Whether a login request passes every rule.
pub open spec fn login_valid(dto: LoginUserDto) -> bool {
    email_format_valid(dto.email@) && password_field_valid(dto.password@)
}

impl LoginUserDto {
    /// Accepts the request exactly when the email is well-formed and the
    /// password passes its rules.
    pub fn validate(&self) -> (r: Result<(), String>)
        ensures
            r is Ok <==> login_valid(*self),
    {
        validate_email_field(&self.email)?;
        validate_password_field(&self.password)?;
        Ok(())
    }
}

/// An email-verification request: the token from the verification link.
#[derive(Debug)]
pub struct VerifyEmailQueryDto {
    pub token: String,
}

impl VerifyEmailQueryDto {
    /// Accepts the request exactly when the token is non-empty.
    pub fn validate(&self) -> (r: Result<(), String>)
        ensures
            r is Ok <==> self.token@.len() >= 1,
    {
        if self.token.as_str().unicode_len() < 1 {
            return Err(String::from_str("Token is required"));
        }
        Ok(())
    }
}

/// A forgotten-password request.
#[derive(Debug, Default)]
pub struct ForgotPasswordDto {
    pub email: String,
}

impl ForgotPasswordDto {
    /// Accepts the request exactly when the email is well-formed.
    pub fn validate(&self) -> (r: Result<(), String>)
        ensures
            r is Ok <==> email_format_valid(self.email@),
    {
        validate_email_field(&self.email)
    }
}

/// A password-reset request: the reset token and the new password, twice.
#[derive(Debug)]
pub struct ResetPasswordDto {
    pub token: String,
    pub password: String,
    pub password_confirm: String,
}

/// Whether a password-reset request passes every rule.
pub open spec fn reset_password_valid(dto: ResetPasswordDto) -> bool {
    &&& dto.token@.len() >= 1
    &&& password_field_valid(dto.password@)
    &&& 8 <= dto.password_confirm@.len() <= 64
    &&& dto.password_confirm@ == dto.password@
}

impl ResetPasswordDto {
    /// Accepts the request exactly when the token is present, the new
    /// password passes its rules, and the confirmation repeats it.
    pub fn validate(&self) -> (r: Result<(), String>)
        ensures
            r is Ok <==> reset_password_valid(*self),
    {
        if self.token.as_str().unicode_len() < 1 {
            return Err(String::from_str("Token is required"));
        }
        validate_password_field(&self.password)?;
        let confirm_len = self.password_confirm.as_str().unicode_len();
        if confirm_len < 8 || confirm_len > 64 {
            return Err(String::from_str("Password must be between 8 and 64 characters"));
        }
        if !self.password_confirm.eq(&self.password) {
            return Err(String::from_str("Passwords do not match"));
        }
        Ok(())
    }
}

/// A successful login: the issued token and the caller's data.
#[derive(Debug)]
pub struct LoginResponse {
    pub status: &'static str,
    pub token: String,
    pub data: UserDataResponse,
}

/// The caller's data after login: the filtered user and, when one
/// resolved, the default workspace context.
#[derive(Debug)]
pub struct UserDataResponse {
    pub user: FilterUserDto,
    pub workspace: Option<WorkspaceWithRoleAndPermissions>,
}

} // verus!
