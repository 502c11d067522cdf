use workspace_kit::dtos::auth::{LoginUserDto, RegisterUserDto, validate_password_complexity};
use workspace_kit::dtos::workspace::UpdateWorkspaceDto;
use workspace_kit::errors::{ErrorMessage, HttpError};
use workspace_kit::mail::create_verification_link;
use workspace_kit::permissions::{Permission, all_permissions, permission_from_name};
use workspace_kit::text::{parse_u64, str_lt, u64_to_string};

#[test]
fn password_complexity_requires_all_four_classes() {
    assert!(validate_password_complexity("Sup3r$ecret").is_ok());
    assert_eq!(
        validate_password_complexity("sup3r$ecret").unwrap_err(),
        "Password must contain at least one uppercase letter"
    );
    assert_eq!(
        validate_password_complexity("SUP3R$ECRET").unwrap_err(),
        "Password must contain at least one lowercase letter"
    );
    assert_eq!(
        validate_password_complexity("Super$ecret").unwrap_err(),
        "Password must contain at least one number"
    );
    assert_eq!(
        validate_password_complexity("Sup3rSecret").unwrap_err(),
        "Password must contain at least one special character"
    );
}

#[test]
fn register_validation_checks_each_field() {
    let valid = RegisterUserDto {
        name: "Owner".to_string(),
        email: "owner@example.com".to_string(),
        password: "Sup3r$ecret".to_string(),
        password_confirm: "Sup3r$ecret".to_string(),
    };
    assert!(valid.validate().is_ok());

    let no_name = RegisterUserDto { name: String::new(), ..clone_dto(&valid) };
    assert_eq!(no_name.validate().unwrap_err(), "Name is required");

    let bad_email = RegisterUserDto { email: "not-an-email".to_string(), ..clone_dto(&valid) };
    assert_eq!(bad_email.validate().unwrap_err(), "Invalid email address");

    let short_email = RegisterUserDto { email: "a@b".to_string(), ..clone_dto(&valid) };
    assert_eq!(
        short_email.validate().unwrap_err(),
        "Email must be between 5 and 254 characters"
    );

    let mismatch = RegisterUserDto {
        password_confirm: "Other3$word".to_string(),
        ..clone_dto(&valid)
    };
    assert_eq!(mismatch.validate().unwrap_err(), "Passwords do not match");

    let short_pw = RegisterUserDto {
        password: "S3$a".to_string(),
        password_confirm: "S3$a".to_string(),
        ..clone_dto(&valid)
    };
    assert_eq!(
        short_pw.validate().unwrap_err(),
        "Password must be between 8 and 64 characters"
    );
}

fn clone_dto(d: &RegisterUserDto) -> RegisterUserDto {
    RegisterUserDto {
        name: d.name.clone(),
        email: d.email.clone(),
        password: d.password.clone(),
        password_confirm: d.password_confirm.clone(),
    }
}

#[test]
fn login_validation_mirrors_the_field_rules() {
    let bad = LoginUserDto { email: "owner@example.com".to_string(), password: "weak".to_string() };
    assert!(bad.validate().is_err());
    let good = LoginUserDto {
        email: "owner@example.com".to_string(),
        password: "Sup3r$ecret".to_string(),
    };
    assert!(good.validate().is_ok());
}

#[test]
fn decimal_rendering_and_parsing_round_trip() {
    for n in [0u64, 1, 9, 10, 42, 1_000_000, u64::MAX] {
        let s = u64_to_string(n);
        assert_eq!(s, n.to_string());
        assert_eq!(parse_u64(&s), Some(n));
    }
    assert_eq!(parse_u64(&"".to_string()), None);
    assert_eq!(parse_u64(&"12a".to_string()), None);
    assert_eq!(parse_u64(&"18446744073709551616".to_string()), None);
}

#[test]
fn string_order_is_lexicographic() {
    assert!(str_lt(&"Editor".to_string(), &"Viewer".to_string()));
    assert!(!str_lt(&"Viewer".to_string(), &"Editor".to_string()));
    assert!(!str_lt(&"Editor".to_string(), &"Editor".to_string()));
    assert!(str_lt(&"Edit".to_string(), &"Editor".to_string()));
}

#[test]
fn permission_names_round_trip_through_the_catalog() {
    for p in all_permissions() {
        assert_eq!(permission_from_name(&p.name()), Some(p));
    }
    assert_eq!(permission_from_name(&"manage_roles".to_string()), Some(Permission::ManageRoles));
    assert_eq!(permission_from_name(&"nonsense".to_string()), None);
}

#[test]
fn error_messages_have_stable_wire_text() {
    assert_eq!(ErrorMessage::TokenNotProvided.to_str(), "TokenNotProvided");
    assert_eq!(ErrorMessage::PermissionDenied.to_str(), "PermissionDenied");
    assert_eq!(ErrorMessage::ExceededMaxPasswordLength(65).to_str(), "ExceededMaxPasswordLength");
    let e = HttpError::unauthorized(ErrorMessage::InvalidToken.to_str());
    assert_eq!(e.status, 401);
    let body = e.into_error_response();
    assert_eq!(body.status, "failed");
    assert_eq!(body.message, "InvalidToken");
}

#[test]
fn workspace_rename_needs_three_characters() {
    let short = UpdateWorkspaceDto { name: "ab".to_string() };
    assert_eq!(
        short.validate().unwrap_err(),
        "Workspace name must be at least 3 characters long"
    );
    let ok = UpdateWorkspaceDto { name: "abc".to_string() };
    assert!(ok.validate().is_ok());
}

#[test]
fn verification_links_join_base_and_token() {
    let link = create_verification_link("https://api.example.com/auth/verify", "abc123");
    assert_eq!(link, "https://api.example.com/auth/verify?token=abc123");
}
