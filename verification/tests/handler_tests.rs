use workspace_kit::dtos::auth::{ForgotPasswordDto, LoginUserDto, RegisterUserDto,
    ResetPasswordDto, VerifyEmailQueryDto};
use workspace_kit::dtos::role::{CreateRoleDto, UpdateRoleDto};
use workspace_kit::dtos::user::{UserEmailChangeRequest, UserEmailChangeVerificationDto,
    UserPasswordUpdate};
use workspace_kit::dtos::workspace::WorkspaceCreateDto;
use workspace_kit::dtos::workspace_user::UpdateUserRoleDto;
use workspace_kit::handlers;
use workspace_kit::middleware::jwt_auth_middleware::JwtAuthMiddleware;
use workspace_kit::middleware::workspace_middleware::WorkspaceAuthMiddleware;
use workspace_kit::password::compare;
use workspace_kit::permissions::Permission;
use workspace_kit::store::Store;
use workspace_kit::token::decode_token;

const SECRET: &[u8] = b"handler-test-secret";
const NOW: u64 = 1_700_000_000;

fn register_dto(name: &str, email: &str) -> RegisterUserDto {
    RegisterUserDto {
        name: name.to_string(),
        email: email.to_string(),
        password: "Sup3r$ecret".to_string(),
        password_confirm: "Sup3r$ecret".to_string(),
    }
}

#[test]
fn register_then_login_round_trip() {
    let mut store = Store::new();
    let user = handlers::auth::register(
        &mut store,
        register_dto("Owner", "owner@example.com"),
        101,
        NOW + 86_400,
    )
    .unwrap();
    assert_eq!(user.email, "owner@example.com");
    assert!(!user.email_verified);

    let resp = handlers::auth::login(
        &store,
        LoginUserDto {
            email: "owner@example.com".to_string(),
            password: "Sup3r$ecret".to_string(),
        },
        SECRET,
        3600,
        NOW,
    )
    .unwrap();
    assert_eq!(resp.status, "success");
    let subject = decode_token(&resp.token, SECRET, NOW).unwrap();
    assert_eq!(subject, user.id.to_string());
    assert_eq!(resp.data.user.email.as_deref(), Some("owner@example.com"));
    // No workspace yet, so no default context resolves.
    assert!(resp.data.workspace.is_none());
}

#[test]
fn login_with_wrong_password_is_wrong_credentials() {
    let mut store = Store::new();
    handlers::auth::register(
        &mut store,
        register_dto("Owner", "owner@example.com"),
        101,
        NOW + 86_400,
    )
    .unwrap();
    let e = handlers::auth::login(
        &store,
        LoginUserDto {
            email: "owner@example.com".to_string(),
            password: "Wr0ng#pass!".to_string(),
        },
        SECRET,
        3600,
        NOW,
    )
    .unwrap_err();
    assert_eq!(e.status, 400);
    assert_eq!(e.message, "WrongeCredentials");
}

#[test]
fn login_with_malformed_stored_hash_is_wrong_credentials() {
    let mut store = Store::new();
    store
        .save_user(
            "Owner".to_string(),
            "owner@example.com".to_string(),
            "not-a-phc-string".to_string(),
            101,
            NOW + 86_400,
        )
        .unwrap();
    let e = handlers::auth::login(
        &store,
        LoginUserDto {
            email: "owner@example.com".to_string(),
            password: "Sup3r$ecret".to_string(),
        },
        SECRET,
        3600,
        NOW,
    )
    .unwrap_err();
    assert_eq!(e.status, 400);
    assert_eq!(e.message, "WrongeCredentials");
}

#[test]
fn duplicate_registration_is_a_conflict() {
    let mut store = Store::new();
    handlers::auth::register(
        &mut store,
        register_dto("Owner", "owner@example.com"),
        101,
        NOW + 86_400,
    )
    .unwrap();
    let e = handlers::auth::register(
        &mut store,
        register_dto("Imposter", "owner@example.com"),
        102,
        NOW + 86_400,
    )
    .unwrap_err();
    assert_eq!(e.status, 409);
    assert_eq!(e.message, "EmailExit");
}

#[test]
fn email_verification_marks_the_account() {
    let mut store = Store::new();
    let user = handlers::auth::register(
        &mut store,
        register_dto("Owner", "owner@example.com"),
        101,
        NOW + 86_400,
    )
    .unwrap();
    let (session, verified) = handlers::auth::verify_email(
        &mut store,
        VerifyEmailQueryDto { token: "101".to_string() },
        SECRET,
        3600,
        NOW,
    )
    .unwrap();
    assert_eq!(verified.id, user.id);
    assert!(verified.email_verified);
    assert_eq!(decode_token(&session, SECRET, NOW).unwrap(), user.id.to_string());
    // The token is single-use: the row is gone.
    let e = handlers::auth::verify_email(
        &mut store,
        VerifyEmailQueryDto { token: "101".to_string() },
        SECRET,
        3600,
        NOW,
    )
    .unwrap_err();
    assert_eq!(e.message, "InvalidToken");
}

#[test]
fn expired_verification_token_is_rejected() {
    let mut store = Store::new();
    handlers::auth::register(
        &mut store,
        register_dto("Owner", "owner@example.com"),
        101,
        NOW - 1,
    )
    .unwrap();
    let e = handlers::auth::verify_email(
        &mut store,
        VerifyEmailQueryDto { token: "101".to_string() },
        SECRET,
        3600,
        NOW,
    )
    .unwrap_err();
    assert_eq!(e.status, 400);
    assert_eq!(e.message, "Verification token has expired");
}

#[test]
fn forgot_then_reset_password_flow() {
    let mut store = Store::new();
    handlers::auth::register(
        &mut store,
        register_dto("Owner", "owner@example.com"),
        101,
        NOW + 86_400,
    )
    .unwrap();
    let user = handlers::auth::forgot_password(
        &mut store,
        ForgotPasswordDto { email: "owner@example.com".to_string() },
        555,
        NOW + 86_400,
    )
    .unwrap();
    assert_eq!(user.email, "owner@example.com");
    let resp = handlers::auth::reset_password(
        &mut store,
        ResetPasswordDto {
            token: "555".to_string(),
            password: "N3w!Passw0rd".to_string(),
            password_confirm: "N3w!Passw0rd".to_string(),
        },
        NOW,
    )
    .unwrap();
    assert_eq!(resp.message, "Password reset successful");
    let stored = &store.users[0].password;
    assert_eq!(compare(b"N3w!Passw0rd", stored).unwrap(), true);
    assert_eq!(compare(b"Sup3r$ecret", stored).unwrap(), false);
}

#[test]
fn password_change_requires_the_current_password() {
    let mut store = Store::new();
    handlers::auth::register(
        &mut store,
        register_dto("Owner", "owner@example.com"),
        101,
        NOW + 86_400,
    )
    .unwrap();
    let auth = JwtAuthMiddleware { user: store.users[0].clone() };
    let e = handlers::user::update_user_password(
        &mut store,
        &auth,
        UserPasswordUpdate {
            current_password: "Wr0ng#pass!".to_string(),
            new_password: "N3w!Passw0rd".to_string(),
            confirm_password: "N3w!Passw0rd".to_string(),
        },
    )
    .unwrap_err();
    assert_eq!(e.status, 401);
    assert_eq!(e.message, "Current password is incorrect");
    let resp = handlers::user::update_user_password(
        &mut store,
        &auth,
        UserPasswordUpdate {
            current_password: "Sup3r$ecret".to_string(),
            new_password: "N3w!Passw0rd".to_string(),
            confirm_password: "N3w!Passw0rd".to_string(),
        },
    )
    .unwrap();
    assert_eq!(resp.message, "Password updated successfully");
}

#[test]
fn email_change_request_and_confirmation() {
    let mut store = Store::new();
    handlers::auth::register(
        &mut store,
        register_dto("Owner", "owner@example.com"),
        101,
        NOW + 86_400,
    )
    .unwrap();
    let auth = JwtAuthMiddleware { user: store.users[0].clone() };
    let updated = handlers::user::change_email_request(
        &mut store,
        &auth,
        UserEmailChangeRequest { email: "new@example.com".to_string() },
        777,
        NOW + 86_400,
    )
    .unwrap();
    assert_eq!(updated.pending_email.as_deref(), Some("new@example.com"));
    let resp = handlers::user::verify_email_change(
        &mut store,
        UserEmailChangeVerificationDto { token: "777".to_string() },
    )
    .unwrap();
    assert_eq!(resp.message, "Email changed successfully");
    assert_eq!(store.users[0].email, "new@example.com");
    assert!(store.users[0].pending_email.is_none());
}

#[test]
fn workspace_lifecycle_through_handlers() {
    let mut store = Store::new();
    let user = handlers::auth::register(
        &mut store,
        register_dto("Owner", "owner@example.com"),
        101,
        NOW + 86_400,
    )
    .unwrap();
    let auth = JwtAuthMiddleware { user };
    let created = handlers::workspace::create_workspace(
        &mut store,
        &auth,
        WorkspaceCreateDto { name: "Acme".to_string() },
        "invite-acme".to_string(),
    )
    .unwrap();
    assert_eq!(created.status, "success");
    assert_eq!(created.data.workspace.name, "Acme");
    assert_eq!(created.data.role_name, "Admin");
    // The owner's Admin context resolves to the full catalog.
    assert_eq!(created.data.permissions.len(), 10);
    let ws = WorkspaceAuthMiddleware { workspace_id: created.data.workspace.id };

    let conflict = handlers::workspace::create_workspace(
        &mut store,
        &auth,
        WorkspaceCreateDto { name: "Acme".to_string() },
        "invite-other".to_string(),
    )
    .unwrap_err();
    assert_eq!(conflict.status, 409);

    let renamed = handlers::workspace::update_workspace(
        &mut store,
        &auth,
        &ws,
        UpdateRoleDto { name: "Acme Corp".to_string(), description: None, permissions: vec![] },
    )
    .unwrap();
    assert_eq!(renamed.message, "Workspace updated successfully");

    let listing = handlers::workspace::get_all_workspace(&store, &auth);
    assert_eq!(listing.data.workspaces.len(), 1);
    assert_eq!(listing.data.workspaces[0].workspace_name, "Acme Corp");
    assert_eq!(listing.data.workspaces[0].role_name.as_deref(), Some("Admin"));

    let fetched = handlers::workspace::get_workspace_by_id(&store, &auth, ws.workspace_id).unwrap();
    assert_eq!(fetched.data.workspace.name, "Acme Corp");

    let deleted = handlers::workspace::delete_workspace(&mut store, &auth, &ws).unwrap();
    assert_eq!(deleted.message, "Workspace deleted successfully");
    assert!(store.workspaces.is_empty());
    assert!(store.roles.is_empty());
    assert!(store.workspace_users.is_empty());
}

#[test]
fn role_handlers_enforce_validation_and_admin_protection() {
    let mut store = Store::new();
    let user = handlers::auth::register(
        &mut store,
        register_dto("Owner", "owner@example.com"),
        101,
        NOW + 86_400,
    )
    .unwrap();
    let auth = JwtAuthMiddleware { user };
    let created = handlers::workspace::create_workspace(
        &mut store,
        &auth,
        WorkspaceCreateDto { name: "Acme".to_string() },
        "invite-acme".to_string(),
    )
    .unwrap();
    let ws = WorkspaceAuthMiddleware { workspace_id: created.data.workspace.id };

    let bad = handlers::role::create_roles(
        &mut store,
        &auth,
        &ws,
        CreateRoleDto {
            name: "Support".to_string(),
            description: None,
            permissions: vec!["bogus".to_string()],
        },
    )
    .unwrap_err();
    assert_eq!(bad.status, 400);
    assert_eq!(bad.message, "Invalid permissions:bogus");

    handlers::role::create_roles(
        &mut store,
        &auth,
        &ws,
        CreateRoleDto {
            name: "Support".to_string(),
            description: None,
            permissions: vec!["view_members".to_string(), "invite_members".to_string()],
        },
    )
    .unwrap();
    let listed = handlers::role::get_roles(&store, &auth, &ws);
    assert_eq!(listed.roles.len(), 1);
    assert!(listed.roles[0].permissions.contains(&Permission::ViewMembers));
    assert!(listed.roles[0].permissions.contains(&Permission::InviteMembers));
    assert_eq!(listed.roles[0].permissions.len(), 2);

    let admin_id = created.data.role_id;
    let e = handlers::role::update_role(
        &mut store,
        &auth,
        &ws,
        admin_id,
        UpdateRoleDto { name: "Sneaky".to_string(), description: None, permissions: vec![] },
    )
    .unwrap_err();
    assert_eq!(e.status, 500);
    let e = handlers::role::delete_role(&mut store, &auth, &ws, admin_id).unwrap_err();
    assert_eq!(e.status, 500);
}

#[test]
fn member_management_through_handlers() {
    let mut store = Store::new();
    let owner = handlers::auth::register(
        &mut store,
        register_dto("Owner", "owner@example.com"),
        101,
        NOW + 86_400,
    )
    .unwrap();
    let member = handlers::auth::register(
        &mut store,
        register_dto("Member", "member@example.com"),
        102,
        NOW + 86_400,
    )
    .unwrap();
    let owner_auth = JwtAuthMiddleware { user: owner };
    let created = handlers::workspace::create_workspace(
        &mut store,
        &owner_auth,
        WorkspaceCreateDto { name: "Acme".to_string() },
        "invite-acme".to_string(),
    )
    .unwrap();
    let ws = WorkspaceAuthMiddleware { workspace_id: created.data.workspace.id };
    handlers::role::create_roles(
        &mut store,
        &owner_auth,
        &ws,
        CreateRoleDto { name: "Editor".to_string(), description: None, permissions: vec![] },
    )
    .unwrap();
    handlers::role::create_roles(
        &mut store,
        &owner_auth,
        &ws,
        CreateRoleDto { name: "Viewer".to_string(), description: None, permissions: vec![] },
    )
    .unwrap();

    let member_auth = JwtAuthMiddleware { user: member };
    let joined = handlers::workspace_user::join_workspace(
        &mut store,
        &member_auth,
        &"invite-acme".to_string(),
    )
    .unwrap();
    assert_eq!(joined.data.workspace.id, ws.workspace_id);
    assert_eq!(joined.data.role_name, "Editor");

    let again = handlers::workspace_user::join_workspace(
        &mut store,
        &member_auth,
        &"invite-acme".to_string(),
    )
    .unwrap_err();
    assert_eq!(again.status, 400);
    assert_eq!(again.message, "Invalid invite code");

    let reassigned = handlers::workspace_user::update_user_role(
        &mut store,
        &owner_auth,
        &ws,
        member_auth.user.id,
        UpdateUserRoleDto { role_name: "Viewer".to_string() },
    )
    .unwrap();
    assert_eq!(reassigned.message, "User role updated successfully");

    let members = handlers::workspace_user::get_workspace_users(&store, &owner_auth, &ws);
    assert_eq!(members.data.users.len(), 2);

    let removed = handlers::workspace_user::remove_user_from_workspace(
        &mut store,
        &owner_auth,
        &ws,
        member_auth.user.id,
    )
    .unwrap();
    assert_eq!(removed.message, "Removed user from workspace successfully");
    let members = handlers::workspace_user::get_workspace_users(&store, &owner_auth, &ws);
    assert_eq!(members.data.users.len(), 1);
}

#[test]
fn permission_catalog_is_served_in_full() {
    let user = JwtAuthMiddleware {
        user: workspace_kit::models::User {
            id: 1,
            name: "Owner".to_string(),
            email: "owner@example.com".to_string(),
            password: "hash".to_string(),
            email_verified: true,
            pending_email: None,
            pending_email_token: None,
            pending_email_expires_at: None,
        },
    };
    let ws = WorkspaceAuthMiddleware { workspace_id: 1 };
    let resp = handlers::permissions::get_permissions(&user, &ws);
    assert_eq!(resp.data.permissions.len(), 10);
    let names: Vec<&str> = resp.data.permissions.iter().map(|p| p.name.as_str()).collect();
    assert!(names.contains(&"update_workspace"));
    assert!(names.contains(&"manage_roles"));
    assert!(names.contains(&"assign_roles_to_members"));
}
