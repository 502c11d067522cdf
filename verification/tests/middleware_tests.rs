use workspace_kit::middleware::jwt_auth_middleware::JwtAuthMiddleware;
use workspace_kit::middleware::workspace_middleware::RequirePermission;
use workspace_kit::permissions::Permission;
use workspace_kit::store::Store;
use workspace_kit::token::create_token;

const SECRET: &[u8] = b"test-signing-secret";
const NOW: u64 = 1_700_000_000;

fn store_with_user() -> (Store, u64) {
    let mut store = Store::new();
    store
        .save_user(
            "Owner".to_string(),
            "owner@example.com".to_string(),
            "stored-hash".to_string(),
            101,
            NOW + 86_400,
        )
        .unwrap();
    let id = store.users[0].id;
    (store, id)
}

#[test]
fn request_without_cookie_or_header_is_token_not_provided() {
    let (store, _id) = store_with_user();
    let e = store.auth_middleware(None, None, SECRET, NOW).unwrap_err();
    assert_eq!(e.status, 401);
    assert_eq!(e.message, "TokenNotProvided");
}

#[test]
fn non_bearer_header_is_token_not_provided() {
    let (store, _id) = store_with_user();
    let header = "Basic dXNlcjpwdw==".to_string();
    let e = store
        .auth_middleware(None, Some(&header), SECRET, NOW)
        .unwrap_err();
    assert_eq!(e.message, "TokenNotProvided");
}

#[test]
fn cookie_token_resolves_the_user() {
    let (store, id) = store_with_user();
    let token = create_token(&id.to_string(), SECRET, 3600, NOW).unwrap();
    let auth = store.auth_middleware(Some(&token), None, SECRET, NOW).unwrap();
    assert_eq!(auth.user.id, id);
    assert_eq!(auth.user.email, "owner@example.com");
}

#[test]
fn bearer_header_resolves_the_user() {
    let (store, id) = store_with_user();
    let token = create_token(&id.to_string(), SECRET, 3600, NOW).unwrap();
    let header = format!("Bearer {}", token);
    let auth = store.auth_middleware(None, Some(&header), SECRET, NOW).unwrap();
    assert_eq!(auth.user.id, id);
}

#[test]
fn garbage_token_is_invalid_token() {
    let (store, _id) = store_with_user();
    let cookie = "garbage".to_string();
    let e = store
        .auth_middleware(Some(&cookie), None, SECRET, NOW)
        .unwrap_err();
    assert_eq!(e.message, "InvalidToken");
}

#[test]
fn deleted_account_is_user_no_longer_exists() {
    let (mut store, id) = store_with_user();
    let token = create_token(&id.to_string(), SECRET, 3600, NOW).unwrap();
    store.users.clear();
    let e = store
        .auth_middleware(Some(&token), None, SECRET, NOW)
        .unwrap_err();
    assert_eq!(e.message, "UserNoLongerExists");
}

#[test]
fn missing_workspace_cookie_is_unauthorized() {
    let (mut store, id) = store_with_user();
    store
        .create_workspace(&"Acme".to_string(), id, "invite-acme".to_string())
        .unwrap();
    let auth = JwtAuthMiddleware { user: store.users[0].clone() };
    let e = store
        .workspace_permission_middleware(&auth, None, RequirePermission(Permission::ViewRoles))
        .unwrap_err();
    assert_eq!(e.status, 401);
    assert_eq!(e.message, "Workspace id not found");
}

#[test]
fn malformed_workspace_cookie_is_unauthorized() {
    let (store, _id) = store_with_user();
    let auth = JwtAuthMiddleware { user: store.users[0].clone() };
    let cookie = "not-a-number".to_string();
    let e = store
        .workspace_permission_middleware(&auth, Some(&cookie), RequirePermission(Permission::ViewRoles))
        .unwrap_err();
    assert_eq!(e.message, "Invalid workspace id");
}

#[test]
fn owner_passes_every_gate_through_the_admin_role() {
    let (mut store, id) = store_with_user();
    store
        .create_workspace(&"Acme".to_string(), id, "invite-acme".to_string())
        .unwrap();
    let ws = store.workspaces.last().unwrap().id;
    let auth = JwtAuthMiddleware { user: store.users[0].clone() };
    let cookie = ws.to_string();
    let resolved = store
        .workspace_permission_middleware(&auth, Some(&cookie), RequirePermission(Permission::ManageRoles))
        .unwrap();
    assert_eq!(resolved.workspace_id, ws);
}

#[test]
fn caller_without_manage_roles_is_denied_whatever_the_target() {
    let (mut store, id) = store_with_user();
    store
        .save_user(
            "Member".to_string(),
            "member@example.com".to_string(),
            "stored-hash".to_string(),
            102,
            NOW + 86_400,
        )
        .unwrap();
    let member = store.users[1].id;
    store
        .create_workspace(&"Acme".to_string(), id, "invite-acme".to_string())
        .unwrap();
    let ws = store.workspaces.last().unwrap().id;
    store
        .create_role(ws, "Viewer".to_string(), None, vec!["view_roles".to_string()])
        .unwrap();
    store.join_workspace(member, &"invite-acme".to_string()).unwrap();
    let auth = JwtAuthMiddleware { user: store.users[1].clone() };
    let cookie = ws.to_string();
    // The manage-roles gate in front of create, update and delete denies
    // before any target role is even looked at.
    let e = store
        .workspace_permission_middleware(&auth, Some(&cookie), RequirePermission(Permission::ManageRoles))
        .unwrap_err();
    assert_eq!(e.status, 401);
    assert_eq!(e.message, "PermissionDenied");
    // The permission the role does hold passes.
    assert!(store
        .workspace_permission_middleware(&auth, Some(&cookie), RequirePermission(Permission::ViewRoles))
        .is_ok());
}

#[test]
fn non_member_resolution_is_a_server_error() {
    let (mut store, id) = store_with_user();
    store
        .create_workspace(&"Acme".to_string(), id, "invite-acme".to_string())
        .unwrap();
    let auth = JwtAuthMiddleware { user: store.users[0].clone() };
    let cookie = "999".to_string();
    let e = store
        .workspace_permission_middleware(&auth, Some(&cookie), RequirePermission(Permission::ViewRoles))
        .unwrap_err();
    assert_eq!(e.status, 500);
    assert_eq!(e.message, "ServerError");
}
