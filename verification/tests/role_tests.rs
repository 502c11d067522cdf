use workspace_kit::permissions::Permission;
use workspace_kit::store::{Store, StoreError};

fn store_with_workspace() -> (Store, u64) {
    let mut store = Store::new();
    store
        .create_workspace(&"Acme".to_string(), 1, "invite-acme".to_string())
        .unwrap();
    let ws = store.workspaces.last().unwrap().id;
    (store, ws)
}

fn admin_role_id(store: &Store, ws: u64) -> u64 {
    store
        .roles
        .iter()
        .find(|r| r.workspace_id == ws && r.name == "Admin")
        .unwrap()
        .id
}

#[test]
fn admin_role_is_never_listed() {
    let (mut store, ws) = store_with_workspace();
    store
        .create_role(ws, "Editor".to_string(), None, vec!["view_roles".to_string()])
        .unwrap();
    let listed = store.get_role_with_permissions(ws);
    assert_eq!(listed.len(), 1);
    assert!(listed.iter().all(|r| r.name != "Admin"));
}

#[test]
fn update_and_delete_against_admin_always_fail() {
    let (mut store, ws) = store_with_workspace();
    let admin = admin_role_id(&store, ws);
    let r = store.update_role(ws, admin, "Renamed".to_string(), None, vec![]);
    assert_eq!(r.unwrap_err(), StoreError::RowNotFound);
    let r = store.delete_role(ws, admin);
    assert_eq!(r.unwrap_err(), StoreError::RowNotFound);
    // The Admin role is still there, untouched.
    assert_eq!(admin_role_id(&store, ws), admin);
}

#[test]
fn created_role_lists_exactly_its_permissions() {
    let (mut store, ws) = store_with_workspace();
    store
        .create_role(
            ws,
            "Support".to_string(),
            Some("helpers".to_string()),
            vec!["view_members".to_string(), "invite_members".to_string()],
        )
        .unwrap();
    let listed = store.get_role_with_permissions(ws);
    assert_eq!(listed.len(), 1);
    let role = &listed[0];
    assert_eq!(role.name, "Support");
    let mut perms = role.permissions.clone();
    perms.sort_by_key(|p| format!("{:?}", p));
    let mut expected = vec![Permission::ViewMembers, Permission::InviteMembers];
    expected.sort_by_key(|p| format!("{:?}", p));
    assert_eq!(perms, expected);
}

#[test]
fn update_replaces_permissions_not_union() {
    let (mut store, ws) = store_with_workspace();
    store
        .create_role(
            ws,
            "Support".to_string(),
            None,
            vec!["view_members".to_string(), "invite_members".to_string()],
        )
        .unwrap();
    let role_id = store.get_role_id_by_name(ws, &"Support".to_string()).unwrap();
    store
        .update_role(
            ws,
            role_id,
            "Support".to_string(),
            None,
            vec!["manage_roles".to_string()],
        )
        .unwrap();
    let listed = store.get_role_with_permissions(ws);
    assert_eq!(listed.len(), 1);
    assert_eq!(listed[0].permissions, vec![Permission::ManageRoles]);
}

#[test]
fn unknown_permission_names_contribute_nothing() {
    let (mut store, ws) = store_with_workspace();
    store
        .create_role(
            ws,
            "Ghost".to_string(),
            None,
            vec!["no_such_permission".to_string(), "view_roles".to_string()],
        )
        .unwrap();
    let listed = store.get_role_with_permissions(ws);
    assert_eq!(listed[0].permissions, vec![Permission::ViewRoles]);
}

#[test]
fn role_name_lookup_reports_missing_names() {
    let (store, ws) = store_with_workspace();
    let r = store.get_role_id_by_name(ws, &"Nobody".to_string());
    assert_eq!(r.unwrap_err(), StoreError::RowNotFound);
}

#[test]
fn deleting_a_role_removes_it_and_its_links() {
    let (mut store, ws) = store_with_workspace();
    store
        .create_role(ws, "Temp".to_string(), None, vec!["view_roles".to_string()])
        .unwrap();
    let role_id = store.get_role_id_by_name(ws, &"Temp".to_string()).unwrap();
    store.delete_role(ws, role_id).unwrap();
    assert!(store.get_role_with_permissions(ws).is_empty());
    assert!(store.role_permissions.iter().all(|l| l.role_id != role_id));
}
