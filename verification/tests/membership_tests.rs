use workspace_kit::store::{Store, StoreError};

fn store_with_invite() -> (Store, u64) {
    let mut store = Store::new();
    // Owner 1 creates a workspace; user rows for members 1 and 2.
    store
        .save_user(
            "Owner".to_string(),
            "owner@example.com".to_string(),
            "hash-one".to_string(),
            101,
            2_000_000_000,
        )
        .unwrap();
    store
        .save_user(
            "Member".to_string(),
            "member@example.com".to_string(),
            "hash-two".to_string(),
            102,
            2_000_000_000,
        )
        .unwrap();
    let owner = store.users[0].id;
    store
        .create_workspace(&"Acme".to_string(), owner, "invite-acme".to_string())
        .unwrap();
    let ws = store.workspaces.last().unwrap().id;
    (store, ws)
}

#[test]
fn join_assigns_alphabetically_first_non_admin_role() {
    let (mut store, ws) = store_with_invite();
    store
        .create_role(ws, "Viewer".to_string(), None, vec![])
        .unwrap();
    store
        .create_role(ws, "Editor".to_string(), None, vec![])
        .unwrap();
    let member = store.users[1].id;
    let joined = store.join_workspace(member, &"invite-acme".to_string()).unwrap();
    assert_eq!(joined, ws);
    let editor_id = store.get_role_id_by_name(ws, &"Editor".to_string()).unwrap();
    let row = store
        .workspace_users
        .iter()
        .find(|m| m.workspace_id == ws && m.user_id == member)
        .unwrap();
    assert_eq!(row.role_id, editor_id);
}

#[test]
fn second_join_fails_and_leaves_one_membership() {
    let (mut store, ws) = store_with_invite();
    store
        .create_role(ws, "Editor".to_string(), None, vec![])
        .unwrap();
    let member = store.users[1].id;
    store.join_workspace(member, &"invite-acme".to_string()).unwrap();
    let again = store.join_workspace(member, &"invite-acme".to_string());
    assert_eq!(again.unwrap_err(), StoreError::RowNotFound);
    let rows = store
        .workspace_users
        .iter()
        .filter(|m| m.workspace_id == ws && m.user_id == member)
        .count();
    assert_eq!(rows, 1);
}

#[test]
fn join_with_unknown_code_fails() {
    let (mut store, _ws) = store_with_invite();
    let member = store.users[1].id;
    let r = store.join_workspace(member, &"no-such-code".to_string());
    assert_eq!(r.unwrap_err(), StoreError::RowNotFound);
}

#[test]
fn join_without_non_admin_roles_fails() {
    let (mut store, _ws) = store_with_invite();
    let member = store.users[1].id;
    let r = store.join_workspace(member, &"invite-acme".to_string());
    assert_eq!(r.unwrap_err(), StoreError::RowNotFound);
}

#[test]
fn removal_is_idempotent() {
    let (mut store, ws) = store_with_invite();
    store
        .create_role(ws, "Editor".to_string(), None, vec![])
        .unwrap();
    let member = store.users[1].id;
    store.join_workspace(member, &"invite-acme".to_string()).unwrap();
    store.remove_workspace(member, ws).unwrap();
    assert!(!store
        .workspace_users
        .iter()
        .any(|m| m.workspace_id == ws && m.user_id == member));
    // Removing again still succeeds and changes nothing.
    store.remove_workspace(member, ws).unwrap();
}

#[test]
fn member_listing_joins_user_and_role_names() {
    let (mut store, ws) = store_with_invite();
    store
        .create_role(ws, "Editor".to_string(), None, vec![])
        .unwrap();
    let member = store.users[1].id;
    store.join_workspace(member, &"invite-acme".to_string()).unwrap();
    let members = store.get_workspace_users(ws);
    assert_eq!(members.len(), 2);
    let owner_row = members.iter().find(|m| m.user_name == "Owner").unwrap();
    assert_eq!(owner_row.role_name, "Admin");
    let member_row = members.iter().find(|m| m.user_name == "Member").unwrap();
    assert_eq!(member_row.role_name, "Editor");
    assert_eq!(member_row.user_email, "member@example.com");
}

#[test]
fn role_reassignment_overwrites_the_pointer() {
    let (mut store, ws) = store_with_invite();
    store
        .create_role(ws, "Editor".to_string(), None, vec![])
        .unwrap();
    store
        .create_role(ws, "Viewer".to_string(), None, vec![])
        .unwrap();
    let member = store.users[1].id;
    store.join_workspace(member, &"invite-acme".to_string()).unwrap();
    let viewer_id = store.get_role_id_by_name(ws, &"Viewer".to_string()).unwrap();
    store.update_workspace_user_role(ws, member, viewer_id).unwrap();
    let row = store
        .workspace_users
        .iter()
        .find(|m| m.workspace_id == ws && m.user_id == member)
        .unwrap();
    assert_eq!(row.role_id, viewer_id);
}
