use user_service::store::UserStore;
use user_service::user::{apply_update, NewUser, UpdateUser, User};

fn new_user(name: &str, email: &str) -> NewUser {
    NewUser { name: name.to_string(), email: email.to_string() }
}

#[test]
fn list_of_empty_store_is_empty() {
    let store = UserStore::new();
    assert!(store.get_users().is_empty());
}

#[test]
fn create_then_list_contains_exactly_that_user() {
    let mut store = UserStore::new();
    let id = store.create_user(new_user("Ann", "ann@x.com"));
    let users = store.get_users();
    assert_eq!(users.len(), 1);
    assert_eq!(users[0].id, id);
    assert_eq!(users[0].name, "Ann");
    assert_eq!(users[0].email, "ann@x.com");
}

#[test]
fn created_users_get_distinct_ids() {
    let mut store = UserStore::new();
    let a = store.create_user(new_user("Ann", "ann@x.com"));
    let b = store.create_user(new_user("Ann", "ann@x.com"));
    assert_ne!(a, b);
    assert_eq!(store.get_users().len(), 2);
}

#[test]
fn id_of_deleted_user_is_never_reissued() {
    let mut store = UserStore::new();
    let a = store.create_user(new_user("Ann", "ann@x.com"));
    assert!(store.delete_user(a));
    let b = store.create_user(new_user("Bob", "bob@x.com"));
    assert_ne!(a, b);
}

#[test]
fn update_of_missing_id_is_not_found_whatever_the_body() {
    let mut store = UserStore::new();
    let full = UpdateUser {
        name: Some("Ann".to_string()),
        email: Some("ann@x.com".to_string()),
    };
    assert!(store.update_user(7, &full).is_none());
    let empty = UpdateUser { name: None, email: None };
    assert!(store.update_user(7, &empty).is_none());
    assert!(store.get_users().is_empty());
}

#[test]
fn update_with_name_only_keeps_email() {
    let mut store = UserStore::new();
    let id = store.create_user(new_user("Ann", "ann@x.com"));
    let body = UpdateUser { name: Some("Anna".to_string()), email: None };
    let updated = store.update_user(id, &body).unwrap();
    assert_eq!(updated.id, id);
    assert_eq!(updated.name, "Anna");
    assert_eq!(updated.email, "ann@x.com");
}

#[test]
fn update_with_email_only_keeps_name() {
    let mut store = UserStore::new();
    let id = store.create_user(new_user("Ann", "ann@x.com"));
    let body = UpdateUser { name: None, email: Some("ann2@x.com".to_string()) };
    let updated = store.update_user(id, &body).unwrap();
    assert_eq!(updated.id, id);
    assert_eq!(updated.name, "Ann");
    assert_eq!(updated.email, "ann2@x.com");
}

#[test]
fn update_with_neither_field_changes_nothing() {
    let mut store = UserStore::new();
    let id = store.create_user(new_user("Ann", "ann@x.com"));
    let body = UpdateUser { name: None, email: None };
    let updated = store.update_user(id, &body).unwrap();
    assert_eq!(updated.id, id);
    assert_eq!(updated.name, "Ann");
    assert_eq!(updated.email, "ann@x.com");
    let users = store.get_users();
    assert_eq!(users.len(), 1);
    assert_eq!(users[0].name, "Ann");
    assert_eq!(users[0].email, "ann@x.com");
}

#[test]
fn update_with_both_fields_replaces_both() {
    let mut store = UserStore::new();
    let id = store.create_user(new_user("Ann", "ann@x.com"));
    let body = UpdateUser {
        name: Some("Anna".to_string()),
        email: Some("anna@x.com".to_string()),
    };
    let updated = store.update_user(id, &body).unwrap();
    assert_eq!(updated.name, "Anna");
    assert_eq!(updated.email, "anna@x.com");
}

#[test]
fn update_touches_only_the_addressed_row() {
    let mut store = UserStore::new();
    let a = store.create_user(new_user("Ann", "ann@x.com"));
    let b = store.create_user(new_user("Bob", "bob@x.com"));
    let body = UpdateUser { name: Some("Anna".to_string()), email: None };
    store.update_user(a, &body).unwrap();
    let users = store.get_users();
    let bob = users.iter().find(|u| u.id == b).unwrap();
    assert_eq!(bob.name, "Bob");
    assert_eq!(bob.email, "bob@x.com");
}

#[test]
fn delete_removes_the_row_and_a_second_delete_misses() {
    let mut store = UserStore::new();
    let id = store.create_user(new_user("Ann", "ann@x.com"));
    assert!(store.delete_user(id));
    assert!(store.get_users().iter().all(|u| u.id != id));
    assert!(!store.delete_user(id));
}

#[test]
fn delete_of_missing_id_is_not_found() {
    let mut store = UserStore::new();
    store.create_user(new_user("Ann", "ann@x.com"));
    assert!(!store.delete_user(9));
    assert_eq!(store.get_users().len(), 1);
}

#[test]
fn crud_round_trip_scenario() {
    let mut store = UserStore::new();

    let id = store.create_user(new_user("Ann", "ann@x.com"));

    let users = store.get_users();
    assert_eq!(users.len(), 1);
    assert_eq!(users[0].id, id);
    assert_eq!(users[0].name, "Ann");
    assert_eq!(users[0].email, "ann@x.com");

    let body = UpdateUser { name: None, email: Some("ann2@x.com".to_string()) };
    let updated = store.update_user(id, &body).unwrap();
    assert_eq!(updated.id, id);
    assert_eq!(updated.name, "Ann");
    assert_eq!(updated.email, "ann2@x.com");

    assert!(store.delete_user(id));
    assert!(store.get_users().iter().all(|u| u.id != id));
    assert!(!store.delete_user(id));
}

#[test]
fn apply_update_replaces_exactly_the_supplied_fields() {
    let row = User { id: 3, name: "Ann".to_string(), email: "ann@x.com".to_string() };
    let body = UpdateUser { name: Some("Anna".to_string()), email: None };
    let out = apply_update(&row, &body);
    assert_eq!(out.id, 3);
    assert_eq!(out.name, "Anna");
    assert_eq!(out.email, "ann@x.com");
    assert_eq!(row.name, "Ann");
}

#[test]
fn duplicate_copies_every_field() {
    let row = User { id: 5, name: "Bob".to_string(), email: "bob@x.com".to_string() };
    let copy = row.duplicate();
    assert_eq!(copy.id, 5);
    assert_eq!(copy.name, "Bob");
    assert_eq!(copy.email, "bob@x.com");
}
