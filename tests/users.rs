use conduit::models::{NewUser, User};
use conduit::users::{find, find_by_email_password, insert, Repo, StoreError};

fn new_user(email: &str, username: &str, password: &str) -> NewUser {
    NewUser {
        email: email.to_string(),
        username: username.to_string(),
        password: password.to_string(),
    }
}

fn same_user(a: &User, b: &User) -> bool {
    a.id == b.id
        && a.email == b.email
        && a.username == b.username
        && a.password == b.password
        && a.token == b.token
}

#[test]
fn test_create_user() {
    let mut repo = Repo::new();
    let user = insert(&mut repo, new_user("jake@jake.jake", "jake", "jakejake")).unwrap();
    let results = find(&repo, user.id);
    assert!(results.is_ok());
}

#[test]
fn test_authenticate_user() {
    let mut repo = Repo::new();
    let user = insert(&mut repo, new_user("jake@jake.jake", "jake", "jakejake")).unwrap();
    let results = find_by_email_password(&repo, user.email, user.password);
    assert!(results.is_ok());
}

#[test]
fn insert_assigns_fresh_ids_and_find_returns_the_row() {
    let mut repo = Repo::new();
    let first = insert(&mut repo, new_user("a@x.com", "alice", "secret")).unwrap();
    let second = insert(&mut repo, new_user("b@x.com", "bob", "hunter2")).unwrap();
    assert_eq!(first.id, 1);
    assert_eq!(second.id, 2);
    assert_eq!(repo.len(), 2);
    let found = find(&repo, second.id).unwrap();
    assert_eq!(found.email, "b@x.com");
    assert_eq!(found.username, "bob");
    assert_eq!(found.password, "hunter2");
    assert_eq!(found.token, None);
    assert!(same_user(&found, &second));
}

#[test]
fn insert_rejects_a_taken_email() {
    let mut repo = Repo::new();
    insert(&mut repo, new_user("a@x.com", "alice", "secret")).unwrap();
    let again = insert(&mut repo, new_user("a@x.com", "other", "other"));
    assert!(matches!(again, Err(StoreError::UniqueViolation)));
    assert_eq!(repo.len(), 1);
}

#[test]
fn find_unknown_id_is_not_found() {
    let mut repo = Repo::new();
    assert!(matches!(find(&repo, 1), Err(StoreError::NotFound)));
    insert(&mut repo, new_user("a@x.com", "alice", "secret")).unwrap();
    assert!(matches!(find(&repo, 2), Err(StoreError::NotFound)));
    assert!(matches!(find(&repo, 0), Err(StoreError::NotFound)));
    assert!(matches!(find(&repo, -5), Err(StoreError::NotFound)));
}

#[test]
fn find_by_credentials_matches_exactly() {
    let mut repo = Repo::new();
    let alice = insert(&mut repo, new_user("a@x.com", "alice", "secret")).unwrap();
    insert(&mut repo, new_user("b@x.com", "bob", "secret")).unwrap();
    let found = find_by_email_password(&repo, "a@x.com".to_string(), "secret".to_string()).unwrap();
    assert!(same_user(&found, &alice));
    let wrong = find_by_email_password(&repo, "a@x.com".to_string(), "Secret".to_string());
    assert!(matches!(wrong, Err(StoreError::NotFound)));
    let unknown = find_by_email_password(&repo, "c@x.com".to_string(), "secret".to_string());
    assert!(matches!(unknown, Err(StoreError::NotFound)));
    let empty = find_by_email_password(&repo, String::new(), String::new());
    assert!(matches!(empty, Err(StoreError::NotFound)));
}

#[test]
fn repeated_find_returns_identical_data() {
    let mut repo = Repo::new();
    let user = insert(&mut repo, new_user("a@x.com", "alice", "secret")).unwrap();
    let once = find(&repo, user.id).unwrap();
    let twice = find(&repo, user.id).unwrap();
    assert!(same_user(&once, &twice));
    assert_eq!(repo.len(), 1);
}

#[test]
fn empty_strings_are_stored_as_given() {
    let mut repo = Repo::new();
    let user = insert(&mut repo, new_user("", "", "")).unwrap();
    let found = find_by_email_password(&repo, String::new(), String::new()).unwrap();
    assert!(same_user(&found, &user));
}

#[test]
fn copy_keeps_every_field() {
    let user = User {
        id: 7,
        email: "a@x.com".to_string(),
        username: "alice".to_string(),
        password: "secret".to_string(),
        token: Some("t".to_string()),
    };
    assert!(same_user(&user.copy(), &user));
}
