use concurrency::users::{Users, UsersImpl};

#[test]
fn should_create_user() {
    let mut user_service = UsersImpl::default();
    user_service
        .create_user("username".to_owned(), "password".to_owned())
        .expect("should create user");

    assert_eq!(user_service.user_count(), 1);
    assert_eq!(user_service.user_count(), 1);
}

#[test]
fn should_fail_creating_user_with_existing_username() {
    let mut user_service = UsersImpl::default();
    user_service
        .create_user("username".to_owned(), "password".to_owned())
        .expect("should create user");

    let result = user_service.create_user("username".to_owned(), "password".to_owned());

    assert!(result.is_err());
}

#[test]
fn should_retrieve_user_uuid() {
    let mut user_service = UsersImpl::default();
    user_service
        .create_user("username".to_owned(), "password".to_owned())
        .expect("should create user");

    assert!(user_service
        .get_user_uuid("username".to_owned(), "password".to_owned())
        .is_some());
}

#[test]
fn should_fail_to_retrieve_user_uuid_with_incorrect_password() {
    let mut user_service = UsersImpl::default();
    user_service
        .create_user("username".to_owned(), "password".to_owned())
        .expect("should create user");

    assert!(user_service
        .get_user_uuid("username".to_owned(), "incorrect password".to_owned())
        .is_none());
}

#[test]
fn should_delete_user() {
    let mut user_service = UsersImpl::default();
    user_service
        .create_user("username".to_owned(), "password".to_owned())
        .expect("should create user");

    let user_uuid = user_service
        .get_user_uuid("username".to_owned(), "password".to_owned())
        .unwrap();

    user_service.delete_user(user_uuid);

    assert_eq!(user_service.user_count(), 0);
    assert_eq!(user_service.user_count(), 0);
}

// The duplicate-username refusal carries the exact message the
// contract states.
#[test]
fn duplicate_username_message_is_exact() {
    let mut user_service = UsersImpl::new();
    user_service
        .create_user("toto".to_owned(), "secret".to_owned())
        .expect("should create user");
    let result = user_service.create_user("toto".to_owned(), "other".to_owned());
    assert_eq!(result.unwrap_err(), "User toto already exists");
    assert_eq!(user_service.user_count(), 1);
}

// The identifier handed back by a lookup is the 36-character
// hyphenated form a fresh identifier is created in.
#[test]
fn user_uuid_has_hyphenated_length() {
    let mut user_service = UsersImpl::new();
    user_service
        .create_user("username".to_owned(), "password".to_owned())
        .expect("should create user");
    let user_uuid = user_service
        .get_user_uuid("username".to_owned(), "password".to_owned())
        .unwrap();
    assert_eq!(user_uuid.len(), 36);
}

// A deleted user can no longer be looked up, while others survive.
#[test]
fn delete_removes_only_that_user() {
    let mut user_service = UsersImpl::new();
    user_service
        .create_user("first".to_owned(), "pw1".to_owned())
        .expect("should create user");
    user_service
        .create_user("second".to_owned(), "pw2".to_owned())
        .expect("should create user");
    let uuid = user_service
        .get_user_uuid("first".to_owned(), "pw1".to_owned())
        .unwrap();
    user_service.delete_user(uuid);
    assert_eq!(user_service.user_count(), 1);
    assert!(user_service
        .get_user_uuid("first".to_owned(), "pw1".to_owned())
        .is_none());
    assert!(user_service
        .get_user_uuid("second".to_owned(), "pw2".to_owned())
        .is_some());
}
