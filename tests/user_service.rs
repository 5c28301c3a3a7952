use capture_api::ids::uuid_string;
use capture_api::crypto_utils::{hash_password, verify_password, HashError};
use capture_api::user_dto::{get_user_dto, get_user_from_dto, UserCreateDto};
use capture_api::user_service::{validate_create_input, UserService, UserServiceError};

fn input(username: &str, password: &str) -> UserCreateDto {
    UserCreateDto { id: None, username: username.to_string(), password: password.to_string() }
}

#[test]
fn create_read_delete_scenario() {
    let mut service = UserService::new(true);
    let created = service.create_user(input("jane", "pw1")).unwrap();
    let dto = get_user_dto(created.clone());
    assert_eq!(dto.username, "jane");
    assert_eq!(dto.id, created.id);

    let read = get_user_dto(service.read_user(created.id).unwrap());
    assert_eq!(read.id, dto.id);
    assert_eq!(read.username, "jane");

    let deleted = service.delete_user(created.id).unwrap();
    assert_eq!(deleted.username, "jane");

    let err = service.read_user(created.id).unwrap_err();
    assert!(matches!(err, UserServiceError::UserNotFound(id) if id == created.id));
    assert_eq!(err.status_code(), 404);
    assert_eq!(
        err.message(),
        format!("User with id {} not found", uuid::Uuid::from_u128(created.id))
    );
}

#[test]
fn not_found_message_uses_hyphenated_uuid() {
    let err = UserServiceError::UserNotFound(0);
    assert_eq!(err.message(), "User with id 00000000-0000-0000-0000-000000000000 not found");
    let err = UserServiceError::UserNotFound(0x0123456789abcdef0123456789abcdef);
    assert_eq!(err.message(), "User with id 01234567-89ab-cdef-0123-456789abcdef not found");
}

#[test]
fn create_then_read_keeps_name_and_hashes_password() {
    let mut service = UserService::new(true);
    let a = service.create_user(input("jane", "pw1")).unwrap();
    let b = service.create_user(input("john", "pw1")).unwrap();
    assert_eq!(service.read_user(b.id).unwrap().id, b.id);
    assert_eq!(a.id, 0);
    assert_eq!(b.id, 1);
    let read = service.read_user(a.id).unwrap();
    assert_eq!(read.username, "jane");
    assert_ne!(read.password_hash, "pw1");
    assert!(read.password_hash.starts_with('$'));
    assert!(verify_password("pw1", &read.password_hash));
    assert!(!verify_password("pw2", &read.password_hash));
    assert_ne!(a.password_hash, b.password_hash);
}

#[test]
fn client_id_is_ignored_by_positional_store() {
    let mut service = UserService::new(true);
    let request = UserCreateDto { id: Some(42), username: "jane".to_string(), password: "pw".to_string() };
    let created = service.create_user(request).unwrap();
    assert_eq!(created.id, 0);
}

#[test]
fn empty_username_is_invalid_input() {
    let mut service = UserService::new(true);
    let err = service.create_user(input("", "pw")).unwrap_err();
    assert!(matches!(err, UserServiceError::InvalidInput));
    assert_eq!(err.status_code(), 400);
    assert_eq!(err.message(), "Invalid input");
    assert!(service.list_users().unwrap().is_empty());
}

#[test]
fn delete_twice_is_not_found() {
    let mut service = UserService::new(true);
    let created = service.create_user(input("jane", "pw")).unwrap();
    assert!(service.delete_user(created.id).is_ok());
    assert!(matches!(service.read_user(created.id), Err(UserServiceError::UserNotFound(0))));
    assert!(matches!(service.delete_user(created.id), Err(UserServiceError::UserNotFound(0))));
}

#[test]
fn delete_keeps_other_ids() {
    let mut service = UserService::new(true);
    let a = service.create_user(input("a", "pw")).unwrap();
    let b = service.create_user(input("b", "pw")).unwrap();
    service.delete_user(a.id).unwrap();
    assert_eq!(service.read_user(b.id).unwrap().username, "b");
    let c = service.create_user(input("c", "pw")).unwrap();
    assert_eq!(c.id, 2);
    let names: Vec<String> = service.list_users().unwrap().into_iter().map(|u| u.username).collect();
    assert_eq!(names, vec!["b".to_string(), "c".to_string()]);
}

#[test]
fn list_of_empty_store_is_empty() {
    let service = UserService::new(true);
    assert!(service.list_users().unwrap().is_empty());
}

#[test]
fn read_of_unknown_id_is_not_found() {
    let service = UserService::new(true);
    assert!(matches!(service.read_user(7), Err(UserServiceError::UserNotFound(7))));
}

#[test]
fn many_creates_get_distinct_ids_and_are_listed() {
    let mut service = UserService::new(true);
    let mut ids = Vec::new();
    for i in 0..8 {
        let u = service.create_user(input(&format!("user{}", i), "pw")).unwrap();
        ids.push(u.id);
    }
    let mut sorted = ids.clone();
    sorted.dedup();
    assert_eq!(sorted.len(), 8);
    let listed: Vec<u128> = service.list_users().unwrap().into_iter().map(|u| u.id).collect();
    assert_eq!(listed, ids);
}

#[test]
fn service_without_backend_fails_internally() {
    let mut service = UserService::new(false);
    assert!(matches!(service.create_user(input("jane", "pw")), Err(UserServiceError::InternalServerError)));
    assert!(matches!(service.read_user(0), Err(UserServiceError::InternalServerError)));
    assert!(matches!(service.list_users(), Err(UserServiceError::InternalServerError)));
    assert!(matches!(service.delete_user(0), Err(UserServiceError::InternalServerError)));
    let err = UserServiceError::InternalServerError;
    assert_eq!(err.status_code(), 500);
    assert_eq!(err.message(), "Internal server error");
}

#[test]
fn create_with_failed_hash_writes_nothing() {
    let mut service = UserService::new(true);
    let r = service.create_user_with_hash(input("jane", "pw"), Err(HashError::HashingFailed));
    assert!(matches!(r, Err(UserServiceError::InternalServerError)));
    assert!(service.list_users().unwrap().is_empty());
    let ok = service.create_user_with_hash(input("jane", "pw"), Ok("$h".to_string())).unwrap();
    assert_eq!(ok.password_hash, "$h");
    assert_eq!(ok.id, 0);
}

#[test]
fn database_error_messages() {
    let e = UserServiceError::DatabaseError("boom".to_string());
    assert_eq!(e.message(), "Database error");
    assert_eq!(e.status_code(), 500);
    let e = UserServiceError::ConstraintViolation("dup".to_string());
    assert_eq!(e.message(), "Constraint violation");
    assert_eq!(e.status_code(), 400);
}

#[test]
fn projection_has_id_and_name_only() {
    let request = UserCreateDto { id: Some(5), username: "jane".to_string(), password: "pw".to_string() };
    let user = get_user_from_dto(request, "$hash".to_string()).unwrap();
    assert_eq!(user.id, 5);
    assert_eq!(user.password_hash, "$hash");
    let dto = get_user_dto(user);
    assert_eq!(dto.id, 5);
    assert_eq!(dto.username, "jane");
}

#[test]
fn generated_ids_differ() {
    let a = get_user_from_dto(input("a", "pw"), "h".to_string()).unwrap();
    let b = get_user_from_dto(input("b", "pw"), "h".to_string()).unwrap();
    assert_ne!(a.id, b.id);
    assert_eq!(uuid::Uuid::from_u128(a.id).get_version_num(), 4);
    assert_eq!(uuid::Uuid::from_u128(a.id).get_variant(), uuid::Variant::RFC4122);
}

#[test]
fn hash_and_verify() {
    let h1 = hash_password("secret").ok().unwrap();
    let h2 = hash_password("secret").ok().unwrap();
    assert_ne!(h1, "secret");
    assert_ne!(h1, h2);
    assert!(h1.starts_with("$argon2"));
    assert!(verify_password("secret", &h1));
    assert!(verify_password("secret", &h2));
    assert!(!verify_password("other", &h1));
    assert!(!verify_password("secret", "not a hash"));
}

#[test]
fn uuid_text_matches_uuid_crate() {
    for v in [0u128, 1, u128::MAX, 0x0123456789abcdef0123456789abcdef, 0xa1b2c3d4_e5f6_0718_293a_4b5c6d7e8f90] {
        assert_eq!(uuid_string(v), uuid::Uuid::from_u128(v).to_string());
    }
}

#[test]
fn validate_rejects_only_empty_name() {
    assert!(matches!(validate_create_input(&input("", "pw")), Err(UserServiceError::InvalidInput)));
    assert!(validate_create_input(&input("jane", "")).is_ok());
}
