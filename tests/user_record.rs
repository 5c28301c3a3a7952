use capture_api::crypto_utils::{verify_password, HashError};
use capture_api::user_dto::UserCreateDto;
use capture_api::user_record::{
    db_failure, delete_outcome, find_outcome, insert_outcome, list_outcome, map_db_error,
    prepare_insert, prepare_insert_with_hash, DbFailure, UserRecord,
};
use capture_api::user_service::UserServiceError;

fn record(id: u128, name: &str) -> UserRecord {
    UserRecord { id, username: name.to_string(), password_hash: "$h".to_string() }
}

fn request(id: Option<u128>, name: &str) -> UserCreateDto {
    UserCreateDto { id, username: name.to_string(), password: "pw1".to_string() }
}

#[test]
fn prepare_keeps_client_id_and_hashes() {
    let r = prepare_insert(request(Some(77), "jane")).unwrap();
    assert_eq!(r.id, 77);
    assert_eq!(r.username, "jane");
    assert!(verify_password("pw1", &r.password_hash));
    let generated = prepare_insert(request(None, "jane")).unwrap();
    assert_eq!(uuid::Uuid::from_u128(generated.id).get_version_num(), 4);
}

#[test]
fn prepare_rejects_empty_name_and_failed_hash() {
    assert!(matches!(prepare_insert(request(None, "")), Err(UserServiceError::InvalidInput)));
    let r = prepare_insert_with_hash(request(Some(1), "jane"), Err(HashError::HashingFailed));
    assert!(matches!(r, Err(UserServiceError::InternalServerError)));
    let r = prepare_insert_with_hash(request(Some(1), "jane"), Ok("$x".to_string())).unwrap();
    assert_eq!(r.password_hash, "$x");
}

#[test]
fn insert_and_find_outcomes() {
    let u = insert_outcome(Ok(record(3, "jane"))).unwrap();
    assert_eq!((u.id, u.username.as_str(), u.password_hash.as_str()), (3, "jane", "$h"));
    let u = find_outcome(3, Ok(Some(record(3, "jane")))).unwrap();
    assert_eq!(u.username, "jane");
    assert!(matches!(find_outcome(9, Ok(None)), Err(UserServiceError::UserNotFound(9))));
}

fn failure(constraint: bool, detail: &str) -> DbFailure {
    DbFailure { constraint, detail: detail.to_string() }
}

#[test]
fn driver_errors_are_wrapped() {
    let f = db_failure(sea_orm::DbErr::Custom("down".to_string()));
    assert!(!f.constraint);
    assert!(f.detail.contains("down"));
    match map_db_error(f) {
        UserServiceError::DatabaseError(text) => assert!(text.contains("down")),
        other => panic!("unexpected {:?}", other),
    }
    match map_db_error(failure(true, "duplicate key")) {
        UserServiceError::ConstraintViolation(text) => assert_eq!(text, "duplicate key"),
        other => panic!("unexpected {:?}", other),
    }
    assert!(matches!(
        insert_outcome(Err(failure(true, "dup"))),
        Err(UserServiceError::ConstraintViolation(ref t)) if t == "dup"
    ));
    assert!(matches!(
        find_outcome(1, Err(failure(false, "x"))),
        Err(UserServiceError::DatabaseError(ref t)) if t == "x"
    ));
    assert!(matches!(
        list_outcome(Err(failure(false, "x"))),
        Err(UserServiceError::DatabaseError(_))
    ));
}

#[test]
fn find_outcome_rejects_row_with_other_id() {
    assert!(matches!(find_outcome(3, Ok(Some(record(4, "x")))), Err(UserServiceError::UserNotFound(3))));
}

#[test]
fn list_keeps_row_order() {
    let users = list_outcome(Ok(vec![record(2, "b"), record(1, "a")])).unwrap();
    let ids: Vec<u128> = users.iter().map(|u| u.id).collect();
    assert_eq!(ids, vec![2, 1]);
    assert!(list_outcome(Ok(vec![])).unwrap().is_empty());
}

#[test]
fn delete_outcomes() {
    let u = delete_outcome(4, record(4, "d"), Ok(1)).unwrap();
    assert_eq!(u.username, "d");
    assert!(matches!(delete_outcome(4, record(4, "d"), Ok(0)), Err(UserServiceError::UserNotFound(4))));
    assert!(matches!(
        delete_outcome(4, record(4, "d"), Err(failure(false, "x"))),
        Err(UserServiceError::DatabaseError(_))
    ));
}
