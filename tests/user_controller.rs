use capture_api::user_controller::{UserController, UserControllerError};
use capture_api::user_model::UserForCreate;

fn named(name: &str) -> UserForCreate {
    UserForCreate { username: name.to_string() }
}

#[test]
fn controller_create_read_list_delete() {
    let mut c = UserController::new().unwrap();
    let a = c.create_user(named("jane")).unwrap();
    let b = c.create_user(named("john")).unwrap();
    assert_eq!(a.id, 0);
    assert_eq!(b.id, 1);
    assert_eq!(c.read_user(1).unwrap().username, "john");
    let names: Vec<String> = c.list_users().unwrap().into_iter().map(|u| u.username).collect();
    assert_eq!(names, vec!["jane".to_string(), "john".to_string()]);
    assert_eq!(c.delete_user(0).unwrap().username, "jane");
    assert!(matches!(c.read_user(0), Err(UserControllerError::UserNotFound(0))));
    assert!(matches!(c.delete_user(0), Err(UserControllerError::UserNotFound(0))));
    assert_eq!(c.list_users().unwrap().len(), 1);
}

#[test]
fn controller_read_past_end_is_not_found() {
    let c = UserController::new().unwrap();
    let err = c.read_user(5).unwrap_err();
    assert_eq!(err.message(), "User with id 5 not found");
    assert_eq!(err.status_code(), 404);
    assert!(c.list_users().unwrap().is_empty());
}

#[test]
fn controller_rejects_empty_name() {
    let mut c = UserController::new().unwrap();
    let err = c.create_user(named("")).unwrap_err();
    assert!(matches!(err, UserControllerError::InvalidInput));
    assert_eq!(err.status_code(), 400);
    assert_eq!(err.message(), "Invalid input");
}

#[test]
fn controller_error_messages() {
    assert_eq!(UserControllerError::UserNotFound(1234567890).message(), "User with id 1234567890 not found");
    assert_eq!(UserControllerError::InternalServerError.message(), "Internal server error");
    assert_eq!(UserControllerError::InternalServerError.status_code(), 500);
}

#[test]
fn controller_ids_match_slots_after_delete() {
    let mut c = UserController::new().unwrap();
    for name in ["a", "b", "c"] {
        c.create_user(named(name)).unwrap();
    }
    c.delete_user(1).unwrap();
    let listed: Vec<(u64, String)> = c.list_users().unwrap().into_iter().map(|u| (u.id, u.username)).collect();
    assert_eq!(listed, vec![(0, "a".to_string()), (2, "c".to_string())]);
    let d = c.create_user(named("d")).unwrap();
    assert_eq!(d.id, 3);
    assert_eq!(c.read_user(3).unwrap().id, 3);
}
