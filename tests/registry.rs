use capture_api::service::{Service, ServiceProvider, ServiceType};
use capture_api::user_dto::UserCreateDto;
use capture_api::user_service::UserService;

#[test]
fn register_then_resolve() {
    let mut provider = ServiceProvider::new();
    let mut service = UserService::new(true);
    service
        .create_user(UserCreateDto { id: None, username: "jane".to_string(), password: "pw".to_string() })
        .unwrap();
    provider.add_service(ServiceType::UserService(service));
    let resolved = provider.get_service("UserService");
    match resolved {
        Some(ServiceType::UserService(s)) => {
            assert_eq!(s.name(), "UserService");
            let users = s.list_users().unwrap();
            assert_eq!(users.len(), 1);
            assert_eq!(users[0].username, "jane");
        }
        None => panic!("UserService was registered"),
    }
}

#[test]
fn resolve_unknown_name_is_none() {
    let mut provider = ServiceProvider::new();
    assert!(provider.get_service("Nonexistent").is_none());
    provider.add_service(ServiceType::UserService(UserService::new(true)));
    assert!(provider.get_service("Nonexistent").is_none());
    assert!(provider.get_service("UserService").is_some());
}

#[test]
fn register_replaces_same_name() {
    let mut provider = ServiceProvider::new();
    provider.add_service(ServiceType::UserService(UserService::new(false)));
    provider.add_service(ServiceType::UserService(UserService::new(true)));
    match provider.get_service("UserService") {
        Some(ServiceType::UserService(s)) => assert!(s.list_users().is_ok()),
        None => panic!("UserService was registered"),
    }
}

#[test]
fn resolved_copy_is_independent() {
    let mut provider = ServiceProvider::new();
    provider.add_service(ServiceType::UserService(UserService::new(true)));
    if let Some(ServiceType::UserService(mut s)) = provider.get_service("UserService") {
        s.create_user(UserCreateDto { id: None, username: "a".to_string(), password: "pw".to_string() })
            .unwrap();
    }
    match provider.get_service("UserService") {
        Some(ServiceType::UserService(s)) => assert!(s.list_users().unwrap().is_empty()),
        None => panic!("UserService was registered"),
    }
}

#[test]
fn service_type_name() {
    let t = ServiceType::UserService(UserService::new(true));
    assert_eq!(t.name(), "UserService");
}
