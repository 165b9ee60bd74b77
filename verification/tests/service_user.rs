use crud_rust::model::user::User;
use crud_rust::repository::memory::InMemoryRepository;
use crud_rust::repository::registry::Repository;
use crud_rust::service::registry::Service;
use crud_rust::service::user::{CreateUser, UpdateUser};

#[test]
fn test_add_user() {
    let repo = InMemoryRepository::new();
    let mut service = Service::new(repo);
    let payload = CreateUser {
        email: "test@example.com".to_string(),
    };
    let result = service.add_user(payload);
    assert!(result.is_ok());
    assert_eq!(result.unwrap().email, "test@example.com");
}

#[test]
fn test_list_users() {
    let mut repo = InMemoryRepository::new();
    repo.add_user(User {
        id: "1".to_string(),
        email: "a@b.com".to_string(),
    })
    .expect("failed to seed user");
    let service = Service::new(repo);
    let result = service.list_user();
    assert!(result.is_ok());
    assert_eq!(result.unwrap().len(), 1);
}

#[test]
fn test_get_user() {
    let mut repo = InMemoryRepository::new();
    let user = User {
        id: "123e4567-e89b-12d3-a456-426614174000".to_string(),
        email: "a@b.com".to_string(),
    };
    repo.add_user(user.clone()).expect("failed to seed user");
    let service = Service::new(repo);
    let result = service.get_user(&user.id);
    assert!(result.is_ok());
    assert_eq!(result.unwrap().email, "a@b.com");
}

#[test]
fn test_update_user() {
    let mut repo = InMemoryRepository::new();
    let user = User {
        id: "123e4567-e89b-12d3-a456-426614174000".to_string(),
        email: "a@b.com".to_string(),
    };
    repo.add_user(user.clone()).expect("failed to seed user");
    let mut service = Service::new(repo);
    let update_user = UpdateUser {
        email: "new@b.com".to_string(),
    };
    let result = service.update_user(&user.id, update_user);
    assert!(result.is_ok());
    assert_eq!(result.unwrap().email, "new@b.com");
}

#[test]
fn test_delete_user() {
    let mut repo = InMemoryRepository::new();
    repo.add_user(User {
        id: "123e4567-e89b-12d3-a456-426614174000".to_string(),
        email: "a@b.com".to_string(),
    })
    .expect("failed to seed user");
    let mut service = Service::new(repo);
    let result = service.delete_user("123e4567-e89b-12d3-a456-426614174000");
    assert!(result.is_ok());
}
