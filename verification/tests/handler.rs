use crud_rust::handler::common::{handler_healthcheck, handler_index};
use crud_rust::handler::item::{create_item, delete_item, get_item, list_items, update_item};
use crud_rust::handler::user::{add_user, delete_user, get_user, list_users, update_user};
use crud_rust::repository::memory::InMemoryRepository;
use crud_rust::service::registry::Service;
use crud_rust::service::user::{CreateUser, UpdateUser};

fn fresh_service() -> Service<InMemoryRepository> {
    Service::new(InMemoryRepository::new())
}

fn cid() -> String {
    "abc-123".to_string()
}

#[test]
fn scenario_create_item_book() {
    let mut service = fresh_service();
    let (status, envelope) = create_item(&mut service, cid(), "Book".to_string());
    assert_eq!(status, 201);
    assert_eq!(envelope.correlation_id, "abc-123");
    assert_eq!(envelope.message, "Created item 'book'");
    assert_eq!(envelope.error, "");
    let item = envelope.data.expect("created item missing from envelope");
    assert_eq!(item.name, "book");
    assert!(uuid::Uuid::parse_str(&item.id).is_ok());
}

#[test]
fn scenario_get_missing_item() {
    let service = fresh_service();
    let (status, envelope) = get_item(&service, cid(), "doesnotexist".to_string());
    assert_eq!(status, 404);
    assert_eq!(envelope.message, "Item with id doesnotexist not found");
    assert_eq!(envelope.error, "");
    assert!(envelope.data.is_none());
}

#[test]
fn scenario_delete_then_get() {
    let mut service = fresh_service();
    let (status, envelope) = create_item(&mut service, cid(), "Book".to_string());
    assert_eq!(status, 201);
    let id = envelope.data.expect("created item missing").id;

    let (status, envelope) = delete_item(&mut service, cid(), id.clone());
    assert_eq!(status, 200);
    assert_eq!(envelope.message, format!("Deleted item with id {}", id));

    let (status, envelope) = get_item(&service, cid(), id.clone());
    assert_eq!(status, 404);
    assert_eq!(envelope.message, format!("Item with id {} not found", id));
    assert!(envelope.data.is_none());
}

#[test]
fn item_handlers_full_cycle() {
    let mut service = fresh_service();
    let (status, envelope) = list_items(&service, cid());
    assert_eq!(status, 200);
    assert_eq!(envelope.message, "ok");
    assert_eq!(envelope.data.expect("list missing").len(), 0);

    let (_, envelope) = create_item(&mut service, cid(), "  Pen  ".to_string());
    let id = envelope.data.expect("created item missing").id;

    let (status, envelope) = get_item(&service, cid(), id.clone());
    assert_eq!(status, 200);
    assert_eq!(envelope.message, "ok");
    assert_eq!(envelope.data.expect("item missing").name, "pen");

    let (status, envelope) = update_item(&mut service, cid(), id.clone(), "  Quill  ".to_string());
    assert_eq!(status, 200);
    assert_eq!(
        envelope.message,
        format!("Updated item 'quill' with id {}", id)
    );
    let updated = envelope.data.expect("updated item missing");
    assert_eq!(updated.id, id);
    assert_eq!(updated.name, "quill");

    let (status, envelope) = list_items(&service, cid());
    assert_eq!(status, 200);
    let listed = envelope.data.expect("list missing");
    assert_eq!(listed.len(), 1);
    assert_eq!(listed[0].name, "quill");
}

#[test]
fn create_item_empty_name_envelope() {
    let mut service = fresh_service();
    let (status, envelope) = create_item(&mut service, cid(), "   ".to_string());
    assert_eq!(status, 400);
    assert_eq!(envelope.message, "Item name cannot be empty");
    assert_eq!(envelope.error, "");
    assert!(envelope.data.is_none());
}

#[test]
fn update_item_empty_id_envelope() {
    let mut service = fresh_service();
    let (status, envelope) = update_item(&mut service, cid(), "  ".to_string(), "x".to_string());
    assert_eq!(status, 400);
    assert_eq!(envelope.message, "Item ID cannot be empty");
    assert!(envelope.data.is_none());
}

#[test]
fn user_handlers_full_cycle() {
    let mut service = fresh_service();
    let (status, envelope) = add_user(
        &mut service,
        cid(),
        CreateUser {
            email: " alice@example.com ".to_string(),
        },
    );
    assert_eq!(status, 201);
    assert_eq!(envelope.message, "User created successfully");
    assert_eq!(envelope.error, "");
    let user = envelope.data.expect("created user missing");
    assert_eq!(user.email, "alice@example.com");
    assert!(uuid::Uuid::parse_str(&user.id).is_ok());

    let (status, envelope) = list_users(&service, cid());
    assert_eq!(status, 200);
    assert_eq!(envelope.message, "Users fetched successfully");
    assert_eq!(envelope.data.expect("list missing").len(), 1);

    let (status, envelope) = get_user(&service, cid(), user.id.clone());
    assert_eq!(status, 200);
    assert_eq!(envelope.message, "User fetched successfully");
    assert_eq!(
        envelope.data.expect("user missing").email,
        "alice@example.com"
    );

    let (status, envelope) = update_user(
        &mut service,
        cid(),
        user.id.clone(),
        UpdateUser {
            email: "bob@example.com".to_string(),
        },
    );
    assert_eq!(status, 200);
    assert_eq!(envelope.message, "User updated successfully");
    assert_eq!(envelope.data.expect("user missing").email, "bob@example.com");

    let (status, envelope) = delete_user(&mut service, cid(), user.id.clone());
    assert_eq!(status, 200);
    assert_eq!(envelope.message, "User deleted successfully");
    assert!(envelope.data.is_none());

    let (status, envelope) = get_user(&service, cid(), user.id.clone());
    assert_eq!(status, 404);
    assert_eq!(
        envelope.message,
        format!("User with id {} not found", user.id)
    );
}

#[test]
fn get_user_invalid_id_envelope() {
    let service = fresh_service();
    let (status, envelope) = get_user(&service, cid(), "doesnotexist".to_string());
    assert_eq!(status, 400);
    assert_eq!(envelope.message, "Invalid user ID format");
    assert_eq!(envelope.error, "");
    assert!(envelope.data.is_none());
}

#[test]
fn index_and_healthcheck_envelopes() {
    let (status, envelope) = handler_index("my_app", cid());
    assert_eq!(status, 200);
    assert_eq!(envelope.correlation_id, "abc-123");
    assert_eq!(envelope.message, "Welcome to my_app!");
    assert_eq!(envelope.error, "");
    assert!(envelope.data.is_none());

    let (status, envelope) = handler_healthcheck(cid());
    assert_eq!(status, 200);
    assert_eq!(envelope.message, "ok");
}
