use crud_rust::model::item::Item;
use crud_rust::repository::memory::InMemoryRepository;
use crud_rust::repository::registry::Repository;
use crud_rust::service::registry::Service;

#[test]
fn test_create_item() {
    let repo = InMemoryRepository::new();
    let mut service = Service::new(repo);
    let item = service
        .create_item("Test Item".to_string())
        .expect("failed to create item");
    assert_eq!(item.name, "test item");
}

#[test]
fn test_get_item() {
    let mut repo = InMemoryRepository::new();
    repo.add_item(Item {
        id: "123".to_string(),
        name: "test item".to_string(),
    })
    .expect("failed to seed item");
    let service = Service::new(repo);
    let fetched_item = service
        .get_item("123".to_string())
        .expect("failed to get item");
    assert_eq!(fetched_item.id, "123");
    assert_eq!(fetched_item.name, "test item");
}

#[test]
fn test_list_items() {
    let mut repo = InMemoryRepository::new();
    repo.add_item(Item {
        id: "1".to_string(),
        name: "item one".to_string(),
    })
    .expect("failed to seed item");
    repo.add_item(Item {
        id: "2".to_string(),
        name: "item two".to_string(),
    })
    .expect("failed to seed item");
    let service = Service::new(repo);
    let fetched_items = service.list_item().expect("failed to list items");
    assert_eq!(fetched_items.len(), 2);
    assert_eq!(fetched_items[0].name, "item one");
    assert_eq!(fetched_items[1].name, "item two");
}

#[test]
fn test_update_item() {
    let mut repo = InMemoryRepository::new();
    repo.add_item(Item {
        id: "123".to_string(),
        name: "test item".to_string(),
    })
    .expect("failed to seed item");
    let mut service = Service::new(repo);
    let updated_item = service
        .update_item("123".to_string(), "Updated Item".to_string())
        .expect("failed to update item");
    assert_eq!(updated_item.id, "123");
    assert_eq!(updated_item.name, "updated item");
}

#[test]
fn test_delete_item() {
    let mut repo = InMemoryRepository::new();
    repo.add_item(Item {
        id: "123".to_string(),
        name: "test item".to_string(),
    })
    .expect("failed to seed item");
    let mut service = Service::new(repo);
    let result = service.delete_item("123".to_string());
    assert!(result.is_ok());
}
