use crud_rust::model::error::{AppError, AppErrorCode};
use crud_rust::model::item::Item;
use crud_rust::repository::memory::InMemoryRepository;
use crud_rust::repository::registry::Repository;
use crud_rust::service::registry::Service;
use crud_rust::service::user::UpdateUser;
use crud_rust::text::trim;

fn fresh_service() -> Service<InMemoryRepository> {
    Service::new(InMemoryRepository::new())
}

#[test]
fn trim_exact_values() {
    assert_eq!(trim("  Widget  "), "Widget");
    assert_eq!(trim(""), "");
    assert_eq!(trim(" \t\r\n "), "");
    assert_eq!(trim("a b"), "a b");
    assert_eq!(trim("\u{00A0}x\u{3000}"), "x");
}

#[test]
fn create_idempotent_by_normalized_name() {
    let mut service = fresh_service();
    let first = service
        .create_item("Widget".to_string())
        .expect("first create failed");
    let second = service
        .create_item("  WIDGET ".to_string())
        .expect("second create failed");
    assert_eq!(first.id, second.id);
    assert_eq!(second.name, "widget");
    let listed = service.list_item().expect("list failed");
    assert_eq!(listed.len(), 1);
}

#[test]
fn missing_id_not_found_everywhere() {
    let mut service = fresh_service();
    let get = service.get_item("nope".to_string()).unwrap_err();
    assert!(matches!(get.code, AppErrorCode::NotFound));
    let update = service
        .update_item("nope".to_string(), "name".to_string())
        .unwrap_err();
    assert!(matches!(update.code, AppErrorCode::NotFound));
    let delete = service.delete_item("nope".to_string()).unwrap_err();
    assert!(matches!(delete.code, AppErrorCode::NotFound));
}

#[test]
fn whitespace_input_rejected_without_touching_storage() {
    let mut service = fresh_service();
    let create = service.create_item("   ".to_string()).unwrap_err();
    assert!(matches!(create.code, AppErrorCode::InvalidInput));
    let create_empty = service.create_item(String::new()).unwrap_err();
    assert!(matches!(create_empty.code, AppErrorCode::InvalidInput));
    assert_eq!(service.list_item().expect("list failed").len(), 0);

    service
        .create_item("thing".to_string())
        .expect("create failed");
    let listed = service.list_item().expect("list failed");
    let id = listed[0].id.clone();
    let update = service.update_item(id, " \t ".to_string()).unwrap_err();
    assert!(matches!(update.code, AppErrorCode::InvalidInput));
    let listed_after = service.list_item().expect("list failed");
    assert_eq!(listed_after.len(), 1);
    assert_eq!(listed_after[0].name, "thing");
}

#[test]
fn invalid_uuid_rejected_for_user_operations() {
    let mut service = fresh_service();
    for bad in ["doesnotexist", "", "123", "xyz-456"] {
        let get = service.get_user(bad).unwrap_err();
        assert!(matches!(get.code, AppErrorCode::InvalidInput));
        let update = service
            .update_user(
                bad,
                UpdateUser {
                    email: "a@b.com".to_string(),
                },
            )
            .unwrap_err();
        assert!(matches!(update.code, AppErrorCode::InvalidInput));
        let delete = service.delete_user(bad).unwrap_err();
        assert!(matches!(delete.code, AppErrorCode::InvalidInput));
    }
    // A syntactically valid UUID passes validation and reaches storage.
    let get = service
        .get_user("123e4567-e89b-12d3-a456-426614174000")
        .unwrap_err();
    assert!(matches!(get.code, AppErrorCode::NotFound));
}

#[test]
fn widget_round_trip() {
    let mut service = fresh_service();
    let created = service
        .create_item("  Widget  ".to_string())
        .expect("create failed");
    let fetched = service.get_item(created.id.clone()).expect("get failed");
    assert_eq!(fetched.name, "widget");
    assert_eq!(fetched.id, created.id);
}

#[test]
fn fresh_item_id_is_valid_uuid() {
    let mut service = fresh_service();
    let created = service
        .create_item("Widget".to_string())
        .expect("create failed");
    assert_eq!(created.id.len(), 36);
    assert!(uuid::Uuid::parse_str(&created.id).is_ok());
}

#[test]
fn repository_add_is_upsert_by_name() {
    let mut repo = InMemoryRepository::new();
    let first = repo
        .add_item(Item {
            id: "a".to_string(),
            name: "pen".to_string(),
        })
        .expect("add failed");
    let second = repo
        .add_item(Item {
            id: "b".to_string(),
            name: "pen".to_string(),
        })
        .expect("add failed");
    assert_eq!(first.id, "a");
    assert_eq!(second.id, "a");
    assert_eq!(repo.list_item().expect("list failed").len(), 1);
}

#[test]
fn error_taxonomy_maps_to_statuses() {
    let not_found = AppError {
        code: AppErrorCode::NotFound,
        message: "missing".to_string(),
    };
    assert_eq!(not_found.get_http_status(), 404);
    assert_eq!(not_found.get_message(), "missing");
    assert_eq!(not_found.get_error(), "");

    let invalid = AppError {
        code: AppErrorCode::InvalidInput,
        message: "bad".to_string(),
    };
    assert_eq!(invalid.get_http_status(), 400);
    assert_eq!(invalid.get_error(), "");

    let internal = AppError {
        code: AppErrorCode::InternalError("connection reset".to_string()),
        message: "operation failed".to_string(),
    };
    assert_eq!(internal.get_http_status(), 500);
    assert_eq!(internal.get_message(), "operation failed");
    assert_eq!(internal.get_error(), "connection reset");
}

#[test]
fn user_email_trimmed_and_required() {
    let mut service = fresh_service();
    let err = service
        .add_user(crud_rust::service::user::CreateUser {
            email: "  ".to_string(),
        })
        .unwrap_err();
    assert!(matches!(err.code, AppErrorCode::InvalidInput));
    let ok = service
        .add_user(crud_rust::service::user::CreateUser {
            email: "  a@b.com ".to_string(),
        })
        .expect("add user failed");
    assert_eq!(ok.email, "a@b.com");
}
