use user_service::handlers::{
    create_user, create_user_reply, delete_user, get_user, get_user_reply, list_users,
    placeholder_reply, update_user,
};
use user_service::health::{
    health_check, health_check_at, liveness_check, liveness_check_at, readiness_check,
    readiness_check_at,
};
use user_service::error::ServiceError;
use user_service::response::{ApiError, ApiResponse};
use user_service::service::{ServiceFactory, UserServiceImpl};
use user_service::user::{CreateUserRequest, ListUsersParams, User, UserResponse};

fn create_test_app() -> UserServiceImpl {
    ServiceFactory::create_user_service()
}

fn create_mock_app_with_user() -> UserServiceImpl {
    let test_user = User::new("test@example.com".to_string(), "hashed_password".to_string());
    ServiceFactory::create_user_service_with_data(vec![test_user])
}

fn payload(email: &str, password: &str) -> CreateUserRequest {
    CreateUserRequest { email: email.to_string(), password: password.to_string() }
}

fn error_of(reply: &(u16, ApiResponse<()>)) -> &ApiError {
    assert!(!reply.1.success);
    assert!(reply.1.data.is_none());
    reply.1.error.as_ref().unwrap()
}

#[test]
fn test_health_check() {
    let app = create_test_app();
    let response = health_check(&app);
    assert_eq!(response.status_code(), 200);
    assert_eq!(response.success, true);
    assert_eq!(response.data.unwrap().status, "healthy");
}

#[test]
fn test_create_user_success() {
    let mut app = create_test_app();
    let response = create_user(&mut app, payload("newuser@example.com", "password123")).unwrap();
    assert_eq!(response.status_code(), 200);
    assert_eq!(response.success, true);
    assert_eq!(response.data.unwrap().email, "newuser@example.com");
}

#[test]
fn test_create_user_validation_error() {
    let mut app = create_test_app();
    let response = create_user(&mut app, payload("invalid-email", "123")).unwrap_err();
    assert_eq!(response.0, 400);
    assert_eq!(response.1.success, false);
    assert_eq!(response.1.error.as_ref().unwrap().code, "VALIDATION_ERROR");
    assert_eq!(response.1.status_code(), 400);
    assert_eq!(app.count(), 0);
}

#[test]
fn test_get_user_not_found() {
    let app = create_test_app();
    let response = get_user(&app, uuid::Uuid::new_v4().as_u128()).unwrap_err();
    assert_eq!(response.0, 404);
    assert_eq!(response.1.success, false);
    assert_eq!(response.1.error.as_ref().unwrap().code, "NOT_FOUND");
}

#[test]
fn test_list_users_empty() {
    let app = create_test_app();
    let response = list_users(&app, ListUsersParams { page: None, limit: None });
    assert_eq!(response.status_code(), 200);
    assert_eq!(response.success, true);
    assert_eq!(response.data.as_ref().unwrap().len(), 0);
    assert_eq!(response.meta.unwrap().total, Some(0));
}

#[test]
fn test_list_users_with_data() {
    let app = create_mock_app_with_user();
    let response = list_users(&app, ListUsersParams { page: None, limit: None });
    assert_eq!(response.status_code(), 200);
    assert_eq!(response.success, true);
    assert_eq!(response.data.as_ref().unwrap().len(), 1);
    let meta = response.meta.unwrap();
    assert_eq!(meta.total, Some(1));
    assert_eq!(meta.page, Some(1));
    assert_eq!(meta.limit, Some(10));
}

#[test]
fn validation_error_lists_what_failed() {
    let mut app = create_test_app();
    let response = create_user(&mut app, payload("invalid-email", "123")).unwrap_err();
    let error = error_of(&response);
    assert_eq!(error.message, "Request validation failed");
    assert_eq!(
        error.details,
        Some(vec![
            "email: Invalid email format".to_string(),
            "password: Password must be at least 6 characters".to_string(),
        ])
    );
}

#[test]
fn create_user_reply_maps_each_outcome() {
    let user = UserResponse { id: 1, email: "a@example.com".to_string(), created_at: 2, updated_at: 2 };
    let ok = create_user_reply(Ok(UserResponse {
        id: 1,
        email: "a@example.com".to_string(),
        created_at: 2,
        updated_at: 2,
    }))
    .unwrap();
    assert_eq!(ok, ApiResponse { success: true, data: Some(user), error: None, meta: None });

    let taken = create_user_reply(Err(ServiceError::AlreadyExists)).unwrap_err();
    assert_eq!(taken.0, 400);
    assert_eq!(error_of(&taken).code, "BAD_REQUEST");
    assert_eq!(error_of(&taken).message, "User with this email already exists");
    assert_eq!(error_of(&taken).details, None);

    let invalid = create_user_reply(Err(ServiceError::Validation("email: bad".to_string()))).unwrap_err();
    assert_eq!(invalid.0, 400);
    assert_eq!(error_of(&invalid).code, "BAD_REQUEST");
    assert_eq!(error_of(&invalid).message, "email: bad");

    let fault = create_user_reply(Err(ServiceError::Internal("boom".to_string()))).unwrap_err();
    assert_eq!(fault.0, 500);
    assert_eq!(error_of(&fault).code, "INTERNAL_ERROR");
    assert_eq!(error_of(&fault).message, "Failed to create user");

    let missing = create_user_reply(Err(ServiceError::NotFound)).unwrap_err();
    assert_eq!(missing.0, 500);
    assert_eq!(error_of(&missing).code, "INTERNAL_ERROR");
}

#[test]
fn get_user_reply_maps_each_outcome() {
    let found = get_user_reply(Ok(Some(UserResponse {
        id: 1,
        email: "a@example.com".to_string(),
        created_at: 2,
        updated_at: 3,
    })))
    .unwrap();
    assert!(found.success);
    assert_eq!(found.data.unwrap().updated_at, 3);

    let absent = get_user_reply(Ok(None)).unwrap_err();
    assert_eq!(absent.0, 404);
    assert_eq!(error_of(&absent).code, "NOT_FOUND");
    assert_eq!(error_of(&absent).message, "User not found");

    let fault = get_user_reply(Err(ServiceError::Internal("boom".to_string()))).unwrap_err();
    assert_eq!(fault.0, 500);
    assert_eq!(error_of(&fault).code, "INTERNAL_ERROR");
    assert_eq!(error_of(&fault).message, "Failed to retrieve user");
}

#[test]
fn get_user_returns_the_user() {
    let mut app = create_test_app();
    let made = create_user(&mut app, payload("a@example.com", "secret1")).unwrap().data.unwrap();
    let found = get_user(&app, made.id).unwrap();
    assert_eq!(found.status_code(), 200);
    assert_eq!(found.data, Some(made));
}

#[test]
fn update_and_delete_of_an_existing_user_are_not_implemented() {
    let mut app = create_test_app();
    let made = create_user(&mut app, payload("a@example.com", "secret1")).unwrap().data.unwrap();

    let updated = update_user(&app, made.id);
    assert_eq!(updated.0, 400);
    assert_eq!(error_of(&updated).code, "BAD_REQUEST");
    assert_eq!(error_of(&updated).message, "Update functionality not implemented yet");

    let deleted = delete_user(&app, made.id);
    assert_eq!(deleted.0, 400);
    assert_eq!(error_of(&deleted).code, "BAD_REQUEST");
    assert_eq!(error_of(&deleted).message, "Delete functionality not implemented yet");

    assert_eq!(app.count(), 1);
    assert_eq!(get_user(&app, made.id).unwrap().data, Some(made));
}

#[test]
fn update_and_delete_of_a_missing_user_are_not_found() {
    let app = create_test_app();
    let updated = update_user(&app, 77);
    assert_eq!(updated.0, 404);
    assert_eq!(error_of(&updated).code, "NOT_FOUND");
    assert_eq!(error_of(&updated).message, "User not found");
    let deleted = delete_user(&app, 77);
    assert_eq!(deleted.0, 404);
    assert_eq!(error_of(&deleted).code, "NOT_FOUND");
}

#[test]
fn placeholder_reply_reports_a_fault_of_the_service() {
    let fault = placeholder_reply(Err(ServiceError::Internal("boom".to_string())), "no", "Failed to update user");
    assert_eq!(fault.0, 500);
    assert_eq!(error_of(&fault).code, "INTERNAL_ERROR");
    assert_eq!(error_of(&fault).message, "Failed to update user");
}

#[test]
fn end_to_end_create_duplicate_list_and_miss() {
    let mut app = create_test_app();

    let first = create_user(&mut app, payload("a@example.com", "secret1")).unwrap();
    assert_eq!(first.status_code(), 200);
    let data = first.data.unwrap();
    assert_eq!(data.email, "a@example.com");

    let second = create_user(&mut app, payload("a@example.com", "secret1")).unwrap_err();
    assert_eq!(second.0, 400);
    assert_eq!(error_of(&second).code, "BAD_REQUEST");
    assert_eq!(second.1.status_code(), 400);

    let listed = list_users(&app, ListUsersParams { page: Some(1), limit: Some(1) });
    assert_eq!(listed.meta.unwrap().total, Some(1));
    assert_eq!(listed.data.as_ref().unwrap().len(), 1);
    assert_eq!(listed.data.unwrap()[0], data);

    let mut unused = uuid::Uuid::new_v4().as_u128();
    if unused == data.id {
        unused = unused.wrapping_add(1);
    }
    let missing = get_user(&app, unused).unwrap_err();
    assert_eq!(missing.0, 404);
    assert_eq!(error_of(&missing).code, "NOT_FOUND");
}

#[test]
fn list_users_reports_paging_data() {
    let users = (0..25u128)
        .map(|i| User::with_identity(i + 1, 0, format!("u{}@example.com", i), "h".to_string()))
        .collect();
    let app = ServiceFactory::create_user_service_with_data(users);
    let listed = list_users(&app, ListUsersParams { page: Some(3), limit: Some(10) });
    let meta = listed.meta.unwrap();
    assert_eq!(meta.page, Some(3));
    assert_eq!(meta.limit, Some(10));
    assert_eq!(meta.total, Some(25));
    assert_eq!(meta.total_pages, Some(3));
    let ids: Vec<u128> = listed.data.unwrap().iter().map(|u| u.id).collect();
    assert_eq!(ids, vec![21, 22, 23, 24, 25]);
}

#[test]
fn health_answers_at_a_given_time() {
    let app = create_test_app();
    let health = health_check_at(&app, 123).data.unwrap();
    assert_eq!(health.status, "healthy");
    assert_eq!(health.database_status, "healthy");
    assert_eq!(health.service, "rust-boilerplate");
    assert_eq!(health.timestamp, 123);
}

#[test]
fn readiness_lists_its_checks() {
    let ready = readiness_check_at(5).data.unwrap();
    assert_eq!(ready.status, "ready");
    assert_eq!(ready.timestamp, 5);
    assert_eq!(ready.checks.len(), 2);
    assert_eq!(ready.checks[0].name, "database");
    assert_eq!(ready.checks[0].status, "healthy");
    assert_eq!(ready.checks[1].name, "memory");
    assert_eq!(ready.checks[1].status, "healthy");
    assert!(readiness_check().success);
}

#[test]
fn liveness_is_alive() {
    let live = liveness_check_at(8).data.unwrap();
    assert_eq!(live.status, "alive");
    assert_eq!(live.timestamp, 8);
    assert_eq!(liveness_check().data.unwrap().status, "alive");
}
