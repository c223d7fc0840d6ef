use body_measurements::error::{
    ServiceError, StoreFailure, STATUS_BAD_REQUEST, STATUS_CREATED, STATUS_INTERNAL_SERVER_ERROR,
    STATUS_NOT_FOUND, STATUS_OK, STATUS_SERVICE_UNAVAILABLE,
};

#[test]
fn status_numbers() {
    assert_eq!(STATUS_OK, 200);
    assert_eq!(STATUS_CREATED, 201);
    assert_eq!(STATUS_BAD_REQUEST, 400);
    assert_eq!(STATUS_NOT_FOUND, 404);
    assert_eq!(STATUS_INTERNAL_SERVER_ERROR, 500);
    assert_eq!(STATUS_SERVICE_UNAVAILABLE, 503);
}

#[test]
fn validation_is_bad_request() {
    assert_eq!(ServiceError::Validation.status(), 400);
    assert_eq!(ServiceError::Validation.message(), "Bad Request");
}

#[test]
fn not_found_is_404() {
    assert_eq!(ServiceError::NotFound.status(), 404);
    assert_eq!(ServiceError::NotFound.message(), "Not Found");
}

#[test]
fn storage_is_internal_server_error() {
    assert_eq!(ServiceError::Storage.status(), 500);
    assert_eq!(ServiceError::Storage.message(), "Internal Server Error");
}

#[test]
fn connection_is_service_unavailable() {
    assert_eq!(ServiceError::Connection.status(), 503);
    assert_eq!(ServiceError::Connection.message(), "Service Unavailable");
}

#[test]
fn store_failures_map_to_errors() {
    assert_eq!(StoreFailure::Unavailable.error(), ServiceError::Connection);
    assert_eq!(StoreFailure::Failed.error(), ServiceError::Storage);
}
