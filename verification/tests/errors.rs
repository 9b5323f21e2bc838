use auth_core::errors::{AppError, FieldError, ValidationErrors};

fn two_errors() -> ValidationErrors {
    let mut v = ValidationErrors::new();
    v.add("email", "email", "Invalid email address");
    v.add("password", "length", "Password must be at least 8 characters");
    v
}

#[test]
fn status_of_each_kind() {
    assert_eq!(AppError::ValidationError(ValidationErrors::new()).status_code(), 400);
    assert_eq!(AppError::NotFound("x".to_string()).status_code(), 404);
    assert_eq!(AppError::Unauthorized("x".to_string()).status_code(), 401);
    assert_eq!(AppError::Forbidden("x".to_string()).status_code(), 403);
    assert_eq!(AppError::Conflict("x".to_string()).status_code(), 409);
    assert_eq!(AppError::DatabaseError("x".to_string()).status_code(), 500);
    assert_eq!(AppError::InternalError.status_code(), 500);
}

#[test]
fn text_of_each_kind() {
    assert_eq!(AppError::NotFound("User not found".to_string()).to_string(), "Resource not found: User not found");
    assert_eq!(AppError::Unauthorized("Invalid token".to_string()).to_string(), "Unauthorized: Invalid token");
    assert_eq!(AppError::Forbidden("Admin role required".to_string()).to_string(), "Forbidden: Admin role required");
    assert_eq!(AppError::Conflict("Email already exists".to_string()).to_string(), "Conflict: Email already exists");
    assert_eq!(AppError::InternalError.to_string(), "Internal Server Error");
    assert_eq!(AppError::DatabaseError("connection refused".to_string()).to_string(), "Database error");
    assert_eq!(AppError::ValidationError(ValidationErrors::new()).to_string(), "Validation error: ");
    assert_eq!(
        AppError::ValidationError(two_errors()).to_string(),
        "Validation error: email: Invalid email address\npassword: Password must be at least 8 characters"
    );
}

#[test]
fn faults_are_the_two_kinds_that_show_no_detail() {
    assert!(AppError::InternalError.is_fault());
    assert!(AppError::DatabaseError("x".to_string()).is_fault());
    assert!(!AppError::NotFound("x".to_string()).is_fault());
    assert!(!AppError::Unauthorized("x".to_string()).is_fault());
    assert!(!AppError::Forbidden("x".to_string()).is_fault());
    assert!(!AppError::Conflict("x".to_string()).is_fault());
    assert!(!AppError::ValidationError(ValidationErrors::new()).is_fault());
}

#[test]
fn constructors_hold_the_message() {
    assert_eq!(AppError::not_found("a"), AppError::NotFound("a".to_string()));
    assert_eq!(AppError::unauthorized("b"), AppError::Unauthorized("b".to_string()));
    assert_eq!(AppError::forbidden("c"), AppError::Forbidden("c".to_string()));
    assert_eq!(AppError::conflict("d"), AppError::Conflict("d".to_string()));
}

#[test]
fn validation_errors_keep_their_order() {
    let v = two_errors();
    assert!(!v.is_empty());
    assert!(ValidationErrors::new().is_empty());
    assert_eq!(
        v.errors,
        vec![
            FieldError {
                field: "email".to_string(),
                code: "email".to_string(),
                message: "Invalid email address".to_string(),
            },
            FieldError {
                field: "password".to_string(),
                code: "length".to_string(),
                message: "Password must be at least 8 characters".to_string(),
            },
        ]
    );
    assert_eq!(ValidationErrors::new().to_string(), "");
    let mut one = ValidationErrors::new();
    one.add("role", "length", "too short");
    assert_eq!(one.to_string(), "role: too short");
}
