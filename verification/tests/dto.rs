use auth_core::clock::Timestamp;
use auth_core::dto::{
    list_sessions, AssignRoleDto, CreatePostDto, LoginDto, PaginationDto, RefreshTokenDto,
    RegisterUserDto, RequestEmailVerificationDto, RequestResetDto, ResetPasswordDto,
    UpdatePostDto, UserSessionDto, VerifyEmailDto,
};
use auth_core::entity::UserSession;
use auth_core::errors::{FieldError, ValidationErrors};
use auth_core::ids::Uuid;

fn error(field: &str, code: &str, message: &str) -> FieldError {
    FieldError { field: field.to_string(), code: code.to_string(), message: message.to_string() }
}

fn errors(list: Vec<FieldError>) -> Result<(), ValidationErrors> {
    Err(ValidationErrors { errors: list })
}

#[test]
fn registration_asks_for_an_address_and_eight_characters() {
    let ok = RegisterUserDto { email: "a@x.com".to_string(), password: "longpass1".to_string() };
    assert_eq!(ok.validate(), Ok(()));
    let eight = RegisterUserDto { email: "a@x.com".to_string(), password: "12345678".to_string() };
    assert_eq!(eight.validate(), Ok(()));
    let short = RegisterUserDto { email: "a@x.com".to_string(), password: "1234567".to_string() };
    assert_eq!(
        short.validate(),
        errors(vec![error("password", "length", "Password must be at least 8 characters")])
    );
    let both = RegisterUserDto { email: "not an address".to_string(), password: "".to_string() };
    assert_eq!(
        both.validate(),
        errors(vec![
            error("email", "email", "Invalid email address"),
            error("password", "length", "Password must be at least 8 characters"),
        ])
    );
}

#[test]
fn length_counts_characters_not_bytes() {
    let dto = RegisterUserDto { email: "a@x.com".to_string(), password: "pässwörd".to_string() };
    assert_eq!(dto.validate(), Ok(()));
    let dto = ResetPasswordDto { token: "t".to_string(), new_password: "äöüäöüä".to_string() };
    assert!(dto.validate().is_err());
}

#[test]
fn addresses_that_the_rule_accepts_and_refuses() {
    for good in ["a@x.com", "first.last+tag@sub.example.org", "x@localhost", "u@[127.0.0.1]"] {
        let dto = LoginDto { email: good.to_string(), password: "".to_string() };
        assert_eq!(dto.validate(), Ok(()), "{}", good);
    }
    for bad in ["", "a", "@x.com", "a@", "a b@x.com", "a@x..com", "a@-x.com"] {
        let dto = RequestEmailVerificationDto { email: bad.to_string() };
        assert_eq!(
            dto.validate(),
            errors(vec![error("email", "email", "Invalid email address")]),
            "{}",
            bad
        );
    }
}

#[test]
fn bodies_without_rules_are_always_accepted() {
    assert_eq!(VerifyEmailDto { token: String::new() }.validate(), Ok(()));
    assert_eq!(RefreshTokenDto { refresh_token: String::new() }.validate(), Ok(()));
    let reset = RequestResetDto { email: "whatever".to_string() };
    assert_eq!(reset.email, "whatever");
}

#[test]
fn new_password_must_be_eight_characters() {
    let dto = ResetPasswordDto { token: "t".to_string(), new_password: "short".to_string() };
    assert_eq!(
        dto.validate(),
        errors(vec![error("new_password", "length", "Password must be at least 8 characters")])
    );
    let dto = ResetPasswordDto { token: "".to_string(), new_password: "longenough".to_string() };
    assert_eq!(dto.validate(), Ok(()));
}

#[test]
fn role_and_post_bodies() {
    assert_eq!(AssignRoleDto { role: "admin".to_string() }.validate(), Ok(()));
    assert_eq!(
        AssignRoleDto { role: String::new() }.validate(),
        errors(vec![error("role", "length", "Validation error: length")])
    );
    let post = CreatePostDto { title: "t".to_string(), content: "c".to_string() };
    assert_eq!(post.validate(), Ok(()));
    let post = CreatePostDto { title: "x".repeat(255), content: "c".to_string() };
    assert_eq!(post.validate(), Ok(()));
    let post = CreatePostDto { title: "x".repeat(256), content: String::new() };
    assert_eq!(
        post.validate(),
        errors(vec![
            error("title", "length", "Validation error: length"),
            error("content", "length", "Validation error: length"),
        ])
    );
    let post = UpdatePostDto { title: String::new(), content: "c".to_string(), is_published: true };
    assert_eq!(post.validate(), errors(vec![error("title", "length", "Validation error: length")]));
}

#[test]
fn pagination_defaults() {
    let none = PaginationDto { page: None, per_page: None };
    assert_eq!(none.page_or_default(), 1);
    assert_eq!(none.per_page_or_default(), 10);
    let some = PaginationDto { page: Some(3), per_page: Some(-5) };
    assert_eq!(some.page_or_default(), 3);
    assert_eq!(some.per_page_or_default(), -5);
}

#[test]
fn session_list_marks_the_current_one_and_hides_the_digest() {
    let row = |id: u128| UserSession {
        id: Uuid::from_u128(id),
        user_id: Uuid::from_u128(9),
        refresh_token_hash: "digest".to_string(),
        user_agent: Some("ua".to_string()),
        ip_address: None,
        device_name: Some("Chrome on Linux".to_string()),
        is_revoked: id == 3,
        expires_at: Timestamp::from_micros(30),
        created_at: Timestamp::from_micros(10),
        last_used_at: Timestamp::from_micros(20),
    };
    let list = list_sessions(&vec![row(1), row(2), row(3)], Uuid::from_u128(2));
    assert_eq!(list.len(), 3);
    assert_eq!(
        list[1],
        UserSessionDto {
            id: Uuid::from_u128(2),
            user_agent: Some("ua".to_string()),
            ip_address: None,
            device_name: Some("Chrome on Linux".to_string()),
            is_revoked: false,
            created_at: Timestamp::from_micros(10),
            last_used_at: Timestamp::from_micros(20),
            expires_at: Timestamp::from_micros(30),
            is_current: true,
        }
    );
    assert!(!list[0].is_current && !list[2].is_current);
    assert!(list[2].is_revoked);
    assert_eq!(list_sessions(&Vec::new(), Uuid::from_u128(2)), Vec::new());
}
