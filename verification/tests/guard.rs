use auth_core::clock::Timestamp;
use auth_core::config::AppConfig;
use auth_core::entity::NewUserSession;
use auth_core::errors::AppError;
use auth_core::entity::UserSession;
use auth_core::guard::{
    authenticate, authenticate_at, bearer_token, has_role, let_through, read_claims,
    require_admin, AuthenticatedUser, AuthorizationHeader, RequireAdmin,
};
use auth_core::token_service::Claims;
use auth_core::ids::Uuid;
use auth_core::memory::MemorySessions;
use auth_core::repository::SessionRepository;
use auth_core::token_service::TokenService;

fn tokens() -> TokenService {
    TokenService::new(AppConfig {
        server_address: "127.0.0.1".to_string(),
        server_port: 8080,
        database_url: "postgres://localhost/test".to_string(),
        jwt_secret: "guard-secret".to_string(),
        jwt_access_expiration_min: 15,
        jwt_refresh_expiration_days: 7,
        resend_api_key: "key".to_string(),
        app_url: "http://localhost:3000".to_string(),
        email_from: "onboarding@resend.dev".to_string(),
    })
}

fn unauthorized(message: &str) -> AppError {
    AppError::Unauthorized(message.to_string())
}

fn at_seconds(s: i64) -> Timestamp {
    Timestamp::from_micros(s * 1_000_000)
}

fn open_session(sessions: &mut MemorySessions, user: Uuid, now: Timestamp) -> Uuid {
    let row = sessions
        .create(
            NewUserSession {
                user_id: user,
                refresh_token_hash: "digest".to_string(),
                user_agent: None,
                ip_address: None,
                device_name: None,
                expires_at: now.plus_days(7),
            },
            now,
        )
        .unwrap();
    row.id
}

fn bearer(token: &str) -> AuthorizationHeader {
    AuthorizationHeader::Text(format!("Bearer {}", token))
}

#[test]
fn bearer_token_is_what_follows_the_scheme() {
    assert_eq!(bearer_token(&bearer("abc.def.ghi")), Ok("abc.def.ghi".to_string()));
    assert_eq!(bearer_token(&AuthorizationHeader::Text("Bearer ".to_string())), Ok(String::new()));
    assert_eq!(
        bearer_token(&AuthorizationHeader::Text("Bearer  two spaces".to_string())),
        Ok(" two spaces".to_string())
    );
}

#[test]
fn header_without_a_bearer_token_is_refused() {
    assert_eq!(
        bearer_token(&AuthorizationHeader::Missing),
        Err(unauthorized("Missing authorization header"))
    );
    assert_eq!(
        bearer_token(&AuthorizationHeader::Unreadable),
        Err(unauthorized("Invalid authorization header"))
    );
    for text in ["", "Bearer", "bearer abc", "Basic abc", "Token Bearer abc", "Bearerabc"] {
        assert_eq!(
            bearer_token(&AuthorizationHeader::Text(text.to_string())),
            Err(unauthorized("Invalid token scheme"))
        );
    }
}

#[test]
fn request_with_a_live_session_is_let_through() {
    let tokens = tokens();
    let mut sessions = MemorySessions::new();
    let user = Uuid::from_u128(42);
    let now = at_seconds(1_700_000_000);
    let session = open_session(&mut sessions, user, now);
    let access = tokens
        .generate_access_token_at(user, session, vec!["editor".to_string()], now)
        .unwrap();
    let at = at_seconds(1_700_000_100);
    let identity = authenticate_at(&mut sessions, &tokens, &bearer(&access), at).unwrap();
    assert_eq!(
        identity,
        AuthenticatedUser { user_id: user, session_id: session, roles: vec!["editor".to_string()] }
    );
    let row = sessions.find_by_id(session).unwrap().unwrap();
    assert_eq!(row.last_used_at, at);
    assert_eq!(row.created_at, now);
}

#[test]
fn request_is_refused_after_the_token_has_expired() {
    let tokens = tokens();
    let mut sessions = MemorySessions::new();
    let user = Uuid::from_u128(42);
    let now = at_seconds(1_700_000_000);
    let session = open_session(&mut sessions, user, now);
    let access = tokens.generate_access_token_at(user, session, Vec::new(), now).unwrap();
    assert!(authenticate_at(&mut sessions, &tokens, &bearer(&access), at_seconds(1_700_000_900))
        .is_ok());
    assert_eq!(
        authenticate_at(&mut sessions, &tokens, &bearer(&access), at_seconds(1_700_000_901)),
        Err(unauthorized("Invalid or expired token"))
    );
    assert_eq!(
        authenticate_at(&mut sessions, &tokens, &bearer("garbage"), now),
        Err(unauthorized("Invalid or expired token"))
    );
    assert_eq!(sessions.find_by_id(session).unwrap().unwrap().last_used_at, at_seconds(1_700_000_900));
}

#[test]
fn request_is_refused_once_the_session_is_revoked_or_gone() {
    let tokens = tokens();
    let mut sessions = MemorySessions::new();
    let user = Uuid::from_u128(42);
    let now = at_seconds(1_700_000_000);
    let session = open_session(&mut sessions, user, now);
    let access = tokens.generate_access_token_at(user, session, Vec::new(), now).unwrap();
    let orphan = tokens.generate_access_token_at(user, Uuid::from_u128(999), Vec::new(), now).unwrap();
    assert_eq!(
        authenticate_at(&mut sessions, &tokens, &bearer(&orphan), now),
        Err(unauthorized("Session invalid or expired"))
    );
    assert!(authenticate_at(&mut sessions, &tokens, &bearer(&access), now).is_ok());
    sessions.revoke(session).unwrap();
    assert_eq!(
        authenticate_at(&mut sessions, &tokens, &bearer(&access), now),
        Err(unauthorized("Session invalid or expired"))
    );
}

#[test]
fn session_expiry_plays_no_part_at_the_guard() {
    let tokens = tokens();
    let mut sessions = MemorySessions::new();
    let user = Uuid::from_u128(42);
    let now = at_seconds(1_700_000_000);
    let session = open_session(&mut sessions, user, now);
    sessions.update_refresh_token(Uuid::from_u128(1), "d".to_string(), at_seconds(1), now).unwrap();
    assert_eq!(sessions.find_by_id(session).unwrap().unwrap().expires_at, at_seconds(1));
    let access = tokens.generate_access_token_at(user, session, Vec::new(), now).unwrap();
    assert!(authenticate_at(&mut sessions, &tokens, &bearer(&access), now).is_ok());
}

#[test]
fn request_is_checked_against_the_clock() {
    let tokens = tokens();
    let mut sessions = MemorySessions::new();
    let user = Uuid::from_u128(42);
    let before = Timestamp::now();
    let session = open_session(&mut sessions, user, before);
    let access = tokens.generate_access_token(user, session, Vec::new()).unwrap();
    assert!(authenticate(&mut sessions, &tokens, &bearer(&access)).is_ok());
    assert!(!sessions.find_by_id(session).unwrap().unwrap().last_used_at.is_before(before));
    let stale = tokens
        .generate_access_token_at(user, session, Vec::new(), at_seconds(1_000_000_000))
        .unwrap();
    assert_eq!(
        authenticate(&mut sessions, &tokens, &bearer(&stale)),
        Err(unauthorized("Invalid or expired token"))
    );
    assert_eq!(
        authenticate(&mut sessions, &tokens, &AuthorizationHeader::Missing),
        Err(unauthorized("Missing authorization header"))
    );
}

#[test]
fn admin_guard_asks_for_the_admin_role() {
    let mut user = AuthenticatedUser {
        user_id: Uuid::from_u128(1),
        session_id: Uuid::from_u128(2),
        roles: vec!["editor".to_string(), "administrator".to_string(), "Admin".to_string()],
    };
    assert_eq!(
        require_admin(&user),
        Err(AppError::Forbidden("Admin role required".to_string()))
    );
    user.roles.push("admin".to_string());
    assert_eq!(require_admin(&user), Ok(RequireAdmin));
    user.roles.clear();
    assert!(require_admin(&user).is_err());
}

#[test]
fn role_lookup_is_exact() {
    let roles = vec!["a".to_string(), "bc".to_string()];
    assert!(has_role(&roles, "a"));
    assert!(has_role(&roles, "bc"));
    assert!(!has_role(&roles, "b"));
    assert!(!has_role(&roles, ""));
    assert!(!has_role(&Vec::new(), "a"));
}

#[test]
fn claims_are_read_off_the_header_without_a_store() {
    let tokens = tokens();
    let now = at_seconds(1_700_000_000);
    let access = tokens
        .generate_access_token_at(Uuid::from_u128(1), Uuid::from_u128(2), Vec::new(), now)
        .unwrap();
    let claims = read_claims(&tokens, &bearer(&access), now).unwrap();
    assert_eq!((claims.sub, claims.session_id), (Uuid::from_u128(1), Uuid::from_u128(2)));
    assert_eq!(
        read_claims(&tokens, &bearer(&access), at_seconds(1_700_000_901)),
        Err(unauthorized("Invalid or expired token"))
    );
    assert_eq!(
        read_claims(&tokens, &AuthorizationHeader::Missing, now),
        Err(unauthorized("Missing authorization header"))
    );
    assert_eq!(
        read_claims(&tokens, &AuthorizationHeader::Text("Basic abc".to_string()), now),
        Err(unauthorized("Invalid token scheme"))
    );
}

#[test]
fn decision_follows_the_answer_of_the_lookup() {
    let mut sessions = MemorySessions::new();
    let now = at_seconds(1_700_000_000);
    let user = Uuid::from_u128(7);
    let id = open_session(&mut sessions, user, now);
    let row: UserSession = sessions.find_by_id(id).unwrap().unwrap();
    let claims = || Claims {
        sub: user,
        session_id: id,
        exp: 1_700_000_900,
        iat: 1_700_000_000,
        roles: vec!["admin".to_string()],
    };
    let at = at_seconds(1_700_000_050);
    assert_eq!(
        let_through(&mut sessions, Ok(Some(row.clone())), claims(), at),
        Ok(AuthenticatedUser { user_id: user, session_id: id, roles: vec!["admin".to_string()] })
    );
    assert_eq!(sessions.find_by_id(id).unwrap().unwrap().last_used_at, at);
    assert_eq!(
        let_through(&mut sessions, Ok(None), claims(), now),
        Err(unauthorized("Session invalid or expired"))
    );
    assert_eq!(
        let_through(&mut sessions, Ok(Some(UserSession { is_revoked: true, ..row })), claims(), now),
        Err(unauthorized("Session invalid or expired"))
    );
    assert_eq!(
        let_through(&mut sessions, Err(AppError::DatabaseError("down".to_string())), claims(), now),
        Err(AppError::InternalError)
    );
    assert_eq!(sessions.find_by_id(id).unwrap().unwrap().last_used_at, at);
}
