use auth_core::clock::Timestamp;
use auth_core::combined::parse_combined_token;
use auth_core::config::AppConfig;
use auth_core::entity::{
    EmailVerificationToken, NewEmailVerificationToken, NewPasswordResetToken, NewUserSession,
    PasswordResetToken, UserSession,
};
use auth_core::errors::{AppError, ValidationErrors};
use auth_core::guard::{authenticate_at, AuthorizationHeader};
use auth_core::ids::Uuid;
use auth_core::memory::{MemorySessions, MemoryTokens, MemoryUsers};
use auth_core::repository::{SessionRepository, UserRepository, VerificationTokenRepository};
use auth_core::service::AuthService;
use auth_core::token_service::TokenService;

/// A session store that fails the calls named in `failing` with a fault.
struct FlakySessions {
    inner: MemorySessions,
    failing: Vec<&'static str>,
}

impl FlakySessions {
    fn check(&self, call: &'static str) -> Result<(), AppError> {
        if self.failing.contains(&call) {
            Err(AppError::DatabaseError(format!("{} failed", call)))
        } else {
            Ok(())
        }
    }
}

impl SessionRepository for FlakySessions {
    fn create(&mut self, session: NewUserSession, now: Timestamp) -> Result<UserSession, AppError> {
        self.check("create")?;
        self.inner.create(session, now)
    }

    fn find_by_id(&self, id: Uuid) -> Result<Option<UserSession>, AppError> {
        self.check("find_by_id")?;
        self.inner.find_by_id(id)
    }

    fn update_last_used(&mut self, id: Uuid, now: Timestamp) -> Result<(), AppError> {
        self.check("update_last_used")?;
        self.inner.update_last_used(id, now)
    }

    fn update_refresh_token(
        &mut self,
        id: Uuid,
        new_hash: String,
        new_expires_at: Timestamp,
        now: Timestamp,
    ) -> Result<(), AppError> {
        self.check("update_refresh_token")?;
        self.inner.update_refresh_token(id, new_hash, new_expires_at, now)
    }

    fn revoke(&mut self, id: Uuid) -> Result<(), AppError> {
        self.check("revoke")?;
        self.inner.revoke(id)
    }

    fn revoke_all_for_user(&mut self, user_id: Uuid) -> Result<(), AppError> {
        self.check("revoke_all_for_user")?;
        self.inner.revoke_all_for_user(user_id)
    }

    fn find_active_by_user(&self, user_id: Uuid, now: Timestamp) -> Result<Vec<UserSession>, AppError> {
        self.check("find_active_by_user")?;
        self.inner.find_active_by_user(user_id, now)
    }
}

/// A token store that fails to mark tokens used while `failing` is set.
struct FlakyTokens {
    inner: MemoryTokens,
    failing: bool,
}

impl VerificationTokenRepository for FlakyTokens {
    fn create_email_verification(
        &mut self,
        token: NewEmailVerificationToken,
        now: Timestamp,
    ) -> Result<EmailVerificationToken, AppError> {
        self.inner.create_email_verification(token, now)
    }

    fn find_email_verification_by_user(
        &self,
        user_id: Uuid,
    ) -> Result<Option<EmailVerificationToken>, AppError> {
        self.inner.find_email_verification_by_user(user_id)
    }

    fn create_password_reset(
        &mut self,
        token: NewPasswordResetToken,
        now: Timestamp,
    ) -> Result<PasswordResetToken, AppError> {
        self.inner.create_password_reset(token, now)
    }

    fn find_password_reset_by_user(
        &self,
        user_id: Uuid,
    ) -> Result<Option<PasswordResetToken>, AppError> {
        self.inner.find_password_reset_by_user(user_id)
    }

    fn mark_email_verification_as_used(&mut self, token_id: Uuid) -> Result<(), AppError> {
        if self.failing {
            return Err(AppError::InternalError);
        }
        self.inner.mark_email_verification_as_used(token_id)
    }

    fn mark_password_reset_as_used(&mut self, token_id: Uuid) -> Result<(), AppError> {
        if self.failing {
            return Err(AppError::InternalError);
        }
        self.inner.mark_password_reset_as_used(token_id)
    }
}

fn config() -> AppConfig {
    AppConfig {
        server_address: "127.0.0.1".to_string(),
        server_port: 8080,
        database_url: "postgres://localhost/test".to_string(),
        jwt_secret: "test-secret".to_string(),
        jwt_access_expiration_min: 15,
        jwt_refresh_expiration_days: 7,
        resend_api_key: "key".to_string(),
        app_url: "http://localhost:3000".to_string(),
        email_from: "onboarding@resend.dev".to_string(),
    }
}

fn service() -> AuthService<MemoryUsers, FlakySessions, FlakyTokens> {
    AuthService::new(
        MemoryUsers::new(Vec::new()),
        FlakySessions { inner: MemorySessions::new(), failing: Vec::new() },
        FlakyTokens { inner: MemoryTokens::new(), failing: false },
        TokenService::new(config()),
        config(),
    )
}

fn fault(call: &str) -> AppError {
    AppError::DatabaseError(format!("{} failed", call))
}

#[test]
fn fault_of_the_session_store_is_passed_on() {
    let mut auth = service();
    auth.register("a@x.com".to_string(), "longpass1".to_string()).unwrap();
    let (_, combined) =
        auth.login("a@x.com".to_string(), "longpass1".to_string(), None, None).unwrap();
    auth.session_repo.failing = vec!["find_by_id"];
    assert_eq!(auth.refresh_token(&combined), Err(fault("find_by_id")));
    assert_eq!(
        auth.refresh_token("no token"),
        Err(AppError::Unauthorized("Invalid token format".to_string()))
    );
    auth.session_repo.failing = vec!["update_refresh_token"];
    assert_eq!(auth.refresh_token(&combined), Err(fault("update_refresh_token")));
    auth.session_repo.failing = vec!["revoke", "revoke_all_for_user", "find_active_by_user"];
    assert_eq!(auth.logout(Uuid::from_u128(1)), Err(fault("revoke")));
    assert_eq!(auth.revoke_all_sessions(Uuid::from_u128(1)), Err(fault("revoke_all_for_user")));
    assert_eq!(auth.get_active_sessions(Uuid::from_u128(1)), Err(fault("find_active_by_user")));
    auth.session_repo.failing = Vec::new();
    // nothing was changed by the calls that failed
    assert!(auth.refresh_token(&combined).is_ok());
}

#[test]
fn theft_is_not_recorded_where_the_revocation_fails() {
    let mut auth = service();
    auth.register("a@x.com".to_string(), "longpass1".to_string()).unwrap();
    let (_, combined) =
        auth.login("a@x.com".to_string(), "longpass1".to_string(), None, None).unwrap();
    let (session_id, _) = parse_combined_token(&combined).unwrap();
    let forged = format!("{}:guess", session_id.to_string());
    auth.session_repo.failing = vec!["revoke"];
    assert_eq!(auth.refresh_token(&forged), Err(fault("revoke")));
    auth.session_repo.failing = Vec::new();
    assert!(!auth.session_repo.find_by_id(session_id).unwrap().unwrap().is_revoked);
    assert!(auth.refresh_token(&combined).is_ok());
}

#[test]
fn login_that_cannot_open_a_session_has_recorded_the_login() {
    let mut auth = service();
    let (user, _) = auth.register("a@x.com".to_string(), "longpass1".to_string()).unwrap();
    auth.session_repo.failing = vec!["create"];
    assert_eq!(
        auth.login("a@x.com".to_string(), "longpass1".to_string(), None, None),
        Err(fault("create"))
    );
    assert!(auth.user_repo.find_by_id(user.id).unwrap().unwrap().last_login_at.is_some());
    assert_eq!(auth.session_repo.inner.len(), 0);
}

#[test]
fn user_is_verified_although_the_token_could_not_be_marked() {
    let mut auth = service();
    let (user, mail) = auth.register("a@x.com".to_string(), "longpass1".to_string()).unwrap();
    auth.verification_repo.failing = true;
    assert_eq!(auth.verify_email(mail.token.clone()), Err(AppError::InternalError));
    assert!(auth.user_repo.find_by_id(user.id).unwrap().unwrap().is_verified);
    auth.verification_repo.failing = false;
    // the token was not marked: it is accepted again
    assert_eq!(auth.verify_email(mail.token.clone()), Ok(()));
    assert!(auth.verify_email(mail.token).is_err());
}

#[test]
fn guard_reports_a_fault_of_the_lookup_and_ignores_one_of_the_touch() {
    let tokens = TokenService::new(config());
    let mut sessions = FlakySessions { inner: MemorySessions::new(), failing: Vec::new() };
    let now = Timestamp::from_micros(1_700_000_000_000_000);
    let user = Uuid::from_u128(5);
    let row = sessions
        .create(
            NewUserSession {
                user_id: user,
                refresh_token_hash: "d".to_string(),
                user_agent: None,
                ip_address: None,
                device_name: None,
                expires_at: now.plus_days(1),
            },
            now,
        )
        .unwrap();
    let access = tokens.generate_access_token_at(user, row.id, Vec::new(), now).unwrap();
    let header = AuthorizationHeader::Text(format!("Bearer {}", access));
    sessions.failing = vec!["find_by_id"];
    assert_eq!(authenticate_at(&mut sessions, &tokens, &header, now), Err(AppError::InternalError));
    sessions.failing = vec!["update_last_used"];
    let at = now.plus_minutes(1);
    let identity = authenticate_at(&mut sessions, &tokens, &header, at).unwrap();
    assert_eq!(identity.user_id, user);
    assert_eq!(identity.session_id, row.id);
    assert_eq!(sessions.inner.find_by_id(row.id).unwrap().unwrap().last_used_at, now);
}

/// A token store that hands out one token, whatever is asked for, and
/// accepts no change.
struct FixedTokens {
    used: bool,
    token_hash: String,
}

impl FixedTokens {
    fn fields(&self, user_id: Uuid) -> (Uuid, Uuid, String, Timestamp, bool, Timestamp) {
        (
            Uuid::from_u128(1),
            user_id,
            self.token_hash.clone(),
            Timestamp::from_micros(i64::MAX),
            self.used,
            Timestamp::from_micros(0),
        )
    }
}

impl VerificationTokenRepository for FixedTokens {
    fn create_email_verification(
        &mut self,
        _token: NewEmailVerificationToken,
        _now: Timestamp,
    ) -> Result<EmailVerificationToken, AppError> {
        Err(AppError::InternalError)
    }

    fn find_email_verification_by_user(
        &self,
        user_id: Uuid,
    ) -> Result<Option<EmailVerificationToken>, AppError> {
        let (id, user_id, token_hash, expires_at, used, created_at) = self.fields(user_id);
        Ok(Some(EmailVerificationToken { id, user_id, token_hash, expires_at, used, created_at }))
    }

    fn create_password_reset(
        &mut self,
        _token: NewPasswordResetToken,
        _now: Timestamp,
    ) -> Result<PasswordResetToken, AppError> {
        Err(AppError::InternalError)
    }

    fn find_password_reset_by_user(
        &self,
        user_id: Uuid,
    ) -> Result<Option<PasswordResetToken>, AppError> {
        let (id, user_id, token_hash, expires_at, used, created_at) = self.fields(user_id);
        Ok(Some(PasswordResetToken { id, user_id, token_hash, expires_at, used, created_at }))
    }

    fn mark_email_verification_as_used(&mut self, _token_id: Uuid) -> Result<(), AppError> {
        Ok(())
    }

    fn mark_password_reset_as_used(&mut self, _token_id: Uuid) -> Result<(), AppError> {
        Ok(())
    }
}

#[test]
fn used_token_is_refused_whatever_its_secret_and_expiry() {
    let mut auth = AuthService::new(
        MemoryUsers::new(Vec::new()),
        MemorySessions::new(),
        FixedTokens { used: true, token_hash: "no digest".to_string() },
        TokenService::new(config()),
        config(),
    );
    let token = format!("{}:secret", Uuid::from_u128(1).to_string());
    let used = Err(AppError::ValidationError(ValidationErrors::new()));
    assert_eq!(auth.verify_email(token.clone()), used);
    assert_eq!(auth.reset_password(&token, "newpassword1"), used);
    auth.verification_repo.used = false;
    assert_eq!(auth.verify_email(token.clone()), Err(AppError::InternalError));
    assert_eq!(auth.reset_password(&token, "newpassword1"), Err(AppError::InternalError));
}

#[test]
fn mail_that_cannot_be_prepared_leaves_the_user_registered() {
    let mut auth = AuthService::new(
        MemoryUsers::new(Vec::new()),
        MemorySessions::new(),
        FixedTokens { used: false, token_hash: String::new() },
        TokenService::new(config()),
        config(),
    );
    assert_eq!(
        auth.register("a@x.com".to_string(), "longpass1".to_string()),
        Err(AppError::InternalError)
    );
    assert!(auth.user_repo.find_by_email("a@x.com").unwrap().is_some());
    assert_eq!(auth.request_email_verification("a@x.com"), Err(AppError::InternalError));
    assert_eq!(auth.request_password_reset("a@x.com"), Err(AppError::InternalError));
}

#[test]
fn request_that_cannot_be_marked_is_let_through_all_the_same() {
    let tokens = TokenService::new(config());
    let mut sessions = FlakySessions {
        inner: MemorySessions::new(),
        failing: vec!["update_last_used"],
    };
    let now = Timestamp::from_micros(1_700_000_000_000_000);
    let user = Uuid::from_u128(5);
    let row = sessions
        .create(
            NewUserSession {
                user_id: user,
                refresh_token_hash: "d".to_string(),
                user_agent: None,
                ip_address: None,
                device_name: None,
                expires_at: now.plus_days(1),
            },
            now,
        )
        .unwrap();
    let claims = auth_core::token_service::Claims {
        sub: user,
        session_id: row.id,
        exp: 1_700_000_900,
        iat: 1_700_000_000,
        roles: Vec::new(),
    };
    let identity =
        auth_core::guard::let_through(&mut sessions, Ok(Some(row.clone())), claims, now.plus_minutes(1));
    assert_eq!(identity.map(|u| (u.user_id, u.session_id)), Ok((user, row.id)));
    assert_eq!(sessions.inner.find_by_id(row.id).unwrap().unwrap().last_used_at, now);
}

#[test]
fn refusals_that_no_clock_decides() {
    let mut auth = service();
    let (user, _) = auth.register("a@x.com".to_string(), "longpass1".to_string()).unwrap();
    let (_, combined) =
        auth.login("a@x.com".to_string(), "longpass1".to_string(), None, None).unwrap();
    let (session_id, secret) = parse_combined_token(&combined).unwrap();
    auth.logout(session_id).unwrap();
    for presented in [secret.as_str(), "guess", ""] {
        let token = format!("{}:{}", session_id.to_string(), presented);
        assert_eq!(
            auth.refresh_token(&token),
            Err(AppError::Unauthorized("Session revoked".to_string()))
        );
    }
    assert_eq!(
        auth.reset_password("no colon", "newpassword1"),
        Err(AppError::Unauthorized("Invalid token format".to_string()))
    );
    assert_eq!(
        auth.request_email_verification("nobody@x.com"),
        Err(AppError::NotFound("User not found".to_string()))
    );
    auth.user_repo.verify_user(user.id).unwrap();
    assert_eq!(
        auth.request_email_verification("a@x.com"),
        Err(AppError::Forbidden("Email already verified".to_string()))
    );
}
