//! The flows of the authentication core: register, login, refresh,
//! verify-email, password reset, logout.
//!
//! Every flow is split where it draws on the clock, on the random source or
//! on the salted hasher. The parts between the draws take what was drawn as
//! arguments and have exact contracts; the flow itself states what holds
//! whatever was drawn.

use vstd::prelude::*;
use crate::clock::{Timestamp, MICROS_PER_DAY};
use crate::combined::{
    colon_free, combined_text, format_combined_token, parse_combined, parse_combined_token,
};
use crate::config::AppConfig;
use crate::entity::{
    opt_text, NewSessionView, NewUserSession, SessionView, User, UserSession, UserView,
};
use crate::errors::{AppError, AppErrorView};
use crate::ids::Uuid;
use crate::password::{argon2_verdict, secret_matches, PasswordService};
use crate::repository::{
    found_by_email, lists_active, new_session_row, session_views, with_all_revoked, with_last_login,
    with_revoked, with_rotated, SessionRepository, UserRepository, VerificationTokenRepository,
};
use crate::token_service::{access_claims, issued_claims, signed_access_token, TokenService};
use crate::user_agent::{device_name, parse_device_name};

verus! {

/// The row of `id`, if the store holds one.
pub open spec fn row_of<R>(rows: Map<u128, R>, id: u128) -> Option<R> {
    if rows.contains_key(id) {
        Some(rows[id])
    } else {
        None
    }
}

/// `after` is `before`, or `before` with one new row.
pub open spec fn at_most_one_added<R>(before: Map<u128, R>, after: Map<u128, R>) -> bool {
    after == before || exists|id: u128, row: R|
        !before.contains_key(id) && after == #[trigger] before.insert(id, row)
}

/// `after` is `before`, or `before` with a login recorded for one user.
pub open spec fn at_most_one_login(before: Map<u128, UserView>, after: Map<u128, UserView>)
    -> bool {
    after == before || exists|id: u128, now: Timestamp|
        after == #[trigger] with_last_login(before, id, now)
}

// ------------------------------------------------------------- refresh

/// A session is presented with a secret that its digest refuses, while it
/// is active: the sign of a stolen or replayed token.
pub open spec fn is_theft(found: Option<SessionView>, secret: Seq<char>, now: Timestamp) -> bool {
    match found {
        Some(s) => s.is_active(now) && argon2_verdict(secret, s.refresh_token_hash) == Some(false),
        None => false,
    }
}

/// Whether the session that was found may be refreshed with `secret` at
/// `now`, and the error if not. A session is refused from the moment of
/// its expiry on: it is active only while `now` lies before it.
pub open spec fn session_verdict(found: Option<SessionView>, secret: Seq<char>, now: Timestamp)
    -> Result<SessionView, AppErrorView> {
    match found {
        None => Err(AppErrorView::Unauthorized("Session not found"@)),
        Some(s) => if s.is_revoked {
            Err(AppErrorView::Unauthorized("Session revoked"@))
        } else if !(now.micros < s.expires_at.micros) {
            Err(AppErrorView::Unauthorized("Session expired"@))
        } else {
            match argon2_verdict(secret, s.refresh_token_hash) {
                None => Err(AppErrorView::InternalError),
                Some(false) => Err(AppErrorView::Unauthorized("Invalid refresh token"@)),
                Some(true) => Ok(s),
            }
        },
    }
}

/// Whether the combined refresh token authorises a refresh at `now`.
pub open spec fn refresh_verdict(
    sessions: Map<u128, SessionView>,
    token: Seq<char>,
    now: Timestamp,
) -> Result<SessionView, AppErrorView> {
    match parse_combined(token) {
        None => Err(AppErrorView::Unauthorized("Invalid token format"@)),
        Some((id, secret)) => session_verdict(row_of(sessions, id), secret, now),
    }
}

/// The sessions after a refresh token has been checked: on the sign of
/// theft the session is revoked, else nothing changes.
pub open spec fn sessions_after_check(
    sessions: Map<u128, SessionView>,
    token: Seq<char>,
    now: Timestamp,
) -> Map<u128, SessionView> {
    match parse_combined(token) {
        Some((id, secret)) => if is_theft(row_of(sessions, id), secret, now) {
            with_revoked(sessions, id)
        } else {
            sessions
        },
        None => sessions,
    }
}

/// The sessions after the session `id` has been refreshed at `now` with a
/// secret whose digest is `digest`, for a lifetime of `days` days.
pub open spec fn sessions_after_rotation(
    sessions: Map<u128, SessionView>,
    id: u128,
    digest: Seq<char>,
    now: Timestamp,
    days: i64,
) -> Map<u128, SessionView> {
    with_rotated(sessions, id, digest, now.spec_plus(days * MICROS_PER_DAY), now)
}

// --------------------------------------------------------------- login

/// Whether the user that was found may log in with `password`, and the
/// error if not. An unknown address and a wrong password give the same
/// error.
pub open spec fn credential_verdict(found: Option<UserView>, password: Seq<char>) -> Result<
    UserView,
    AppErrorView,
> {
    match found {
        None => Err(AppErrorView::Unauthorized("Invalid credentials"@)),
        Some(u) => match argon2_verdict(password, u.password_hash) {
            None => Err(AppErrorView::InternalError),
            Some(false) => Err(AppErrorView::Unauthorized("Invalid credentials"@)),
            Some(true) => if u.is_active {
                Ok(u)
            } else {
                Err(AppErrorView::Forbidden("Account is disabled"@))
            },
        },
    }
}

/// The label of the device behind an optional user-agent text.
pub open spec fn device_label(user_agent: Option<Seq<char>>) -> Option<Seq<char>> {
    match user_agent {
        Some(ua) => Some(device_name(ua)),
        None => None,
    }
}

/// What a login at `now` hands to the session store.
pub open spec fn login_session(
    user_id: u128,
    digest: Seq<char>,
    user_agent: Option<Seq<char>>,
    ip_address: Option<Seq<char>>,
    now: Timestamp,
    days: i64,
) -> NewSessionView {
    NewSessionView {
        user_id,
        refresh_token_hash: digest,
        user_agent,
        ip_address,
        device_name: device_label(user_agent),
        expires_at: now.spec_plus(days * MICROS_PER_DAY),
    }
}

/// The refusal of a refresh token that no clock decides: a text of the
/// wrong form, a session that is not there, a session that is revoked.
pub open spec fn timeless_refusal(sessions: Map<u128, SessionView>, token: Seq<char>) -> Option<
    AppErrorView,
> {
    match parse_combined(token) {
        None => Some(AppErrorView::Unauthorized("Invalid token format"@)),
        Some((id, _)) => match row_of(sessions, id) {
            None => Some(AppErrorView::Unauthorized("Session not found"@)),
            Some(s) => if s.is_revoked {
                Some(AppErrorView::Unauthorized("Session revoked"@))
            } else {
                None
            },
        },
    }
}

/// Every user that a lookup by `email` may find is refused with `e`, and
/// so is the lookup that finds none, where none is there.
pub open spec fn always_refused(
    users: Map<u128, UserView>,
    email: Seq<char>,
    password: Seq<char>,
    e: AppErrorView,
) -> bool {
    forall|found: Option<UserView>| #[trigger]
        found_by_email(users, email, found) ==> credential_verdict(found, password) == Err::<
            UserView,
            AppErrorView,
        >(e)
}

pub struct AuthService<U: UserRepository, S: SessionRepository, V: VerificationTokenRepository> {
    pub user_repo: U,
    pub session_repo: S,
    pub verification_repo: V,
    pub token_service: TokenService,
    pub config: AppConfig,
}

impl<U: UserRepository, S: SessionRepository, V: VerificationTokenRepository> AuthService<
    U,
    S,
    V,
> {
    /// Nothing but the session store differs between `self` and `other`.
    pub open spec fn same_but_sessions(&self, other: &Self) -> bool {
        &&& self.user_repo == other.user_repo
        &&& self.verification_repo == other.verification_repo
        &&& self.token_service == other.token_service
        &&& self.config == other.config
        &&& self.session_repo.reliable() == other.session_repo.reliable()
    }

    /// Every store answers every call that its rows admit.
    pub open spec fn reliable(&self) -> bool {
        &&& self.user_repo.reliable()
        &&& self.session_repo.reliable()
        &&& self.verification_repo.reliable()
    }

    /// What issuing an access token for a session at `now` returns, with
    /// the roles that the user has in this state.
    pub open spec fn access_token_at(&self, user_id: u128, session_id: u128, now: Timestamp)
        -> Result<Seq<char>, AppErrorView> {
        signed_access_token(
            user_id,
            session_id,
            self.user_repo.roles_of(user_id),
            now,
            self.token_service.access_minutes(),
            self.token_service.secret(),
        )
    }

    /// The expiry of a session that is created or refreshed at `now`.
    pub open spec fn session_expiry(&self, now: Timestamp) -> Timestamp {
        now.spec_plus(self.config.jwt_refresh_expiration_days * MICROS_PER_DAY)
    }

    pub fn new(
        user_repo: U,
        session_repo: S,
        verification_repo: V,
        token_service: TokenService,
        config: AppConfig,
    ) -> (service: Self)
        ensures
            service.user_repo == user_repo,
            service.session_repo == session_repo,
            service.verification_repo == verification_repo,
            service.token_service == token_service,
            service.config == config,
    {
        AuthService { user_repo, session_repo, verification_repo, token_service, config }
    }

    /// The first half of a refresh: reads the combined token, loads the
    /// session and checks it and the secret at `now`. A secret that an
    /// otherwise valid session refuses revokes that session before the
    /// error is returned.
    pub fn authorize_refresh(&mut self, refresh_token: &str, now: Timestamp) -> (r: Result<
        UserSession,
        AppError,
    >)
        ensures
            final(self).same_but_sessions(old(self)),
            match r {
                Ok(session) => {
                    &&& refresh_verdict(old(self).session_repo.sessions(), refresh_token@, now)
                        == Ok::<SessionView, AppErrorView>(session@)
                    &&& parse_combined(refresh_token@) matches Some((id, _)) && id
                        == session.id.value
                    &&& final(self).session_repo.sessions() == old(self).session_repo.sessions()
                },
                Err(e) => {
                    ||| {
                        &&& refresh_verdict(old(self).session_repo.sessions(), refresh_token@, now)
                            == Err::<SessionView, AppErrorView>(e@)
                        &&& final(self).session_repo.sessions() == sessions_after_check(
                            old(self).session_repo.sessions(),
                            refresh_token@,
                            now,
                        )
                    }
                    ||| {
                        &&& e@.is_fault()
                        &&& !old(self).session_repo.reliable()
                        &&& parse_combined(refresh_token@) is Some
                        &&& final(self).session_repo.sessions() == old(self).session_repo.sessions()
                    }
                },
            },
    {
        let (session_id, secret) = match parse_combined_token(refresh_token) {
            Some(parts) => parts,
            None => { return Err(AppError::unauthorized("Invalid token format")); },
        };
        let session = match self.session_repo.find_by_id(session_id)? {
            Some(session) => session,
            None => { return Err(AppError::unauthorized("Session not found")); },
        };
        if session.is_revoked {
            return Err(AppError::unauthorized("Session revoked"));
        }
        if !now.is_before(session.expires_at) {
            return Err(AppError::unauthorized("Session expired"));
        }
        let accepted = PasswordService::verify_password(
            secret.as_str(),
            session.refresh_token_hash.as_str(),
        )?;
        if !accepted {
            self.session_repo.revoke(session_id)?;
            return Err(AppError::unauthorized("Invalid refresh token"));
        }
        Ok(session)
    }

    /// The second half of a refresh: stores the digest of the new secret
    /// with a new expiry, reads the roles as they now are, and issues the
    /// new pair. The old secret is gone from the store once this has
    /// succeeded. With stores that answer, the call succeeds exactly where
    /// the signer makes a token.
    pub fn rotate_session(
        &mut self,
        session: &UserSession,
        new_secret: &str,
        new_hash: String,
        now: Timestamp,
    ) -> (r: Result<(String, String), AppError>)
        ensures
            final(self).same_but_sessions(old(self)),
            final(self).session_repo.sessions() == old(self).session_repo.sessions()
                || final(self).session_repo.sessions() == sessions_after_rotation(
                old(self).session_repo.sessions(),
                session.id.value,
                new_hash@,
                now,
                old(self).config.jwt_refresh_expiration_days,
            ),
            old(self).session_repo.reliable() ==> final(self).session_repo.sessions()
                == sessions_after_rotation(
                old(self).session_repo.sessions(),
                session.id.value,
                new_hash@,
                now,
                old(self).config.jwt_refresh_expiration_days,
            ),
            old(self).session_repo.reliable() && old(self).user_repo.reliable() ==> (r is Ok
                <==> old(self).access_token_at(session.user_id.value, session.id.value, now)
                is Ok),
            match r {
                Ok((access, combined)) => {
                    &&& final(self).session_repo.sessions() == sessions_after_rotation(
                        old(self).session_repo.sessions(),
                        session.id.value,
                        new_hash@,
                        now,
                        old(self).config.jwt_refresh_expiration_days,
                    )
                    &&& combined@ == combined_text(session.id.value, new_secret@)
                    &&& colon_free(new_secret@) ==> parse_combined(combined@) == Some(
                        (session.id.value, new_secret@),
                    )
                    &&& old(self).access_token_at(session.user_id.value, session.id.value, now)
                        == Ok::<Seq<char>, AppErrorView>(access@)
                    &&& access_claims(access@, old(self).token_service.secret()) == Some(
                        issued_claims(
                            session.user_id.value,
                            session.id.value,
                            old(self).user_repo.roles_of(session.user_id.value),
                            now,
                            old(self).token_service.access_minutes(),
                        ),
                    )
                },
                Err(e) => {
                    &&& e@.is_fault()
                    &&& old(self).session_repo.reliable() && old(self).user_repo.reliable()
                        ==> e@ == AppErrorView::InternalError
                },
            },
    {
        let new_expires_at = now.plus_days(self.config.jwt_refresh_expiration_days);
        self.session_repo.update_refresh_token(session.id, new_hash, new_expires_at, now)?;
        let roles = self.user_repo.get_roles(session.user_id)?;
        let access_token = self.token_service.generate_access_token_at(
            session.user_id,
            session.id,
            roles,
            now,
        )?;
        let combined = format_combined_token(session.id, new_secret);
        Ok((access_token, combined))
    }

    /// What a refresh that succeeded has done, for the time and the secret
    /// that it drew: the presented token was valid at `now`, the session now
    /// holds the digest of the new secret, and the pair returned names the
    /// session, the new secret and the roles as they were at `now`.
    pub open spec fn refresh_granted(
        &self,
        refresh_token: Seq<char>,
        now: Timestamp,
        secret: Seq<char>,
        digest: Seq<char>,
        after: &Self,
        access: Seq<char>,
        combined: Seq<char>,
    ) -> bool {
        match (
            parse_combined(refresh_token),
            refresh_verdict(self.session_repo.sessions(), refresh_token, now),
        ) {
            (Some((id, _)), Ok(session)) => {
                &&& colon_free(secret)
                &&& secret_matches(secret, digest)
                &&& after.session_repo.sessions() == sessions_after_rotation(
                    self.session_repo.sessions(),
                    id,
                    digest,
                    now,
                    self.config.jwt_refresh_expiration_days,
                )
                &&& combined == combined_text(id, secret)
                &&& parse_combined(combined) == Some((id, secret))
                &&& self.access_token_at(session.user_id, id, now) == Ok::<
                    Seq<char>,
                    AppErrorView,
                >(access)
                &&& access_claims(access, self.token_service.secret()) == Some(
                    issued_claims(
                        session.user_id,
                        id,
                        self.user_repo.roles_of(session.user_id),
                        now,
                        self.token_service.access_minutes(),
                    ),
                )
            },
            _ => false,
        }
    }

    /// What a refresh that was refused has done, for the time that it drew.
    pub open spec fn refresh_refused(
        &self,
        refresh_token: Seq<char>,
        now: Timestamp,
        after: &Self,
        e: AppErrorView,
    ) -> bool {
        &&& refresh_verdict(self.session_repo.sessions(), refresh_token, now) == Err::<
            SessionView,
            AppErrorView,
        >(e)
        &&& after.session_repo.sessions() == sessions_after_check(
            self.session_repo.sessions(),
            refresh_token,
            now,
        )
    }

    /// The session of a valid token was rotated at `now` to `digest`, and
    /// then no pair was handed out. With stores that answer, that is where
    /// the signer made no token.
    pub open spec fn rotation_done(
        &self,
        refresh_token: Seq<char>,
        now: Timestamp,
        digest: Seq<char>,
        after: &Self,
    ) -> bool {
        match (
            parse_combined(refresh_token),
            refresh_verdict(self.session_repo.sessions(), refresh_token, now),
        ) {
            (Some((id, _)), Ok(session)) => {
                &&& after.session_repo.sessions() == sessions_after_rotation(
                    self.session_repo.sessions(),
                    id,
                    digest,
                    now,
                    self.config.jwt_refresh_expiration_days,
                )
                &&& self.session_repo.reliable() && self.user_repo.reliable()
                    ==> self.access_token_at(session.user_id, id, now) is Err
            },
            _ => false,
        }
    }

    /// What a refresh that failed with `e` has done. Either the token was
    /// refused, and nothing changed but for the revocation on the sign of
    /// theft. Or a fault struck: before the rotation, and nothing changed;
    /// or after it, and the session holds a digest whose secret was never
    /// handed out. With stores that answer, the only faults left are those
    /// of the hasher and of the signer, which are internal errors.
    pub open spec fn refresh_failed(
        &self,
        refresh_token: Seq<char>,
        after: &Self,
        e: AppErrorView,
    ) -> bool {
        ||| exists|now: Timestamp| self.refresh_refused(refresh_token, now, after, e)
        ||| {
            &&& e.is_fault()
            &&& after.session_repo.sessions() == self.session_repo.sessions()
            &&& self.session_repo.reliable() ==> {
                &&& e == AppErrorView::InternalError
                &&& exists|now: Timestamp| #[trigger]
                    refresh_verdict(self.session_repo.sessions(), refresh_token, now) is Ok
            }
        }
        ||| {
            &&& e.is_fault()
            &&& self.session_repo.reliable() && self.user_repo.reliable() ==> e
                == AppErrorView::InternalError
            &&& exists|now: Timestamp, digest: Seq<char>|
                self.rotation_done(refresh_token, now, digest, after)
        }
    }

    /// Exchanges a combined refresh token for a new access token and a new
    /// combined refresh token. The secret is rotated: the session keeps only
    /// the digest of the new one. A wrong secret for a live session revokes
    /// the session. A text of the wrong form is refused before any call; a
    /// session that is not there or is revoked is refused whatever the time,
    /// by a store that answers.
    pub fn refresh_token(&mut self, refresh_token: &str) -> (r: Result<(String, String), AppError>)
        ensures
            final(self).same_but_sessions(old(self)),
            parse_combined(refresh_token@) is None ==> {
                &&& final(self).session_repo.sessions() == old(self).session_repo.sessions()
                &&& r matches Err(e) && e@ == AppErrorView::Unauthorized("Invalid token format"@)
            },
            old(self).session_repo.reliable() ==> (timeless_refusal(
                old(self).session_repo.sessions(),
                refresh_token@,
            ) matches Some(refusal) ==> {
                &&& r matches Err(e) && e@ == refusal
                &&& final(self).session_repo.sessions() == old(self).session_repo.sessions()
            }),
            match r {
                Ok((access, combined)) => exists|
                    now: Timestamp,
                    secret: Seq<char>,
                    digest: Seq<char>,
                |
                    old(self).refresh_granted(
                        refresh_token@,
                        now,
                        secret,
                        digest,
                        final(self),
                        access@,
                        combined@,
                    ),
                Err(e) => old(self).refresh_failed(refresh_token@, final(self), e@),
            },
    {
        let now = Timestamp::now();
        let session = match self.authorize_refresh(refresh_token, now) {
            Ok(session) => session,
            Err(e) => {
                assert(old(self).refresh_refused(refresh_token@, now, self, e@) || {
                    &&& e@.is_fault()
                    &&& !old(self).session_repo.reliable()
                    &&& self.session_repo.sessions() == old(self).session_repo.sessions()
                });
                return Err(e);
            },
        };
        assert(refresh_verdict(old(self).session_repo.sessions(), refresh_token@, now) is Ok);
        let new_refresh_token = self.token_service.generate_refresh_token();
        let new_hash = PasswordService::hash_password(new_refresh_token.as_str())?;
        let ghost digest = new_hash@;
        match self.rotate_session(&session, new_refresh_token.as_str(), new_hash, now) {
            Ok((access, combined)) => {
                assert(old(self).refresh_granted(
                    refresh_token@,
                    now,
                    new_refresh_token@,
                    digest,
                    self,
                    access@,
                    combined@,
                ));
                Ok((access, combined))
            },
            Err(e) => {
                assert(self.session_repo.sessions() == old(self).session_repo.sessions() || old(
                    self,
                ).rotation_done(refresh_token@, now, digest, self));
                Err(e)
            },
        }
    }

    /// Revokes one session: the caller's own.
    pub fn logout(&mut self, session_id: Uuid) -> (r: Result<(), AppError>)
        ensures
            final(self).same_but_sessions(old(self)),
            old(self).session_repo.reliable() ==> r is Ok,
            match r {
                Ok(()) => final(self).session_repo.sessions() == with_revoked(
                    old(self).session_repo.sessions(),
                    session_id.value,
                ),
                Err(e) => e@.is_fault() && final(self).session_repo.sessions() == old(
                    self,
                ).session_repo.sessions(),
            },
    {
        self.session_repo.revoke(session_id)
    }

    /// Revokes every session of a user.
    pub fn revoke_all_sessions(&mut self, user_id: Uuid) -> (r: Result<(), AppError>)
        ensures
            final(self).same_but_sessions(old(self)),
            old(self).session_repo.reliable() ==> r is Ok,
            match r {
                Ok(()) => final(self).session_repo.sessions() == with_all_revoked(
                    old(self).session_repo.sessions(),
                    user_id.value,
                ),
                Err(e) => e@.is_fault() && final(self).session_repo.sessions() == old(
                    self,
                ).session_repo.sessions(),
            },
    {
        self.session_repo.revoke_all_for_user(user_id)
    }

    /// The sessions of a user that are active now, newest first.
    pub fn get_active_sessions(&self, user_id: Uuid) -> (r: Result<Vec<UserSession>, AppError>)
        ensures
            self.session_repo.reliable() ==> r is Ok,
            match r {
                Ok(rows) => exists|now: Timestamp| #[trigger]
                    lists_active(
                        self.session_repo.sessions(),
                        user_id.value,
                        now,
                        session_views(rows@),
                    ),
                Err(e) => e@.is_fault(),
            },
    {
        let now = Timestamp::now();
        self.session_repo.find_active_by_user(user_id, now)
    }

    /// Nothing but the user store differs between `self` and `other`, and
    /// there neither the roles nor the reliability.
    pub open spec fn same_but_users(&self, other: &Self) -> bool {
        &&& self.session_repo == other.session_repo
        &&& self.verification_repo == other.verification_repo
        &&& self.token_service == other.token_service
        &&& self.config == other.config
        &&& self.user_repo.reliable() == other.user_repo.reliable()
        &&& forall|u: u128| self.user_repo.roles_of(u) == other.user_repo.roles_of(u)
        &&& forall|n: Seq<char>| self.user_repo.known_role(n) == other.user_repo.known_role(n)
    }

    /// The settings and the verification store are the same in `self` and
    /// `other`, and so are the roles and the reliability of the other two
    /// stores.
    pub open spec fn same_but_users_and_sessions(&self, other: &Self) -> bool {
        &&& self.verification_repo == other.verification_repo
        &&& self.token_service == other.token_service
        &&& self.config == other.config
        &&& self.user_repo.reliable() == other.user_repo.reliable()
        &&& self.session_repo.reliable() == other.session_repo.reliable()
        &&& forall|u: u128| self.user_repo.roles_of(u) == other.user_repo.roles_of(u)
        &&& forall|n: Seq<char>| self.user_repo.known_role(n) == other.user_repo.known_role(n)
    }

    /// The first half of a login: finds the user and checks the password
    /// and that the account is active.
    pub fn check_credentials(&self, email: &str, password: &str) -> (r: Result<User, AppError>)
        ensures
            match r {
                Ok(user) => {
                    &&& found_by_email(self.user_repo.users(), email@, Some(user@))
                    &&& credential_verdict(Some(user@), password@) == Ok::<UserView, AppErrorView>(
                        user@,
                    )
                },
                Err(e) => {
                    ||| exists|found: Option<UserView>|
                        {
                            &&& found_by_email(self.user_repo.users(), email@, found)
                            &&& #[trigger] credential_verdict(found, password@) == Err::<
                                UserView,
                                AppErrorView,
                            >(e@)
                        }
                    ||| e@.is_fault() && !self.user_repo.reliable()
                },
            },
    {
        let user = match self.user_repo.find_by_email(email)? {
            Some(user) => user,
            None => {
                let e = AppError::unauthorized("Invalid credentials");
                assert(credential_verdict(None, password@) == Err::<UserView, AppErrorView>(e@));
                return Err(e);
            },
        };
        let verdict = PasswordService::verify_password(password, user.password_hash.as_str());
        let matches = match verdict {
            Ok(b) => b,
            Err(e) => {
                assert(credential_verdict(Some(user@), password@) == Err::<
                    UserView,
                    AppErrorView,
                >(e@));
                return Err(e);
            },
        };
        if !matches {
            let e = AppError::unauthorized("Invalid credentials");
            assert(credential_verdict(Some(user@), password@) == Err::<UserView, AppErrorView>(
                e@,
            ));
            return Err(e);
        }
        if !user.is_active {
            let e = AppError::forbidden("Account is disabled");
            assert(credential_verdict(Some(user@), password@) == Err::<UserView, AppErrorView>(
                e@,
            ));
            return Err(e);
        }
        Ok(user)
    }

    /// Stores a new session for `user_id` whose refresh secret has the
    /// digest `refresh_hash`: created at `now`, with the configured lifetime
    /// and the device label of the user agent.
    pub fn create_session_at(
        &mut self,
        user_id: Uuid,
        user_agent: Option<String>,
        ip_address: Option<String>,
        refresh_hash: String,
        now: Timestamp,
    ) -> (r: Result<UserSession, AppError>)
        ensures
            final(self).same_but_sessions(old(self)),
            old(self).session_repo.reliable() ==> r is Ok,
            match r {
                Ok(session) => {
                    &&& !old(self).session_repo.sessions().contains_key(session.id.value)
                    &&& session@ == new_session_row(
                        session.id.value,
                        login_session(
                            user_id.value,
                            refresh_hash@,
                            opt_text(user_agent),
                            opt_text(ip_address),
                            now,
                            old(self).config.jwt_refresh_expiration_days,
                        ),
                        now,
                    )
                    &&& final(self).session_repo.sessions() == old(
                        self,
                    ).session_repo.sessions().insert(session.id.value, session@)
                },
                Err(e) => e@.is_fault() && final(self).session_repo.sessions() == old(
                    self,
                ).session_repo.sessions(),
            },
    {
        let expires_at = now.plus_days(self.config.jwt_refresh_expiration_days);
        let device_name = match &user_agent {
            Some(ua) => Some(parse_device_name(ua.as_str())),
            None => None,
        };
        let new_session = NewUserSession {
            user_id,
            refresh_token_hash: refresh_hash,
            user_agent,
            ip_address,
            device_name,
            expires_at,
        };
        self.session_repo.create(new_session, now)
    }

    /// What a login that succeeded has done, for the time, the secret and
    /// the session identifier that it drew.
    pub open spec fn login_granted(
        &self,
        email: Seq<char>,
        password: Seq<char>,
        user_agent: Option<Seq<char>>,
        ip_address: Option<Seq<char>>,
        now: Timestamp,
        secret: Seq<char>,
        digest: Seq<char>,
        user: UserView,
        session_id: u128,
        after: &Self,
        access: Seq<char>,
        combined: Seq<char>,
    ) -> bool {
        &&& found_by_email(self.user_repo.users(), email, Some(user))
        &&& credential_verdict(Some(user), password) == Ok::<UserView, AppErrorView>(user)
        &&& colon_free(secret)
        &&& secret_matches(secret, digest)
        &&& after.user_repo.users() == with_last_login(self.user_repo.users(), user.id, now)
        &&& !self.session_repo.sessions().contains_key(session_id)
        &&& after.session_repo.sessions() == self.session_repo.sessions().insert(
            session_id,
            new_session_row(
                session_id,
                login_session(
                    user.id,
                    digest,
                    user_agent,
                    ip_address,
                    now,
                    self.config.jwt_refresh_expiration_days,
                ),
                now,
            ),
        )
        &&& combined == combined_text(session_id, secret)
        &&& parse_combined(combined) == Some((session_id, secret))
        &&& self.access_token_at(user.id, session_id, now) == Ok::<Seq<char>, AppErrorView>(access)
        &&& access_claims(access, self.token_service.secret()) == Some(
            issued_claims(
                user.id,
                session_id,
                self.user_repo.roles_of(user.id),
                now,
                self.token_service.access_minutes(),
            ),
        )
    }

    /// What a login that succeeded has done, whatever it drew.
    pub open spec fn login_succeeded(
        &self,
        email: Seq<char>,
        password: Seq<char>,
        user_agent: Option<Seq<char>>,
        ip_address: Option<Seq<char>>,
        after: &Self,
        access: Seq<char>,
        combined: Seq<char>,
    ) -> bool {
        exists|
            now: Timestamp,
            secret: Seq<char>,
            digest: Seq<char>,
            user: UserView,
            session_id: u128,
        |
            self.login_granted(
                email,
                password,
                user_agent,
                ip_address,
                now,
                secret,
                digest,
                user,
                session_id,
                after,
                access,
                combined,
            )
    }

    /// The credentials are refused with `e`.
    pub open spec fn login_refused(&self, email: Seq<char>, password: Seq<char>, e: AppErrorView)
        -> bool {
        exists|found: Option<UserView>|
            {
                &&& found_by_email(self.user_repo.users(), email, found)
                &&& #[trigger] credential_verdict(found, password) == Err::<UserView, AppErrorView>(
                    e,
                )
            }
    }

    /// Some user that a lookup by `email` may find is let in with
    /// `password`.
    pub open spec fn login_accepted(&self, email: Seq<char>, password: Seq<char>) -> bool {
        exists|user: UserView|
            {
                &&& found_by_email(self.user_repo.users(), email, Some(user))
                &&& #[trigger] credential_verdict(Some(user), password) is Ok
            }
    }

    /// What a login that failed with `e` has done. Either the credentials
    /// were refused, and nothing changed. Or a fault struck, and at most the
    /// login was recorded and at most one session was opened; with stores
    /// that answer, that fault is the hasher's or the signer's on
    /// credentials that were accepted.
    pub open spec fn login_failed(
        &self,
        email: Seq<char>,
        password: Seq<char>,
        after: &Self,
        e: AppErrorView,
    ) -> bool {
        ||| {
            &&& self.login_refused(email, password, e)
            &&& after.user_repo.users() == self.user_repo.users()
            &&& after.session_repo.sessions() == self.session_repo.sessions()
        }
        ||| {
            &&& e.is_fault()
            &&& at_most_one_login(self.user_repo.users(), after.user_repo.users())
            &&& at_most_one_added(self.session_repo.sessions(), after.session_repo.sessions())
            &&& self.user_repo.reliable() ==> self.login_accepted(email, password)
            &&& self.user_repo.reliable() && self.session_repo.reliable() ==> e
                == AppErrorView::InternalError
        }
    }

    /// Logs a user in: checks the credentials, records the login, opens a
    /// session around a fresh random refresh secret, and issues an access
    /// token with the roles as they are now. Returns the access token and
    /// the combined refresh token. Credentials that are refused whichever
    /// user is found are refused with that error by a store that answers,
    /// and nothing changes: an unknown address and a wrong password give
    /// the same error, a deactivated account with the right password its
    /// own.
    pub fn login(
        &mut self,
        email: String,
        password: String,
        user_agent: Option<String>,
        ip_address: Option<String>,
    ) -> (r: Result<(String, String), AppError>)
        ensures
            final(self).same_but_users_and_sessions(old(self)),
            forall|refusal: AppErrorView|
                old(self).user_repo.reliable() && #[trigger] always_refused(
                    old(self).user_repo.users(),
                    email@,
                    password@,
                    refusal,
                ) ==> {
                    &&& r matches Err(e) && e@ == refusal
                    &&& final(self).user_repo.users() == old(self).user_repo.users()
                    &&& final(self).session_repo.sessions() == old(self).session_repo.sessions()
                },
            match r {
                Ok((access, combined)) => old(self).login_succeeded(
                    email@,
                    password@,
                    opt_text(user_agent),
                    opt_text(ip_address),
                    final(self),
                    access@,
                    combined@,
                ),
                Err(e) => old(self).login_failed(email@, password@, final(self), e@),
            },
    {
        let ghost ua = opt_text(user_agent);
        let ghost ip = opt_text(ip_address);
        let user = self.check_credentials(email.as_str(), password.as_str())?;
        assert(old(self).login_accepted(email@, password@));
        let now = Timestamp::now();
        self.user_repo.update_last_login(user.id, now)?;
        assert(at_most_one_login(old(self).user_repo.users(), self.user_repo.users()));
        let refresh_token = self.token_service.generate_refresh_token();
        let refresh_hash = PasswordService::hash_password(refresh_token.as_str())?;
        let ghost digest = refresh_hash@;
        let session = self.create_session_at(user.id, user_agent, ip_address, refresh_hash, now)?;
        assert(at_most_one_added(
            old(self).session_repo.sessions(),
            self.session_repo.sessions(),
        ));
        let roles = self.user_repo.get_roles(user.id)?;
        let access_token = self.token_service.generate_access_token_at(
            user.id,
            session.id,
            roles,
            now,
        )?;
        let combined = format_combined_token(session.id, refresh_token.as_str());
        assert(old(self).login_granted(
            email@,
            password@,
            ua,
            ip,
            now,
            refresh_token@,
            digest,
            user@,
            session.id.value,
            self,
            access_token@,
            combined@,
        ));
        Ok((access_token, combined))
    }
}

} // verus!
