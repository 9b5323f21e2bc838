//! The stores that the flows depend on, as contracts over maps of rows.
//!
//! Each store is modelled by the rows it holds, keyed by identifier. A call
//! either takes effect as stated or fails with a fault and changes nothing.
//! A store that is `reliable` fails no call that its rows admit: it has no
//! faults of its own, and refuses only what its rules forbid, such as a
//! second user under one address.

use vstd::prelude::*;
use crate::clock::Timestamp;
use crate::entity::{
    EmailVerificationToken, NewEmailVerificationToken, NewPasswordResetToken, NewSessionView,
    NewTokenView, NewUser, NewUserSession, NewUserView, PasswordResetToken, SessionView,
    TokenView, User, UserSession, UserView,
};
use crate::errors::{AppError, AppErrorView};
use crate::ids::Uuid;

verus! {

/// What a store holds where it does not say: the value at `key` of some
/// function of the store of which nothing is known. A store that is
/// implemented outside the verifier has this model, and nothing is proved
/// of it.
pub open spec fn unspecified<S: ?Sized, K, R>(store: &S, key: K) -> R {
    (arbitrary::<spec_fn(&S, K) -> R>())(store, key)
}

// ---------------------------------------------------------------- users

/// The row of a user as the store creates it at `now`: active, unverified,
/// never logged in.
pub open spec fn new_user_row(id: u128, new: NewUserView, now: Timestamp) -> UserView {
    UserView {
        id,
        email: new.email,
        password_hash: new.password_hash,
        is_active: true,
        is_verified: false,
        created_at: now,
        updated_at: now,
        last_login_at: None,
    }
}

/// Some user has the address `email`.
pub open spec fn email_taken(users: Map<u128, UserView>, email: Seq<char>) -> bool {
    exists|id: u128| #[trigger] users.contains_key(id) && users[id].email == email
}

/// `found` answers a lookup by `email`: a row of the store with that
/// address, or nothing where no row has it.
pub open spec fn found_by_email(
    users: Map<u128, UserView>,
    email: Seq<char>,
    found: Option<UserView>,
) -> bool {
    match found {
        Some(u) => users.contains_key(u.id) && users[u.id] == u && u.email == email,
        None => !email_taken(users, email),
    }
}

/// `found` answers a lookup by identifier.
pub open spec fn found_by_id<R>(rows: Map<u128, R>, id: u128, found: Option<R>) -> bool {
    match found {
        Some(row) => rows.contains_key(id) && rows[id] == row,
        None => !rows.contains_key(id),
    }
}

/// The users after `id` has been marked verified.
pub open spec fn with_verified(users: Map<u128, UserView>, id: u128) -> Map<u128, UserView> {
    if users.contains_key(id) {
        users.insert(id, UserView { is_verified: true, ..users[id] })
    } else {
        users
    }
}

/// The users after the password digest of `id` has been replaced.
pub open spec fn with_password(users: Map<u128, UserView>, id: u128, digest: Seq<char>) -> Map<
    u128,
    UserView,
> {
    if users.contains_key(id) {
        users.insert(id, UserView { password_hash: digest, ..users[id] })
    } else {
        users
    }
}

/// The users after `id` has logged in at `now`.
pub open spec fn with_last_login(users: Map<u128, UserView>, id: u128, now: Timestamp) -> Map<
    u128,
    UserView,
> {
    if users.contains_key(id) {
        users.insert(id, UserView { last_login_at: Some(now), ..users[id] })
    } else {
        users
    }
}

/// The message that reports an unknown role.
pub open spec fn role_not_found(name: Seq<char>) -> Seq<char> {
    "Role "@ + name + " not found"@
}

/// The store of users and of the roles assigned to them.
pub trait UserRepository {
    /// The users, by identifier. A store that does not say what it holds
    /// stands for some map of which nothing is known.
    open spec fn users(&self) -> Map<u128, UserView> {
        unspecified(self, ())
    }

    /// The names of the roles assigned to a user, in the order of assignment.
    open spec fn roles_of(&self, user_id: u128) -> Seq<Seq<char>> {
        unspecified(self, user_id)
    }

    /// Whether a role of this name exists.
    open spec fn known_role(&self, name: Seq<char>) -> bool {
        unspecified(self, name)
    }

    /// Whether this store answers every call that its rows admit. A store
    /// that does not say so is not reliable.
    open spec fn reliable(&self) -> bool {
        false
    }

    /// Adds a user. The store picks a fresh identifier and refuses an
    /// address that is taken.
    fn create(&mut self, new_user: NewUser, now: Timestamp) -> (r: Result<User, AppError>)
        ensures
            final(self).reliable() == old(self).reliable(),
            forall|u: u128| final(self).roles_of(u) == old(self).roles_of(u),
            forall|n: Seq<char>| final(self).known_role(n) == old(self).known_role(n),
            old(self).reliable() && !email_taken(old(self).users(), new_user@.email) ==> r is Ok,
            match r {
                Ok(user) => {
                    &&& !old(self).users().contains_key(user.id.value)
                    &&& !email_taken(old(self).users(), new_user@.email)
                    &&& user@ == new_user_row(user.id.value, new_user@, now)
                    &&& final(self).users() == old(self).users().insert(user.id.value, user@)
                },
                Err(e) => e@.is_fault() && final(self).users() == old(self).users(),
            },
    ;

    fn find_by_email(&self, email: &str) -> (r: Result<Option<User>, AppError>)
        ensures
            self.reliable() ==> r is Ok,
            match r {
                Ok(Some(user)) => found_by_email(self.users(), email@, Some(user@)),
                Ok(None) => found_by_email(self.users(), email@, None),
                Err(e) => e@.is_fault(),
            },
    ;

    fn find_by_id(&self, id: Uuid) -> (r: Result<Option<User>, AppError>)
        ensures
            self.reliable() ==> r is Ok,
            match r {
                Ok(Some(user)) => found_by_id(self.users(), id.value, Some(user@)) && user.id == id,
                Ok(None) => found_by_id(self.users(), id.value, None::<UserView>),
                Err(e) => e@.is_fault(),
            },
    ;

    /// Marks the user verified. An unknown identifier changes nothing.
    fn verify_user(&mut self, id: Uuid) -> (r: Result<(), AppError>)
        ensures
            final(self).reliable() == old(self).reliable(),
            forall|u: u128| final(self).roles_of(u) == old(self).roles_of(u),
            forall|n: Seq<char>| final(self).known_role(n) == old(self).known_role(n),
            old(self).reliable() ==> r is Ok,
            match r {
                Ok(()) => final(self).users() == with_verified(old(self).users(), id.value),
                Err(e) => e@.is_fault() && final(self).users() == old(self).users(),
            },
    ;

    fn get_roles(&self, user_id: Uuid) -> (r: Result<Vec<String>, AppError>)
        ensures
            self.reliable() ==> r is Ok,
            match r {
                Ok(names) => names.deep_view() == self.roles_of(user_id.value),
                Err(e) => e@.is_fault(),
            },
    ;

    /// Assigns the role `role_name` to the user. An unknown role is reported
    /// as not found; a pair that the store cannot take is a fault.
    fn add_role(&mut self, user_id: Uuid, role_name: &str) -> (r: Result<(), AppError>)
        ensures
            final(self).reliable() == old(self).reliable(),
            final(self).users() == old(self).users(),
            forall|n: Seq<char>| final(self).known_role(n) == old(self).known_role(n),
            forall|u: u128| u != user_id.value ==> final(self).roles_of(u) == old(self).roles_of(u),
            old(self).reliable() && old(self).known_role(role_name@) && old(
                self,
            ).users().contains_key(user_id.value) && !old(self).roles_of(user_id.value).contains(
                role_name@,
            ) ==> r is Ok,
            match r {
                Ok(()) => {
                    &&& old(self).known_role(role_name@)
                    &&& final(self).roles_of(user_id.value) == old(self).roles_of(
                        user_id.value,
                    ).push(role_name@)
                },
                Err(e) => {
                    &&& final(self).roles_of(user_id.value) == old(self).roles_of(user_id.value)
                    &&& if old(self).known_role(role_name@) {
                        e@.is_fault()
                    } else {
                        e@ == AppErrorView::NotFound(role_not_found(role_name@)) || (e@.is_fault()
                            && !old(self).reliable())
                    }
                },
            },
    ;

    /// Takes the role `role_name` from the user.
    fn remove_role(&mut self, user_id: Uuid, role_name: &str) -> (r: Result<(), AppError>)
        ensures
            final(self).reliable() == old(self).reliable(),
            final(self).users() == old(self).users(),
            forall|n: Seq<char>| final(self).known_role(n) == old(self).known_role(n),
            forall|u: u128| u != user_id.value ==> final(self).roles_of(u) == old(self).roles_of(u),
            old(self).reliable() && old(self).known_role(role_name@) ==> r is Ok,
            match r {
                Ok(()) => {
                    &&& old(self).known_role(role_name@)
                    &&& final(self).roles_of(user_id.value) == old(self).roles_of(
                        user_id.value,
                    ).filter(|n: Seq<char>| n != role_name@)
                },
                Err(e) => {
                    &&& final(self).roles_of(user_id.value) == old(self).roles_of(user_id.value)
                    &&& if old(self).known_role(role_name@) {
                        e@.is_fault()
                    } else {
                        e@ == AppErrorView::NotFound(role_not_found(role_name@)) || (e@.is_fault()
                            && !old(self).reliable())
                    }
                },
            },
    ;

    /// Replaces the password digest of the user. An unknown identifier
    /// changes nothing.
    fn update_password(&mut self, user_id: Uuid, new_password_hash: &str) -> (r: Result<
        (),
        AppError,
    >)
        ensures
            final(self).reliable() == old(self).reliable(),
            forall|u: u128| final(self).roles_of(u) == old(self).roles_of(u),
            forall|n: Seq<char>| final(self).known_role(n) == old(self).known_role(n),
            old(self).reliable() ==> r is Ok,
            match r {
                Ok(()) => final(self).users() == with_password(
                    old(self).users(),
                    user_id.value,
                    new_password_hash@,
                ),
                Err(e) => e@.is_fault() && final(self).users() == old(self).users(),
            },
    ;

    /// Records a login at `now`. An unknown identifier changes nothing.
    fn update_last_login(&mut self, user_id: Uuid, now: Timestamp) -> (r: Result<(), AppError>)
        ensures
            final(self).reliable() == old(self).reliable(),
            forall|u: u128| final(self).roles_of(u) == old(self).roles_of(u),
            forall|n: Seq<char>| final(self).known_role(n) == old(self).known_role(n),
            old(self).reliable() ==> r is Ok,
            match r {
                Ok(()) => final(self).users() == with_last_login(
                    old(self).users(),
                    user_id.value,
                    now,
                ),
                Err(e) => e@.is_fault() && final(self).users() == old(self).users(),
            },
    ;
}

// ------------------------------------------------------------- sessions

/// The row of a session as the store creates it at `now`.
pub open spec fn new_session_row(id: u128, new: NewSessionView, now: Timestamp) -> SessionView {
    SessionView {
        id,
        user_id: new.user_id,
        refresh_token_hash: new.refresh_token_hash,
        user_agent: new.user_agent,
        ip_address: new.ip_address,
        device_name: new.device_name,
        is_revoked: false,
        expires_at: new.expires_at,
        created_at: now,
        last_used_at: now,
    }
}

/// The sessions after `id` has been revoked.
pub open spec fn with_revoked(sessions: Map<u128, SessionView>, id: u128) -> Map<
    u128,
    SessionView,
> {
    if sessions.contains_key(id) {
        sessions.insert(id, SessionView { is_revoked: true, ..sessions[id] })
    } else {
        sessions
    }
}

/// The sessions after every session of `user_id` has been revoked.
pub open spec fn with_all_revoked(sessions: Map<u128, SessionView>, user_id: u128) -> Map<
    u128,
    SessionView,
> {
    Map::new(
        |id: u128| sessions.contains_key(id),
        |id: u128|
            if sessions[id].user_id == user_id {
                SessionView { is_revoked: true, ..sessions[id] }
            } else {
                sessions[id]
            },
    )
}

/// The sessions after `id` has been given a new digest and a new expiry at
/// `now`.
pub open spec fn with_rotated(
    sessions: Map<u128, SessionView>,
    id: u128,
    digest: Seq<char>,
    expires_at: Timestamp,
    now: Timestamp,
) -> Map<u128, SessionView> {
    if sessions.contains_key(id) {
        sessions.insert(
            id,
            SessionView {
                refresh_token_hash: digest,
                expires_at,
                last_used_at: now,
                ..sessions[id]
            },
        )
    } else {
        sessions
    }
}

/// The sessions after `id` has been used at `now`.
pub open spec fn with_touched(sessions: Map<u128, SessionView>, id: u128, now: Timestamp) -> Map<
    u128,
    SessionView,
> {
    if sessions.contains_key(id) {
        sessions.insert(id, SessionView { last_used_at: now, ..sessions[id] })
    } else {
        sessions
    }
}

/// `rows` lists the sessions of `user_id` that are active at `now`: each
/// once, none other, the newest first.
pub open spec fn lists_active(
    sessions: Map<u128, SessionView>,
    user_id: u128,
    now: Timestamp,
    rows: Seq<SessionView>,
) -> bool {
    &&& forall|i: int|
        0 <= i < rows.len() ==> {
            &&& sessions.contains_key(#[trigger] rows[i].id)
            &&& sessions[rows[i].id] == rows[i]
            &&& rows[i].user_id == user_id
            &&& rows[i].is_active(now)
        }
    &&& forall|i: int, j: int|
        0 <= i < j < rows.len() ==> {
            &&& #[trigger] rows[i].id != #[trigger] rows[j].id
            &&& rows[i].created_at.micros >= rows[j].created_at.micros
        }
    &&& forall|id: u128|
        #[trigger] sessions.contains_key(id) && sessions[id].user_id == user_id
            && sessions[id].is_active(now) ==> exists|i: int|
            0 <= i < rows.len() && #[trigger] rows[i].id == id
}

/// The views of a list of sessions.
pub open spec fn session_views(rows: Seq<UserSession>) -> Seq<SessionView> {
    rows.map_values(|s: UserSession| s@)
}

/// The store of sessions: one row for each login.
pub trait SessionRepository {
    /// The sessions, by identifier. A store that does not say what it
    /// holds stands for some map of which nothing is known.
    open spec fn sessions(&self) -> Map<u128, SessionView> {
        unspecified(self, ())
    }

    /// Whether this store answers every call that its rows admit. A store
    /// that does not say so is not reliable.
    open spec fn reliable(&self) -> bool {
        false
    }

    /// Adds a session under a fresh identifier.
    fn create(&mut self, session: NewUserSession, now: Timestamp) -> (r: Result<
        UserSession,
        AppError,
    >)
        ensures
            final(self).reliable() == old(self).reliable(),
            old(self).reliable() ==> r is Ok,
            match r {
                Ok(row) => {
                    &&& !old(self).sessions().contains_key(row.id.value)
                    &&& row@ == new_session_row(row.id.value, session@, now)
                    &&& final(self).sessions() == old(self).sessions().insert(row.id.value, row@)
                },
                Err(e) => e@.is_fault() && final(self).sessions() == old(self).sessions(),
            },
    ;

    fn find_by_id(&self, id: Uuid) -> (r: Result<Option<UserSession>, AppError>)
        ensures
            self.reliable() ==> r is Ok,
            match r {
                Ok(Some(row)) => found_by_id(self.sessions(), id.value, Some(row@)) && row.id == id,
                Ok(None) => found_by_id(self.sessions(), id.value, None::<SessionView>),
                Err(e) => e@.is_fault(),
            },
    ;

    /// Records that the session was used at `now`.
    fn update_last_used(&mut self, id: Uuid, now: Timestamp) -> (r: Result<(), AppError>)
        ensures
            final(self).reliable() == old(self).reliable(),
            old(self).reliable() ==> r is Ok,
            match r {
                Ok(()) => final(self).sessions() == with_touched(
                    old(self).sessions(),
                    id.value,
                    now,
                ),
                Err(e) => e@.is_fault() && final(self).sessions() == old(self).sessions(),
            },
    ;

    /// Replaces the digest of the current refresh secret and the expiry.
    fn update_refresh_token(
        &mut self,
        id: Uuid,
        new_hash: String,
        new_expires_at: Timestamp,
        now: Timestamp,
    ) -> (r: Result<(), AppError>)
        ensures
            final(self).reliable() == old(self).reliable(),
            old(self).reliable() ==> r is Ok,
            match r {
                Ok(()) => final(self).sessions() == with_rotated(
                    old(self).sessions(),
                    id.value,
                    new_hash@,
                    new_expires_at,
                    now,
                ),
                Err(e) => e@.is_fault() && final(self).sessions() == old(self).sessions(),
            },
    ;

    /// Revokes the session. An unknown identifier changes nothing.
    fn revoke(&mut self, id: Uuid) -> (r: Result<(), AppError>)
        ensures
            final(self).reliable() == old(self).reliable(),
            old(self).reliable() ==> r is Ok,
            match r {
                Ok(()) => final(self).sessions() == with_revoked(old(self).sessions(), id.value),
                Err(e) => e@.is_fault() && final(self).sessions() == old(self).sessions(),
            },
    ;

    /// Revokes every session of the user.
    fn revoke_all_for_user(&mut self, user_id: Uuid) -> (r: Result<(), AppError>)
        ensures
            final(self).reliable() == old(self).reliable(),
            old(self).reliable() ==> r is Ok,
            match r {
                Ok(()) => final(self).sessions() == with_all_revoked(
                    old(self).sessions(),
                    user_id.value,
                ),
                Err(e) => e@.is_fault() && final(self).sessions() == old(self).sessions(),
            },
    ;

    /// The sessions of the user that are active at `now`, newest first.
    fn find_active_by_user(&self, user_id: Uuid, now: Timestamp) -> (r: Result<
        Vec<UserSession>,
        AppError,
    >)
        ensures
            self.reliable() ==> r is Ok,
            match r {
                Ok(rows) => lists_active(
                    self.sessions(),
                    user_id.value,
                    now,
                    session_views(rows@),
                ),
                Err(e) => e@.is_fault(),
            },
    ;
}

// ----------------------------------------------------- single-use tokens

/// The row of a single-use token as the store creates it at `now`.
pub open spec fn new_token_row(id: u128, new: NewTokenView, now: Timestamp) -> TokenView {
    TokenView {
        id,
        user_id: new.user_id,
        token_hash: new.token_hash,
        expires_at: new.expires_at,
        used: false,
        created_at: now,
    }
}

/// `found` answers a lookup of the most recent unused token of `user_id`:
/// an unused row of that user than which none is newer, or nothing where
/// the user has no unused row.
pub open spec fn is_latest_unused(
    tokens: Map<u128, TokenView>,
    user_id: u128,
    found: Option<TokenView>,
) -> bool {
    match found {
        Some(t) => {
            &&& tokens.contains_key(t.id)
            &&& tokens[t.id] == t
            &&& t.user_id == user_id
            &&& !t.used
            &&& forall|id: u128|
                #[trigger] tokens.contains_key(id) && tokens[id].user_id == user_id
                    && !tokens[id].used ==> tokens[id].created_at.micros <= t.created_at.micros
        },
        None => forall|id: u128|
            #[trigger] tokens.contains_key(id) ==> tokens[id].user_id != user_id
                || tokens[id].used,
    }
}

/// The tokens after `id` has been marked used.
pub open spec fn with_used(tokens: Map<u128, TokenView>, id: u128) -> Map<u128, TokenView> {
    if tokens.contains_key(id) {
        tokens.insert(id, TokenView { used: true, ..tokens[id] })
    } else {
        tokens
    }
}

/// The store of single-use tokens, of both kinds.
pub trait VerificationTokenRepository {
    /// The email-verification tokens, by identifier. A store that does not
    /// say what it holds stands for some map of which nothing is known.
    open spec fn email_tokens(&self) -> Map<u128, TokenView> {
        unspecified(self, false)
    }

    /// The password-reset tokens, by identifier.
    open spec fn reset_tokens(&self) -> Map<u128, TokenView> {
        unspecified(self, true)
    }

    /// Whether this store answers every call that its rows admit. A store
    /// that does not say so is not reliable.
    open spec fn reliable(&self) -> bool {
        false
    }

    fn create_email_verification(&mut self, token: NewEmailVerificationToken, now: Timestamp) -> (r:
        Result<EmailVerificationToken, AppError>)
        ensures
            final(self).reliable() == old(self).reliable(),
            final(self).reset_tokens() == old(self).reset_tokens(),
            old(self).reliable() ==> r is Ok,
            match r {
                Ok(row) => {
                    &&& !old(self).email_tokens().contains_key(row.id.value)
                    &&& row@ == new_token_row(row.id.value, token@, now)
                    &&& final(self).email_tokens() == old(self).email_tokens().insert(
                        row.id.value,
                        row@,
                    )
                },
                Err(e) => e@.is_fault() && final(self).email_tokens() == old(self).email_tokens(),
            },
    ;

    /// The most recent unused email-verification token of the user.
    fn find_email_verification_by_user(&self, user_id: Uuid) -> (r: Result<
        Option<EmailVerificationToken>,
        AppError,
    >)
        ensures
            self.reliable() ==> r is Ok,
            match r {
                Ok(Some(row)) => is_latest_unused(self.email_tokens(), user_id.value, Some(row@)),
                Ok(None) => is_latest_unused(self.email_tokens(), user_id.value, None),
                Err(e) => e@.is_fault(),
            },
    ;

    fn create_password_reset(&mut self, token: NewPasswordResetToken, now: Timestamp) -> (r:
        Result<PasswordResetToken, AppError>)
        ensures
            final(self).reliable() == old(self).reliable(),
            final(self).email_tokens() == old(self).email_tokens(),
            old(self).reliable() ==> r is Ok,
            match r {
                Ok(row) => {
                    &&& !old(self).reset_tokens().contains_key(row.id.value)
                    &&& row@ == new_token_row(row.id.value, token@, now)
                    &&& final(self).reset_tokens() == old(self).reset_tokens().insert(
                        row.id.value,
                        row@,
                    )
                },
                Err(e) => e@.is_fault() && final(self).reset_tokens() == old(self).reset_tokens(),
            },
    ;

    /// The most recent unused password-reset token of the user.
    fn find_password_reset_by_user(&self, user_id: Uuid) -> (r: Result<
        Option<PasswordResetToken>,
        AppError,
    >)
        ensures
            self.reliable() ==> r is Ok,
            match r {
                Ok(Some(row)) => is_latest_unused(self.reset_tokens(), user_id.value, Some(row@)),
                Ok(None) => is_latest_unused(self.reset_tokens(), user_id.value, None),
                Err(e) => e@.is_fault(),
            },
    ;

    /// Marks the email-verification token used. An unknown identifier
    /// changes nothing.
    fn mark_email_verification_as_used(&mut self, token_id: Uuid) -> (r: Result<(), AppError>)
        ensures
            final(self).reliable() == old(self).reliable(),
            final(self).reset_tokens() == old(self).reset_tokens(),
            old(self).reliable() ==> r is Ok,
            match r {
                Ok(()) => final(self).email_tokens() == with_used(
                    old(self).email_tokens(),
                    token_id.value,
                ),
                Err(e) => e@.is_fault() && final(self).email_tokens() == old(self).email_tokens(),
            },
    ;

    /// Marks the password-reset token used. An unknown identifier changes
    /// nothing.
    fn mark_password_reset_as_used(&mut self, token_id: Uuid) -> (r: Result<(), AppError>)
        ensures
            final(self).reliable() == old(self).reliable(),
            final(self).email_tokens() == old(self).email_tokens(),
            old(self).reliable() ==> r is Ok,
            match r {
                Ok(()) => final(self).reset_tokens() == with_used(
                    old(self).reset_tokens(),
                    token_id.value,
                ),
                Err(e) => e@.is_fault() && final(self).reset_tokens() == old(self).reset_tokens(),
            },
    ;
}

} // verus!
